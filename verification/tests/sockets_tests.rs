use mcp_manager::sockets::{parse_listen_row, parse_socket_link};

const LISTEN_ROW: &str = "   0: 0100007F:1F90 00000000:0000 0A 00000000:00000000 00:00000000 00000000  1000        0 54321 1 0000000000000000 100 0 0 10 0";
const ESTABLISHED_ROW: &str = "   1: 0100007F:1F90 0100007F:C350 01 00000000:00000000 00:00000000 00000000  1000        0 54322 1 0000000000000000 100 0 0 10 0";

#[test]
fn listening_row_yields_port_and_inode() {
    // 0x1F90 is 8080
    assert_eq!(parse_listen_row(LISTEN_ROW), Some((8080, 54321)));
}

#[test]
fn non_listening_row_is_ignored() {
    assert_eq!(parse_listen_row(ESTABLISHED_ROW), None);
}

#[test]
fn header_row_is_ignored() {
    let header = "  sl  local_address rem_address   st tx_queue rx_queue tr tm->when retrnsmt   uid  timeout inode";
    assert_eq!(parse_listen_row(header), None);
}

#[test]
fn wildcard_listen_row() {
    let row = "   4: 00000000:0050 00000000:0000 0A 00000000:00000000 00:00000000 00000000     0        0 99 1 0000000000000000 100 0 0 10 0";
    assert_eq!(parse_listen_row(row), Some((80, 99)));
}

#[test]
fn malformed_rows_yield_nothing() {
    assert_eq!(parse_listen_row(""), None);
    assert_eq!(parse_listen_row("garbage"), None);
    // listening state but an unreadable local address
    assert_eq!(parse_listen_row("   0: nonsense 00000000:0000 0A x y z w u 777"), None);
    // listening state but a non-numeric inode field
    assert_eq!(
        parse_listen_row("   0: 0100007F:0050 00000000:0000 0A a b c d e inode"),
        None
    );
}

#[test]
fn socket_links_name_their_inode() {
    assert_eq!(parse_socket_link("socket:[54321]"), Some(54321));
    assert_eq!(parse_socket_link("socket:[0]"), Some(0));
    assert_eq!(parse_socket_link("pipe:[44]"), None);
    assert_eq!(parse_socket_link("/dev/null"), None);
    assert_eq!(parse_socket_link("socket:[]"), None);
    assert_eq!(parse_socket_link("socket:[12x]"), None);
}
