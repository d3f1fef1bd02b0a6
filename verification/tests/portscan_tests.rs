use mcp_manager::portscan::port_of_line;

#[test]
fn detects_listening_on_with_host_and_port() {
    assert_eq!(port_of_line("listening on 0.0.0.0:4821"), Some(4821));
}

#[test]
fn detection_is_case_folded() {
    assert_eq!(port_of_line("LISTENING ON 127.0.0.1:8080"), Some(8080));
    assert_eq!(port_of_line("Server Running At http://localhost:3000"), Some(3000));
}

#[test]
fn colon_without_digit_is_skipped() {
    // the colon of "http://" is followed by a slash; the port colon is used
    assert_eq!(port_of_line("running at http://127.0.0.1:9000/path"), Some(9000));
}

#[test]
fn all_patterns_are_recognized() {
    assert_eq!(port_of_line("listening at :1"), Some(1));
    assert_eq!(port_of_line("running on host:2"), Some(2));
    assert_eq!(port_of_line("started on 10.0.0.1:3"), Some(3));
    assert_eq!(port_of_line("started at [::]:4"), Some(4));
    assert_eq!(port_of_line("serving on 0.0.0.0:5"), Some(5));
    assert_eq!(port_of_line("serving at localhost:6"), Some(6));
    assert_eq!(port_of_line("bound to 0.0.0.0:443"), Some(443));
    assert_eq!(port_of_line("available on node:8000"), Some(8000));
    assert_eq!(port_of_line("available at web:8443"), Some(8443));
}

#[test]
fn lines_without_patterns_yield_nothing() {
    assert_eq!(port_of_line("hello world"), None);
    assert_eq!(port_of_line("port 8080 without any phrase"), None);
    assert_eq!(port_of_line(""), None);
}

#[test]
fn pattern_without_usable_port_yields_nothing() {
    assert_eq!(port_of_line("listening on the socket"), None);
    assert_eq!(port_of_line("listening on host:"), None);
    assert_eq!(port_of_line("listening on x:99999"), None);
}

#[test]
fn largest_port_is_accepted() {
    assert_eq!(port_of_line("listening on 0.0.0.0:65535"), Some(65535));
    assert_eq!(port_of_line("listening on 0.0.0.0:65536"), None);
}

#[test]
fn leading_zeros_are_read_as_decimal() {
    assert_eq!(port_of_line("listening on 0.0.0.0:0080"), Some(80));
}
