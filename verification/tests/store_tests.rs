use mcp_manager::config::{Config, MCPServerConfig};
use mcp_manager::numfmt::{code_to_string, i32_to_string, u32_to_string};
use mcp_manager::supervisor::compose_command_line;
use mcp_manager::table::Table;

#[test]
fn table_insert_get_and_replace() {
    let mut t: Table<u32> = Table::new();
    assert!(!t.contains(&"a".to_string()));
    t.insert("a".to_string(), 1);
    t.insert("b".to_string(), 2);
    assert_eq!(t.get(&"a".to_string()), Some(&1));
    assert_eq!(t.get(&"b".to_string()), Some(&2));
    t.insert("a".to_string(), 10);
    assert_eq!(t.get(&"a".to_string()), Some(&10));
    assert_eq!(t.entries().len(), 2);
}

#[test]
fn table_remove() {
    let mut t: Table<u32> = Table::new();
    t.insert("a".to_string(), 1);
    assert!(t.remove(&"a".to_string()));
    assert!(!t.remove(&"a".to_string()));
    assert_eq!(t.get(&"a".to_string()), None);
}

#[test]
fn config_add_lookup_remove() {
    let mut config = Config::default();
    assert!(config.get_server(&"s".to_string()).is_none());
    let cfg = MCPServerConfig::new("node".to_string(), vec!["server.js".to_string()], Some(3000));
    config.add_server("s".to_string(), cfg);
    let found = config.get_server(&"s".to_string()).unwrap();
    assert_eq!(found.command, "node");
    assert_eq!(found.args, vec!["server.js".to_string()]);
    assert_eq!(found.port, Some(3000));
    assert!(config.remove_server(&"s".to_string()));
    assert!(!config.remove_server(&"s".to_string()));
    assert!(config.get_server(&"s".to_string()).is_none());
}

#[test]
fn environment_keys_are_unique_and_last_write_wins() {
    let mut cfg = MCPServerConfig::new("node".to_string(), vec![], None);
    cfg.env.insert("PORT".to_string(), "3000".to_string());
    cfg.env.insert("HOME".to_string(), "/tmp".to_string());
    cfg.env.insert("PORT".to_string(), "4000".to_string());
    assert_eq!(cfg.env.get(&"PORT".to_string()), Some(&"4000".to_string()));
    assert_eq!(cfg.env.get(&"HOME".to_string()), Some(&"/tmp".to_string()));
    assert_eq!(cfg.env.entries().len(), 2);
}

#[test]
fn command_line_composition() {
    assert_eq!(
        compose_command_line(&"sh".to_string(), &vec!["-c".to_string(), "echo hi".to_string()]),
        "sh -c echo hi"
    );
    // with no arguments the joined tail is empty, leaving a trailing space
    assert_eq!(compose_command_line(&"uptime".to_string(), &vec![]), "uptime ");
}

#[test]
fn decimal_rendering() {
    assert_eq!(u32_to_string(0), "0");
    assert_eq!(u32_to_string(7), "7");
    assert_eq!(u32_to_string(65535), "65535");
    assert_eq!(u32_to_string(4000000000), "4000000000");
    assert_eq!(i32_to_string(0), "0");
    assert_eq!(i32_to_string(-1), "-1");
    assert_eq!(i32_to_string(-2147483648), "-2147483648");
    assert_eq!(i32_to_string(2147483647), "2147483647");
    assert_eq!(code_to_string(&Some(0)), "Some(0)");
    assert_eq!(code_to_string(&Some(-9)), "Some(-9)");
    assert_eq!(code_to_string(&None), "None");
}
