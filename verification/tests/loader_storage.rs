use lattice::module_logic::{
    get_setup_import, import_map_error_is_final, normalize_file_path, referrer_is_script_dir,
    setup_import_line, should_inject_setup, wrap_raw_module,
};
use lattice::storage::{
    all_keys_sql, clear_store_sql, create_store_sql, db_file_name, delete_value_sql,
    put_value_sql, sanitize_table_name, select_value_sql,
};

#[test]
fn windows_drive_paths_lose_leading_slash() {
    assert_eq!(normalize_file_path("/C:/games/app.js", true), "C:/games/app.js");
    assert_eq!(normalize_file_path("/C:/games/app.js", false), "/C:/games/app.js");
    assert_eq!(normalize_file_path("/usr/app.js", true), "/usr/app.js");
    assert_eq!(normalize_file_path("/C", true), "/C");
}

#[test]
fn setup_injection_rules() {
    assert!(should_inject_setup(true, false, "/app/src/main.js", "console.log(1);"));
    assert!(!should_inject_setup(false, false, "/app/src/main.js", ""));
    assert!(!should_inject_setup(true, true, "/app/src/shims/setup.js", ""));
    assert!(!should_inject_setup(true, false, "/app/src/indexedDBShim.js", ""));
    assert!(!should_inject_setup(true, false, "/app/node_modules/x/index.js", ""));
    assert!(!should_inject_setup(true, false, "/app/lib/three/build/three.module.js", ""));
    assert!(!should_inject_setup(true, false, "/app/src/a.js", "import './setup.js';\nrun();"));
    assert!(!should_inject_setup(true, false, "/app/src/a.js", "import \"../../setup.js\";"));
}

#[test]
fn raw_modules_escape_template_syntax() {
    assert_eq!(wrap_raw_module("plain"), "export default `plain`;");
    assert_eq!(wrap_raw_module("a`b"), "export default `a\\`b`;");
    assert_eq!(wrap_raw_module("c:\\x"), "export default `c:\\\\x`;");
    assert_eq!(wrap_raw_module("${x} $y"), "export default `\\${x} $y`;");
    assert_eq!(wrap_raw_module(""), "export default ``;");
}

#[test]
fn import_resolution_decisions() {
    assert!(referrer_is_script_dir(""));
    assert!(referrer_is_script_dir("."));
    assert!(!referrer_is_script_dir("file:///a.js"));
    assert!(import_map_error_is_final("Relative import path \"x\" not prefixed", "x"));
    assert!(import_map_error_is_final("unmapped", "./a.js"));
    assert!(import_map_error_is_final("unmapped", "/abs.js"));
    assert!(!import_map_error_is_final("unmapped", "lodash"));
}

#[test]
fn setup_import_statements() {
    assert_eq!(setup_import_line("../shims/setup.js"), "import \"../shims/setup.js\";\n");
    assert_eq!(setup_import_line("shims\\setup.js"), "import \"./shims/setup.js\";\n");
    assert_eq!(get_setup_import("/app/src/shims/setup.js", Some("/app/src/game"), None),
        Some("import \"../shims/setup.js\";\n".to_string()));
    assert_eq!(get_setup_import("/app/setup.js", None, Some("file:///app/setup.js")),
        Some("import \"file:///app/setup.js\";\n".to_string()));
    assert_eq!(get_setup_import("/app/setup.js", None, None), None);
}

#[test]
fn table_names_are_sanitized() {
    assert_eq!(sanitize_table_name("players"), "store_players");
    assert_eq!(sanitize_table_name("a-b c;DROP"), "store_a_b_c_DROP");
    assert_eq!(sanitize_table_name("ümlaut_9"), "store_ümlaut_9");
    assert_eq!(sanitize_table_name(""), "store_");
}

#[test]
fn sql_statements() {
    assert_eq!(select_value_sql("s"), "SELECT value FROM store_s WHERE key = ?1");
    assert_eq!(put_value_sql("s"), "INSERT OR REPLACE INTO store_s (key, value) VALUES (?1, ?2)");
    assert_eq!(delete_value_sql("s"), "DELETE FROM store_s WHERE key = ?1");
    assert_eq!(all_keys_sql("s"), "SELECT key FROM store_s");
    assert_eq!(clear_store_sql("s x"), "DELETE FROM store_s_x");
    assert!(create_store_sql("s").starts_with("CREATE TABLE IF NOT EXISTS store_s ("));
    assert_eq!(db_file_name("game"), "game.sqlite");
}
