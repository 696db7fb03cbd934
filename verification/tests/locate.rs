use ecolav_core::locate::{
    bundled_components, detect_node_binary, system_command, CustomBinary, NodeBinary, Platform,
    NODE_PATH_VARIABLE,
};

fn custom(path: &str, exists: bool) -> Option<CustomBinary> {
    Some(CustomBinary { path: path.to_string(), exists })
}

#[test]
fn the_override_is_read_from_its_variable() {
    assert_eq!(NODE_PATH_VARIABLE, "ECOLAV_NODE_PATH");
}

#[test]
fn an_existing_override_wins_over_everything() {
    let chosen = NodeBinary::Custom("/opt/node/bin/node".to_string());
    assert_eq!(detect_node_binary(custom("/opt/node/bin/node", true), true), chosen);
    assert_eq!(detect_node_binary(custom("/opt/node/bin/node", true), false), chosen);
}

#[test]
fn an_override_that_does_not_exist_is_passed_over() {
    assert_eq!(detect_node_binary(custom("/nowhere/node", false), true), NodeBinary::Bundled);
    assert_eq!(detect_node_binary(custom("/nowhere/node", false), false), NodeBinary::System);
}

#[test]
fn without_an_override_the_bundled_binary_comes_first() {
    assert_eq!(detect_node_binary(None, true), NodeBinary::Bundled);
    assert_eq!(detect_node_binary(None, false), NodeBinary::System);
}

#[test]
fn the_bundled_binary_lies_where_the_platform_puts_it() {
    assert_eq!(bundled_components(Platform::Windows), vec!["node", "node.exe"]);
    assert_eq!(bundled_components(Platform::Other), vec!["node", "bin", "node"]);
}

#[test]
fn the_system_knows_the_binary_by_the_name_of_the_platform() {
    assert_eq!(system_command(Platform::Windows), "node.exe");
    assert_eq!(system_command(Platform::Other), "node");
}
