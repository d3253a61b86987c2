use print_cost::integration::{setup_macos_environment, setup_macos_integration};

#[test]
fn integration_setup_succeeds() {
    assert!(setup_macos_integration().is_ok());
}

#[test]
fn environment_setup_does_nothing() {
    setup_macos_environment();
}

#[test]
fn no_file_arrives_without_native_hooks() {
    let integration = setup_macos_integration().unwrap();
    assert_eq!(integration.wait_for_file(), None);
}
