use canvasbot::pipeline::{create_builtin_registry, BuiltinRegistry, Task};

#[test]
fn the_startup_registry_knows_the_three_builtin_actions() {
    let registry = create_builtin_registry();
    assert!(registry.is_registered("download_and_extract_7z"));
    assert!(registry.is_registered("diff_file"));
    assert!(registry.is_registered("compile_cmake"));
    assert!(!registry.is_registered("deploy"));
}

#[test]
fn the_registry_is_extensible_at_startup() {
    let mut registry = BuiltinRegistry::new();
    assert!(!registry.is_registered("lint"));
    registry.register("lint");
    assert!(registry.is_registered("lint"));
}

#[test]
fn an_unregistered_name_fails_with_the_not_found_line() {
    let registry = create_builtin_registry();
    let r = registry.execute("deploy", vec!["x".to_string()]);
    assert_eq!(r, Err("Builtin command 'deploy' not found.".to_string()));
}

#[test]
fn a_registered_name_hands_the_arguments_through() {
    let registry = create_builtin_registry();
    let r = registry.execute("diff_file", vec!["a".to_string(), "b".to_string(), "2".to_string()]);
    assert_eq!(r, Ok(vec!["a".to_string(), "b".to_string(), "2".to_string()]));
}

#[test]
fn a_task_binds_a_name_to_its_commands() {
    let t = Task::new("check".to_string(), vec![]);
    assert_eq!(t.name, "check");
    assert!(t.commands.is_empty());
}
