use shellpad::error::ExecuteError;
use shellpad::executor::{substitute_variables, substitute_variables_core, substitute_variables_from_map, ExecuteResult};
use shellpad::models::{CommandSet, Variable};

#[test]
fn tests_test_substitute_single_variable() {
    let mut set = CommandSet::new("test".to_string(), uuid::Uuid::new_v4().as_u128());
    set.variables.push(Variable {
        name: "server".to_string(),
        default_value: "192.168.1.1".to_string(),
    });
    let result = substitute_variables("ssh {{server}}", &set);
    assert_eq!(result, "ssh 192.168.1.1");
}

#[test]
fn tests_test_substitute_multiple_variables() {
    let mut set = CommandSet::new("test".to_string(), uuid::Uuid::new_v4().as_u128());
    set.variables.push(Variable {
        name: "user".to_string(),
        default_value: "admin".to_string(),
    });
    set.variables.push(Variable {
        name: "host".to_string(),
        default_value: "example.com".to_string(),
    });
    let result = substitute_variables("ssh {{user}}@{{host}}", &set);
    assert_eq!(result, "ssh admin@example.com");
}

#[test]
fn tests_test_substitute_no_variables() {
    let set = CommandSet::new("test".to_string(), uuid::Uuid::new_v4().as_u128());
    let result = substitute_variables("echo hello", &set);
    assert_eq!(result, "echo hello");
}

#[test]
fn tests_test_substitute_missing_variable_leaves_placeholder() {
    let set = CommandSet::new("test".to_string(), uuid::Uuid::new_v4().as_u128());
    let result = substitute_variables("ssh {{missing}}", &set);
    assert_eq!(result, "ssh {{missing}}");
}

#[test]
fn tests_test_substitute_empty_value() {
    let mut set = CommandSet::new("test".to_string(), uuid::Uuid::new_v4().as_u128());
    set.variables.push(Variable {
        name: "x".to_string(),
        default_value: "".to_string(),
    });
    let result = substitute_variables("a{{x}}b", &set);
    assert_eq!(result, "ab");
}

#[test]
fn tests_test_substitute_multiple_occurrences() {
    let mut set = CommandSet::new("test".to_string(), uuid::Uuid::new_v4().as_u128());
    set.variables.push(Variable {
        name: "tag".to_string(),
        default_value: "v1.0".to_string(),
    });
    let result = substitute_variables("git tag {{tag}} && git push origin {{tag}}", &set);
    assert_eq!(result, "git tag v1.0 && git push origin v1.0");
}

#[test]
fn executor_test_substitute_single_variable() {
    let mut set = CommandSet::new("test".to_string(), uuid::Uuid::new_v4().as_u128());
    set.variables.push(Variable {
        name: "server".to_string(),
        default_value: "192.168.1.1".to_string(),
    });
    let result = substitute_variables("ssh {{server}}", &set);
    assert_eq!(result, "ssh 192.168.1.1");
}

#[test]
fn executor_test_substitute_multiple_variables() {
    let mut set = CommandSet::new("test".to_string(), uuid::Uuid::new_v4().as_u128());
    set.variables.push(Variable {
        name: "user".to_string(),
        default_value: "admin".to_string(),
    });
    set.variables.push(Variable {
        name: "host".to_string(),
        default_value: "example.com".to_string(),
    });
    let result = substitute_variables("ssh {{user}}@{{host}}", &set);
    assert_eq!(result, "ssh admin@example.com");
}

#[test]
fn executor_test_substitute_no_variables() {
    let set = CommandSet::new("test".to_string(), uuid::Uuid::new_v4().as_u128());
    let result = substitute_variables("echo hello", &set);
    assert_eq!(result, "echo hello");
}

#[test]
fn executor_test_substitute_missing_variable_leaves_placeholder() {
    let set = CommandSet::new("test".to_string(), uuid::Uuid::new_v4().as_u128());
    let result = substitute_variables("ssh {{missing}}", &set);
    assert_eq!(result, "ssh {{missing}}");
}

#[test]
fn executor_test_substitute_empty_value() {
    let mut set = CommandSet::new("test".to_string(), uuid::Uuid::new_v4().as_u128());
    set.variables.push(Variable {
        name: "x".to_string(),
        default_value: "".to_string(),
    });
    let result = substitute_variables("a{{x}}b", &set);
    assert_eq!(result, "ab");
}

#[test]
fn executor_test_substitute_multiple_occurrences() {
    let mut set = CommandSet::new("test".to_string(), uuid::Uuid::new_v4().as_u128());
    set.variables.push(Variable {
        name: "tag".to_string(),
        default_value: "v1.0".to_string(),
    });
    let result = substitute_variables("git tag {{tag}} && git push origin {{tag}}", &set);
    assert_eq!(result, "git tag v1.0 && git push origin v1.0");
}

#[test]
fn test_substitute_variables_from_map() {
    let vars = vec![("user".to_string(), "admin".to_string())];
    assert_eq!(substitute_variables_from_map("echo {{user}}", &vars), "echo admin");
}

#[test]
fn test_substitute_variables_from_map_empty() {
    let vars: Vec<(String, String)> = Vec::new();
    assert_eq!(substitute_variables_from_map("echo hello", &vars), "echo hello");
}

#[test]
fn test_execute_result_new() {
    let r = ExecuteResult { total: 3, succeeded: 2, failed: 1 };
    assert_eq!(r.total, 3);
    assert_eq!(r.succeeded, 2);
    assert_eq!(r.failed, 1);
}

#[test]
fn test_execute_error_display_spawn_failed() {
    let err = ExecuteError::SpawnFailed { idx: 1, detail: "not found".into() };
    let msg = err.message();
    assert!(msg.contains("Command 1"));
    assert!(msg.contains("failed to spawn"));
}

#[test]
fn test_execute_error_display_command_failed() {
    let err = ExecuteError::CommandFailed { idx: 2, code: Some(127) };
    let msg = err.message();
    assert!(msg.contains("Command 2"));
    assert!(msg.contains("127"));
}

#[test]
fn execute_error_messages_are_exact() {
    let spawn = ExecuteError::SpawnFailed { idx: 1, detail: "not found".into() };
    assert_eq!(spawn.message(), "Command 1 failed to spawn: not found");
    let failed = ExecuteError::CommandFailed { idx: 2, code: Some(-3) };
    assert_eq!(failed.message(), "Command 2 failed with exit code Some(-3)");
    let killed = ExecuteError::CommandFailed { idx: 4, code: None };
    assert_eq!(killed.message(), "Command 4 failed with exit code None");
}

#[test]
fn test_core_single() {
    let result = substitute_variables_core("ssh {{server}}", &[("server", "192.168.1.1")]);
    assert_eq!(result, "ssh 192.168.1.1");
}

#[test]
fn test_core_multiple() {
    let result = substitute_variables_core("{{a}} and {{b}}", &[("a", "x"), ("b", "y")]);
    assert_eq!(result, "x and y");
}

#[test]
fn test_core_no_vars() {
    let result = substitute_variables_core("echo hello", &[("x", "y")]);
    assert_eq!(result, "echo hello");
}

#[test]
fn test_core_missing_var_leaves_placeholder() {
    let result = substitute_variables_core("{{missing}}", &[("other", "val")]);
    assert_eq!(result, "{{missing}}");
}

#[test]
fn test_core_empty_value() {
    let result = substitute_variables_core("a{{x}}b", &[("x", "")]);
    assert_eq!(result, "ab");
}

#[test]
fn test_core_multiple_occurrences() {
    let result = substitute_variables_core("{{t}} and {{t}}", &[("t", "v1")]);
    assert_eq!(result, "v1 and v1");
}

#[test]
fn substitution_applies_variables_in_order() {
    // a value that holds a later placeholder is itself substituted
    let result = substitute_variables_core("{{a}}", &[("a", "{{b}}"), ("b", "z")]);
    assert_eq!(result, "z");
}

#[test]
fn substitute_variables_inner_uses_the_defaults_in_order() {
    let vars = vec![
        Variable { name: "a".to_string(), default_value: "{{b}}".to_string() },
        Variable { name: "b".to_string(), default_value: "2".to_string() },
    ];
    assert_eq!(shellpad::executor::substitute_variables_inner("x={{a}} y={{c}}", &vars), "x=2 y={{c}}");
}
