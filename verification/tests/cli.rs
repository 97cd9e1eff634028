use shellpad::cli::{
    answer_or_default, defaults_of, eq_ignore_ascii_case, export_data, parse_var_overrides, put_pair,
    resolve_set, resolve_set_by_uuid, run_outcome, search_groups, search_sets, take_override, truncate,
    use_defaults, uuid_to_string,
};
use shellpad::error::CliError;
use shellpad::executor::ExecuteResult;
use shellpad::models::{AppData, CommandSet, Group, Variable};

#[test]
fn test_resolve_set_by_id() {
    let mut g = Group::new("Deploy".to_string());
    let set = CommandSet::new("Prod".to_string(), g.id);
    let set_id = set.id;
    g.sets.push(set);
    let data = AppData { groups: vec![g] };

    let result = resolve_set(&data, Some(uuid_to_string(set_id)), None, None);
    assert!(result.is_ok());
    let (found, _gi, _si) = result.unwrap();
    assert_eq!(found.name, "Prod");
}

#[test]
fn test_resolve_set_by_group_and_set_name() {
    let mut g = Group::new("Deploy".to_string());
    let gid = g.id;
    g.sets.push(CommandSet::new("Prod".to_string(), gid));
    let data = AppData { groups: vec![g] };

    let result = resolve_set(&data, None, Some("Deploy".into()), Some("Prod".into()));
    assert!(result.is_ok());
}

#[test]
fn test_resolve_set_not_found() {
    let data = AppData::empty();
    let result = resolve_set(&data, None, Some("Missing".into()), Some("Missing".into()));
    assert!(result.is_err());
    assert!(matches!(result.unwrap_err(), CliError::SetByGroupNotFound { .. }));
}

#[test]
fn test_resolve_set_no_args() {
    let data = AppData::empty();
    let result = resolve_set(&data, None, None, None);
    assert!(result.is_err());
    assert!(matches!(result.unwrap_err(), CliError::MissingArgs));
}

#[test]
fn test_resolve_set_invalid_uuid() {
    let data = AppData::empty();
    let result = resolve_set(&data, Some("not-a-uuid".into()), None, None);
    assert!(result.is_err());
    assert!(matches!(result.unwrap_err(), CliError::InvalidUuid(_)));
}

#[test]
fn test_resolve_set_ambiguous() {
    let mut g = Group::new("G".to_string());
    let gid = g.id;
    let set = CommandSet::new("S".to_string(), gid);
    g.sets.push(set);
    let set2 = CommandSet::new("S".to_string(), gid);
    g.sets.push(set2);
    let data = AppData { groups: vec![g] };

    let result = resolve_set(&data, None, Some("G".into()), Some("S".into()));
    assert!(result.is_err());
    assert!(matches!(result.unwrap_err(), CliError::Ambiguous { .. }));
}

#[test]
fn resolve_by_names_ignores_case_and_lists_ambiguous_matches() {
    let mut g = Group::new("Deploy".to_string());
    g.id = 0x0123_4567_89ab_cdef_0123_4567_89ab_cdef;
    let mut a = CommandSet::new("Prod".to_string(), g.id);
    a.id = 1;
    let mut b = CommandSet::new("PROD".to_string(), g.id);
    b.id = 2;
    g.sets.push(a);
    g.sets.push(b);
    let data = AppData { groups: vec![g] };
    match resolve_set(&data, None, Some("deploy".into()), Some("prod".into())) {
        Err(CliError::Ambiguous { count, detail }) => {
            assert_eq!(count, 2);
            assert_eq!(
                detail,
                "  00000000-0000-0000-0000-000000000001 | Deploy | Prod\n  00000000-0000-0000-0000-000000000002 | Deploy | PROD"
            );
        },
        other => panic!("expected an ambiguous match, got {:?}", other.map(|r| (r.1, r.2))),
    }
}

#[test]
fn resolve_by_unknown_id_names_the_id() {
    let data = AppData::empty();
    let id = "0123456789ABCDEF0123456789abcdef".to_string();
    match resolve_set(&data, Some(id), None, None) {
        Err(e @ CliError::SetNotFound(_)) => {
            assert_eq!(e.message(), "No command set with UUID 01234567-89ab-cdef-0123-456789abcdef");
        },
        other => panic!("expected not found, got {:?}", other.map(|r| (r.1, r.2))),
    }
}

#[test]
fn resolve_by_uuid_takes_the_parsed_id() {
    let mut g = Group::new("G".to_string());
    let mut s = CommandSet::new("S".to_string(), g.id);
    s.id = 42;
    g.sets.push(s);
    let data = AppData { groups: vec![g] };
    let found = resolve_set_by_uuid(&data, "anything".to_string(), Some(42)).unwrap();
    assert_eq!(found.0.name, "S");
    assert!(matches!(
        resolve_set_by_uuid(&data, "bad".to_string(), None),
        Err(CliError::InvalidUuid(t)) if t == "bad"
    ));
}

#[test]
fn test_truncate_short_string() {
    assert_eq!(truncate("hello", 10), "hello");
}

#[test]
fn test_truncate_long_string() {
    let long = "a".repeat(50);
    let result = truncate(&long, 10);
    assert_eq!(result.chars().count(), 10);
    assert!(result.ends_with('…'));
}

#[test]
fn test_truncate_empty() {
    assert_eq!(truncate("", 5), "");
}

#[test]
fn truncate_cuts_at_a_character_boundary() {
    // "é" takes two bytes and does not fit in the first 3
    assert_eq!(truncate("abécd", 4), "ab…");
    assert_eq!(truncate("aébcd", 5), "aéb…");
    assert_eq!(truncate("abc", 0), "…");
}

#[test]
fn test_use_defaults_branch_lowercase() {
    let var = vec!["default".to_string()];
    assert!(use_defaults(&var));
}

#[test]
fn test_use_defaults_branch_not_default() {
    let var = vec!["host=prod".to_string()];
    assert!(!use_defaults(&var));
}

#[test]
fn use_defaults_ignores_ascii_case_only() {
    assert!(use_defaults(&vec!["DeFaUlT".to_string()]));
    assert!(!use_defaults(&vec!["default".to_string(), "x=y".to_string()]));
    assert!(!use_defaults(&Vec::new()));
    assert!(eq_ignore_ascii_case("ABC", "abc"));
    assert!(!eq_ignore_ascii_case("É", "é"));
}

#[test]
fn test_parse_var_overrides_valid() {
    let overrides: Vec<String> = vec!["key=value".into(), "a=b".into()];
    let map = parse_var_overrides(&overrides).unwrap();
    assert_eq!(map.len(), 2);
    let value = map.iter().find(|(k, _)| k == "key").map(|(_, v)| v.clone());
    assert_eq!(value.unwrap(), "value");
}

#[test]
fn parse_var_overrides_trims_and_keeps_the_last_value() {
    let overrides: Vec<String> = vec![" a = 1 ".into(), "b=x=y".into(), "a=2".into()];
    let map = parse_var_overrides(&overrides).unwrap();
    assert_eq!(map, vec![("a".to_string(), "2".to_string()), ("b".to_string(), "x=y".to_string())]);
}

#[test]
fn parse_var_overrides_rejects_a_value_without_equals() {
    let overrides: Vec<String> = vec!["a=1".into(), "oops".into(), "also-bad".into()];
    match parse_var_overrides(&overrides) {
        Err(e @ CliError::InvalidVar(_)) => {
            assert_eq!(e.message(), "Invalid --var format 'oops' (expected key=value)");
        },
        other => panic!("expected an invalid var, got {:?}", other),
    }
}

#[test]
fn overrides_are_taken_once() {
    let mut m = Vec::new();
    put_pair(&mut m, "host".to_string(), "a".to_string());
    put_pair(&mut m, "port".to_string(), "1".to_string());
    put_pair(&mut m, "host".to_string(), "b".to_string());
    assert_eq!(m.len(), 2);
    assert_eq!(take_override(&mut m, "host"), Some("b".to_string()));
    assert_eq!(take_override(&mut m, "host"), None);
    assert_eq!(m, vec![("port".to_string(), "1".to_string())]);
}

#[test]
fn prompt_answers_fall_back_to_the_default() {
    assert_eq!(answer_or_default(Some("  prod \n"), "dev"), "prod");
    assert_eq!(answer_or_default(Some("\n"), "dev"), "dev");
    assert_eq!(answer_or_default(None, "dev"), "dev");
}

#[test]
fn defaults_of_maps_names_to_defaults() {
    let mut set = CommandSet::new("S".to_string(), uuid::Uuid::new_v4().as_u128());
    set.variables.push(Variable { name: "a".to_string(), default_value: "1".to_string() });
    set.variables.push(Variable { name: "b".to_string(), default_value: "2".to_string() });
    set.variables.push(Variable { name: "a".to_string(), default_value: "3".to_string() });
    assert_eq!(defaults_of(&set), vec![("a".to_string(), "3".to_string()), ("b".to_string(), "2".to_string())]);
}

#[test]
fn uuid_text_is_hyphenated_lower_case() {
    assert_eq!(uuid_to_string(0), "00000000-0000-0000-0000-000000000000");
    assert_eq!(
        uuid_to_string(0x936d_a01f_9abd_4d9d_80c7_02af_85c8_22a8),
        "936da01f-9abd-4d9d-80c7-02af85c822a8"
    );
}

#[test]
fn search_results_show_sets_and_groups() {
    let mut g = Group::new("Deploy".to_string());
    g.id = 5;
    let mut s = CommandSet::new("Prod".to_string(), g.id);
    s.id = 6;
    g.sets.push(s);
    let data = AppData { groups: vec![g, Group::new("infra".to_string())] };
    let sets = search_sets(&data, "P");
    assert_eq!(sets.len(), 1);
    assert_eq!(sets[0].id, "00000000-0000-0000-0000-000000000006");
    assert_eq!(sets[0].group_name, "Deploy");
    assert_eq!(sets[0].shell, "System Default");
    assert_eq!(sets[0].exec_mode, "stop_on_error");
    assert_eq!(sets[0].command_count, 0);
    let groups = search_groups(&data, "D");
    assert_eq!(groups.len(), 1);
    assert_eq!(groups[0].name, "Deploy");
    assert_eq!(groups[0].set_count, 1);
    assert!(search_groups(&data, "zzz").is_empty());
}

#[test]
fn test_export_nonexistent_id_returns_none() {
    let data = AppData::empty();
    let random_id = uuid::Uuid::new_v4().as_u128();
    let found = data.find_set_by_id(random_id);
    assert!(found.is_none());
}

#[test]
fn export_picks_one_set_or_everything() {
    let mut g = Group::new("Deploy".to_string());
    let set = CommandSet::new("Prod".to_string(), g.id);
    let set_id = set.id;
    g.sets.push(set);
    g.sets.push(CommandSet::new("Stage".to_string(), g.id));
    let data = AppData { groups: vec![g] };

    let all = export_data(&data, true, None).unwrap();
    assert_eq!(all.groups[0].sets.len(), 2);

    let one = export_data(&data, false, Some(uuid_to_string(set_id))).unwrap();
    assert_eq!(one.groups.len(), 1);
    assert_eq!(one.groups[0].name, "Deploy");
    assert_eq!(one.groups[0].sets.len(), 1);
    assert_eq!(one.groups[0].sets[0].id, set_id);

    assert_eq!(export_data(&data, false, Some("nope".into())).unwrap_err(), "Invalid UUID: nope");
    assert_eq!(export_data(&data, false, None).unwrap_err(), "Specify --id <uuid> or --all");
    assert_eq!(
        export_data(&data, false, Some(uuid_to_string(7))).unwrap_err(),
        "No command set with UUID 00000000-0000-0000-0000-000000000007"
    );
}

#[test]
fn run_outcome_reports_failures() {
    assert_eq!(run_outcome(&ExecuteResult { total: 2, succeeded: 2, failed: 0 }), (0, None));
    assert_eq!(
        run_outcome(&ExecuteResult { total: 3, succeeded: 1, failed: 2 }),
        (1, Some("Completed: 1/3 succeeded, 2/3 failed".to_string()))
    );
}

#[test]
fn cli_error_messages() {
    assert_eq!(CliError::MissingArgs.message(), "Missing argument: specify --id or --group --set");
    assert_eq!(
        CliError::SetByGroupNotFound { group: "a".into(), set: "b".into() }.message(),
        "No command set found for group 'a' set 'b'"
    );
    assert_eq!(CliError::InvalidUuid("x".into()).message(), "Invalid UUID: x");
    assert_eq!(CliError::Ambiguous { count: 2, detail: "d".into() }.message(), "Ambiguous: found 2 matches:\nd");
    assert_eq!(CliError::ExportWriteFailed("disk".into()).message(), "Failed to write export file: disk");
}

#[test]
fn test_search_set_json_returns_valid_object() {
    let mut g = Group::new("Deploy".to_string());
    g.sets.push(CommandSet::new("Prod".to_string(), g.id));
    let data = AppData { groups: vec![g] };
    let results = search_sets(&data, "P");
    assert_eq!(results.len(), 1);
    assert_eq!(results[0].name, "Prod");
    assert_eq!(results[0].group_name, "Deploy");
    assert_eq!(results[0].exec_mode, "stop_on_error");
    assert_eq!(results[0].shell, "System Default");
    assert_eq!(results[0].command_count, 0);
}

#[test]
fn test_search_group_json_returns_valid_object() {
    let mut g = Group::new("Dev".to_string());
    g.sets.push(CommandSet::new("S".to_string(), g.id));
    let data = AppData { groups: vec![g] };
    let results = search_groups(&data, "d");
    assert_eq!(results.len(), 1);
    assert_eq!(results[0].name, "Dev");
    assert_eq!(results[0].set_count, 1);
}

#[test]
fn test_search_no_results_json_empty_list() {
    let data = AppData::empty();
    assert!(search_sets(&data, "none").is_empty());
    assert!(search_groups(&data, "none").is_empty());
}

#[test]
fn test_export_all_creates_valid_json() {
    let mut g = Group::new("Deploy".to_string());
    let set = CommandSet::new("Prod".to_string(), g.id);
    g.sets.push(set);
    let data = AppData { groups: vec![g] };
    let exported = export_data(&data, true, None).expect("export");
    assert_eq!(exported.groups.len(), 1);
    assert_eq!(exported.groups[0].name, "Deploy");
    assert_eq!(exported.groups[0].sets.len(), 1);
    assert_eq!(exported.groups[0].sets[0].name, "Prod");
}

#[test]
fn test_export_single_set_minimal_appdata() {
    let mut g = Group::new("Deploy".to_string());
    let set = CommandSet::new("Prod".to_string(), g.id);
    let set_id = set.id;
    g.sets.push(set);
    g.sets.push(CommandSet::new("Stage".to_string(), g.id));
    let data = AppData { groups: vec![g] };
    let exported = export_data(&data, false, Some(uuid_to_string(set_id))).expect("export");
    assert_eq!(exported.groups.len(), 1);
    assert_eq!(exported.groups[0].sets.len(), 1);
    assert_eq!(exported.groups[0].sets[0].id, set_id);
}
