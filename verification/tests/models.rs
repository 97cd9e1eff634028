use shellpad::models::{AppData, Command, CommandSet, ExecMode, Group, ShellType};

#[test]
fn test_app_data_empty() {
    let data = AppData::empty();
    assert!(data.groups.is_empty());
}

#[test]
fn test_create_group() {
    let group = Group::new("Deploy".to_string());
    assert_eq!(group.name, "Deploy");
    assert!(group.sets.is_empty());
}

#[test]
fn test_create_command_set() {
    let group = Group::new("Deploy".to_string());
    let set = CommandSet::new("Deploy to Prod".to_string(), group.id);
    assert_eq!(set.name, "Deploy to Prod");
    assert_eq!(set.group_id, group.id);
    assert_eq!(set.shell, ShellType::SystemDefault);
    assert_eq!(set.exec_mode, ExecMode::StopOnError);
    assert!(set.variables.is_empty());
    assert!(set.commands.is_empty());
}

#[test]
fn models_test_find_set_by_id() {
    let mut group = Group::new("G".to_string());
    let set = CommandSet::new("S".to_string(), group.id);
    let set_id = set.id;
    group.sets.push(set);
    let data = AppData { groups: vec![group] };

    let found = data.find_set_by_id(set_id);
    assert!(found.is_some());
    let (gi, si) = found.unwrap();
    assert_eq!(data.groups[gi].sets[si].name, "S");
}

#[test]
fn models_test_all_sets_iter() {
    let mut g1 = Group::new("G1".to_string());
    let g1_id = g1.id;
    g1.sets.push(CommandSet::new("S1".to_string(), g1_id));
    g1.sets.push(CommandSet::new("S2".to_string(), g1_id));
    let mut g2 = Group::new("G2".to_string());
    let g2_id = g2.id;
    g2.sets.push(CommandSet::new("S3".to_string(), g2_id));
    let data = AppData { groups: vec![g1, g2] };

    let names: Vec<&str> = data.all_sets_iter().iter().map(|s| s.name.as_str()).collect();
    assert_eq!(names, vec!["S1", "S2", "S3"]);
}

#[test]
fn test_filter_sets() {
    let mut g = Group::new("Dev".to_string());
    let gid = g.id;
    g.sets.push(CommandSet::new("Deploy Backend".to_string(), gid));
    g.sets.push(CommandSet::new("Build Frontend".to_string(), gid));
    g.sets.push(CommandSet::new("Database Migrate".to_string(), gid));
    let data = AppData { groups: vec![g] };

    let results = data.filter_sets("backend");
    assert_eq!(results.len(), 1);
    assert_eq!(results[0].set.name, "Deploy Backend");
}

#[test]
fn test_shell_label() {
    assert_eq!(ShellType::Bash.label(), "bash");
    assert_eq!(ShellType::SystemDefault.label(), "System Default");
    assert_eq!(ShellType::Zsh.label(), "zsh");
}

#[test]
fn test_exec_mode_label() {
    assert_eq!(ExecMode::StopOnError.label(), "Stop on Error");
    assert_eq!(ExecMode::ContinueOnError.label(), "Continue on Error");
}

#[test]
fn test_builtin_variants_count() {
    assert_eq!(ShellType::builtin_variants().len(), 5);
}

#[test]
fn test_command_set_new_sets_updated_at() {
    let group = Group::new("G".to_string());
    let set = CommandSet::new("Test".to_string(), group.id);
    assert_eq!(set.created_at, set.updated_at);
    let now = chrono::Utc::now();
    assert!((set.created_at.secs, set.created_at.nanos) <= (now.timestamp(), now.timestamp_subsec_nanos()));
}

#[test]
fn queries_test_find_set_by_id() {
    let mut group = Group::new("G".to_string());
    let set = CommandSet::new("S".to_string(), group.id);
    let set_id = set.id;
    group.sets.push(set);
    let data = AppData { groups: vec![group] };
    let found = data.find_set_by_id(set_id);
    assert!(found.is_some());
    let (gi, si) = found.unwrap();
    assert_eq!(data.groups[gi].sets[si].name, "S");
}

#[test]
fn queries_test_all_sets_iter() {
    let mut g1 = Group::new("G1".to_string());
    let g1_id = g1.id;
    g1.sets.push(CommandSet::new("S1".to_string(), g1_id));
    g1.sets.push(CommandSet::new("S2".to_string(), g1_id));
    let mut g2 = Group::new("G2".to_string());
    let g2_id = g2.id;
    g2.sets.push(CommandSet::new("S3".to_string(), g2_id));
    let data = AppData { groups: vec![g1, g2] };
    let names: Vec<&str> = data.all_sets_iter().iter().map(|s| s.name.as_str()).collect();
    assert_eq!(names, vec!["S1", "S2", "S3"]);
}

#[test]
fn test_filter_sets_fuzzy_name() {
    let mut g = Group::new("Dev".to_string());
    let gid = g.id;
    g.sets.push(CommandSet::new("Deploy Backend".to_string(), gid));
    g.sets.push(CommandSet::new("Build Frontend".to_string(), gid));
    g.sets.push(CommandSet::new("Database Migrate".to_string(), gid));
    let data = AppData { groups: vec![g] };
    // "dpl" fuzzy-matches "Deploy": finds "Deploy Backend"
    let results = data.filter_sets("dpl");
    assert_eq!(results.len(), 1);
    assert_eq!(results[0].set.name, "Deploy Backend");
    assert!(!results[0].name_matches.is_empty());
}

#[test]
fn test_filter_sets_command_text() {
    let mut g = Group::new("Dev".to_string());
    let mut set = CommandSet::new("My Tasks".to_string(), g.id);
    set.commands.push(Command { position: 0, command: "curl https://api.example.com".to_string() });
    g.sets.push(set);
    let data = AppData { groups: vec![g] };
    let results = data.filter_sets("curl");
    assert_eq!(results.len(), 1);
    assert_eq!(results[0].set.name, "My Tasks");
    // matched in command text, not name
    assert!(results[0].name_matches.is_empty());
}

#[test]
fn filter_with_empty_query_returns_everything_in_order() {
    let mut g = Group::new("Dev".to_string());
    let gid = g.id;
    g.sets.push(CommandSet::new("A".to_string(), gid));
    g.sets.push(CommandSet::new("B".to_string(), gid));
    let data = AppData { groups: vec![g, Group::new("Empty".to_string())] };
    let results = data.filter_sets("");
    assert_eq!(results.len(), 2);
    assert_eq!((results[1].group_index, results[1].set_index), (0, 1));
}

#[test]
fn find_group_by_id_finds_the_group() {
    let mut g = Group::new("Dev".to_string());
    g.id = 1;
    let mut other = Group::new("Other".to_string());
    other.id = 2;
    let data = AppData { groups: vec![other, g] };
    assert_eq!(data.find_group_by_id(1).map(|g| g.name.as_str()), Some("Dev"));
    assert!(data.find_group_by_id(3).is_none());
}

#[test]
fn resolve_command_picks_program_and_flag() {
    let c = ShellType::SystemDefault.resolve_command(Some("/bin/zsh".to_string()));
    assert_eq!((c.program.as_str(), c.flag.as_str()), ("/bin/zsh", "-c"));
    let c = ShellType::SystemDefault.resolve_command(None);
    assert_eq!(c.program, "sh");
    let c = ShellType::PowerShell.resolve_command(None);
    assert_eq!((c.program.as_str(), c.flag.as_str()), ("pwsh", "-Command"));
    let c = ShellType::Custom("C:\\Windows\\CMD.EXE".to_string()).resolve_command(None);
    assert_eq!(c.flag, "/C");
    let c = ShellType::Custom("/usr/bin/fish".to_string()).resolve_command(None);
    assert_eq!(c.flag, "-c");
    assert_eq!(ShellType::Custom("/x".to_string()).label(), "custom: /x");
}

#[test]
fn find_group_by_id_mut_changes_that_group_only() {
    let g1 = Group::new("One".to_string());
    let g2 = Group::new("Two".to_string());
    let id2 = g2.id;
    let mut data = AppData { groups: vec![g1, g2] };
    if let Some(g) = data.find_group_by_id_mut(id2) {
        g.name = "Renamed".to_string();
    } else {
        panic!("group not found");
    }
    assert_eq!(data.groups[0].name, "One");
    assert_eq!(data.groups[1].name, "Renamed");
    assert!(data.find_group_by_id_mut(uuid::Uuid::new_v4().as_u128()).is_none());
}

#[test]
fn resolve_executable_uses_the_environment_shell_for_the_default() {
    assert_eq!(ShellType::SystemDefault.resolve_executable(Some("/bin/zsh".to_string())), "/bin/zsh");
    assert_eq!(ShellType::SystemDefault.resolve_executable(None), "sh");
    assert_eq!(ShellType::PowerShell.resolve_executable(None), "pwsh");
    assert_eq!(ShellType::Custom("/opt/nu".to_string()).resolve_executable(None), "/opt/nu");
}

#[test]
fn executable_is_none_only_for_the_system_default() {
    assert_eq!(ShellType::SystemDefault.executable(), None);
    assert_eq!(ShellType::Bash.executable(), Some("bash"));
    assert_eq!(ShellType::Zsh.executable(), Some("zsh"));
    assert_eq!(ShellType::Fish.executable(), Some("fish"));
    assert_eq!(ShellType::PowerShell.executable(), Some("pwsh"));
    let custom = ShellType::Custom("/opt/nu".to_string());
    assert_eq!(custom.executable(), Some("/opt/nu"));
}
