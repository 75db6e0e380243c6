use openclaw_desktop::gateway::{
    args_with_profile, gateway_logs, gateway_restart, gateway_start, gateway_status, gateway_stop,
    tail_file,
};
use openclaw_desktop::models::{models_set_default, models_status, ModelError};
use openclaw_desktop::openclaw::{prefix_args, resolve};
use openclaw_desktop::openclaw_exec::run_openclaw;
use openclaw_desktop::profiles::{
    ensure_default_profile, profiles_create, profiles_delete, profiles_rename,
    profiles_set_active, secret_service, ProfileError,
};
use openclaw_desktop::settings::{
    is_node_script, load_settings, resolve_node_bin, resolve_openclaw_bin,
    resolve_openclaw_profile, settings_set_auto_do_mode, settings_set_dev_full_exec_auto,
    settings_set_ollama_base_url, settings_set_ollama_model, settings_set_openclaw_path, which,
    ProfileSettings,
};
use openclaw_desktop::state::ProfilesStore;

#[test]
fn missing_settings_are_the_initial_ones() {
    let s = load_settings(None);
    assert_eq!(s.version, 1);
    assert_eq!(s.openclaw_path, None);
    assert_eq!(s.openclaw_profile, None);
    assert_eq!(s.ollama_base_url, Some("http://localhost:11434".to_string()));
    assert_eq!(s.ollama_model, Some("ollama/huihui_ai/qwen3-abliterated:8b".to_string()));
    assert_eq!(s.dev_full_exec_auto, Some(false));
    assert_eq!(s.auto_do_mode, Some(false));
}

#[test]
fn stored_settings_are_backfilled() {
    let s = load_settings(Some(ProfileSettings::default()));
    assert_eq!(s.version, 1);
    assert_eq!(s.ollama_base_url, Some("http://localhost:11434".to_string()));
    assert_eq!(s.ollama_model, Some("ollama/huihui_ai/qwen3-abliterated:8b".to_string()));
    assert_eq!(s.dev_full_exec_auto, Some(false));
    assert_eq!(s.auto_do_mode, Some(false));
    let stored = ProfileSettings {
        version: 3,
        openclaw_path: Some("/bin/oc".to_string()),
        openclaw_profile: Some("prof".to_string()),
        ollama_base_url: Some("http://h:1".to_string()),
        ollama_model: Some("m".to_string()),
        dev_full_exec_auto: Some(true),
        auto_do_mode: Some(true),
    };
    let s = load_settings(Some(stored.clone()));
    assert_eq!(s.version, 3);
    assert_eq!(s.openclaw_path, Some("/bin/oc".to_string()));
    assert_eq!(s.openclaw_profile, Some("prof".to_string()));
    assert_eq!(s.base_url(), "http://h:1");
    assert_eq!(s.model_id(), "m");
    assert!(s.full_exec());
    assert!(s.auto_act());
    let unset = ProfileSettings::default();
    assert_eq!(unset.version, 0);
    assert_eq!(unset.base_url(), "http://localhost:11434");
    assert_eq!(unset.model_id(), "ollama/huihui_ai/qwen3-abliterated:8b");
    assert!(!unset.full_exec());
    assert!(!unset.auto_act());
}

#[test]
fn setters_normalise_their_values() {
    let mut s = ProfileSettings::default();
    settings_set_openclaw_path(&mut s, Some("  /bin/oc ".to_string()));
    assert_eq!(s.version, 1);
    assert_eq!(s.openclaw_path, Some("/bin/oc".to_string()));
    settings_set_openclaw_path(&mut s, Some("  ".to_string()));
    assert_eq!(s.openclaw_path, None);
    settings_set_ollama_base_url(&mut s, Some(" http://x ".to_string()));
    assert_eq!(s.ollama_base_url, Some("http://x".to_string()));
    settings_set_ollama_base_url(&mut s, None);
    assert_eq!(s.ollama_base_url, None);
    settings_set_ollama_model(&mut s, Some("m ".to_string()));
    assert_eq!(s.ollama_model, Some("m".to_string()));
    settings_set_dev_full_exec_auto(&mut s, true);
    assert_eq!(s.dev_full_exec_auto, Some(true));
    settings_set_auto_do_mode(&mut s, true);
    assert_eq!(s.auto_do_mode, Some(true));
    settings_set_auto_do_mode(&mut s, false);
    assert_eq!(s.auto_do_mode, Some(false));
}

#[test]
fn programs_are_resolved_in_order() {
    assert_eq!(which(true, "/usr/bin/node\n"), Some("/usr/bin/node".to_string()));
    assert_eq!(which(true, "  \n"), None);
    assert_eq!(which(false, "/usr/bin/node\n"), None);
    assert_eq!(resolve_node_bin(Some("/usr/bin/node".to_string()), true), "/usr/bin/node");
    assert_eq!(resolve_node_bin(None, true), "/opt/homebrew/bin/node");
    assert_eq!(resolve_node_bin(None, false), "/Users/aasish/.nvm/versions/node/v22.22.0/bin/node");
    let mut s = ProfileSettings::initial();
    assert_eq!(resolve_openclaw_bin(&s, Some("/usr/bin/openclaw".to_string())), "/usr/bin/openclaw");
    assert_eq!(resolve_openclaw_bin(&s, None), "/Users/aasish/.nvm/versions/node/v22.22.0/bin/openclaw");
    s.openclaw_path = Some("/opt/oc.mjs".to_string());
    assert_eq!(resolve_openclaw_bin(&s, Some("/usr/bin/openclaw".to_string())), "/opt/oc.mjs");
    assert!(is_node_script("/opt/oc.mjs"));
    assert!(is_node_script("/opt/oc.js"));
    assert!(!is_node_script("/opt/oc"));
    assert!(!is_node_script("/opt/oc.json"));
}

#[test]
fn tool_profile_is_derived_from_the_profile() {
    let mut s = ProfileSettings::initial();
    assert_eq!(resolve_openclaw_profile(&s, "p_1700"), "ocd-p-1700");
    s.openclaw_profile = Some("   ".to_string());
    assert_eq!(resolve_openclaw_profile(&s, "p_1700"), "ocd-p-1700");
    s.openclaw_profile = Some(" work ".to_string());
    assert_eq!(resolve_openclaw_profile(&s, "p_1700"), "work");
}

#[test]
fn invocation_of_a_script_goes_through_node() {
    let inv = run_openclaw(
        "/opt/oc.mjs".to_string(),
        vec!["--profile".to_string(), "x".to_string()],
        "/usr/bin/node".to_string(),
        Some("/usr/bin".to_string()),
        "/bin",
    );
    assert_eq!(inv.program, "/usr/bin/node");
    assert_eq!(inv.args, vec!["/opt/oc.mjs", "--profile", "x"]);
    let env: Vec<(&str, &str)> = inv.env.iter().map(|v| (v.name.as_str(), v.value.as_str())).collect();
    assert_eq!(env, vec![("NODE_NO_WARNINGS", "1"), ("NODE_OPTIONS", "--no-deprecation")]);
}

#[test]
fn invocation_of_a_binary_extends_the_search_path() {
    let inv = run_openclaw(
        "/opt/oc".to_string(),
        vec!["a".to_string()],
        "/usr/local/bin/node".to_string(),
        Some("/usr/local/bin".to_string()),
        "/bin:/usr/bin",
    );
    assert_eq!(inv.program, "/opt/oc");
    assert_eq!(inv.args, vec!["a"]);
    let env: Vec<(&str, &str)> = inv.env.iter().map(|v| (v.name.as_str(), v.value.as_str())).collect();
    assert_eq!(
        env,
        vec![
            ("NODE_NO_WARNINGS", "1"),
            ("NODE_OPTIONS", "--no-deprecation"),
            ("PATH", "/usr/local/bin:/bin:/usr/bin"),
        ]
    );
    let inv = run_openclaw("/opt/oc".to_string(), vec![], "node".to_string(), None, "/bin");
    assert_eq!(inv.env.len(), 2);
}

#[test]
fn prefix_args_name_the_tool_profile() {
    let oc = resolve("/opt/oc".to_string(), "ocd-x".to_string());
    assert_eq!(oc.bin, "/opt/oc");
    assert_eq!(prefix_args(&oc), vec!["--profile", "ocd-x"]);
}

#[test]
fn gateway_commands() {
    assert_eq!(gateway_status("ocd-x"), vec!["--profile", "ocd-x", "gateway", "status"]);
    assert_eq!(gateway_start("ocd-x"), vec!["--profile", "ocd-x", "gateway", "start"]);
    assert_eq!(gateway_stop("ocd-x"), vec!["--profile", "ocd-x", "gateway", "stop"]);
    assert_eq!(gateway_restart("ocd-x"), vec!["--profile", "ocd-x", "gateway", "restart"]);
    assert_eq!(args_with_profile("p", &vec![]), vec!["--profile", "p"]);
    assert_eq!(args_with_profile("p", &vec!["a", "b", "c"]), vec!["--profile", "p", "a", "b", "c"]);
    let st = openclaw_desktop::gateway::run_openclaw(None, "o".to_string(), "e".to_string());
    assert_eq!((st.exit_code, st.stdout.as_str(), st.stderr.as_str()), (-1, "o", "e"));
    let st = openclaw_desktop::gateway::run_openclaw(Some(3), String::new(), String::new());
    assert_eq!(st.exit_code, 3);
}

#[test]
fn tail_keeps_the_last_lines() {
    assert_eq!(tail_file("a\nb\nc\n".to_string(), 2), "b\nc");
    assert_eq!(tail_file("a\nb\nc\n".to_string(), 0), "a\nb\nc\n");
    assert_eq!(tail_file("a\nb\nc".to_string(), 5), "a\nb\nc");
    assert_eq!(tail_file("a\r\nb\r\n".to_string(), 1), "b");
    assert_eq!(tail_file("".to_string(), 3), "");
    assert_eq!(tail_file("\n\n".to_string(), 3), "\n");
    assert_eq!(tail_file("only".to_string(), 1), "only");
    let many: String = (0..300).map(|i| format!("line {}\n", i)).collect();
    let logs = gateway_logs(many.clone(), "x\ny".to_string(), None);
    assert_eq!(logs.out.lines().count(), 200);
    assert!(logs.out.starts_with("line 100\n"));
    assert!(logs.out.ends_with("line 299"));
    assert_eq!(logs.err, "x\ny");
    let logs = gateway_logs(many, "x\ny".to_string(), Some(1));
    assert_eq!(logs.out, "line 299");
    assert_eq!(logs.err, "y");
}

#[test]
fn models_commands() {
    assert_eq!(models_status("ocd-x"), vec!["--profile", "ocd-x", "models", "status", "--status-plain"]);
    assert_eq!(
        models_set_default("ocd-x", "  ollama/m "),
        Ok(vec!["--profile".to_string(), "ocd-x".to_string(), "models".to_string(), "set".to_string(), "ollama/m".to_string()])
    );
    assert_eq!(models_set_default("ocd-x", "   "), Err(ModelError::ModelRequired));
    assert_eq!(ModelError::ModelRequired.message(), "model required");
    let st = openclaw_desktop::models::run_openclaw(None, "o".to_string(), "e".to_string());
    assert_eq!(st.exit_code, -1);
}

#[test]
fn a_store_always_has_a_profile() {
    let mut store = ProfilesStore::default();
    assert_eq!(store.version, 1);
    assert!(ensure_default_profile(&mut store, 1700));
    assert_eq!(store.profiles.len(), 1);
    assert_eq!(store.profiles[0].id, "p_1700");
    assert_eq!(store.profiles[0].name, "Default");
    assert_eq!(store.profiles[0].created_at_ms, 1700);
    assert_eq!(store.active_profile_id, Some("p_1700".to_string()));
    assert!(!ensure_default_profile(&mut store, 1800));
    assert_eq!(store.profiles.len(), 1);
    assert_eq!(profiles_delete(&mut store, "p_1700"), Err(ProfileError::LastProfile));
    assert_eq!(profiles_delete(&mut store, "other"), Err(ProfileError::LastProfile));
    assert_eq!(store.profiles.len(), 1);
    assert_eq!(ProfileError::LastProfile.message(), "cannot delete last profile");
}

#[test]
fn profiles_are_created_renamed_and_deleted() {
    let mut store = ProfilesStore::default();
    ensure_default_profile(&mut store, 1);
    assert_eq!(profiles_create(&mut store, "  Work ", 2), Ok(()));
    assert_eq!(store.profiles[1].id, "p_2");
    assert_eq!(store.profiles[1].name, "Work");
    assert_eq!(store.active_profile_id, Some("p_2".to_string()));
    assert_eq!(profiles_create(&mut store, "  ", 3), Err(ProfileError::NameRequired));
    assert_eq!(store.profiles.len(), 2);
    assert_eq!(ProfileError::NameRequired.message(), "name required");

    assert_eq!(profiles_set_active(&mut store, "p_1".to_string()), Ok(()));
    assert_eq!(store.active_profile_id, Some("p_1".to_string()));
    assert_eq!(profiles_set_active(&mut store, "p_9".to_string()), Err(ProfileError::NotFound));
    assert_eq!(store.active_profile_id, Some("p_1".to_string()));
    assert_eq!(ProfileError::NotFound.message(), "profile not found");

    assert_eq!(profiles_rename(&mut store, "p_2", " Job ", ), Ok(()));
    assert_eq!(store.profiles[1].name, "Job");
    assert_eq!(profiles_rename(&mut store, "p_2", " "), Err(ProfileError::NameRequired));
    assert_eq!(profiles_rename(&mut store, "p_9", "x"), Err(ProfileError::NotFound));

    assert_eq!(profiles_delete(&mut store, "p_1"), Ok(()));
    assert_eq!(store.profiles.len(), 1);
    assert_eq!(store.active_profile_id, Some("p_2".to_string()));
    profiles_create(&mut store, "Third", 3).unwrap();
    assert_eq!(store.active_profile_id, Some("p_3".to_string()));
    assert_eq!(profiles_delete(&mut store, "p_2"), Ok(()));
    assert_eq!(store.active_profile_id, Some("p_3".to_string()));
    profiles_create(&mut store, "Fourth", 4).unwrap();
    assert_eq!(profiles_delete(&mut store, "nobody"), Ok(()));
    assert_eq!(store.profiles.len(), 2);
    assert_eq!(store.clone().profiles.len(), 2);
    assert_eq!(secret_service("p_1"), "openclaw-desktop:p_1");
}
