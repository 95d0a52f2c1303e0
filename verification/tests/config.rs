use aichat_nvim::config::{
    config_menu_items, config_report_lines, get_config, get_config_mut, handle_config_selection,
    list_flag_for, menu_target, parse_options_output, update_config, update_status_message,
    AichatConfig, ConfigStore, Mode,
};
use aichat_nvim::error::AichatError;

#[test]
fn default_config_is_unset() {
    let c = AichatConfig::default();
    assert!(c.mode_flag.is_none());
    assert!(c.mode_arg.is_none());
    assert!(c.rag.is_none());
    assert!(c.session.is_none());
}

#[test]
fn mode_write_then_read_round_trip() {
    let mut store = ConfigStore::new();
    let r = update_config(&mut store, "agents", Some("x".to_string()), Some(Mode::Agent));
    assert!(r.is_ok());
    let snap = get_config(&store);
    assert_eq!(snap.mode_flag, Some(Mode::Agent));
    assert_eq!(snap.mode_arg.as_deref(), Some("x"));

    // clearing the mode clears the argument with it
    let r = update_config(&mut store, "agents", None, Some(Mode::Agent));
    assert!(r.is_ok());
    let snap = get_config(&store);
    assert!(snap.mode_flag.is_none());
    assert!(snap.mode_arg.is_none());
}

#[test]
fn session_and_rag_update_independently() {
    let mut store = ConfigStore::new();
    assert!(update_config(&mut store, "sessions", Some("s1".to_string()), None).is_ok());
    assert!(update_config(&mut store, "rags", Some("r1".to_string()), None).is_ok());
    assert!(update_config(&mut store, "roles", Some("coder".to_string()), Some(Mode::Role))
        .is_ok());
    let snap = get_config(&store);
    assert_eq!(snap.session.as_deref(), Some("s1"));
    assert_eq!(snap.rag.as_deref(), Some("r1"));
    assert_eq!(snap.mode_flag, Some(Mode::Role));
    assert_eq!(snap.mode_arg.as_deref(), Some("coder"));

    // clearing the session touches nothing else
    assert!(update_config(&mut store, "sessions", None, None).is_ok());
    let snap = get_config(&store);
    assert!(snap.session.is_none());
    assert_eq!(snap.rag.as_deref(), Some("r1"));
    assert_eq!(snap.mode_flag, Some(Mode::Role));
}

#[test]
fn update_unknown_category_is_refused_by_name() {
    let mut store = ConfigStore::new();
    let r = update_config(&mut store, "bogus", Some("v".to_string()), None);
    assert_eq!(r, Err(AichatError::InvalidOptionType("bogus".to_string())));
    let snap = get_config(&store);
    assert!(snap.mode_flag.is_none() && snap.session.is_none() && snap.rag.is_none());
}

#[test]
fn update_mode_category_without_mode_is_missing_value() {
    let mut store = ConfigStore::new();
    let r = update_config(&mut store, "roles", Some("coder".to_string()), None);
    assert_eq!(
        r,
        Err(AichatError::MissingValue(
            "Mode must be specified for this option type".to_string()
        ))
    );
    assert!(get_config(&store).mode_flag.is_none());
}

#[test]
fn selection_none_leaves_store_alone() {
    let mut store = ConfigStore::new();
    let r = handle_config_selection(&mut store, "sessions", None, None);
    assert!(r.is_ok());
    assert!(get_config(&store).session.is_none());
}

#[test]
fn selection_value_is_applied() {
    let mut store = ConfigStore::new();
    let r = handle_config_selection(&mut store, "sessions", None, Some("s9".to_string()));
    assert!(r.is_ok());
    assert_eq!(get_config(&store).session.as_deref(), Some("s9"));
}

#[test]
fn selection_sentinel_clears_category() {
    let mut store = ConfigStore::new();
    assert!(update_config(&mut store, "rags", Some("r1".to_string()), None).is_ok());
    let r = handle_config_selection(&mut store, "rags", None, Some("(unset)".to_string()));
    assert!(r.is_ok());
    assert!(get_config(&store).rag.is_none());

    // the sentinel also clears a mode category, argument included
    assert!(update_config(&mut store, "macros", Some("m".to_string()), Some(Mode::Macro))
        .is_ok());
    let r = handle_config_selection(
        &mut store,
        "macros",
        Some(Mode::Macro),
        Some("(unset)".to_string()),
    );
    assert!(r.is_ok());
    let snap = get_config(&store);
    assert!(snap.mode_flag.is_none());
    assert!(snap.mode_arg.is_none());
}

#[test]
fn poisoned_store_still_serves_writes_and_reads() {
    let mut store = ConfigStore::new();
    assert!(update_config(&mut store, "sessions", Some("before".to_string()), None).is_ok());
    store.mark_poisoned();
    assert!(store.is_poisoned());
    // the read takes the last-known-good state
    assert_eq!(get_config(&store).session.as_deref(), Some("before"));
    // the write succeeds and recovers the store
    assert!(update_config(&mut store, "sessions", Some("after".to_string()), None).is_ok());
    assert!(!store.is_poisoned());
    assert_eq!(get_config(&store).session.as_deref(), Some("after"));
}

#[test]
fn write_access_recovers_poisoned_store() {
    let mut store = ConfigStore::new();
    store.mark_poisoned();
    {
        let c = get_config_mut(&mut store);
        c.session = Some("direct".to_string());
    }
    assert!(!store.is_poisoned());
    assert_eq!(get_config(&store).session.as_deref(), Some("direct"));
}

#[test]
fn snapshot_is_independent_of_store() {
    let mut store = ConfigStore::new();
    assert!(update_config(&mut store, "sessions", Some("s1".to_string()), None).is_ok());
    let snap = get_config(&store);
    assert!(update_config(&mut store, "sessions", Some("s2".to_string()), None).is_ok());
    assert_eq!(snap.session.as_deref(), Some("s1"));
    assert_eq!(get_config(&store).session.as_deref(), Some("s2"));
}

#[test]
fn options_output_is_trimmed_filtered_and_ends_with_sentinel() {
    let options = parse_options_output("alpha\n  beta  \n\n\tgamma\n");
    assert_eq!(options, vec![
        "alpha".to_string(),
        "beta".to_string(),
        "gamma".to_string(),
        "(unset)".to_string(),
    ]);
}

#[test]
fn options_output_empty_offers_only_sentinel() {
    assert_eq!(parse_options_output(""), vec!["(unset)".to_string()]);
}

#[test]
fn options_output_trims_unicode_whitespace() {
    let options = parse_options_output("\u{3000}alpha\u{00A0}\n");
    assert_eq!(options, vec!["alpha".to_string(), "(unset)".to_string()]);
}

#[test]
fn list_flags_cover_all_categories() {
    assert_eq!(list_flag_for("roles").unwrap(), "--list-roles");
    assert_eq!(list_flag_for("agents").unwrap(), "--list-agents");
    assert_eq!(list_flag_for("macros").unwrap(), "--list-macros");
    assert_eq!(list_flag_for("sessions").unwrap(), "--list-sessions");
    assert_eq!(list_flag_for("rags").unwrap(), "--list-rags");
    assert_eq!(
        list_flag_for("nope"),
        Err(AichatError::InvalidOptionType("nope".to_string()))
    );
}

#[test]
fn menu_lists_the_five_categories() {
    assert_eq!(config_menu_items(), vec![
        "Set Role".to_string(),
        "Set Agent".to_string(),
        "Set Macro".to_string(),
        "Set Session".to_string(),
        "Set RAG".to_string(),
    ]);
}

#[test]
fn menu_targets_map_entries_to_categories() {
    assert_eq!(
        menu_target("Set Role"),
        Some(("roles".to_string(), Some(Mode::Role)))
    );
    assert_eq!(
        menu_target("Set Agent"),
        Some(("agents".to_string(), Some(Mode::Agent)))
    );
    assert_eq!(
        menu_target("Set Macro"),
        Some(("macros".to_string(), Some(Mode::Macro)))
    );
    assert_eq!(menu_target("Set Session"), Some(("sessions".to_string(), None)));
    assert_eq!(menu_target("Set RAG"), Some(("rags".to_string(), None)));
    assert_eq!(menu_target("Set Nothing"), None);
}

#[test]
fn status_messages_name_the_change() {
    assert_eq!(
        update_status_message("sessions", &Some("s1".to_string())),
        "Set sessions to: s1"
    );
    assert_eq!(update_status_message("rags", &None), "Unset rags");
}

#[test]
fn report_lines_for_unset_config() {
    let c = AichatConfig::default();
    assert_eq!(config_report_lines(&c), vec![
        "Current Aichat Configuration:".to_string(),
        "".to_string(),
        "Mode: Not set".to_string(),
        "RAG: Not set".to_string(),
        "Session: Not set".to_string(),
    ]);
}

#[test]
fn report_lines_for_full_config() {
    let mut store = ConfigStore::new();
    assert!(update_config(&mut store, "agents", Some("coder".to_string()), Some(Mode::Agent))
        .is_ok());
    assert!(update_config(&mut store, "rags", Some("docs".to_string()), None).is_ok());
    assert!(update_config(&mut store, "sessions", Some("s1".to_string()), None).is_ok());
    let c = get_config(&store);
    assert_eq!(config_report_lines(&c), vec![
        "Current Aichat Configuration:".to_string(),
        "".to_string(),
        "Mode: Agent - coder".to_string(),
        "RAG: docs".to_string(),
        "Session: s1".to_string(),
    ]);
}
