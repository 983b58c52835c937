use sshs::config_host::ConfigHost;
use sshs::entry_type::EntryType;
use sshs::host_vec::HostVecExt;

fn block(patterns: &[&str], entries: &[(EntryType, &str)]) -> ConfigHost {
    let mut h = ConfigHost::new(patterns.iter().map(|p| p.to_string()).collect());
    for (k, v) in entries {
        h.update((*k, v.to_string()));
    }
    h
}

#[test]
fn test_all_entries() {
    let mut host = ConfigHost::new(vec!["h".into()]);
    host.update((EntryType::LocalForward, "1".into()));
    host.update((EntryType::LocalForward, "2".into()));
    let all = host.all_entries();
    assert!(all.contains(&(EntryType::LocalForward, "1".into())));
    assert!(all.contains(&(EntryType::LocalForward, "2".into())));
}

#[test]
fn test_apply_patterns() {
    let mut hosts = vec![
        block(&["web"], &[(EntryType::Port, "2222")]),
        block(&["*"], &[(EntryType::User, "admin"), (EntryType::Port, "22")]),
    ];
    hosts.apply_patterns();
    assert_eq!(hosts.len(), 1);
    assert_eq!(hosts[0].get(&EntryType::Port), Some("2222".to_string()));
    assert_eq!(hosts[0].get(&EntryType::User), Some("admin".to_string()));
}

#[test]
fn single_valued_update_overrides() {
    let mut h = ConfigHost::new(vec!["a".into()]);
    h.update((EntryType::User, "alice".into()));
    h.update((EntryType::User, "bob".into()));
    assert_eq!(h.get(&EntryType::User), Some("bob".to_string()));
    assert_eq!(h.get_all(&EntryType::User), vec!["bob".to_string()]);
}

#[test]
fn multi_valued_update_appends() {
    let mut h = ConfigHost::new(vec!["a".into()]);
    h.update((EntryType::IdentityFile, "~/.ssh/a".into()));
    h.update((EntryType::IdentityFile, "~/.ssh/b".into()));
    assert_eq!(h.get(&EntryType::IdentityFile), None);
    assert_eq!(
        h.get_all(&EntryType::IdentityFile),
        vec!["~/.ssh/a".to_string(), "~/.ssh/b".to_string()]
    );
}

#[test]
fn get_all_of_absent_keyword_is_empty() {
    let h = ConfigHost::new(vec!["a".into()]);
    assert!(h.get_all(&EntryType::Port).is_empty());
    assert!(h.is_empty());
    assert!(h.all_entries().is_empty());
}

#[test]
fn all_entries_lists_multi_values_first() {
    let h = block(
        &["a"],
        &[(EntryType::User, "u"), (EntryType::LocalForward, "1"), (EntryType::Port, "22")],
    );
    let all = h.all_entries();
    assert_eq!(all.len(), 3);
    assert_eq!(all[0], (EntryType::LocalForward, "1".to_string()));
    assert!(all.contains(&(EntryType::User, "u".to_string())));
    assert!(all.contains(&(EntryType::Port, "22".to_string())));
    assert!(!h.is_empty());
}

#[test]
fn entry_type_codes_round_trip() {
    for c in 0..sshs::entry_type::ENTRY_TYPE_COUNT {
        let e = EntryType::from_code(c).unwrap();
        assert_eq!(e.code(), c);
    }
    assert_eq!(EntryType::from_code(sshs::entry_type::ENTRY_TYPE_COUNT), None);
    assert!(EntryType::Match.is_multi_valued());
    assert!(!EntryType::Hostname.is_multi_valued());
}

#[test]
fn has_same_entries_compares_all_values() {
    let a = block(&["a"], &[(EntryType::User, "u"), (EntryType::SendEnv, "X")]);
    let b = block(&["b"], &[(EntryType::SendEnv, "X"), (EntryType::User, "u")]);
    let c = block(&["c"], &[(EntryType::User, "u"), (EntryType::SendEnv, "Y")]);
    assert!(a.has_same_entries(&b));
    assert!(!a.has_same_entries(&c));
}

#[test]
fn spread_makes_one_block_per_pattern() {
    let mut hosts = vec![block(&["a", "b"], &[(EntryType::User, "u")]), block(&[], &[])];
    hosts.spread();
    assert_eq!(hosts.len(), 3);
    assert_eq!(hosts[0].get_patterns(), &vec!["a".to_string()]);
    assert_eq!(hosts[1].get_patterns(), &vec!["b".to_string()]);
    assert_eq!(hosts[1].get(&EntryType::User), Some("u".to_string()));
    assert!(hosts[2].get_patterns().is_empty());
}

#[test]
fn negated_pattern_applies_to_non_matching_hosts() {
    let mut hosts = vec![
        block(&["prod"], &[]),
        block(&["dev"], &[]),
        block(&["!prod"], &[(EntryType::User, "tester")]),
    ];
    hosts.apply_patterns();
    assert_eq!(hosts.len(), 2);
    assert_eq!(hosts[0].get(&EntryType::User), None);
    assert_eq!(hosts[1].get(&EntryType::User), Some("tester".to_string()));
}

#[test]
fn question_mark_and_dot_patterns() {
    let mut hosts = vec![
        block(&["a.example.com"], &[]),
        block(&["axexample.com"], &[]),
        block(&["?.example.com"], &[(EntryType::Port, "2200")]),
    ];
    hosts.apply_patterns();
    assert_eq!(hosts[0].get(&EntryType::Port), Some("2200".to_string()));
    assert_eq!(hosts[1].get(&EntryType::Port), None);
}

#[test]
fn apply_name_to_empty_hostname_uses_first_pattern() {
    let mut hosts = vec![block(&["web"], &[]), block(&["db"], &[(EntryType::Hostname, "10.0.0.1")])];
    hosts.apply_name_to_empty_hostname();
    assert_eq!(hosts[0].get(&EntryType::Hostname), Some("web".to_string()));
    assert_eq!(hosts[1].get(&EntryType::Hostname), Some("10.0.0.1".to_string()));
}

#[test]
fn merge_same_hosts_joins_patterns() {
    let mut hosts = vec![
        block(&["a"], &[(EntryType::User, "u"), (EntryType::SendEnv, "X")]),
        block(&["b"], &[(EntryType::User, "v")]),
        block(&["c"], &[(EntryType::User, "u"), (EntryType::SendEnv, "X")]),
    ];
    hosts.merge_same_hosts();
    assert_eq!(hosts.len(), 2);
    assert_eq!(hosts[0].get_patterns(), &vec!["a".to_string(), "c".to_string()]);
    assert_eq!(
        hosts[0].get_all(&EntryType::SendEnv),
        vec!["X".to_string(), "X".to_string()]
    );
    assert_eq!(hosts[1].get_patterns(), &vec!["b".to_string()]);
}

#[test]
fn matching_pattern_regexes_translate_globs() {
    let h = block(&["plain", "*.example.com", "!db?"], &[]);
    let rules = h.matching_pattern_regexes();
    assert_eq!(rules.len(), 2);
    assert_eq!(rules[0].0.source(), "^.*\\.example\\.com$");
    assert!(!rules[0].1);
    assert_eq!(rules[1].0.source(), "^db.$");
    assert!(rules[1].1);
    assert!(rules[0].0.is_match("www.example.com"));
    assert!(!rules[0].0.is_match("www.example.org"));
}

#[test]
fn uncompilable_pattern_is_reported() {
    let h = block(&["a(*"], &[]);
    assert!(h.try_matching_pattern_regexes().is_none());
}

#[test]
fn updates_keep_call_order() {
    let mut h = ConfigHost::new(vec!["h".into()]);
    assert!(h.is_empty());
    h.update((EntryType::User, "a".into()));
    assert!(!h.is_empty());
    h.update((EntryType::IdentityFile, "k1".into()));
    h.update((EntryType::User, "b".into()));
    h.update((EntryType::IdentityFile, "k2".into()));
    assert_eq!(h.get(&EntryType::User), Some("b".to_string()));
    assert_eq!(h.get_all(&EntryType::User), vec!["b".to_string()]);
    assert_eq!(h.get(&EntryType::IdentityFile), None);
    assert_eq!(h.get_all(&EntryType::IdentityFile), vec!["k1".to_string(), "k2".to_string()]);
    let all = h.all_entries();
    let keys: Vec<String> = all
        .iter()
        .filter(|(k, _)| *k == EntryType::IdentityFile)
        .map(|(_, v)| v.clone())
        .collect();
    assert_eq!(keys, h.get_all(&EntryType::IdentityFile));
    assert_eq!(all.len(), 3);
}

#[test]
fn merging_leaves_one_block_per_entry_set() {
    let mut hosts = vec![
        block(&["a"], &[(EntryType::User, "u")]),
        block(&["b"], &[(EntryType::User, "u")]),
        block(&["c"], &[(EntryType::Port, "1")]),
        block(&["d"], &[(EntryType::User, "u")]),
    ];
    hosts.merge_same_hosts();
    assert_eq!(hosts.len(), 2);
    assert_eq!(
        hosts[0].get_patterns(),
        &vec!["a".to_string(), "b".to_string(), "d".to_string()]
    );
    assert_eq!(hosts[1].get_patterns(), &vec!["c".to_string()]);
}

#[test]
fn merging_doubles_accumulated_values() {
    let mut hosts = vec![
        block(&["p"], &[(EntryType::IdentityFile, "x")]),
        block(&["r"], &[(EntryType::IdentityFile, "x")]),
        block(&["q"], &[(EntryType::IdentityFile, "x"), (EntryType::IdentityFile, "x")]),
    ];
    hosts.merge_same_hosts();
    assert_eq!(hosts.len(), 2);
    assert_eq!(hosts[0].get_all(&EntryType::IdentityFile), hosts[1].get_all(&EntryType::IdentityFile));
}
