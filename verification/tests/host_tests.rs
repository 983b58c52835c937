use sshs::command::{render_command, split_command, CommandError};
use sshs::config_file::{
    find_host_block, format_host_block, format_ssh_key, read_config_blocks, save_config_lines,
};
use sshs::config_error::ParseConfigError;
use sshs::config_host::ConfigHost;
use sshs::entry_type::EntryType;
use sshs::host::{get_all_host_fields, hosts_from_config_hosts, Host};

fn lines(v: &[&str]) -> Vec<String> {
    v.iter().map(|s| s.to_string()).collect()
}

#[test]
fn iter_fields_skips_blank_and_unset_values() {
    let mut h = Host::default();
    h.name = "web".into();
    h.hostname = "10.0.0.1".into();
    h.user = Some("alice".into());
    h.port = Some("   ".into());
    let fields = h.iter_fields();
    assert_eq!(
        fields,
        vec![
            ("hostname".to_string(), "10.0.0.1".to_string()),
            ("name".to_string(), "web".to_string()),
            ("user".to_string(), "alice".to_string()),
        ]
    );
}

#[test]
fn all_host_fields_are_listed_in_order() {
    let fields = get_all_host_fields();
    assert_eq!(fields.len(), 102);
    assert_eq!(fields[0], "add_keys_to_agent");
    assert_eq!(fields[fields.len() - 1], "x_auth_location");
    assert!(fields.contains(&"include".to_string()));
    let mut sorted = fields.clone();
    sorted.sort();
    assert_eq!(sorted, fields);
}

#[test]
fn ssh_key_is_pascal_case() {
    assert_eq!(format_ssh_key("proxy_command"), "ProxyCommand");
    assert_eq!(format_ssh_key("forward_x11"), "ForwardX11");
    assert_eq!(format_ssh_key("a__b"), "AB");
    assert_eq!(format_ssh_key(""), "");
}

#[test]
fn host_block_lists_fields() {
    let mut h = Host::default();
    h.name = "web".into();
    h.aliases = " w1 , ,w2 ".into();
    h.hostname = "example.com".into();
    h.user = Some("root".into());
    assert_eq!(
        format_host_block(&h),
        lines(&["Host web w1 w2", "    Hostname example.com", "    User root"])
    );
}

#[test]
fn host_block_without_aliases() {
    let mut h = Host::default();
    h.name = "db".into();
    h.aliases = ",, ".into();
    assert_eq!(format_host_block(&h), lines(&["Host db"]));
}

#[test]
fn save_replaces_existing_block() {
    let existing = lines(&[
        "# global",
        "",
        "Host web old",
        "    User bob",
        "",
        "",
        "host db",
        "    Port 5432",
    ]);
    let mut h = Host::default();
    h.name = "web".into();
    h.hostname = "1.2.3.4".into();
    let out = save_config_lines(&existing, &h);
    assert_eq!(
        out,
        lines(&[
            "# global",
            "",
            "Host web",
            "    Hostname 1.2.3.4",
            "",
            "host db",
            "    Port 5432",
        ])
    );
}

#[test]
fn save_appends_new_block() {
    let existing = lines(&["Host a", "  User x"]);
    let mut h = Host::default();
    h.name = "b".into();
    h.port = Some("2222".into());
    let out = save_config_lines(&existing, &h);
    assert_eq!(out, lines(&["Host a", "  User x", "", "Host b", "    Port 2222"]));
}

#[test]
fn save_into_empty_file() {
    let mut h = Host::default();
    h.name = "only".into();
    assert_eq!(save_config_lines(&Vec::new(), &h), lines(&["Host only"]));
}

fn block(patterns: &[&str], entries: &[(EntryType, &str)]) -> ConfigHost {
    let mut h = ConfigHost::new(patterns.iter().map(|p| p.to_string()).collect());
    for (k, v) in entries {
        h.update((*k, v.to_string()));
    }
    h
}

#[test]
fn config_hosts_become_records() {
    let blocks = vec![
        block(&["web", "www"], &[(EntryType::User, "deploy")]),
        block(&["*"], &[(EntryType::Port, "2222")]),
        block(&[".host"], &[]),
    ];
    let hosts = hosts_from_config_hosts(blocks).unwrap();
    assert_eq!(hosts.len(), 2);
    assert_eq!(hosts[0].name, "web");
    assert_eq!(hosts[1].name, "www");
    assert_eq!(hosts[0].aliases, "");
    assert_eq!(hosts[0].hostname, "web");
    assert_eq!(hosts[0].user, Some("deploy".to_string()));
    assert_eq!(hosts[0].port, Some("2222".to_string()));
    assert_eq!(hosts[0].identity_file, None);
}

#[test]
fn record_fields_follow_the_block() {
    let b = block(&["a", "b", "c"], &[(EntryType::Hostname, "h"), (EntryType::IdentityFile, "k")]);
    let h = Host::from_config_host(&b);
    assert_eq!(h.name, "a");
    assert_eq!(h.aliases, "b c");
    assert_eq!(h.hostname, "h");
    assert_eq!(h.identity_file, None);
}

#[test]
fn unresolvable_config_is_refused() {
    let blocks = vec![block(&["*("], &[])];
    assert!(hosts_from_config_hosts(blocks).is_none());
    let blocks = vec![block(&[], &[]), block(&["*"], &[])];
    assert!(hosts_from_config_hosts(blocks).is_none());
}

#[test]
fn command_template_renders_fields() {
    let mut h = Host::default();
    h.name = "web".into();
    h.hostname = "example.com".into();
    h.user = Some("alice".into());
    let line = render_command(&h, "ssh {{user}}@{{hostname}} {{port}}").unwrap();
    assert_eq!(line, "ssh alice@example.com ");
    assert!(render_command(&h, "{{#if}}").is_err());
}

#[test]
fn command_line_is_split() {
    assert_eq!(
        split_command("ssh -p 22 'my host'"),
        Ok(("ssh".to_string(), vec!["-p".to_string(), "22".to_string(), "my host".to_string()]))
    );
    assert_eq!(split_command("   "), Err(CommandError::NoProgram));
    assert_eq!(split_command("ssh 'oops"), Err(CommandError::Unparsable("ssh 'oops".to_string())));
}

#[test]
fn saving_twice_is_saving_once() {
    let existing = lines(&["# top", "Host a", "  User x", "", "Host web", "  Port 1", "Host c"]);
    let mut h = Host::default();
    h.name = "web".into();
    h.hostname = "example.com".into();
    h.aliases = "w".into();
    let once = save_config_lines(&existing, &h);
    let twice = save_config_lines(&once, &h);
    assert_eq!(once, twice);
    let blocks = read_config_blocks(&once);
    let i = find_host_block(&blocks, &h.name).unwrap();
    assert_eq!(i, 2);
    assert_eq!(blocks[i], format_host_block(&h));
    assert_eq!(blocks.len(), 4);
    assert_eq!(blocks[0], lines(&["# top"]));
    assert_eq!(blocks[3], lines(&["Host c"]));
}

#[test]
fn host_with_spaced_name_is_appended_again() {
    let mut h = Host::default();
    h.name = "my host".into();
    let once = save_config_lines(&Vec::new(), &h);
    let twice = save_config_lines(&once, &h);
    assert_eq!(twice, lines(&["Host my host", "", "Host my host"]));
}

#[test]
fn read_failures_become_io_errors() {
    use_parse_error(ParseConfigError::from(std::io::Error::new(std::io::ErrorKind::NotFound, "gone")));
    let e = ParseConfigError::SshConfig("bad line".to_string());
    assert!(matches!(e, ParseConfigError::SshConfig(ref m) if m == "bad line"));
}

fn use_parse_error(e: ParseConfigError) {
    match e {
        ParseConfigError::Io(io) => assert_eq!(io.kind(), std::io::ErrorKind::NotFound),
        ParseConfigError::SshConfig(_) => panic!("expected a read failure"),
    }
}

#[test]
fn ssh_keys_are_stable() {
    for f in ["proxy_command", "forward_x11_timeout", "_a__b_", "user"] {
        let k = format_ssh_key(f);
        assert!(!k.contains('_'));
        assert_eq!(format_ssh_key(&k), k);
        assert_eq!(k.to_ascii_lowercase(), f.replace('_', "").to_ascii_lowercase());
    }
}
