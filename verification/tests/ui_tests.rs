use sshs::config_file::remove_host_lines;
use sshs::host::Host;
use sshs::host_edit::{
    added_field_row, apply_form, commit_changes, first_row_labelled, form_listing,
    last_row_labelled, plan_commit, same_fields, CommitPlan,
};
use sshs::listing::{
    column_size, column_widths, host_matches, search_hosts, sort_hosts_by_name, table_row,
};
use sshs::order::{stable_order, text_le_chars};
use sshs::ui_logic::{
    clamp_row, decide_key, field_down, field_up, key_would_fail, next_row, page_down_row, page_up_row,
    previous_row, search_follows, to_pascal_case, to_snake_case, AddFieldModal, Focus, Key, KeyDecision, KeyPress,
    ViewState,
};
use sshs::view::{centered_rect, scroll_window, split_text_chars, styled_help, Area};

fn s(x: &str) -> String {
    x.to_string()
}

fn host(name: &str, hostname: &str) -> Host {
    let mut h = Host::default();
    h.name = s(name);
    h.hostname = s(hostname);
    h
}

fn rows(v: &[(&str, &str)]) -> Vec<(String, String)> {
    v.iter().map(|(a, b)| (s(a), s(b))).collect()
}

fn chars(x: &str) -> Vec<char> {
    x.chars().collect()
}

#[test]
fn pascal_and_snake_case_labels() {
    assert_eq!(to_pascal_case("proxy_command"), "ProxyCommand");
    assert_eq!(to_snake_case("ProxyCommand"), "proxy_command");
    assert_eq!(to_snake_case("ForwardX11"), "forward_x11");
    assert_eq!(to_snake_case(&to_pascal_case("user_known_hosts_file")), "user_known_hosts_file");
}

#[test]
fn table_navigation_wraps() {
    assert_eq!(next_row(Some(2), 3), 0);
    assert_eq!(next_row(Some(0), 3), 1);
    assert_eq!(next_row(None, 3), 0);
    assert_eq!(previous_row(Some(0), 3), 2);
    assert_eq!(previous_row(Some(2), 3), 1);
    assert_eq!(previous_row(Some(1), 0), 0);
    assert_eq!(page_down_row(Some(5), 100), 26);
    assert_eq!(page_down_row(Some(90), 100), 99);
    assert_eq!(page_up_row(Some(30)), 9);
    assert_eq!(page_up_row(Some(3)), 0);
    assert_eq!(clamp_row(Some(7), 3), 2);
    assert_eq!(clamp_row(None, 0), 0);
    assert_eq!(field_up(0, 4), 3);
    assert_eq!(field_down(3, 4), 0);
    // moving up then down returns to the row
    assert_eq!(next_row(Some(previous_row(Some(1), 5)), 5), 1);
}

fn view(focus: Focus) -> ViewState {
    ViewState {
        focus,
        selected: Some(1),
        host_count: 3,
        field_count: 4,
        field_index: 2,
        in_field_edit: false,
        modal_open: false,
        exit_after_session: true,
    }
}

fn key(k: Key) -> KeyPress {
    KeyPress { key: k, ctrl: false }
}

#[test]
fn key_decisions_in_the_table() {
    let v = view(Focus::Table);
    assert_eq!(decide_key(v, key(Key::Esc)), KeyDecision::Quit);
    assert_eq!(decide_key(v, key(Key::Tab)), KeyDecision::OpenForm);
    assert_eq!(decide_key(v, key(Key::Down)), KeyDecision::Select(2));
    assert_eq!(decide_key(v, key(Key::End)), KeyDecision::Select(2));
    assert_eq!(decide_key(v, key(Key::Enter)), KeyDecision::StartSession(1, true));
    assert_eq!(decide_key(v, KeyPress { key: Key::Char('c'), ctrl: true }), KeyDecision::Quit);
    assert_eq!(decide_key(v, KeyPress { key: Key::Char('p'), ctrl: true }), KeyDecision::Select(0));
    assert_eq!(decide_key(v, key(Key::Char('x'))), KeyDecision::Search);
}

#[test]
fn key_decisions_in_the_form() {
    let v = view(Focus::Form);
    assert_eq!(decide_key(v, key(Key::Down)), KeyDecision::SelectField(3));
    assert_eq!(decide_key(v, key(Key::Char('a'))), KeyDecision::OpenModal);
    assert_eq!(decide_key(v, key(Key::Enter)), KeyDecision::ToggleEdit(false));
    let editing = ViewState { in_field_edit: true, ..v };
    assert_eq!(decide_key(editing, key(Key::Char('a'))), KeyDecision::EditField);
    assert_eq!(decide_key(editing, key(Key::Tab)), KeyDecision::CloseForm(true));
    let modal = ViewState { modal_open: true, ..v };
    assert_eq!(decide_key(modal, key(Key::Esc)), KeyDecision::CancelModal);
    assert_eq!(decide_key(modal, key(Key::Enter)), KeyDecision::ConfirmModal);
    assert_eq!(decide_key(modal, key(Key::Down)), KeyDecision::ModalKey);
}

#[test]
fn field_chooser_offers_missing_fields() {
    let existing = vec![s("hostname"), s("user")];
    let modal = AddFieldModal::new(&existing);
    assert!(!modal.available_fields.contains(&s("name")));
    assert!(!modal.available_fields.contains(&s("aliases")));
    assert!(!modal.available_fields.contains(&s("user")));
    assert!(modal.available_fields.contains(&s("port")));
    assert_eq!(modal.available_fields.len(), 102 - 4);
    assert_eq!(modal.filtered_fields, modal.available_fields);
    assert_eq!(modal.selected_index, 0);
}

#[test]
fn field_chooser_filters_and_moves() {
    let mut modal = AddFieldModal::new(&[]);
    modal.filter = s("forward_x11");
    assert!(modal.handle_event(Key::Other));
    assert_eq!(
        modal.filtered_fields,
        vec![s("forward_x11"), s("forward_x11_timeout"), s("forward_x11_trusted")]
    );
    modal.handle_event(Key::Up);
    assert_eq!(modal.selected_index, 2);
    modal.handle_event(Key::Down);
    assert_eq!(modal.selected_index, 0);
    modal.selected_index = 2;
    modal.filter = s("zzz");
    modal.update_filtered();
    assert!(modal.filtered_fields.is_empty());
    assert_eq!(modal.selected_index, 2);
}

#[test]
fn form_edits_are_written_back() {
    let mut h = host("web", "example.com");
    h.user = Some(s("alice"));
    h.port = Some(s("22"));
    let edits = rows(&[("User", "bob"), ("Port", ""), ("Aliases", ""), ("Nonsense", "x")]);
    let out = apply_form(&h, &edits).unwrap();
    assert_eq!(out.user, Some(s("bob")));
    assert_eq!(out.port, None);
    assert_eq!(out.aliases, "");
    assert_eq!(out.name, "web");
    // the last entry for a field wins
    let out = apply_form(&h, &rows(&[("User", "a"), ("User", "b")])).unwrap();
    assert_eq!(out.user, Some(s("b")));
}

#[test]
fn clearing_name_or_hostname_is_refused() {
    let h = host("web", "example.com");
    assert!(apply_form(&h, &rows(&[("Name", "")])).is_none());
    assert!(apply_form(&h, &rows(&[("Hostname", "")])).is_none());
    assert!(apply_form(&h, &rows(&[("Name", ""), ("Name", "db")])).is_some());
}

#[test]
fn commit_detects_changes() {
    let h = host("web", "example.com");
    let mut u = h.clone();
    assert!(same_fields(&h, &u));
    assert_eq!(commit_changes(&Some(s("web")), Some(&h), &u), (false, false));
    u.user = Some(s("x"));
    assert!(!same_fields(&h, &u));
    assert_eq!(commit_changes(&Some(s("web")), Some(&h), &u), (false, true));
    u.name = s("db");
    assert_eq!(commit_changes(&Some(s("web")), None, &u), (true, false));
    assert_eq!(commit_changes(&None, None, &u), (false, false));
}

#[test]
fn form_rows_are_sorted_by_label() {
    let mut h = host("web", "example.com");
    h.user = Some(s("alice"));
    h.aliases = s("w");
    let added = vec![s("port"), s("forward_x11")];
    let listing = form_listing(&h, &added);
    assert_eq!(
        listing,
        rows(&[
            ("Aliases", "w"),
            ("ForwardX11", ""),
            ("Hostname", "example.com"),
            ("Name", "web"),
            ("Port", ""),
            ("User", "alice"),
        ])
    );
    assert_eq!(first_row_labelled(&listing, "Port"), Some(4));
    assert_eq!(first_row_labelled(&listing, "Tag"), None);
    let dup = rows(&[("Port", "1"), ("User", "x"), ("Port", "")]);
    assert_eq!(last_row_labelled(&dup, "Port"), Some(2));
    assert_eq!(first_row_labelled(&dup, "Port"), Some(0));
}

#[test]
fn unedited_form_keeps_the_host() {
    let mut h = host("web", "example.com");
    h.user = Some(s("alice"));
    h.proxy_jump = Some(s("bastion"));
    let listing = form_listing(&h, &Vec::new());
    let out = apply_form(&h, &listing).unwrap();
    assert!(same_fields(&h, &out));
    assert_eq!(out, h);
}

#[test]
fn stable_order_sorts_and_keeps_ties() {
    let keys = vec![chars("b"), chars("a"), chars("b"), chars("")];
    assert_eq!(stable_order(&keys), vec![3, 1, 0, 2]);
    assert!(text_le_chars(&chars("ab"), &chars("b")));
    assert!(text_le_chars(&chars("a"), &chars("ab")));
    assert!(!text_le_chars(&chars("b"), &chars("ab")));
}

#[test]
fn hosts_sort_by_name_ignoring_case() {
    let hosts = vec![host("beta", "1"), host("Alpha", "2"), host("alpha", "3"), host("Gamma", "4")];
    let sorted = sort_hosts_by_name(&hosts);
    let names: Vec<&str> = sorted.iter().map(|h| h.name.as_str()).collect();
    assert_eq!(names, vec!["Alpha", "alpha", "beta", "Gamma"]);
}

#[test]
fn search_matches_fuzzily() {
    let mut a = host("production-web", "10.0.0.1");
    a.aliases = s("prod");
    let b = host("staging", "db.internal");
    let hosts = vec![a.clone(), b.clone()];
    assert!(host_matches(&a, ""));
    assert!(host_matches(&a, "pweb"));
    assert!(!host_matches(&b, "pweb"));
    assert!(host_matches(&b, "dbint"));
    assert_eq!(search_hosts(&hosts, ""), vec![0, 1]);
    assert_eq!(search_hosts(&hosts, "stg"), vec![1]);
    assert_eq!(search_hosts(&hosts, "qqq"), Vec::<usize>::new());
}

#[test]
fn table_cells_and_widths() {
    let mut a = host("日本", "example.com");
    a.user = Some(s("root"));
    a.proxy_command = Some(s("nc %h %p"));
    let b = host("db", "x");
    assert_eq!(
        table_row(&a, true),
        vec![s("日本"), s(""), s("root"), s("example.com"), s(""), s("nc %h %p")]
    );
    assert_eq!(table_row(&b, false).len(), 5);
    let all = vec![a.clone(), b.clone()];
    assert_eq!(column_widths(&all, &all, false), vec![4, 0, 4, 11, 0]);
    assert_eq!(column_widths(&vec![b.clone()], &all, true), vec![2, 0, 4, 11, 0, 8]);
    assert_eq!(column_size(4), 5);
    assert_eq!(column_size(0), 1);
    assert_eq!(column_size(70000), 1);
}

#[test]
fn help_line_segments() {
    let msg = "(Esc) quit | (↑/↓) select host | (type) filter list of hosts";
    let segs = styled_help(msg);
    let expect: Vec<(String, bool)> = vec![
        (s("(Esc)"), true),
        (s(" quit"), false),
        (s(" | "), false),
        (s("(↑/↓)"), true),
        (s(" select host"), false),
        (s(" | "), false),
        (s("(type)"), true),
        (s(" filter list of hosts"), false),
    ];
    assert_eq!(segs, expect);
    assert_eq!(styled_help("plain"), vec![(s("plain"), false)]);
    assert_eq!(styled_help("(a) | (b)x"), vec![(s("(a)"), true), (s(" | "), false), (s("(b)"), true), (s(" x"), false)]);
    assert_eq!(
        split_text_chars(&chars("a | | b"), &chars(" | ")),
        vec![chars("a"), chars("| b")]
    );
}

#[test]
fn chooser_area_is_centered() {
    let r = Area { x: 0, y: 0, width: 100, height: 40 };
    assert_eq!(centered_rect(15, 60, r), Area { x: 20, y: 17, width: 60, height: 6 });
    let tall = Area { x: 0, y: 0, width: 100, height: 200 };
    assert_eq!(centered_rect(15, 60, tall), Area { x: 20, y: 85, width: 60, height: 30 });
    let small = Area { x: 5, y: 5, width: 10, height: 4 };
    assert_eq!(centered_rect(15, 60, small), Area { x: 7, y: 7, width: 6, height: 0 });
}

#[test]
fn chooser_window_follows_selection() {
    assert_eq!(scroll_window(20, 5, 2), (0, 5));
    assert_eq!(scroll_window(20, 5, 7), (3, 8));
    assert_eq!(scroll_window(3, 5, 2), (0, 3));
    assert_eq!(scroll_window(20, 5, 19), (15, 20));
}

#[test]
fn removing_a_host_drops_its_block() {
    let existing: Vec<String> = ["Host a", "  User x", "", "Host b", "  Port 1", "Host c"]
        .iter()
        .map(|x| s(x))
        .collect();
    let out = remove_host_lines(&existing, &s("b"));
    let expect: Vec<String> = ["Host a", "  User x", "", "Host c"].iter().map(|x| s(x)).collect();
    assert_eq!(out, expect);
    let same = remove_host_lines(&existing, &s("zzz"));
    let expect: Vec<String> =
        ["Host a", "  User x", "", "Host b", "  Port 1", "", "Host c"].iter().map(|x| s(x)).collect();
    assert_eq!(same, expect);
}

#[test]
fn writing_a_form_twice_is_writing_it_once() {
    let mut h = host("web", "example.com");
    h.user = Some(s("alice"));
    let edits = rows(&[("User", ""), ("Port", "2200"), ("Name", "db")]);
    let once = apply_form(&h, &edits).unwrap();
    let twice = apply_form(&once, &edits).unwrap();
    assert_eq!(once, twice);
    assert_eq!(once.name, "db");
    assert_eq!(once.user, None);
    assert_eq!(once.port, Some(s("2200")));
}

#[test]
fn escape_closes_chooser_or_quits() {
    for focus in [Focus::Table, Focus::Form] {
        for modal_open in [false, true] {
            for in_field_edit in [false, true] {
                let v = ViewState { modal_open, in_field_edit, host_count: 0, field_count: 0, ..view(focus) };
                let expected = if modal_open { KeyDecision::CancelModal } else { KeyDecision::Quit };
                assert_eq!(decide_key(v, key(Key::Esc)), expected);
                assert!(!key_would_fail(v, key(Key::Esc)));
                assert_eq!(search_follows(v), focus == Focus::Table && !modal_open);
            }
        }
    }
    let empty = ViewState { host_count: 0, ..view(Focus::Table) };
    assert!(key_would_fail(empty, key(Key::End)));
}

#[test]
fn commit_plans_follow_the_form() {
    let h = host("web", "example.com");
    let rows_same = rows(&[("Hostname", "example.com"), ("Name", "web")]);
    assert!(matches!(plan_commit(&None, &rows_same, 0, &Some(s("web")), Some(0), None), CommitPlan::NoHost));
    let cleared = rows(&[("Name", "")]);
    assert!(matches!(
        plan_commit(&Some(h.clone()), &cleared, 0, &Some(s("web")), Some(0), Some(&h)),
        CommitPlan::Refused
    ));
    match plan_commit(&Some(h.clone()), &rows_same, 1, &Some(s("web")), Some(0), Some(&h)) {
        CommitPlan::Keep { host, field } => {
            assert_eq!(host, h);
            assert_eq!(field, Some(s("Name")));
        }
        other => panic!("expected Keep, got {:?}", other),
    }
    let edited = rows(&[("Hostname", "example.com"), ("Name", "db"), ("User", "x")]);
    match plan_commit(&Some(h.clone()), &edited, 2, &Some(s("web")), Some(3), Some(&h)) {
        CommitPlan::Save { host, rename_from, row, field } => {
            assert_eq!(host.name, "db");
            assert_eq!(host.user, Some(s("x")));
            assert_eq!(rename_from, Some(s("web")));
            assert_eq!(row, Some(3));
            assert_eq!(field, Some(s("User")));
        }
        other => panic!("expected Save, got {:?}", other),
    }
    let user_only = rows(&[("User", "x")]);
    match plan_commit(&Some(h.clone()), &user_only, 9, &Some(s("web")), Some(3), None) {
        CommitPlan::Keep { host, field } => {
            assert_eq!(host.user, Some(s("x")));
            assert_eq!(field, None);
        }
        other => panic!("expected Keep, got {:?}", other),
    }
    match plan_commit(&Some(h.clone()), &user_only, 9, &Some(s("old")), Some(3), None) {
        CommitPlan::Save { rename_from, row, field, .. } => {
            assert_eq!(rename_from, Some(s("old")));
            assert_eq!(row, None);
            assert_eq!(field, None);
        }
        other => panic!("expected Save, got {:?}", other),
    }
}

#[test]
fn chooser_confirms_the_selected_field() {
    let mut modal = AddFieldModal::new(&[]);
    modal.filter = s("forward_x11");
    modal.update_filtered();
    modal.handle_event(Key::Down);
    assert_eq!(modal.chosen_field(), Some(s("forward_x11_timeout")));
    modal.filter = s("zzz");
    modal.update_filtered();
    assert_eq!(modal.chosen_field(), None);
    let listing = rows(&[("ForwardX11Timeout", ""), ("Name", "web"), ("ForwardX11Timeout", "")]);
    assert_eq!(added_field_row(&listing, "forward_x11_timeout"), Some(2));
    assert_eq!(added_field_row(&listing, "port"), None);
}

#[test]
fn fuzzy_search_uses_smart_case() {
    let a = host("Production-Web", "10.0.0.1");
    assert!(host_matches(&a, "pw"));
    assert!(host_matches(&a, "PW"));
    assert!(!host_matches(&a, "Pw1x"));
    let b = host("production-web", "x");
    assert!(!host_matches(&b, "PW"));
    assert!(host_matches(&b, "pw"));
}

#[test]
fn render_errors_carry_the_renderer_message() {
    let h = host("web", "example.com");
    let data: std::collections::BTreeMap<String, Option<String>> = std::collections::BTreeMap::new();
    let expected = handlebars::Handlebars::new()
        .render_template("{{#if}}", &data)
        .unwrap_err()
        .to_string();
    assert_eq!(sshs::command::render_command(&h, "{{#if}}"), Err(expected));
}

#[test]
fn chooser_keeps_its_state_over_keys() {
    let mut modal = AddFieldModal::new(&[s("hostname")]);
    let offered = modal.available_fields.clone();
    for (key, filter) in [
        (Key::Char('p'), "p"),
        (Key::Down, "p"),
        (Key::Down, "p"),
        (Key::Char('x'), "px"),
        (Key::Up, "px"),
        (Key::Other, ""),
        (Key::Up, ""),
    ] {
        modal.filter = s(filter);
        assert!(modal.handle_event(key));
        assert_eq!(modal.available_fields, offered);
        let expected: Vec<String> =
            offered.iter().filter(|f| filter.is_empty() || f.contains(filter)).cloned().collect();
        assert_eq!(modal.filtered_fields, expected);
        assert!(modal.filtered_fields.is_empty() || modal.selected_index < modal.filtered_fields.len());
    }
    assert_eq!(modal.selected_index, 1);
}
