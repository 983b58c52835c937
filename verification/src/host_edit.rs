//! Editing host records field by field: the rows the form lists for a
//! host, what the form writes back into it, and what saving an edit
//! changes.

use vstd::prelude::*;
use crate::config_file::pascal;
use crate::config_host::opt_view;
use crate::host::{Host, HOST_FIELD_COUNT, field_name, field_name_at, field_names, present_fields};
use crate::order::{
    is_stable_order, lowercase_text, pairs_text, permute_pairs, permuted, stable_order,
    to_lowercase,
};
use crate::text::{chars_of, same_text, strings_view};
use crate::ui_logic::{snake, to_pascal_case, to_snake_case};

verus! {

/// Fields that hold a plain string rather than an optional one.
pub open spec fn is_string_field(i: int) -> bool {
    i == 2 || i == 43 || i == 60
}

impl Host {
    /// Sets field `i` to `v`.
    #[verifier::rlimit(100)]
    pub fn set_field_at(&mut self, i: usize, v: Option<String>)
        requires
            i < HOST_FIELD_COUNT,
            is_string_field(i as int) ==> v is Some,
        ensures
            final(self).field_values() == old(self).field_values().update(i as int, opt_view(v)),
    {
        match i {
            0 => {
                self.add_keys_to_agent = v;
                assert(self.field_values() =~= old(self).field_values().update(i as int, opt_view(v)));
            },
            1 => {
                self.address_family = v;
                assert(self.field_values() =~= old(self).field_values().update(i as int, opt_view(v)));
            },
            2 => {
                self.aliases = match v { Some(x) => x, None => String::new() };
                assert(self.field_values() =~= old(self).field_values().update(i as int, opt_view(v)));
            },
            3 => {
                self.batch_mode = v;
                assert(self.field_values() =~= old(self).field_values().update(i as int, opt_view(v)));
            },
            4 => {
                self.bind_address = v;
                assert(self.field_values() =~= old(self).field_values().update(i as int, opt_view(v)));
            },
            5 => {
                self.bind_interface = v;
                assert(self.field_values() =~= old(self).field_values().update(i as int, opt_view(v)));
            },
            6 => {
                self.ca_signature_algorithms = v;
                assert(self.field_values() =~= old(self).field_values().update(i as int, opt_view(v)));
            },
            7 => {
                self.canonical_domains = v;
                assert(self.field_values() =~= old(self).field_values().update(i as int, opt_view(v)));
            },
            8 => {
                self.canonicalize_fallback_local = v;
                assert(self.field_values() =~= old(self).field_values().update(i as int, opt_view(v)));
            },
            9 => {
                self.canonicalize_hostname = v;
                assert(self.field_values() =~= old(self).field_values().update(i as int, opt_view(v)));
            },
            10 => {
                self.canonicalize_max_dots = v;
                assert(self.field_values() =~= old(self).field_values().update(i as int, opt_view(v)));
            },
            11 => {
                self.canonicalize_permitted_cnames = v;
                assert(self.field_values() =~= old(self).field_values().update(i as int, opt_view(v)));
            },
            12 => {
                self.certificate_file = v;
                assert(self.field_values() =~= old(self).field_values().update(i as int, opt_view(v)));
            },
            13 => {
                self.channel_timeout = v;
                assert(self.field_values() =~= old(self).field_values().update(i as int, opt_view(v)));
            },
            14 => {
                self.check_host_ip = v;
                assert(self.field_values() =~= old(self).field_values().update(i as int, opt_view(v)));
            },
            15 => {
                self.ciphers = v;
                assert(self.field_values() =~= old(self).field_values().update(i as int, opt_view(v)));
            },
            16 => {
                self.clear_all_forwardings = v;
                assert(self.field_values() =~= old(self).field_values().update(i as int, opt_view(v)));
            },
            17 => {
                self.compression = v;
                assert(self.field_values() =~= old(self).field_values().update(i as int, opt_view(v)));
            },
            18 => {
                self.connect_timeout = v;
                assert(self.field_values() =~= old(self).field_values().update(i as int, opt_view(v)));
            },
            19 => {
                self.connection_attempts = v;
                assert(self.field_values() =~= old(self).field_values().update(i as int, opt_view(v)));
            },
            20 => {
                self.control_master = v;
                assert(self.field_values() =~= old(self).field_values().update(i as int, opt_view(v)));
            },
            21 => {
                self.control_path = v;
                assert(self.field_values() =~= old(self).field_values().update(i as int, opt_view(v)));
            },
            22 => {
                self.control_persist = v;
                assert(self.field_values() =~= old(self).field_values().update(i as int, opt_view(v)));
            },
            23 => {
                self.dynamic_forward = v;
                assert(self.field_values() =~= old(self).field_values().update(i as int, opt_view(v)));
            },
            24 => {
                self.enable_escape_commandline = v;
                assert(self.field_values() =~= old(self).field_values().update(i as int, opt_view(v)));
            },
            25 => {
                self.enable_ssh_keysign = v;
                assert(self.field_values() =~= old(self).field_values().update(i as int, opt_view(v)));
            },
            26 => {
                self.escape_char = v;
                assert(self.field_values() =~= old(self).field_values().update(i as int, opt_view(v)));
            },
            27 => {
                self.exit_on_forward_failure = v;
                assert(self.field_values() =~= old(self).field_values().update(i as int, opt_view(v)));
            },
            28 => {
                self.fingerprint_hash = v;
                assert(self.field_values() =~= old(self).field_values().update(i as int, opt_view(v)));
            },
            29 => {
                self.fork_after_authentication = v;
                assert(self.field_values() =~= old(self).field_values().update(i as int, opt_view(v)));
            },
            30 => {
                self.forward_agent = v;
                assert(self.field_values() =~= old(self).field_values().update(i as int, opt_view(v)));
            },
            31 => {
                self.forward_x11 = v;
                assert(self.field_values() =~= old(self).field_values().update(i as int, opt_view(v)));
            },
            32 => {
                self.forward_x11_timeout = v;
                assert(self.field_values() =~= old(self).field_values().update(i as int, opt_view(v)));
            },
            33 => {
                self.forward_x11_trusted = v;
                assert(self.field_values() =~= old(self).field_values().update(i as int, opt_view(v)));
            },
            34 => {
                self.gateway_ports = v;
                assert(self.field_values() =~= old(self).field_values().update(i as int, opt_view(v)));
            },
            35 => {
                self.global_known_hosts_file = v;
                assert(self.field_values() =~= old(self).field_values().update(i as int, opt_view(v)));
            },
            36 => {
                self.gssapi_authentication = v;
                assert(self.field_values() =~= old(self).field_values().update(i as int, opt_view(v)));
            },
            37 => {
                self.gssapi_delegate_credentials = v;
                assert(self.field_values() =~= old(self).field_values().update(i as int, opt_view(v)));
            },
            38 => {
                self.hash_known_hosts = v;
                assert(self.field_values() =~= old(self).field_values().update(i as int, opt_view(v)));
            },
            39 => {
                self.host_key_algorithms = v;
                assert(self.field_values() =~= old(self).field_values().update(i as int, opt_view(v)));
            },
            40 => {
                self.host_key_alias = v;
                assert(self.field_values() =~= old(self).field_values().update(i as int, opt_view(v)));
            },
            41 => {
                self.hostbased_accepted_algorithms = v;
                assert(self.field_values() =~= old(self).field_values().update(i as int, opt_view(v)));
            },
            42 => {
                self.hostbased_authentication = v;
                assert(self.field_values() =~= old(self).field_values().update(i as int, opt_view(v)));
            },
            43 => {
                self.hostname = match v { Some(x) => x, None => String::new() };
                assert(self.field_values() =~= old(self).field_values().update(i as int, opt_view(v)));
            },
            44 => {
                self.identities_only = v;
                assert(self.field_values() =~= old(self).field_values().update(i as int, opt_view(v)));
            },
            45 => {
                self.identity_agent = v;
                assert(self.field_values() =~= old(self).field_values().update(i as int, opt_view(v)));
            },
            46 => {
                self.identity_file = v;
                assert(self.field_values() =~= old(self).field_values().update(i as int, opt_view(v)));
            },
            47 => {
                self.ignore_unknown = v;
                assert(self.field_values() =~= old(self).field_values().update(i as int, opt_view(v)));
            },
            48 => {
                self.include_files = v;
                assert(self.field_values() =~= old(self).field_values().update(i as int, opt_view(v)));
            },
            49 => {
                self.ipqos = v;
                assert(self.field_values() =~= old(self).field_values().update(i as int, opt_view(v)));
            },
            50 => {
                self.kbd_interactive_authentication = v;
                assert(self.field_values() =~= old(self).field_values().update(i as int, opt_view(v)));
            },
            51 => {
                self.kbd_interactive_devices = v;
                assert(self.field_values() =~= old(self).field_values().update(i as int, opt_view(v)));
            },
            52 => {
                self.kex_algorithms = v;
                assert(self.field_values() =~= old(self).field_values().update(i as int, opt_view(v)));
            },
            53 => {
                self.known_hosts_command = v;
                assert(self.field_values() =~= old(self).field_values().update(i as int, opt_view(v)));
            },
            54 => {
                self.local_command = v;
                assert(self.field_values() =~= old(self).field_values().update(i as int, opt_view(v)));
            },
            55 => {
                self.local_forward = v;
                assert(self.field_values() =~= old(self).field_values().update(i as int, opt_view(v)));
            },
            56 => {
                self.log_level = v;
                assert(self.field_values() =~= old(self).field_values().update(i as int, opt_view(v)));
            },
            57 => {
                self.log_verbose = v;
                assert(self.field_values() =~= old(self).field_values().update(i as int, opt_view(v)));
            },
            58 => {
                self.macs = v;
                assert(self.field_values() =~= old(self).field_values().update(i as int, opt_view(v)));
            },
            59 => {
                self.match_field = v;
                assert(self.field_values() =~= old(self).field_values().update(i as int, opt_view(v)));
            },
            60 => {
                self.name = match v { Some(x) => x, None => String::new() };
                assert(self.field_values() =~= old(self).field_values().update(i as int, opt_view(v)));
            },
            61 => {
                self.no_host_authentication_for_localhost = v;
                assert(self.field_values() =~= old(self).field_values().update(i as int, opt_view(v)));
            },
            62 => {
                self.number_of_password_prompts = v;
                assert(self.field_values() =~= old(self).field_values().update(i as int, opt_view(v)));
            },
            63 => {
                self.obscure_keystroke_timing = v;
                assert(self.field_values() =~= old(self).field_values().update(i as int, opt_view(v)));
            },
            64 => {
                self.password_authentication = v;
                assert(self.field_values() =~= old(self).field_values().update(i as int, opt_view(v)));
            },
            65 => {
                self.permit_local_command = v;
                assert(self.field_values() =~= old(self).field_values().update(i as int, opt_view(v)));
            },
            66 => {
                self.permit_remote_open = v;
                assert(self.field_values() =~= old(self).field_values().update(i as int, opt_view(v)));
            },
            67 => {
                self.pkcs11_provider = v;
                assert(self.field_values() =~= old(self).field_values().update(i as int, opt_view(v)));
            },
            68 => {
                self.port = v;
                assert(self.field_values() =~= old(self).field_values().update(i as int, opt_view(v)));
            },
            69 => {
                self.preferred_authentications = v;
                assert(self.field_values() =~= old(self).field_values().update(i as int, opt_view(v)));
            },
            70 => {
                self.proxy_command = v;
                assert(self.field_values() =~= old(self).field_values().update(i as int, opt_view(v)));
            },
            71 => {
                self.proxy_jump = v;
                assert(self.field_values() =~= old(self).field_values().update(i as int, opt_view(v)));
            },
            72 => {
                self.proxy_use_fdpass = v;
                assert(self.field_values() =~= old(self).field_values().update(i as int, opt_view(v)));
            },
            73 => {
                self.pubkey_accepted_algorithms = v;
                assert(self.field_values() =~= old(self).field_values().update(i as int, opt_view(v)));
            },
            74 => {
                self.pubkey_authentication = v;
                assert(self.field_values() =~= old(self).field_values().update(i as int, opt_view(v)));
            },
            75 => {
                self.rekey_limit = v;
                assert(self.field_values() =~= old(self).field_values().update(i as int, opt_view(v)));
            },
            76 => {
                self.remote_command = v;
                assert(self.field_values() =~= old(self).field_values().update(i as int, opt_view(v)));
            },
            77 => {
                self.remote_forward = v;
                assert(self.field_values() =~= old(self).field_values().update(i as int, opt_view(v)));
            },
            78 => {
                self.request_tty = v;
                assert(self.field_values() =~= old(self).field_values().update(i as int, opt_view(v)));
            },
            79 => {
                self.required_rsa_size = v;
                assert(self.field_values() =~= old(self).field_values().update(i as int, opt_view(v)));
            },
            80 => {
                self.revoked_host_keys = v;
                assert(self.field_values() =~= old(self).field_values().update(i as int, opt_view(v)));
            },
            81 => {
                self.security_key_provider = v;
                assert(self.field_values() =~= old(self).field_values().update(i as int, opt_view(v)));
            },
            82 => {
                self.send_env = v;
                assert(self.field_values() =~= old(self).field_values().update(i as int, opt_view(v)));
            },
            83 => {
                self.server_alive_count_max = v;
                assert(self.field_values() =~= old(self).field_values().update(i as int, opt_view(v)));
            },
            84 => {
                self.server_alive_interval = v;
                assert(self.field_values() =~= old(self).field_values().update(i as int, opt_view(v)));
            },
            85 => {
                self.session_type = v;
                assert(self.field_values() =~= old(self).field_values().update(i as int, opt_view(v)));
            },
            86 => {
                self.set_env = v;
                assert(self.field_values() =~= old(self).field_values().update(i as int, opt_view(v)));
            },
            87 => {
                self.stdin_null = v;
                assert(self.field_values() =~= old(self).field_values().update(i as int, opt_view(v)));
            },
            88 => {
                self.stream_local_bind_mask = v;
                assert(self.field_values() =~= old(self).field_values().update(i as int, opt_view(v)));
            },
            89 => {
                self.stream_local_bind_unlink = v;
                assert(self.field_values() =~= old(self).field_values().update(i as int, opt_view(v)));
            },
            90 => {
                self.strict_host_key_checking = v;
                assert(self.field_values() =~= old(self).field_values().update(i as int, opt_view(v)));
            },
            91 => {
                self.syslog_facility = v;
                assert(self.field_values() =~= old(self).field_values().update(i as int, opt_view(v)));
            },
            92 => {
                self.tag = v;
                assert(self.field_values() =~= old(self).field_values().update(i as int, opt_view(v)));
            },
            93 => {
                self.tcp_keep_alive = v;
                assert(self.field_values() =~= old(self).field_values().update(i as int, opt_view(v)));
            },
            94 => {
                self.tunnel = v;
                assert(self.field_values() =~= old(self).field_values().update(i as int, opt_view(v)));
            },
            95 => {
                self.tunnel_device = v;
                assert(self.field_values() =~= old(self).field_values().update(i as int, opt_view(v)));
            },
            96 => {
                self.update_host_keys = v;
                assert(self.field_values() =~= old(self).field_values().update(i as int, opt_view(v)));
            },
            97 => {
                self.user = v;
                assert(self.field_values() =~= old(self).field_values().update(i as int, opt_view(v)));
            },
            98 => {
                self.user_known_hosts_file = v;
                assert(self.field_values() =~= old(self).field_values().update(i as int, opt_view(v)));
            },
            99 => {
                self.verify_host_key_dns = v;
                assert(self.field_values() =~= old(self).field_values().update(i as int, opt_view(v)));
            },
            100 => {
                self.visual_host_key = v;
                assert(self.field_values() =~= old(self).field_values().update(i as int, opt_view(v)));
            },
            101 => {
                self.x_auth_location = v;
                assert(self.field_values() =~= old(self).field_values().update(i as int, opt_view(v)));
            },
            _ => {},
        }
    }
}


/// What the form's entries write into field `i`: `None` when no entry's
/// label names it; otherwise the text of the last entry that does, where an
/// empty text clears the field (and leaves `aliases`, field 2, empty).
pub open spec fn form_entry(edits: Seq<(Seq<char>, Seq<char>)>, i: int) -> Option<Option<Seq<char>>>
    decreases edits.len(),
{
    if edits.len() == 0 {
        None
    } else if snake(edits.last().0) == field_name(i) {
        Some(
            if edits.last().1.len() == 0 {
                if i == 2 {
                    Some(Seq::<char>::empty())
                } else {
                    None
                }
            } else {
                Some(edits.last().1)
            },
        )
    } else {
        form_entry(edits.drop_last(), i)
    }
}

/// The value of field `i` once the form is written into `h`.
pub open spec fn form_value(h: Host, edits: Seq<(Seq<char>, Seq<char>)>, i: int) -> Option<Seq<char>> {
    match form_entry(edits, i) {
        Some(v) => v,
        None => h.field_value(i),
    }
}

/// Every field's value once the form is written into `h`.
pub open spec fn form_values(h: Host, edits: Seq<(Seq<char>, Seq<char>)>) -> Seq<Option<Seq<char>>> {
    Seq::new(HOST_FIELD_COUNT as nat, |i: int| form_value(h, edits, i))
}

/// The form can be written into `h`: it clears neither `hostname` (field 43)
/// nor `name` (field 60), which a host record cannot be without.
pub open spec fn form_applies(h: Host, edits: Seq<(Seq<char>, Seq<char>)>) -> bool {
    form_value(h, edits, 43) is Some && form_value(h, edits, 60) is Some
}

/// Writes the form's entries, in order, into a copy of `host`: each entry
/// sets the field whose snake_case name is its label; labels that name no
/// field change nothing. `None` when the result would have no `name` or no
/// `hostname`.
pub fn apply_form(host: &Host, edits: &Vec<(String, String)>) -> (r: Option<Host>)
    ensures
        r is Some <==> form_applies(*host, pairs_text(edits@)),
        r matches Some(h) ==> h.field_values() == form_values(*host, pairs_text(edits@)),
{
    let ghost ev = pairs_text(edits@);
    let mut work = host.clone();
    let mut name_cleared = false;
    let mut hostname_cleared = false;
    let mut k: usize = 0;
    while k < edits.len()
        invariant
            k <= edits@.len(),
            ev == pairs_text(edits@),
            forall|i: int| 0 <= i < HOST_FIELD_COUNT && i != 43 && i != 60
                ==> #[trigger] work.field_value(i) == form_value(*host, ev.take(k as int), i),
            hostname_cleared == (form_value(*host, ev.take(k as int), 43) is None),
            !hostname_cleared ==> work.field_value(43) == form_value(*host, ev.take(k as int), 43),
            name_cleared == (form_value(*host, ev.take(k as int), 60) is None),
            !name_cleared ==> work.field_value(60) == form_value(*host, ev.take(k as int), 60),
            work.field_value(43) is Some,
            work.field_value(60) is Some,
            work.field_value(2) is Some,
        decreases edits@.len() - k,
    {
        let ghost before = ev.take(k as int);
        let ghost after = ev.take(k + 1);
        assert(after.drop_last() =~= before);
        assert(after.last() == ev[k as int]);
        let key = to_snake_case(edits[k].0.as_str());
        let text = &edits[k].1;
        let empty = text.as_str().is_empty();
        let ghost start = work;
        let mut j: usize = 0;
        while j < HOST_FIELD_COUNT
            invariant
                j <= HOST_FIELD_COUNT,
                k < edits@.len(),
                ev == pairs_text(edits@),
                before == ev.take(k as int),
                after == ev.take(k + 1),
                after.drop_last() == before,
                after.last() == ev[k as int],
                key@ == snake(ev[k as int].0),
                text@ == ev[k as int].1,
                empty == (text@.len() == 0),
                forall|i: int| 0 <= i < HOST_FIELD_COUNT && i != 43 && i != 60
                    ==> #[trigger] start.field_value(i) == form_value(*host, before, i),
                hostname_cleared == (form_value(*host, (if j > 43 { after } else { before }), 43) is None),
                !hostname_cleared ==> work.field_value(43) == form_value(*host, (if j > 43 { after } else { before }), 43),
                name_cleared == (form_value(*host, (if j > 60 { after } else { before }), 60) is None),
                !name_cleared ==> work.field_value(60) == form_value(*host, (if j > 60 { after } else { before }), 60),
                forall|i: int| 0 <= i < j && i != 43 && i != 60
                    ==> #[trigger] work.field_value(i) == form_value(*host, after, i),
                forall|i: int| j <= i < HOST_FIELD_COUNT && i != 43 && i != 60
                    ==> #[trigger] work.field_value(i) == start.field_value(i),
                work.field_value(43) is Some,
                work.field_value(60) is Some,
                work.field_value(2) is Some,
            decreases HOST_FIELD_COUNT - j,
        {
            let ghost w0 = work;
            if same_text(field_name_at(j), key.as_str()) {
                if empty {
                    if j == 2 {
                        work.set_field_at(2, Some(String::new()));
                    } else if j == 43 {
                        hostname_cleared = true;
                    } else if j == 60 {
                        name_cleared = true;
                    } else {
                        work.set_field_at(j, None);
                    }
                } else {
                    work.set_field_at(j, Some(text.clone()));
                    if j == 43 {
                        hostname_cleared = false;
                    }
                    if j == 60 {
                        name_cleared = false;
                    }
                }
            }
            proof {
                assert forall|i: int| 0 <= i < HOST_FIELD_COUNT && i != j
                    implies #[trigger] work.field_value(i) == w0.field_value(i) by {
                    assert(work.field_values()[i] == w0.field_values()[i]);
                }
                assert(work.field_values()[j as int] == work.field_value(j as int));
            }
            j = j + 1;
        }
        k = k + 1;
    }
    assert(ev.take(edits@.len() as int) =~= ev);
    if name_cleared || hostname_cleared {
        None
    } else {
        assert(work.field_values() =~= form_values(*host, ev)) by {
            assert forall|i: int| 0 <= i < HOST_FIELD_COUNT implies #[trigger] work.field_values()[i]
                == form_values(*host, ev)[i] by {
                assert(work.field_values()[i] == work.field_value(i));
            }
        }
        Some(work)
    }
}


/// The two optional strings hold the same text, or are both absent.
fn same_opt(a: &Option<String>, b: &Option<String>) -> (r: bool)
    ensures
        r == (opt_view(*a) == opt_view(*b)),
{
    match (a, b) {
        (Some(x), Some(y)) => same_text(x.as_str(), y.as_str()),
        (None, None) => true,
        _ => false,
    }
}

/// Whether two host records hold the same value in every field.
pub fn same_fields(a: &Host, b: &Host) -> (r: bool)
    ensures
        r == (a.field_values() == b.field_values()),
{
    let mut j: usize = 0;
    while j < HOST_FIELD_COUNT
        invariant
            j <= HOST_FIELD_COUNT,
            forall|i: int| 0 <= i < j ==> #[trigger] a.field_values()[i] == b.field_values()[i],
        decreases HOST_FIELD_COUNT - j,
    {
        let x = a.field_value_at(j);
        let y = b.field_value_at(j);
        if !same_opt(&x, &y) {
            assert(a.field_values()[j as int] != b.field_values()[j as int]);
            return false;
        }
        j = j + 1;
    }
    assert(a.field_values() =~= b.field_values());
    true
}

/// What saving an edited host changes: whether its name differs from the
/// name it was loaded with, and whether the record differs from the one
/// listed for it.
pub fn commit_changes(original_name: &Option<String>, listed: Option<&Host>, updated: &Host) -> (r: (
    bool,
    bool,
))
    ensures
        r.0 == (original_name matches Some(n) && n@ != updated.name@),
        r.1 == (listed matches Some(h) && h.field_values() != updated.field_values()),
{
    let name_changed = match original_name {
        Some(n) => !same_text(n.as_str(), updated.name.as_str()),
        None => false,
    };
    let has_changes = match listed {
        Some(h) => !same_fields(h, updated),
        None => false,
    };
    (name_changed, has_changes)
}

/// The rows the form lists for a host: its present fields with their
/// values, then an empty row for each field the user added.
pub open spec fn form_rows(h: Host, added: Seq<Seq<char>>) -> Seq<(Seq<char>, Seq<char>)> {
    present_fields(field_names(), h.field_values(), HOST_FIELD_COUNT as nat) + added.map_values(
        |f: Seq<char>| (f, Seq::<char>::empty()),
    )
}

/// The first text of each row.
pub open spec fn row_names(rows: Seq<(Seq<char>, Seq<char>)>) -> Seq<Seq<char>> {
    rows.map_values(|r: (Seq<char>, Seq<char>)| r.0)
}

/// Rows with their field names turned into form labels.
pub open spec fn labelled(rows: Seq<(Seq<char>, Seq<char>)>) -> Seq<(Seq<char>, Seq<char>)> {
    rows.map_values(|r: (Seq<char>, Seq<char>)| (pascal(r.0), r.1))
}

/// The lower-cased labels of rows.
pub open spec fn label_keys(rows: Seq<(Seq<char>, Seq<char>)>) -> Seq<Seq<char>> {
    rows.map_values(|r: (Seq<char>, Seq<char>)| lowercase_text(r.0))
}

/// `out` lists `rows` sorted stably by field name, relabelled, then sorted
/// stably by lower-cased label.
pub open spec fn is_form_listing(rows: Seq<(Seq<char>, Seq<char>)>, out: Seq<(Seq<char>, Seq<char>)>) -> bool {
    exists|p1: Seq<usize>, p2: Seq<usize>|
        #![trigger permuted(labelled(permuted(rows, p1)), p2)]
        is_stable_order(row_names(rows), p1) && is_stable_order(
            label_keys(labelled(permuted(rows, p1))),
            p2,
        ) && out == permuted(labelled(permuted(rows, p1)), p2)
}

/// The character lists of the first texts of rows.
fn first_chars(rows: &Vec<(String, String)>) -> (r: Vec<Vec<char>>)
    ensures
        r@.map_values(|k: Vec<char>| k@) == row_names(pairs_text(rows@)),
{
    let mut r: Vec<Vec<char>> = Vec::new();
    let mut i: usize = 0;
    while i < rows.len()
        invariant
            i <= rows@.len(),
            r@.map_values(|k: Vec<char>| k@) == row_names(pairs_text(rows@)).take(i as int),
        decreases rows@.len() - i,
    {
        let ghost before = r@;
        r.push(chars_of(rows[i].0.as_str()));
        assert(r@.map_values(|k: Vec<char>| k@) =~= before.map_values(|k: Vec<char>| k@).push(
            rows@[i as int].0@,
        ));
        assert(row_names(pairs_text(rows@)).take(i + 1) =~= row_names(pairs_text(rows@)).take(
            i as int,
        ).push(rows@[i as int].0@));
        i = i + 1;
    }
    assert(row_names(pairs_text(rows@)).take(rows@.len() as int) =~= row_names(pairs_text(rows@)));
    r
}

/// The form rows for a host and the fields the user added, in the order the
/// form shows them, each field name turned into its label.
pub fn form_listing(host: &Host, added: &Vec<String>) -> (r: Vec<(String, String)>)
    ensures
        is_form_listing(form_rows(*host, strings_view(added@)), pairs_text(r@)),
{
    let mut rows = host.iter_fields();
    let ghost rows0 = pairs_text(rows@);
    assert(rows0 =~= present_fields(field_names(), host.field_values(), HOST_FIELD_COUNT as nat));
    let ghost extra = strings_view(added@).map_values(|f: Seq<char>| (f, Seq::<char>::empty()));
    let mut i: usize = 0;
    while i < added.len()
        invariant
            i <= added@.len(),
            extra == strings_view(added@).map_values(|f: Seq<char>| (f, Seq::<char>::empty())),
            pairs_text(rows@) == rows0 + extra.take(i as int),
        decreases added@.len() - i,
    {
        let ghost before = rows@;
        rows.push((added[i].clone(), String::new()));
        assert(pairs_text(rows@) =~= pairs_text(before).push((added@[i as int]@, Seq::<char>::empty())));
        assert(extra.take(i + 1) =~= extra.take(i as int).push(extra[i as int]));
        i = i + 1;
    }
    assert(extra.take(added@.len() as int) =~= extra);
    let ghost all = pairs_text(rows@);
    assert(all == form_rows(*host, strings_view(added@)));
    let names = first_chars(&rows);
    let p1 = stable_order(&names);
    let sorted = permute_pairs(&rows, &p1);
    let mut relabelled: Vec<(String, String)> = Vec::new();
    let mut keys: Vec<Vec<char>> = Vec::new();
    let mut k: usize = 0;
    while k < sorted.len()
        invariant
            k <= sorted@.len(),
            pairs_text(relabelled@) == labelled(pairs_text(sorted@)).take(k as int),
            keys@.map_values(|x: Vec<char>| x@) == label_keys(labelled(pairs_text(sorted@))).take(
                k as int,
            ),
        decreases sorted@.len() - k,
    {
        let label = to_pascal_case(sorted[k].0.as_str());
        let lower = to_lowercase(label.as_str());
        let ghost before = relabelled@;
        let ghost kbefore = keys@;
        keys.push(chars_of(lower.as_str()));
        relabelled.push((label, sorted[k].1.clone()));
        assert(pairs_text(relabelled@) =~= pairs_text(before).push(
            (pascal(sorted@[k as int].0@), sorted@[k as int].1@),
        ));
        assert(labelled(pairs_text(sorted@)).take(k + 1) =~= labelled(pairs_text(sorted@)).take(
            k as int,
        ).push((pascal(sorted@[k as int].0@), sorted@[k as int].1@)));
        assert(keys@.map_values(|x: Vec<char>| x@) =~= kbefore.map_values(|x: Vec<char>| x@).push(
            lowercase_text(pascal(sorted@[k as int].0@)),
        ));
        assert(label_keys(labelled(pairs_text(sorted@))).take(k + 1) =~= label_keys(
            labelled(pairs_text(sorted@)),
        ).take(k as int).push(lowercase_text(pascal(sorted@[k as int].0@))));
        k = k + 1;
    }
    assert(labelled(pairs_text(sorted@)).take(sorted@.len() as int) =~= labelled(pairs_text(sorted@)));
    assert(label_keys(labelled(pairs_text(sorted@))).take(sorted@.len() as int) =~= label_keys(
        labelled(pairs_text(sorted@)),
    ));
    let p2 = stable_order(&keys);
    proof {
        assert(is_stable_order(row_names(all), p1@));
        assert forall|q: int| 0 <= q < p2@.len() implies #[trigger] p2@[q] < relabelled@.len() by {}
    }
    let r = permute_pairs(&relabelled, &p2);
    proof {
        assert(pairs_text(sorted@) == permuted(all, p1@));
        assert(is_stable_order(label_keys(labelled(permuted(all, p1@))), p2@));
        assert(pairs_text(r@) == permuted(labelled(permuted(all, p1@)), p2@));
    }
    r
}

/// Position of the first row whose label is `label`.
pub fn first_row_labelled(rows: &Vec<(String, String)>, label: &str) -> (r: Option<usize>)
    ensures
        match r {
            Some(i) => i < rows@.len() && rows@[i as int].0@ == label@ && forall|j: int|
                0 <= j < i ==> #[trigger] rows@[j].0@ != label@,
            None => forall|j: int| 0 <= j < rows@.len() ==> #[trigger] rows@[j].0@ != label@,
        },
{
    let mut i: usize = 0;
    while i < rows.len()
        invariant
            i <= rows@.len(),
            forall|j: int| 0 <= j < i ==> #[trigger] rows@[j].0@ != label@,
        decreases rows@.len() - i,
    {
        if same_text(rows[i].0.as_str(), label) {
            return Some(i);
        }
        i = i + 1;
    }
    None
}

/// Position of the last row whose label is `label`.
pub fn last_row_labelled(rows: &Vec<(String, String)>, label: &str) -> (r: Option<usize>)
    ensures
        match r {
            Some(i) => i < rows@.len() && rows@[i as int].0@ == label@ && forall|j: int|
                i < j < rows@.len() ==> #[trigger] rows@[j].0@ != label@,
            None => forall|j: int| 0 <= j < rows@.len() ==> #[trigger] rows@[j].0@ != label@,
        },
{
    let mut i: usize = rows.len();
    while i > 0
        invariant
            i <= rows@.len(),
            forall|j: int| i <= j < rows@.len() ==> #[trigger] rows@[j].0@ != label@,
        decreases i,
    {
        if same_text(rows[i - 1].0.as_str(), label) {
            return Some(i - 1);
        }
        i = i - 1;
    }
    None
}


/// Writing the same form twice gives the same fields as writing it once.
pub proof fn law_form_idempotent(h: Host, h2: Host, edits: Seq<(Seq<char>, Seq<char>)>)
    requires
        h2.field_values() == form_values(h, edits),
    ensures
        form_values(h2, edits) == form_values(h, edits),
{
    assert forall|i: int| 0 <= i < HOST_FIELD_COUNT implies #[trigger] form_values(h2, edits)[i]
        == form_values(h, edits)[i] by {
        assert(h2.field_values()[i] == h2.field_value(i));
    }
    assert(form_values(h2, edits) =~= form_values(h, edits));
}


/// What saving the edit form leads to.
#[derive(Debug)]
pub enum CommitPlan {
    /// No host is being edited: nothing changes.
    NoHost,
    /// The form would clear `name` or `hostname`: nothing changes.
    Refused,
    /// The written host keeps its name and differs in no field from the
    /// listed one: it becomes the edited host and nothing is saved; the
    /// cursor goes back to the row labelled `field`.
    Keep { host: Host, field: Option<String> },
    /// The written host is saved, after removing the block of `rename_from`
    /// when the host was renamed; it replaces the listed host on `row`, and
    /// the cursor goes back to the row labelled `field`.
    Save { host: Host, rename_from: Option<String>, row: Option<usize>, field: Option<String> },
}

/// The label of the form row the cursor is on, if it is on one.
pub open spec fn cursor_label(rows: Seq<(Seq<char>, Seq<char>)>, index: usize) -> Option<Seq<char>> {
    if index < rows.len() {
        Some(rows[index as int].0)
    } else {
        None
    }
}

/// Decides what saving the form does: `edited` is the host being edited,
/// `rows` the form's (label, text) rows with the cursor on `field_index`,
/// `original_name` the name the host was loaded with, and `listed` the host
/// listed on the selected `row`, if that row is listed.
pub fn plan_commit(
    edited: &Option<Host>,
    rows: &Vec<(String, String)>,
    field_index: usize,
    original_name: &Option<String>,
    row: Option<usize>,
    listed: Option<&Host>,
) -> (r: CommitPlan)
    ensures
        match *edited {
            None => r is NoHost,
            Some(h) => {
                let edits = pairs_text(rows@);
                let label = cursor_label(edits, field_index);
                if !form_applies(h, edits) {
                    r is Refused
                } else {
                    let renamed = original_name matches Some(n) && n@ != form_values(h, edits)[60]->0;
                    let changed = listed matches Some(l) && l.field_values() != form_values(h, edits);
                    if !changed && !renamed {
                        r matches CommitPlan::Keep { host, field } && host.field_values()
                            == form_values(h, edits) && opt_view(field) == label
                    } else {
                        r matches CommitPlan::Save { host, rename_from, row: target, field } && host.field_values()
                            == form_values(h, edits) && opt_view(field) == label && (if renamed {
                            rename_from == *original_name
                        } else {
                            rename_from is None
                        }) && target == (if listed is Some {
                            row
                        } else {
                            None
                        })
                    }
                }
            },
        },
{
    let h = match edited {
        Some(h) => h,
        None => {
            return CommitPlan::NoHost;
        },
    };
    let field = if field_index < rows.len() {
        Some(rows[field_index].0.clone())
    } else {
        None
    };
    let updated = match apply_form(h, rows) {
        Some(u) => u,
        None => {
            return CommitPlan::Refused;
        },
    };
    proof {
        assert(updated.field_values()[60] == updated.field_value(60));
    }
    let (renamed, changed) = commit_changes(original_name, listed, &updated);
    if !changed && !renamed {
        CommitPlan::Keep { host: updated, field }
    } else {
        let rename_from = if renamed {
            match original_name {
                Some(n) => Some(n.clone()),
                None => None,
            }
        } else {
            None
        };
        let target = match listed {
            Some(_) => row,
            None => None,
        };
        CommitPlan::Save { host: updated, rename_from, row: target, field }
    }
}

/// The row the cursor goes to after `field` was added through the chooser:
/// the last row labelled with the field's label.
pub fn added_field_row(rows: &Vec<(String, String)>, field: &str) -> (r: Option<usize>)
    ensures
        match r {
            Some(i) => i < rows@.len() && rows@[i as int].0@ == pascal(field@) && forall|j: int|
                i < j < rows@.len() ==> #[trigger] rows@[j].0@ != pascal(field@),
            None => forall|j: int| 0 <= j < rows@.len() ==> #[trigger] rows@[j].0@ != pascal(field@),
        },
{
    let label = to_pascal_case(field);
    last_row_labelled(rows, label.as_str())
}

} // verus!
