//! What saving a host record into a configuration file promises: the file
//! then holds the record's block where the host's block was (or at the
//! end), every other block unchanged, and saving again changes nothing;
//! with the facts about field names these rest on.

use vstd::prelude::*;
use crate::config_file::{
    ascii_lower, ascii_upper, pascal,
    block_file_lines, block_is_for, blocks_with_host, config_blocks, first_block_for,
    blocks_without_host, host_block_lines, host_line, is_host_line, option_lines,
    removed_config_lines, saved_config_lines, scan_blocks,
};
use crate::host::{HOST_FIELD_COUNT, Host, field_name, field_names, present_fields};
use crate::order::{lemma_text_le_trans, text_le};
use crate::ui_logic::is_snake_name;
use crate::text::{is_blank, is_ws, words};

verus! {

/// The state of the block reader after one more line.
pub open spec fn scan_step(state: (Seq<Seq<Seq<char>>>, Seq<Seq<char>>), line: Seq<char>) -> (
    Seq<Seq<Seq<char>>>,
    Seq<Seq<char>>,
) {
    let (done, cur) = state;
    let (done2, cur2) = if is_host_line(line) && cur.len() > 0 {
        (done.push(cur), Seq::<Seq<char>>::empty())
    } else {
        (done, cur)
    };
    if is_blank(line) {
        (done2, cur2)
    } else {
        (done2, cur2.push(line))
    }
}

/// The state of the block reader after reading `lines` from `state`.
pub open spec fn scan_from(state: (Seq<Seq<Seq<char>>>, Seq<Seq<char>>), lines: Seq<Seq<char>>) -> (
    Seq<Seq<Seq<char>>>,
    Seq<Seq<char>>,
)
    decreases lines.len(),
{
    if lines.len() == 0 {
        state
    } else {
        scan_step(scan_from(state, lines.drop_last()), lines.last())
    }
}

/// A block as the reader builds it: non-empty, without blank lines, and
/// with no host line but possibly the first.
pub open spec fn valid_block(b: Seq<Seq<char>>) -> bool {
    &&& b.len() > 0
    &&& forall|j: int| 0 <= j < b.len() ==> !is_blank(#[trigger] b[j])
    &&& forall|j: int| 1 <= j < b.len() ==> !is_host_line(#[trigger] b[j])
}

/// Blocks as the reader returns them: each valid, and each but the first
/// opened by a host line.
pub open spec fn well_formed_blocks(bs: Seq<Seq<Seq<char>>>) -> bool {
    forall|k: int| 0 <= k < bs.len() ==> valid_block(#[trigger] bs[k]) && (k > 0 ==> is_host_line(bs[k][0]))
}

proof fn lemma_scan_blocks_is_scan_from(lines: Seq<Seq<char>>)
    ensures
        scan_blocks(lines) == scan_from((Seq::<Seq<Seq<char>>>::empty(), Seq::<Seq<char>>::empty()), lines),
    decreases lines.len(),
{
    if lines.len() > 0 {
        lemma_scan_blocks_is_scan_from(lines.drop_last());
    }
}

proof fn lemma_scan_from_concat(
    state: (Seq<Seq<Seq<char>>>, Seq<Seq<char>>),
    a: Seq<Seq<char>>,
    b: Seq<Seq<char>>,
)
    ensures
        scan_from(state, a + b) == scan_from(scan_from(state, a), b),
    decreases b.len(),
{
    if b.len() == 0 {
        assert(a + b =~= a);
    } else {
        assert((a + b).drop_last() =~= a + b.drop_last());
        assert((a + b).last() == b.last());
        lemma_scan_from_concat(state, a, b.drop_last());
    }
}

/// Lines that neither are blank nor open a block are added to the block
/// being read.
proof fn lemma_scan_appends(done: Seq<Seq<Seq<char>>>, cur: Seq<Seq<char>>, xs: Seq<Seq<char>>)
    requires
        forall|j: int| 0 <= j < xs.len() ==> !is_blank(#[trigger] xs[j]) && !is_host_line(xs[j]),
    ensures
        scan_from((done, cur), xs) == (done, cur + xs),
    decreases xs.len(),
{
    if xs.len() == 0 {
        assert(cur + xs =~= cur);
    } else {
        lemma_scan_appends(done, cur, xs.drop_last());
        assert(!is_blank(xs[xs.len() - 1]) && !is_host_line(xs[xs.len() - 1]));
        assert(cur + xs =~= (cur + xs.drop_last()).push(xs.last()));
    }
}

/// Reading a valid block that starts with a host line while a block is
/// open closes that block and leaves the new one open.
proof fn lemma_scan_block(done: Seq<Seq<Seq<char>>>, cur: Seq<Seq<char>>, blk: Seq<Seq<char>>)
    requires
        valid_block(blk),
        cur.len() > 0 ==> is_host_line(blk[0]),
    ensures
        scan_from((done, cur), blk) == (if cur.len() > 0 {
            (done.push(cur), blk)
        } else {
            (done, blk)
        }),
{
    let first = seq![blk[0]];
    let rest = blk.skip(1);
    assert(blk =~= first + rest);
    lemma_scan_from_concat((done, cur), first, rest);
    assert(first.drop_last() =~= Seq::<Seq<char>>::empty());
    assert(!is_blank(blk[0]));
    let mid = scan_from((done, cur), first);
    assert(first.last() == blk[0]);
    assert(scan_from((done, cur), first.drop_last()) == (done, cur));
    assert(mid == scan_step((done, cur), blk[0]));
    let expected = if cur.len() > 0 {
        (done.push(cur), seq![blk[0]])
    } else {
        (done, seq![blk[0]])
    };
    assert(mid == expected) by {
        if cur.len() > 0 {
            assert(Seq::<Seq<char>>::empty().push(blk[0]) =~= seq![blk[0]]);
        } else {
            assert(cur.push(blk[0]) =~= seq![blk[0]]);
        }
    }
    assert forall|j: int| 0 <= j < rest.len() implies !is_blank(#[trigger] rest[j]) && !is_host_line(
        rest[j],
    ) by {
        assert(rest[j] == blk[j + 1]);
    }
    lemma_scan_appends(mid.0, mid.1, rest);
    assert(seq![blk[0]] + rest =~= blk);
}

/// Writing well-formed blocks and reading them back gives the same blocks.
pub proof fn lemma_blocks_round_trip(bs: Seq<Seq<Seq<char>>>)
    requires
        well_formed_blocks(bs),
    ensures
        config_blocks(block_file_lines(bs)) == bs,
{
    if bs.len() > 0 {
        lemma_scan_of_written(bs);
        assert(bs.drop_last().push(bs.last()) =~= bs);
        assert(valid_block(bs[bs.len() - 1]));
    } else {
        assert(block_file_lines(bs) =~= Seq::<Seq<char>>::empty());
    }
}

proof fn lemma_scan_of_written(bs: Seq<Seq<Seq<char>>>)
    requires
        well_formed_blocks(bs),
        bs.len() > 0,
    ensures
        scan_blocks(block_file_lines(bs)) == (bs.drop_last(), bs.last()),
    decreases bs.len(),
{
    let empty_state = (Seq::<Seq<Seq<char>>>::empty(), Seq::<Seq<char>>::empty());
    lemma_scan_blocks_is_scan_from(block_file_lines(bs));
    assert(valid_block(bs[0]));
    if bs.len() == 1 {
        lemma_scan_block(Seq::<Seq<Seq<char>>>::empty(), Seq::<Seq<char>>::empty(), bs[0]);
        assert(bs.drop_last() =~= Seq::<Seq<Seq<char>>>::empty());
    } else {
        let init = bs.drop_last();
        assert(well_formed_blocks(init)) by {
            assert forall|k: int| 0 <= k < init.len() implies valid_block(#[trigger] init[k]) && (k
                > 0 ==> is_host_line(init[k][0])) by {
                assert(init[k] == bs[k]);
            }
        }
        lemma_scan_of_written(init);
        lemma_scan_blocks_is_scan_from(block_file_lines(init));
        let blank_line = seq![Seq::<char>::empty()];
        let last = bs.last();
        assert(valid_block(bs[bs.len() - 1]) && is_host_line(bs[bs.len() - 1][0]));
        lemma_scan_from_concat(empty_state, block_file_lines(init) + blank_line, last);
        lemma_scan_from_concat(empty_state, block_file_lines(init), blank_line);
        assert(blank_line.drop_last() =~= Seq::<Seq<char>>::empty());
        assert(is_blank(Seq::<char>::empty()));
        assert(!is_host_line(Seq::<char>::empty()));
        assert(blank_line.last() == Seq::<char>::empty());
        let x = scan_from(empty_state, block_file_lines(init));
        assert(x == (init.drop_last(), init.last()));
        assert(scan_from(x, blank_line.drop_last()) == x);
        assert(scan_from(x, blank_line) == scan_step(x, Seq::<char>::empty()));
        assert(scan_from(scan_from(empty_state, block_file_lines(init)), blank_line) == (
            init.drop_last(),
            init.last(),
        ));
        assert(valid_block(init[init.len() - 1]));
        lemma_scan_block(init.drop_last(), init.last(), last);
        assert(init.drop_last().push(init.last()) =~= init);
    }
}


/// What holds of the block reader's state at every line.
pub open spec fn scan_state_ok(state: (Seq<Seq<Seq<char>>>, Seq<Seq<char>>)) -> bool {
    let (done, cur) = state;
    &&& well_formed_blocks(done)
    &&& forall|j: int| 0 <= j < cur.len() ==> !is_blank(#[trigger] cur[j])
    &&& forall|j: int| 1 <= j < cur.len() ==> !is_host_line(#[trigger] cur[j])
    &&& done.len() > 0 ==> cur.len() > 0 && is_host_line(cur[0])
}

proof fn lemma_scan_state_ok(lines: Seq<Seq<char>>)
    ensures
        scan_state_ok(scan_blocks(lines)),
    decreases lines.len(),
{
    if lines.len() > 0 {
        lemma_scan_state_ok(lines.drop_last());
        let (done, cur) = scan_blocks(lines.drop_last());
        let line = lines.last();
        let (done2, cur2) = scan_blocks(lines);
        if is_host_line(line) && cur.len() > 0 {
            assert(done2 == done.push(cur));
            assert forall|k: int| 0 <= k < done2.len() implies valid_block(#[trigger] done2[k]) && (k
                > 0 ==> is_host_line(done2[k][0])) by {
                if k < done.len() {
                    assert(done2[k] == done[k]);
                } else {
                    assert(done2[k] == cur);
                }
            }
            assert(!is_blank(line)) by {
                lemma_host_line_not_blank(line);
            }
            assert(cur2 =~= seq![line]);
        } else if !is_blank(line) {
            assert(cur2 == cur.push(line));
            assert(done2 == done);
        } else {
            assert(done2 == done && cur2 == cur);
        }
    }
}

/// A host line is not blank.
pub proof fn lemma_host_line_not_blank(line: Seq<char>)
    requires
        is_host_line(line),
    ensures
        !is_blank(line),
{
    let t = crate::text::trim_start(line);
    lemma_trim_start_suffix(line);
    assert(t[4] == ' ');
    assert(!is_ws(t[0])) by {
        assert(crate::config_file::ascii_lower(t[0]) == 'h');
    }
    let k = line.len() - t.len();
    assert(line[k] == t[0]);
}

/// Trimming leading whitespace leaves a suffix that starts with a
/// non-whitespace character, if any.
pub proof fn lemma_trim_start_suffix(s: Seq<char>)
    ensures
        crate::text::trim_start(s).len() <= s.len(),
        crate::text::trim_start(s) == s.skip(s.len() - crate::text::trim_start(s).len()),
        crate::text::trim_start(s).len() > 0 ==> !is_ws(crate::text::trim_start(s)[0]),
    decreases s.len(),
{
    if s.len() > 0 && is_ws(s[0]) {
        lemma_trim_start_suffix(s.drop_first());
        let t = crate::text::trim_start(s);
        assert(s.drop_first().skip(s.drop_first().len() - t.len()) =~= s.skip(s.len() - t.len()));
    } else {
        assert(s.skip(0) =~= s);
    }
}

/// The reader always returns well-formed blocks.
pub proof fn lemma_read_blocks_well_formed(lines: Seq<Seq<char>>)
    ensures
        well_formed_blocks(config_blocks(lines)),
{
    lemma_scan_state_ok(lines);
    let (done, cur) = scan_blocks(lines);
    if cur.len() > 0 {
        let bs = done.push(cur);
        assert forall|k: int| 0 <= k < bs.len() implies valid_block(#[trigger] bs[k]) && (k > 0
            ==> is_host_line(bs[k][0])) by {
            if k < done.len() {
                assert(bs[k] == done[k]);
            } else {
                assert(bs[k] == cur);
            }
        }
    }
}


/// A field name as the configuration writer needs it: snake_case, and not
/// starting with `h` unless at least eight characters long.
pub open spec fn field_name_shaped(k: Seq<char>) -> bool {
    &&& is_snake_name(k)
    &&& (k[0] != 'h' || k.len() >= 8)
}

proof fn lemma_field_names_0(i: int)
    requires
        0 <= i < 26,
    ensures
        field_name_shaped(field_name(i)),
{
    if i == 0 {
        reveal_strlit("add_keys_to_agent");
    } else if i == 1 {
        reveal_strlit("address_family");
    } else if i == 2 {
        reveal_strlit("aliases");
    } else if i == 3 {
        reveal_strlit("batch_mode");
    } else if i == 4 {
        reveal_strlit("bind_address");
    } else if i == 5 {
        reveal_strlit("bind_interface");
    } else if i == 6 {
        reveal_strlit("ca_signature_algorithms");
    } else if i == 7 {
        reveal_strlit("canonical_domains");
    } else if i == 8 {
        reveal_strlit("canonicalize_fallback_local");
    } else if i == 9 {
        reveal_strlit("canonicalize_hostname");
    } else if i == 10 {
        reveal_strlit("canonicalize_max_dots");
    } else if i == 11 {
        reveal_strlit("canonicalize_permitted_cnames");
    } else if i == 12 {
        reveal_strlit("certificate_file");
    } else if i == 13 {
        reveal_strlit("channel_timeout");
    } else if i == 14 {
        reveal_strlit("check_host_ip");
    } else if i == 15 {
        reveal_strlit("ciphers");
    } else if i == 16 {
        reveal_strlit("clear_all_forwardings");
    } else if i == 17 {
        reveal_strlit("compression");
    } else if i == 18 {
        reveal_strlit("connect_timeout");
    } else if i == 19 {
        reveal_strlit("connection_attempts");
    } else if i == 20 {
        reveal_strlit("control_master");
    } else if i == 21 {
        reveal_strlit("control_path");
    } else if i == 22 {
        reveal_strlit("control_persist");
    } else if i == 23 {
        reveal_strlit("dynamic_forward");
    } else if i == 24 {
        reveal_strlit("enable_escape_commandline");
    } else if i == 25 {
        reveal_strlit("enable_ssh_keysign");
    }
}

proof fn lemma_field_names_1(i: int)
    requires
        26 <= i < 52,
    ensures
        field_name_shaped(field_name(i)),
{
    if i == 26 {
        reveal_strlit("escape_char");
    } else if i == 27 {
        reveal_strlit("exit_on_forward_failure");
    } else if i == 28 {
        reveal_strlit("fingerprint_hash");
    } else if i == 29 {
        reveal_strlit("fork_after_authentication");
    } else if i == 30 {
        reveal_strlit("forward_agent");
    } else if i == 31 {
        reveal_strlit("forward_x11");
    } else if i == 32 {
        reveal_strlit("forward_x11_timeout");
    } else if i == 33 {
        reveal_strlit("forward_x11_trusted");
    } else if i == 34 {
        reveal_strlit("gateway_ports");
    } else if i == 35 {
        reveal_strlit("global_known_hosts_file");
    } else if i == 36 {
        reveal_strlit("gssapi_authentication");
    } else if i == 37 {
        reveal_strlit("gssapi_delegate_credentials");
    } else if i == 38 {
        reveal_strlit("hash_known_hosts");
    } else if i == 39 {
        reveal_strlit("host_key_algorithms");
    } else if i == 40 {
        reveal_strlit("host_key_alias");
    } else if i == 41 {
        reveal_strlit("hostbased_accepted_algorithms");
    } else if i == 42 {
        reveal_strlit("hostbased_authentication");
    } else if i == 43 {
        reveal_strlit("hostname");
    } else if i == 44 {
        reveal_strlit("identities_only");
    } else if i == 45 {
        reveal_strlit("identity_agent");
    } else if i == 46 {
        reveal_strlit("identity_file");
    } else if i == 47 {
        reveal_strlit("ignore_unknown");
    } else if i == 48 {
        reveal_strlit("include");
    } else if i == 49 {
        reveal_strlit("ipqos");
    } else if i == 50 {
        reveal_strlit("kbd_interactive_authentication");
    } else if i == 51 {
        reveal_strlit("kbd_interactive_devices");
    }
}

proof fn lemma_field_names_2(i: int)
    requires
        52 <= i < 78,
    ensures
        field_name_shaped(field_name(i)),
{
    if i == 52 {
        reveal_strlit("kex_algorithms");
    } else if i == 53 {
        reveal_strlit("known_hosts_command");
    } else if i == 54 {
        reveal_strlit("local_command");
    } else if i == 55 {
        reveal_strlit("local_forward");
    } else if i == 56 {
        reveal_strlit("log_level");
    } else if i == 57 {
        reveal_strlit("log_verbose");
    } else if i == 58 {
        reveal_strlit("macs");
    } else if i == 59 {
        reveal_strlit("match_field");
    } else if i == 60 {
        reveal_strlit("name");
    } else if i == 61 {
        reveal_strlit("no_host_authentication_for_localhost");
    } else if i == 62 {
        reveal_strlit("number_of_password_prompts");
    } else if i == 63 {
        reveal_strlit("obscure_keystroke_timing");
    } else if i == 64 {
        reveal_strlit("password_authentication");
    } else if i == 65 {
        reveal_strlit("permit_local_command");
    } else if i == 66 {
        reveal_strlit("permit_remote_open");
    } else if i == 67 {
        reveal_strlit("pkcs11_provider");
    } else if i == 68 {
        reveal_strlit("port");
    } else if i == 69 {
        reveal_strlit("preferred_authentications");
    } else if i == 70 {
        reveal_strlit("proxy_command");
    } else if i == 71 {
        reveal_strlit("proxy_jump");
    } else if i == 72 {
        reveal_strlit("proxy_use_fdpass");
    } else if i == 73 {
        reveal_strlit("pubkey_accepted_algorithms");
    } else if i == 74 {
        reveal_strlit("pubkey_authentication");
    } else if i == 75 {
        reveal_strlit("rekey_limit");
    } else if i == 76 {
        reveal_strlit("remote_command");
    } else if i == 77 {
        reveal_strlit("remote_forward");
    }
}

proof fn lemma_field_names_3(i: int)
    requires
        78 <= i < 102,
    ensures
        field_name_shaped(field_name(i)),
{
    if i == 78 {
        reveal_strlit("request_tty");
    } else if i == 79 {
        reveal_strlit("required_rsa_size");
    } else if i == 80 {
        reveal_strlit("revoked_host_keys");
    } else if i == 81 {
        reveal_strlit("security_key_provider");
    } else if i == 82 {
        reveal_strlit("send_env");
    } else if i == 83 {
        reveal_strlit("server_alive_count_max");
    } else if i == 84 {
        reveal_strlit("server_alive_interval");
    } else if i == 85 {
        reveal_strlit("session_type");
    } else if i == 86 {
        reveal_strlit("set_env");
    } else if i == 87 {
        reveal_strlit("stdin_null");
    } else if i == 88 {
        reveal_strlit("stream_local_bind_mask");
    } else if i == 89 {
        reveal_strlit("stream_local_bind_unlink");
    } else if i == 90 {
        reveal_strlit("strict_host_key_checking");
    } else if i == 91 {
        reveal_strlit("syslog_facility");
    } else if i == 92 {
        reveal_strlit("tag");
    } else if i == 93 {
        reveal_strlit("tcp_keep_alive");
    } else if i == 94 {
        reveal_strlit("tunnel");
    } else if i == 95 {
        reveal_strlit("tunnel_device");
    } else if i == 96 {
        reveal_strlit("update_host_keys");
    } else if i == 97 {
        reveal_strlit("user");
    } else if i == 98 {
        reveal_strlit("user_known_hosts_file");
    } else if i == 99 {
        reveal_strlit("verify_host_key_dns");
    } else if i == 100 {
        reveal_strlit("visual_host_key");
    } else if i == 101 {
        reveal_strlit("x_auth_location");
    }
}

/// Every field name is shaped as the configuration writer needs.
pub proof fn lemma_field_name_shaped(i: int)
    requires
        0 <= i < HOST_FIELD_COUNT,
    ensures
        field_name_shaped(field_name(i)),
{
    if i < 26 {
        lemma_field_names_0(i);
    } else if i < 52 {
        lemma_field_names_1(i);
    } else if i < 78 {
        lemma_field_names_2(i);
    } else {
        lemma_field_names_3(i);
    }
}


/// The PascalCase form of a prefix is a prefix of the PascalCase form.
proof fn lemma_pascal_prefix(s: Seq<char>, n: int)
    requires
        0 <= n <= s.len(),
    ensures
        pascal(s.take(n)).len() <= pascal(s).len(),
        pascal(s.take(n)) == pascal(s).take(pascal(s.take(n)).len() as int),
    decreases s.len(),
{
    if n == s.len() {
        assert(s.take(n) =~= s);
    } else {
        assert(s.drop_last().take(n) =~= s.take(n));
        lemma_pascal_prefix(s.drop_last(), n);
    }
}

/// The PascalCase form of a name starts with its first character upper-cased.
proof fn lemma_pascal_first(s: Seq<char>)
    requires
        s.len() > 0,
        s[0] != '_',
    ensures
        pascal(s).len() > 0,
        pascal(s)[0] == ascii_upper(s[0]),
{
    lemma_pascal_prefix(s, 1);
    let one = s.take(1);
    assert(one.drop_last() =~= Seq::<char>::empty());
    assert(one.last() == s[0]);
    assert(one.len() == 1);
    assert(pascal(Seq::<char>::empty()) =~= Seq::<char>::empty());
    assert(pascal(one) == Seq::<char>::empty().push(ascii_upper(s[0])));
    assert(pascal(one) =~= seq![ascii_upper(s[0])]);
    assert(pascal(s)[0] == pascal(one)[0]);
}

/// The PascalCase form of a text of letters, digits and underscores holds
/// only letters and digits.
proof fn lemma_pascal_alnum(s: Seq<char>)
    requires
        forall|j: int|
            0 <= j < s.len() ==> ('a' <= #[trigger] s[j] && s[j] <= 'z') || ('0' <= s[j] && s[j]
                <= '9') || s[j] == '_',
    ensures
        forall|j: int|
            0 <= j < pascal(s).len() ==> ('a' <= #[trigger] pascal(s)[j] && pascal(s)[j] <= 'z') || (
            'A' <= pascal(s)[j] && pascal(s)[j] <= 'Z') || ('0' <= pascal(s)[j] && pascal(s)[j]
                <= '9'),
    decreases s.len(),
{
    if s.len() > 0 {
        let init = s.drop_last();
        assert forall|j: int| 0 <= j < init.len() implies ('a' <= #[trigger] init[j] && init[j]
            <= 'z') || ('0' <= init[j] && init[j] <= '9') || init[j] == '_' by {
            assert(init[j] == s[j]);
        }
        lemma_pascal_alnum(init);
        let c = s.last();
        let prev = pascal(init);
        assert(('a' <= s[s.len() - 1] && s[s.len() - 1] <= 'z') || ('0' <= s[s.len() - 1] && s[s.len()
            - 1] <= '9') || s[s.len() - 1] == '_');
        if c != '_' {
            let x = if s.len() == 1 || s[s.len() - 2] == '_' {
                ascii_upper(c)
            } else {
                c
            };
            assert(pascal(s) == prev.push(x));
            assert(('a' <= x && x <= 'z') || ('A' <= x && x <= 'Z') || ('0' <= x && x <= '9'));
            assert forall|j: int| 0 <= j < pascal(s).len() implies ('a' <= #[trigger] pascal(s)[j]
                && pascal(s)[j] <= 'z') || ('A' <= pascal(s)[j] && pascal(s)[j] <= 'Z') || ('0'
                <= pascal(s)[j] && pascal(s)[j] <= '9') by {
                if j < prev.len() {
                    assert(pascal(s)[j] == prev[j]);
                }
            }
        }
    }
}

/// A snake_case name loses at most every second character to PascalCase.
proof fn lemma_pascal_len(k: Seq<char>, n: int)
    requires
        is_snake_name(k),
        1 <= n <= k.len(),
    ensures
        2 * pascal(k.take(n)).len() >= n + (if k[n - 1] == '_' {
            0int
        } else {
            1int
        }),
    decreases n,
{
    let p = k.take(n);
    assert(p.last() == k[n - 1]);
    if n == 1 {
        assert(p.drop_last() =~= Seq::<char>::empty());
        assert(k[0] != '_');
    } else {
        lemma_pascal_len(k, n - 1);
        assert(p.drop_last() =~= k.take(n - 1));
        if k[n - 1] == '_' {
            assert(k[n - 2] != '_') by {
                if k[n - 2] == '_' {
                    assert(k[n - 2 + 1] != '_');
                }
            }
        }
    }
}

/// A field's option line (four spaces, the PascalCase key, a space and the
/// value) is neither blank nor a host line.
pub proof fn lemma_option_line(k: Seq<char>, v: Seq<char>)
    requires
        field_name_shaped(k),
    ensures
        !is_blank(seq![' ', ' ', ' ', ' '] + pascal(k) + seq![' '] + v),
        !is_host_line(seq![' ', ' ', ' ', ' '] + pascal(k) + seq![' '] + v),
{
    let p = pascal(k);
    let line = seq![' ', ' ', ' ', ' '] + p + seq![' '] + v;
    lemma_pascal_first(k);
    lemma_pascal_alnum(k);
    lemma_pascal_len(k, k.len() as int);
    assert(k.take(k.len() as int) =~= k);
    assert(k[k.len() - 1] != '_') by {
        if k[k.len() - 1] == '_' {
            assert(k[k.len() - 1 + 1] != '_');
        }
    }
    let t = p + seq![' '] + v;
    assert(line =~= seq![' ', ' ', ' ', ' '] + t);
    assert(!is_ws(t[0])) by {
        assert(t[0] == p[0]);
    }
    lemma_trim_start_spaces(t);
    assert(crate::text::trim_start(line) == t);
    assert(!is_blank(line)) by {
        assert(line[4] == t[0]);
    }
    if p.len() >= 5 {
        assert(t[4] == p[4]);
    } else if p.len() == 4 {
        assert(k[0] != 'h');
        assert(ascii_lower(ascii_upper(k[0])) == k[0]);
        assert(t[0] == p[0]);
    } else {
        assert(t[p.len() as int] == ' ');
    }
}

/// Four leading spaces are trimmed away.
proof fn lemma_trim_start_spaces(t: Seq<char>)
    requires
        t.len() > 0,
        !is_ws(t[0]),
    ensures
        crate::text::trim_start(seq![' ', ' ', ' ', ' '] + t) == t,
{
    let l4 = seq![' ', ' ', ' ', ' '] + t;
    let l3 = seq![' ', ' ', ' '] + t;
    let l2 = seq![' ', ' '] + t;
    let l1 = seq![' '] + t;
    assert(l4.drop_first() =~= l3);
    assert(l3.drop_first() =~= l2);
    assert(l2.drop_first() =~= l1);
    assert(l1.drop_first() =~= t);
    assert(is_ws(' '));
    assert(l4[0] == ' ' && l3[0] == ' ' && l2[0] == ' ' && l1[0] == ' ');
    assert(crate::text::trim_start(t) == t);
    assert(crate::text::trim_start(l1) == crate::text::trim_start(t));
    assert(crate::text::trim_start(l2) == crate::text::trim_start(l1));
    assert(crate::text::trim_start(l3) == crate::text::trim_start(l2));
    assert(crate::text::trim_start(l4) == crate::text::trim_start(l3));
}


/// Every name listed by `present_fields` is one of the first `n` names.
proof fn lemma_present_names(names: Seq<Seq<char>>, values: Seq<Option<Seq<char>>>, n: nat)
    ensures
        forall|m: int| 0 <= m < present_fields(names, values, n).len() ==> exists|i: int|
            0 <= i < n && #[trigger] present_fields(names, values, n)[m].0 == names[i],
    decreases n,
{
    if n > 0 {
        lemma_present_names(names, values, (n - 1) as nat);
        let prev = present_fields(names, values, (n - 1) as nat);
        let cur = present_fields(names, values, n);
        assert forall|m: int| 0 <= m < cur.len() implies exists|i: int|
            0 <= i < n && #[trigger] cur[m].0 == names[i] by {
            if m < prev.len() {
                assert(cur[m] == prev[m]);
                let i = choose|i: int| 0 <= i < n - 1 && prev[m].0 == names[i];
                assert(0 <= i < n && cur[m].0 == names[i]);
            } else {
                assert(cur[m].0 == names[n - 1]);
            }
        }
    }
}

/// Every option line is four spaces, a key in PascalCase, a space and a
/// value, for a key of the listed fields.
proof fn lemma_option_lines_shape(fields: Seq<(Seq<char>, Seq<char>)>)
    ensures
        forall|m: int| 0 <= m < option_lines(fields).len() ==> exists|j: int|
            0 <= j < fields.len() && #[trigger] option_lines(fields)[m] == seq![' ', ' ', ' ', ' ']
                + pascal(fields[j].0) + seq![' '] + fields[j].1,
    decreases fields.len(),
{
    if fields.len() > 0 {
        let init = fields.drop_last();
        lemma_option_lines_shape(init);
        let prev = option_lines(init);
        let cur = option_lines(fields);
        assert forall|m: int| 0 <= m < cur.len() implies exists|j: int|
            0 <= j < fields.len() && #[trigger] cur[m] == seq![' ', ' ', ' ', ' '] + pascal(fields[j].0)
                + seq![' '] + fields[j].1 by {
            if m < prev.len() {
                assert(cur[m] == prev[m]);
                let j = choose|j: int| 0 <= j < init.len() && prev[m] == seq![' ', ' ', ' ', ' ']
                    + pascal(init[j].0) + seq![' '] + init[j].1;
                assert(init[j] == fields[j]);
            } else {
                assert(cur[m] == seq![' ', ' ', ' ', ' '] + pascal(fields[fields.len() - 1].0) + seq![
                    ' ',
                ] + fields[fields.len() - 1].1);
            }
        }
    }
}

/// The `Host` line of a record opens a block.
proof fn lemma_host_line_opens(name: Seq<char>, aliases: Seq<char>)
    ensures
        is_host_line(host_line(name, aliases)),
{
    let l = host_line(name, aliases);
    assert(l[0] == 'H' && l[1] == 'o' && l[2] == 's' && l[3] == 't' && l[4] == ' ');
    assert(!is_ws('H'));
    assert(crate::text::trim_start(l) == l);
}

/// The block of a host record is a block the reader would build, opened by
/// a host line.
pub proof fn lemma_host_block_valid(h: Host)
    ensures
        valid_block(host_block_lines(h)),
        is_host_line(host_block_lines(h)[0]),
{
    let b = host_block_lines(h);
    let pf = present_fields(field_names(), h.field_values(), HOST_FIELD_COUNT as nat);
    lemma_host_line_opens(h.name@, h.aliases@);
    lemma_host_line_not_blank(host_line(h.name@, h.aliases@));
    lemma_present_names(field_names(), h.field_values(), HOST_FIELD_COUNT as nat);
    lemma_option_lines_shape(pf);
    assert(b[0] == host_line(h.name@, h.aliases@));
    assert forall|j: int| 1 <= j < b.len() implies !is_blank(#[trigger] b[j]) && !is_host_line(b[j]) by {
        assert(b[j] == option_lines(pf)[j - 1]);
        let q = choose|q: int| 0 <= q < pf.len() && option_lines(pf)[j - 1] == seq![' ', ' ', ' ', ' ']
            + pascal(pf[q].0) + seq![' '] + pf[q].1;
        let i = choose|i: int| 0 <= i < HOST_FIELD_COUNT && pf[q].0 == field_names()[i];
        lemma_field_name_shaped(i);
        lemma_option_line(pf[q].0, pf[q].1);
    }
}

/// The position `first_block_for` finds is the first block for the host.
proof fn lemma_first_block(bs: Seq<Seq<Seq<char>>>, name: Seq<char>)
    ensures
        match first_block_for(bs, name) {
            Some(i) => 0 <= i < bs.len() && block_is_for(bs[i], name) && forall|j: int|
                0 <= j < i ==> !block_is_for(#[trigger] bs[j], name),
            None => forall|j: int| 0 <= j < bs.len() ==> !block_is_for(#[trigger] bs[j], name),
        },
    decreases bs.len(),
{
    if bs.len() > 0 {
        lemma_first_block(bs.drop_last(), name);
        match first_block_for(bs.drop_last(), name) {
            Some(i) => {
                assert forall|j: int| 0 <= j < i implies !block_is_for(#[trigger] bs[j], name) by {
                    assert(bs[j] == bs.drop_last()[j]);
                }
                assert(bs[i] == bs.drop_last()[i]);
            },
            None => {
                assert forall|j: int| 0 <= j < bs.len() - 1 implies !block_is_for(#[trigger] bs[j], name) by {
                    assert(bs[j] == bs.drop_last()[j]);
                }
            },
        }
    }
}

/// Saving or removing host `h` touches only a block whose host line names
/// the host as its second word: a block whose first line has another
/// second word (such as a block that lists the host only as a later alias)
/// stays where it is when the host is saved, and is kept when the host is
/// removed.
pub proof fn law_only_named_block_is_touched(bs: Seq<Seq<Seq<char>>>, h: Host, k: int)
    requires
        0 <= k < bs.len(),
        bs[k].len() == 0 || words(bs[k][0]).len() <= 1 || words(bs[k][0])[1] != h.name@,
    ensures
        blocks_with_host(bs, h)[k] == bs[k],
        first_block_for(bs, h.name@) != Some(k),
        blocks_without_host(bs, h.name@).contains(bs[k]),
{
    lemma_first_block(bs, h.name@);
    match first_block_for(bs, h.name@) {
        Some(i) => {
            assert(i != k);
            let r = bs.remove(i);
            if k < i {
                assert(r[k] == bs[k]);
            } else {
                assert(r[k - 1] == bs[k]);
            }
        },
        None => {
            assert(bs.push(host_block_lines(h))[k] == bs[k]);
        },
    }
}

/// The position of the first block for a host, from the property that
/// defines it.
proof fn lemma_first_block_at(bs: Seq<Seq<Seq<char>>>, name: Seq<char>, i: int)
    requires
        0 <= i < bs.len(),
        block_is_for(bs[i], name),
        forall|j: int| 0 <= j < i ==> !block_is_for(#[trigger] bs[j], name),
    ensures
        first_block_for(bs, name) == Some(i),
{
    lemma_first_block(bs, name);
    match first_block_for(bs, name) {
        Some(k) => {
            if k < i {
                assert(!block_is_for(bs[k], name));
            } else if k > i {
                assert(!block_is_for(bs[i], name));
            }
        },
        None => {
            assert(!block_is_for(bs[i], name));
        },
    }
}

/// A text of one or more characters, none of them whitespace.
pub open spec fn is_word(s: Seq<char>) -> bool {
    s.len() > 0 && forall|j: int| 0 <= j < s.len() ==> !is_ws(#[trigger] s[j])
}

proof fn lemma_words_of_word(s: Seq<char>)
    requires
        is_word(s),
    ensures
        words(s) == seq![s],
    decreases s.len(),
{
    if s.len() == 1 {
        assert(s.drop_last() =~= Seq::<char>::empty());
        assert(words(s.drop_last()) =~= Seq::<Seq<char>>::empty());
        assert(!is_ws(s[0]));
        assert(words(s) == words(s.drop_last()).push(seq![s.last()]));
        assert(seq![s.last()] =~= s);
        assert(words(s) =~= seq![s]);
    } else {
        let init = s.drop_last();
        assert forall|j: int| 0 <= j < init.len() implies !is_ws(#[trigger] init[j]) by {
            assert(init[j] == s[j]);
        }
        lemma_words_of_word(init);
        assert(!is_ws(s[s.len() - 1]));
        assert(!is_ws(s[s.len() - 2]));
        assert(init.push(s.last()) =~= s);
        assert(words(s) == words(init).update(0, init.push(s.last())));
        assert(words(s) =~= seq![s]);
    }
}

/// Words on either side of whitespace are counted apart.
proof fn lemma_words_concat(a: Seq<char>, b: Seq<char>)
    requires
        a.len() == 0 || is_ws(a.last()),
    ensures
        words(a + b) == words(a) + words(b),
    decreases b.len(),
{
    if b.len() == 0 {
        assert(a + b =~= a);
        assert(words(b) =~= Seq::<Seq<char>>::empty());
        assert(words(a) + words(b) =~= words(a));
    } else {
        lemma_words_concat(a, b.drop_last());
        assert((a + b).drop_last() =~= a + b.drop_last());
        assert((a + b).last() == b.last());
        let c = b.last();
        if !is_ws(c) {
            if b.len() >= 2 {
                assert((a + b)[(a + b).len() - 2] == b[b.len() - 2]);
                if !is_ws(b[b.len() - 2]) {
                    assert(words(b.drop_last()).len() > 0) by {
                        lemma_words_nonempty(b.drop_last());
                    }
                }
            } else if a.len() > 0 {
                assert((a + b)[(a + b).len() - 2] == a.last());
            }
            assert(words(a + b) =~= words(a) + words(b));
        }
    }
}

/// A text that ends in a non-whitespace character has a word.
proof fn lemma_words_nonempty(s: Seq<char>)
    requires
        s.len() > 0,
        !is_ws(s.last()),
    ensures
        words(s).len() > 0,
    decreases s.len(),
{
    if s.len() >= 2 && !is_ws(s[s.len() - 2]) {
        lemma_words_nonempty(s.drop_last());
    }
}

/// The second word of a record's `Host` line is its name, when the name is
/// a single word.
proof fn lemma_host_line_names(name: Seq<char>, aliases: Seq<char>)
    requires
        is_word(name),
    ensures
        words(host_line(name, aliases)).len() > 1,
        words(host_line(name, aliases))[1] == name,
{
    let host = seq!['H', 'o', 's', 't'];
    let head = seq!['H', 'o', 's', 't', ' '];
    assert(is_word(host)) by {
        assert(!is_ws('H') && !is_ws('o') && !is_ws('s') && !is_ws('t'));
    }
    lemma_words_of_word(host);
    assert(head =~= host.push(' '));
    assert(head.drop_last() =~= host);
    assert(is_ws(' '));
    assert(words(head) == words(host));
    let at = crate::config_file::aliases_text(aliases);
    lemma_words_of_word(name);
    if at.len() == 0 {
        lemma_words_concat(head, name);
        assert(host_line(name, aliases) == head + name);
    } else {
        let tail = name + seq![' '] + at;
        assert(host_line(name, aliases) =~= head + tail);
        lemma_words_concat(head, tail);
        let np = name.push(' ');
        assert(tail =~= np + at);
        lemma_words_concat(np, at);
        assert(np.drop_last() =~= name);
        assert(words(np) == words(name));
    }
}

/// The blocks after saving a record, read back, are well formed and the
/// first block for the host is the record's block.
proof fn lemma_saved_blocks(bs: Seq<Seq<Seq<char>>>, h: Host)
    requires
        well_formed_blocks(bs),
    ensures
        well_formed_blocks(blocks_with_host(bs, h)),
        is_word(h.name@) ==> match first_block_for(blocks_with_host(bs, h), h.name@) {
            Some(i) => blocks_with_host(bs, h)[i] == host_block_lines(h),
            None => false,
        },
{
    let hb = host_block_lines(h);
    let nb = blocks_with_host(bs, h);
    lemma_host_block_valid(h);
    lemma_first_block(bs, h.name@);
    let pos = match first_block_for(bs, h.name@) {
        Some(i) => i,
        None => bs.len() as int,
    };
    assert(nb.len() == pos + 1 || nb.len() == bs.len());
    assert(nb[pos] == hb);
    assert forall|k: int| 0 <= k < nb.len() implies valid_block(#[trigger] nb[k]) && (k > 0
        ==> is_host_line(nb[k][0])) by {
        if k != pos {
            assert(nb[k] == bs[k]);
        }
    }
    if is_word(h.name@) {
        lemma_host_line_names(h.name@, h.aliases@);
        assert(block_is_for(hb, h.name@));
        assert forall|j: int| 0 <= j < pos implies !block_is_for(#[trigger] nb[j], h.name@) by {
            assert(nb[j] == bs[j]);
        }
        lemma_first_block_at(nb, h.name@, pos);
    }
}

/// Reading back the lines saved for a host record gives the blocks that
/// were there, with the record's block in place of the host's first block,
/// or after the last one when the host had none.
pub proof fn law_save_then_read(lines: Seq<Seq<char>>, h: Host)
    ensures
        config_blocks(saved_config_lines(lines, h)) == blocks_with_host(config_blocks(lines), h),
{
    lemma_read_blocks_well_formed(lines);
    lemma_saved_blocks(config_blocks(lines), h);
    lemma_blocks_round_trip(blocks_with_host(config_blocks(lines), h));
}

/// Once a host whose name is a single word is saved, the first block found
/// for that name is the record's block.
pub proof fn law_saved_host_is_found(lines: Seq<Seq<char>>, h: Host)
    requires
        is_word(h.name@),
    ensures
        match first_block_for(config_blocks(saved_config_lines(lines, h)), h.name@) {
            Some(i) => config_blocks(saved_config_lines(lines, h))[i] == host_block_lines(h),
            None => false,
        },
{
    law_save_then_read(lines, h);
    lemma_read_blocks_well_formed(lines);
    lemma_saved_blocks(config_blocks(lines), h);
}

/// Saving the same record twice leaves the file as saving it once, for a
/// host whose name is a single word.
pub proof fn law_save_idempotent(lines: Seq<Seq<char>>, h: Host)
    requires
        is_word(h.name@),
    ensures
        saved_config_lines(saved_config_lines(lines, h), h) == saved_config_lines(lines, h),
{
    let once = saved_config_lines(lines, h);
    law_save_then_read(lines, h);
    law_saved_host_is_found(lines, h);
    let nb = config_blocks(once);
    lemma_first_block(nb, h.name@);
    match first_block_for(nb, h.name@) {
        Some(i) => {
            assert(nb.update(i, host_block_lines(h)) =~= nb);
        },
        None => {},
    }
}


/// Reading back the lines left after removing a host gives the blocks that
/// were there without the host's first block.
pub proof fn law_remove_then_read(lines: Seq<Seq<char>>, name: Seq<char>)
    ensures
        config_blocks(removed_config_lines(lines, name)) == blocks_without_host(config_blocks(lines), name),
{
    let bs = config_blocks(lines);
    lemma_read_blocks_well_formed(lines);
    lemma_first_block(bs, name);
    let nb = blocks_without_host(bs, name);
    assert forall|k: int| 0 <= k < nb.len() implies valid_block(#[trigger] nb[k]) && (k > 0
        ==> is_host_line(nb[k][0])) by {
        match first_block_for(bs, name) {
            Some(i) => {
                if k < i {
                    assert(nb[k] == bs[k]);
                } else {
                    assert(nb[k] == bs[k + 1]);
                }
            },
            None => {},
        }
    }
    lemma_blocks_round_trip(nb);
}


proof fn lemma_field_names_ascend_0(i: int)
    requires
        0 <= i < 13,
    ensures
        text_le(field_name(i), field_name(i + 1)),
        !text_le(field_name(i + 1), field_name(i)),
{
    reveal_with_fuel(text_le, 20);
    reveal_strlit("add_keys_to_agent");
    reveal_strlit("address_family");
    reveal_strlit("aliases");
    reveal_strlit("batch_mode");
    reveal_strlit("bind_address");
    reveal_strlit("bind_interface");
    reveal_strlit("ca_signature_algorithms");
    reveal_strlit("canonical_domains");
    reveal_strlit("canonicalize_fallback_local");
    reveal_strlit("canonicalize_hostname");
    reveal_strlit("canonicalize_max_dots");
    reveal_strlit("canonicalize_permitted_cnames");
    reveal_strlit("certificate_file");
    reveal_strlit("channel_timeout");
    if i == 0 {
        assert(text_le(field_name(0), field_name(1)));
    } else if i == 1 {
        assert(text_le(field_name(1), field_name(2)));
    } else if i == 2 {
        assert(text_le(field_name(2), field_name(3)));
    } else if i == 3 {
        assert(text_le(field_name(3), field_name(4)));
    } else if i == 4 {
        assert(text_le(field_name(4), field_name(5)));
    } else if i == 5 {
        assert(text_le(field_name(5), field_name(6)));
    } else if i == 6 {
        assert(text_le(field_name(6), field_name(7)));
    } else if i == 7 {
        assert(text_le(field_name(7), field_name(8)));
    } else if i == 8 {
        assert(text_le(field_name(8), field_name(9)));
    } else if i == 9 {
        assert(text_le(field_name(9), field_name(10)));
    } else if i == 10 {
        assert(text_le(field_name(10), field_name(11)));
    } else if i == 11 {
        assert(text_le(field_name(11), field_name(12)));
    } else if i == 12 {
        assert(text_le(field_name(12), field_name(13)));
    }
}

proof fn lemma_field_names_ascend_1(i: int)
    requires
        13 <= i < 26,
    ensures
        text_le(field_name(i), field_name(i + 1)),
        !text_le(field_name(i + 1), field_name(i)),
{
    reveal_with_fuel(text_le, 20);
    reveal_strlit("channel_timeout");
    reveal_strlit("check_host_ip");
    reveal_strlit("ciphers");
    reveal_strlit("clear_all_forwardings");
    reveal_strlit("compression");
    reveal_strlit("connect_timeout");
    reveal_strlit("connection_attempts");
    reveal_strlit("control_master");
    reveal_strlit("control_path");
    reveal_strlit("control_persist");
    reveal_strlit("dynamic_forward");
    reveal_strlit("enable_escape_commandline");
    reveal_strlit("enable_ssh_keysign");
    reveal_strlit("escape_char");
    if i == 13 {
        assert(text_le(field_name(13), field_name(14)));
    } else if i == 14 {
        assert(text_le(field_name(14), field_name(15)));
    } else if i == 15 {
        assert(text_le(field_name(15), field_name(16)));
    } else if i == 16 {
        assert(text_le(field_name(16), field_name(17)));
    } else if i == 17 {
        assert(text_le(field_name(17), field_name(18)));
    } else if i == 18 {
        assert(text_le(field_name(18), field_name(19)));
    } else if i == 19 {
        assert(text_le(field_name(19), field_name(20)));
    } else if i == 20 {
        assert(text_le(field_name(20), field_name(21)));
    } else if i == 21 {
        assert(text_le(field_name(21), field_name(22)));
    } else if i == 22 {
        assert(text_le(field_name(22), field_name(23)));
    } else if i == 23 {
        assert(text_le(field_name(23), field_name(24)));
    } else if i == 24 {
        assert(text_le(field_name(24), field_name(25)));
    } else if i == 25 {
        assert(text_le(field_name(25), field_name(26)));
    }
}

proof fn lemma_field_names_ascend_2(i: int)
    requires
        26 <= i < 39,
    ensures
        text_le(field_name(i), field_name(i + 1)),
        !text_le(field_name(i + 1), field_name(i)),
{
    reveal_with_fuel(text_le, 20);
    reveal_strlit("escape_char");
    reveal_strlit("exit_on_forward_failure");
    reveal_strlit("fingerprint_hash");
    reveal_strlit("fork_after_authentication");
    reveal_strlit("forward_agent");
    reveal_strlit("forward_x11");
    reveal_strlit("forward_x11_timeout");
    reveal_strlit("forward_x11_trusted");
    reveal_strlit("gateway_ports");
    reveal_strlit("global_known_hosts_file");
    reveal_strlit("gssapi_authentication");
    reveal_strlit("gssapi_delegate_credentials");
    reveal_strlit("hash_known_hosts");
    reveal_strlit("host_key_algorithms");
    if i == 26 {
        assert(text_le(field_name(26), field_name(27)));
    } else if i == 27 {
        assert(text_le(field_name(27), field_name(28)));
    } else if i == 28 {
        assert(text_le(field_name(28), field_name(29)));
    } else if i == 29 {
        assert(text_le(field_name(29), field_name(30)));
    } else if i == 30 {
        assert(text_le(field_name(30), field_name(31)));
    } else if i == 31 {
        assert(text_le(field_name(31), field_name(32)));
    } else if i == 32 {
        assert(text_le(field_name(32), field_name(33)));
    } else if i == 33 {
        assert(text_le(field_name(33), field_name(34)));
    } else if i == 34 {
        assert(text_le(field_name(34), field_name(35)));
    } else if i == 35 {
        assert(text_le(field_name(35), field_name(36)));
    } else if i == 36 {
        assert(text_le(field_name(36), field_name(37)));
    } else if i == 37 {
        assert(text_le(field_name(37), field_name(38)));
    } else if i == 38 {
        assert(text_le(field_name(38), field_name(39)));
    }
}

proof fn lemma_field_names_ascend_3(i: int)
    requires
        39 <= i < 52,
    ensures
        text_le(field_name(i), field_name(i + 1)),
        !text_le(field_name(i + 1), field_name(i)),
{
    reveal_with_fuel(text_le, 20);
    reveal_strlit("host_key_algorithms");
    reveal_strlit("host_key_alias");
    reveal_strlit("hostbased_accepted_algorithms");
    reveal_strlit("hostbased_authentication");
    reveal_strlit("hostname");
    reveal_strlit("identities_only");
    reveal_strlit("identity_agent");
    reveal_strlit("identity_file");
    reveal_strlit("ignore_unknown");
    reveal_strlit("include");
    reveal_strlit("ipqos");
    reveal_strlit("kbd_interactive_authentication");
    reveal_strlit("kbd_interactive_devices");
    reveal_strlit("kex_algorithms");
    if i == 39 {
        assert(text_le(field_name(39), field_name(40)));
    } else if i == 40 {
        assert(text_le(field_name(40), field_name(41)));
    } else if i == 41 {
        assert(text_le(field_name(41), field_name(42)));
    } else if i == 42 {
        assert(text_le(field_name(42), field_name(43)));
    } else if i == 43 {
        assert(text_le(field_name(43), field_name(44)));
    } else if i == 44 {
        assert(text_le(field_name(44), field_name(45)));
    } else if i == 45 {
        assert(text_le(field_name(45), field_name(46)));
    } else if i == 46 {
        assert(text_le(field_name(46), field_name(47)));
    } else if i == 47 {
        assert(text_le(field_name(47), field_name(48)));
    } else if i == 48 {
        assert(text_le(field_name(48), field_name(49)));
    } else if i == 49 {
        assert(text_le(field_name(49), field_name(50)));
    } else if i == 50 {
        assert(text_le(field_name(50), field_name(51)));
    } else if i == 51 {
        assert(text_le(field_name(51), field_name(52)));
    }
}

proof fn lemma_field_names_ascend_4(i: int)
    requires
        52 <= i < 65,
    ensures
        text_le(field_name(i), field_name(i + 1)),
        !text_le(field_name(i + 1), field_name(i)),
{
    reveal_with_fuel(text_le, 20);
    reveal_strlit("kex_algorithms");
    reveal_strlit("known_hosts_command");
    reveal_strlit("local_command");
    reveal_strlit("local_forward");
    reveal_strlit("log_level");
    reveal_strlit("log_verbose");
    reveal_strlit("macs");
    reveal_strlit("match_field");
    reveal_strlit("name");
    reveal_strlit("no_host_authentication_for_localhost");
    reveal_strlit("number_of_password_prompts");
    reveal_strlit("obscure_keystroke_timing");
    reveal_strlit("password_authentication");
    reveal_strlit("permit_local_command");
    if i == 52 {
        assert(text_le(field_name(52), field_name(53)));
    } else if i == 53 {
        assert(text_le(field_name(53), field_name(54)));
    } else if i == 54 {
        assert(text_le(field_name(54), field_name(55)));
    } else if i == 55 {
        assert(text_le(field_name(55), field_name(56)));
    } else if i == 56 {
        assert(text_le(field_name(56), field_name(57)));
    } else if i == 57 {
        assert(text_le(field_name(57), field_name(58)));
    } else if i == 58 {
        assert(text_le(field_name(58), field_name(59)));
    } else if i == 59 {
        assert(text_le(field_name(59), field_name(60)));
    } else if i == 60 {
        assert(text_le(field_name(60), field_name(61)));
    } else if i == 61 {
        assert(text_le(field_name(61), field_name(62)));
    } else if i == 62 {
        assert(text_le(field_name(62), field_name(63)));
    } else if i == 63 {
        assert(text_le(field_name(63), field_name(64)));
    } else if i == 64 {
        assert(text_le(field_name(64), field_name(65)));
    }
}

proof fn lemma_field_names_ascend_5(i: int)
    requires
        65 <= i < 78,
    ensures
        text_le(field_name(i), field_name(i + 1)),
        !text_le(field_name(i + 1), field_name(i)),
{
    reveal_with_fuel(text_le, 20);
    reveal_strlit("permit_local_command");
    reveal_strlit("permit_remote_open");
    reveal_strlit("pkcs11_provider");
    reveal_strlit("port");
    reveal_strlit("preferred_authentications");
    reveal_strlit("proxy_command");
    reveal_strlit("proxy_jump");
    reveal_strlit("proxy_use_fdpass");
    reveal_strlit("pubkey_accepted_algorithms");
    reveal_strlit("pubkey_authentication");
    reveal_strlit("rekey_limit");
    reveal_strlit("remote_command");
    reveal_strlit("remote_forward");
    reveal_strlit("request_tty");
    if i == 65 {
        assert(text_le(field_name(65), field_name(66)));
    } else if i == 66 {
        assert(text_le(field_name(66), field_name(67)));
    } else if i == 67 {
        assert(text_le(field_name(67), field_name(68)));
    } else if i == 68 {
        assert(text_le(field_name(68), field_name(69)));
    } else if i == 69 {
        assert(text_le(field_name(69), field_name(70)));
    } else if i == 70 {
        assert(text_le(field_name(70), field_name(71)));
    } else if i == 71 {
        assert(text_le(field_name(71), field_name(72)));
    } else if i == 72 {
        assert(text_le(field_name(72), field_name(73)));
    } else if i == 73 {
        assert(text_le(field_name(73), field_name(74)));
    } else if i == 74 {
        assert(text_le(field_name(74), field_name(75)));
    } else if i == 75 {
        assert(text_le(field_name(75), field_name(76)));
    } else if i == 76 {
        assert(text_le(field_name(76), field_name(77)));
    } else if i == 77 {
        assert(text_le(field_name(77), field_name(78)));
    }
}

proof fn lemma_field_names_ascend_6(i: int)
    requires
        78 <= i < 91,
    ensures
        text_le(field_name(i), field_name(i + 1)),
        !text_le(field_name(i + 1), field_name(i)),
{
    reveal_with_fuel(text_le, 20);
    reveal_strlit("request_tty");
    reveal_strlit("required_rsa_size");
    reveal_strlit("revoked_host_keys");
    reveal_strlit("security_key_provider");
    reveal_strlit("send_env");
    reveal_strlit("server_alive_count_max");
    reveal_strlit("server_alive_interval");
    reveal_strlit("session_type");
    reveal_strlit("set_env");
    reveal_strlit("stdin_null");
    reveal_strlit("stream_local_bind_mask");
    reveal_strlit("stream_local_bind_unlink");
    reveal_strlit("strict_host_key_checking");
    reveal_strlit("syslog_facility");
    if i == 78 {
        assert(text_le(field_name(78), field_name(79)));
    } else if i == 79 {
        assert(text_le(field_name(79), field_name(80)));
    } else if i == 80 {
        assert(text_le(field_name(80), field_name(81)));
    } else if i == 81 {
        assert(text_le(field_name(81), field_name(82)));
    } else if i == 82 {
        assert(text_le(field_name(82), field_name(83)));
    } else if i == 83 {
        assert(text_le(field_name(83), field_name(84)));
    } else if i == 84 {
        assert(text_le(field_name(84), field_name(85)));
    } else if i == 85 {
        assert(text_le(field_name(85), field_name(86)));
    } else if i == 86 {
        assert(text_le(field_name(86), field_name(87)));
    } else if i == 87 {
        assert(text_le(field_name(87), field_name(88)));
    } else if i == 88 {
        assert(text_le(field_name(88), field_name(89)));
    } else if i == 89 {
        assert(text_le(field_name(89), field_name(90)));
    } else if i == 90 {
        assert(text_le(field_name(90), field_name(91)));
    }
}

proof fn lemma_field_names_ascend_7(i: int)
    requires
        91 <= i < 101,
    ensures
        text_le(field_name(i), field_name(i + 1)),
        !text_le(field_name(i + 1), field_name(i)),
{
    reveal_with_fuel(text_le, 20);
    reveal_strlit("syslog_facility");
    reveal_strlit("tag");
    reveal_strlit("tcp_keep_alive");
    reveal_strlit("tunnel");
    reveal_strlit("tunnel_device");
    reveal_strlit("update_host_keys");
    reveal_strlit("user");
    reveal_strlit("user_known_hosts_file");
    reveal_strlit("verify_host_key_dns");
    reveal_strlit("visual_host_key");
    reveal_strlit("x_auth_location");
    if i == 91 {
        assert(text_le(field_name(91), field_name(92)));
    } else if i == 92 {
        assert(text_le(field_name(92), field_name(93)));
    } else if i == 93 {
        assert(text_le(field_name(93), field_name(94)));
    } else if i == 94 {
        assert(text_le(field_name(94), field_name(95)));
    } else if i == 95 {
        assert(text_le(field_name(95), field_name(96)));
    } else if i == 96 {
        assert(text_le(field_name(96), field_name(97)));
    } else if i == 97 {
        assert(text_le(field_name(97), field_name(98)));
    } else if i == 98 {
        assert(text_le(field_name(98), field_name(99)));
    } else if i == 99 {
        assert(text_le(field_name(99), field_name(100)));
    } else if i == 100 {
        assert(text_le(field_name(100), field_name(101)));
    }
}

/// Each field name comes strictly before the next one.
proof fn lemma_field_names_ascend(i: int)
    requires
        0 <= i < HOST_FIELD_COUNT - 1,
    ensures
        text_le(field_name(i), field_name(i + 1)),
        !text_le(field_name(i + 1), field_name(i)),
{
    if i < 13 {
        lemma_field_names_ascend_0(i);
    } else if i < 26 {
        lemma_field_names_ascend_1(i);
    } else if i < 39 {
        lemma_field_names_ascend_2(i);
    } else if i < 52 {
        lemma_field_names_ascend_3(i);
    } else if i < 65 {
        lemma_field_names_ascend_4(i);
    } else if i < 78 {
        lemma_field_names_ascend_5(i);
    } else if i < 91 {
        lemma_field_names_ascend_6(i);
    } else if i < 101 {
        lemma_field_names_ascend_7(i);
    }
}

/// Field names come in strictly ascending order.
proof fn lemma_field_names_strictly_ascend(i: int, j: int)
    requires
        0 <= i < j < HOST_FIELD_COUNT,
    ensures
        text_le(field_name(i), field_name(j)),
        !text_le(field_name(j), field_name(i)),
    decreases j - i,
{
    lemma_field_names_ascend(j - 1);
    if i < j - 1 {
        lemma_field_names_strictly_ascend(i, j - 1);
        lemma_text_le_trans(field_name(i), field_name(j - 1), field_name(j));
        if text_le(field_name(j), field_name(i)) {
            lemma_text_le_trans(field_name(j), field_name(i), field_name(j - 1));
        }
    }
}

/// No two fields share a name.
pub proof fn lemma_field_names_distinct(i: int, j: int)
    requires
        0 <= i < HOST_FIELD_COUNT,
        0 <= j < HOST_FIELD_COUNT,
        i != j,
    ensures
        field_name(i) != field_name(j),
{
    if i < j {
        lemma_field_names_strictly_ascend(i, j);
    } else {
        lemma_field_names_strictly_ascend(j, i);
    }
}


/// `s` without its underscores.
pub open spec fn without_underscores(s: Seq<char>) -> Seq<char>
    decreases s.len(),
{
    if s.len() == 0 {
        seq![]
    } else if s.last() == '_' {
        without_underscores(s.drop_last())
    } else {
        without_underscores(s.drop_last()).push(s.last())
    }
}

/// `s` with every ASCII letter in lower case.
pub open spec fn ascii_lowered(s: Seq<char>) -> Seq<char> {
    s.map_values(|c: char| ascii_lower(c))
}

proof fn lemma_upper_then_lower(c: char)
    ensures
        ascii_lower(ascii_upper(c)) == ascii_lower(c),
        ascii_upper(ascii_upper(c)) == ascii_upper(c),
        (c == '_') == (ascii_upper(c) == '_'),
{
}

proof fn lemma_pascal_nonempty(s: Seq<char>)
    requires
        s.len() > 0,
        s.last() != '_',
    ensures
        pascal(s).len() > 0,
{
}

/// The PascalCase form starts with an upper-cased character.
proof fn lemma_pascal_first_upper(s: Seq<char>)
    ensures
        pascal(s).len() > 0 ==> ascii_upper(pascal(s)[0]) == pascal(s)[0],
    decreases s.len(),
{
    if s.len() > 0 {
        let init = s.drop_last();
        lemma_pascal_first_upper(init);
        let c = s.last();
        lemma_upper_then_lower(c);
        if pascal(init).len() == 0 && c != '_' && s.len() >= 2 && s[s.len() - 2] != '_' {
            assert(init.last() == s[s.len() - 2]);
            lemma_pascal_nonempty(init);
        }
        if pascal(init).len() > 0 {
            assert(pascal(s)[0] == pascal(init)[0]);
        }
    }
}

/// A text without underscores turns into PascalCase by upper-casing its
/// first character.
proof fn lemma_pascal_of_plain(s: Seq<char>)
    requires
        forall|j: int| 0 <= j < s.len() ==> #[trigger] s[j] != '_',
    ensures
        pascal(s) == (if s.len() == 0 {
            s
        } else {
            s.update(0, ascii_upper(s[0]))
        }),
    decreases s.len(),
{
    if s.len() > 0 {
        let init = s.drop_last();
        assert forall|j: int| 0 <= j < init.len() implies #[trigger] init[j] != '_' by {
            assert(init[j] == s[j]);
        }
        lemma_pascal_of_plain(init);
        assert(s[s.len() - 1] != '_');
        if s.len() == 1 {
            assert(pascal(init) =~= Seq::<char>::empty());
            assert(pascal(s) =~= s.update(0, ascii_upper(s[0])));
        } else {
            assert(s[s.len() - 2] != '_');
            assert(pascal(s) =~= s.update(0, ascii_upper(s[0])));
        }
    }
}

/// The key `format_ssh_key` writes holds no underscore; turning it into a
/// key again changes nothing; and, ignoring letter case, it holds the
/// field name's characters without the underscores.
pub proof fn law_ssh_key_shape(f: Seq<char>)
    ensures
        forall|j: int| 0 <= j < pascal(f).len() ==> #[trigger] pascal(f)[j] != '_',
        pascal(pascal(f)) == pascal(f),
        ascii_lowered(pascal(f)) == ascii_lowered(without_underscores(f)),
    decreases f.len(),
{
    if f.len() > 0 {
        let init = f.drop_last();
        law_ssh_key_shape(init);
        let c = f.last();
        lemma_upper_then_lower(c);
        let p0 = pascal(init);
        assert forall|j: int| 0 <= j < pascal(f).len() implies #[trigger] pascal(f)[j] != '_' by {
            if j < p0.len() {
                assert(pascal(f)[j] == p0[j]);
            }
        }
        if c == '_' {
            assert(without_underscores(f) == without_underscores(init));
        } else {
            let w0 = without_underscores(init);
            assert(without_underscores(f) == w0.push(c));
            let x = if f.len() == 1 || f[f.len() - 2] == '_' {
                ascii_upper(c)
            } else {
                c
            };
            assert(pascal(f) == p0.push(x));
            assert(ascii_lower(x) == ascii_lower(c));
            assert(ascii_lowered(p0.push(x)) =~= ascii_lowered(p0).push(ascii_lower(x)));
            assert(ascii_lowered(w0.push(c)) =~= ascii_lowered(w0).push(ascii_lower(c)));
            assert(ascii_lowered(pascal(f)) =~= ascii_lowered(without_underscores(f)));
        }
    }
    let p = pascal(f);
    lemma_pascal_of_plain(p);
    lemma_pascal_first_upper(f);
    if p.len() > 0 {
        assert(p.update(0, ascii_upper(p[0])) =~= p);
    }
    assert(ascii_lowered(pascal(f)) =~= ascii_lowered(without_underscores(f)));
}

} // verus!
