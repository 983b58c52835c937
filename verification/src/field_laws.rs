//! What a host record reads from a host block: every field but the name
//! and the aliases holds the value of the keyword it is named after.

use vstd::prelude::*;
use crate::config_host::HostModel;
use crate::config_laws::{ascii_lowered, without_underscores};
use crate::entry_type::EntryType;
use crate::host::{HOST_FIELD_COUNT, Host, describes_block, field_name};

verus! {

/// Field name `field` is named after keyword `e`: without its underscores
/// it is the keyword's name, ignoring ASCII letter case, or it is the
/// keyword's name in lower case followed by `_field` (the name given to a
/// field whose keyword is a word of Rust).
pub open spec fn field_names_keyword(field: Seq<char>, e: EntryType) -> bool {
    ||| ascii_lowered(without_underscores(field)) == ascii_lowered(e.keyword_name())
    ||| field == ascii_lowered(e.keyword_name()) + "_field"@
}

/// Field `i` of record `h` holds what block `m` records for keyword `e`:
/// its single value, and for the host name the empty text when it is unset.
pub open spec fn field_reads(h: Host, m: HostModel, i: int, e: EntryType) -> bool {
    if i == 43 {
        h.hostname@ == (match m.single_value(e) {
            Some(v) => v,
            None => Seq::<char>::empty(),
        })
    } else {
        h.field_value(i) == m.single_value(e)
    }
}

/// Field `i` is read from the keyword it is named after.
pub open spec fn reads_own_keyword(h: Host, m: HostModel, i: int) -> bool {
    exists|e: EntryType| #[trigger] field_names_keyword(field_name(i), e) && field_reads(h, m, i, e)
}

/// Dropping the underscores of two texts put together drops those of each.
proof fn lemma_without_underscores_append(a: Seq<char>, b: Seq<char>)
    ensures
        without_underscores(a + b) == without_underscores(a) + without_underscores(b),
    decreases b.len(),
{
    if b.len() == 0 {
        assert(a + b =~= a);
        assert(without_underscores(a) + without_underscores(b) =~= without_underscores(a));
    } else {
        lemma_without_underscores_append(a, b.drop_last());
        assert((a + b).drop_last() =~= a + b.drop_last());
        assert((a + b).last() == b.last());
        let wa = without_underscores(a);
        let wb = without_underscores(b.drop_last());
        if b.last() != '_' {
            assert(wa + wb.push(b.last()) =~= (wa + wb).push(b.last()));
        }
    }
}

/// A text without underscores is left as it is.
proof fn lemma_without_underscores_plain(a: Seq<char>)
    requires
        forall|j: int| 0 <= j < a.len() ==> #[trigger] a[j] != '_',
    ensures
        without_underscores(a) == a,
    decreases a.len(),
{
    if a.len() > 0 {
        let init = a.drop_last();
        assert forall|j: int| 0 <= j < init.len() implies #[trigger] init[j] != '_' by {
            assert(init[j] == a[j]);
        }
        lemma_without_underscores_plain(init);
        assert(a.last() != '_');
        assert(init.push(a.last()) =~= a);
    }
}

/// Dropping the underscores of a text cut at an underscore drops those of
/// the part before the cut and of the part after it.
proof fn lemma_without_underscores_cut(s: Seq<char>, k: int)
    requires
        0 <= k < s.len(),
        s[k] == '_',
    ensures
        without_underscores(s) == without_underscores(s.take(k)) + without_underscores(s.skip(k + 1)),
{
    reveal_with_fuel(without_underscores, 2);
    let u = seq!['_'];
    assert(s =~= (s.take(k) + u) + s.skip(k + 1));
    lemma_without_underscores_append(s.take(k) + u, s.skip(k + 1));
    lemma_without_underscores_append(s.take(k), u);
    assert(u.drop_last() =~= Seq::<char>::empty());
    assert(without_underscores(u) =~= Seq::<char>::empty());
    assert(without_underscores(s.take(k)) + without_underscores(u) =~= without_underscores(s.take(k)));
}

proof fn lemma_name_of_field_0()
    ensures
        field_names_keyword(field_name(0), EntryType::AddKeysToAgent),
{
    reveal_strlit("add_keys_to_agent");
    reveal_strlit("AddKeysToAgent");
    let f = field_name(0);
    lemma_without_underscores_plain(f.take(3));
    lemma_without_underscores_cut(f, 3);
    let r0 = f.skip(4);
    lemma_without_underscores_plain(r0.take(4));
    lemma_without_underscores_cut(r0, 4);
    let r1 = r0.skip(5);
    lemma_without_underscores_plain(r1.take(2));
    lemma_without_underscores_cut(r1, 2);
    let r2 = r1.skip(3);
    lemma_without_underscores_plain(r2);
    assert(without_underscores(f) == f.take(3) + (r0.take(4) + (r1.take(2) + r2)));
    assert(ascii_lowered(f.take(3) + (r0.take(4) + (r1.take(2) + r2))) =~= ascii_lowered(
        EntryType::AddKeysToAgent.keyword_name(),
    ));
}

proof fn lemma_name_of_field_1()
    ensures
        field_names_keyword(field_name(1), EntryType::AddressFamily),
{
    reveal_strlit("address_family");
    reveal_strlit("AddressFamily");
    let f = field_name(1);
    lemma_without_underscores_plain(f.take(7));
    lemma_without_underscores_cut(f, 7);
    let r0 = f.skip(8);
    lemma_without_underscores_plain(r0);
    assert(without_underscores(f) == f.take(7) + r0);
    assert(ascii_lowered(f.take(7) + r0) =~= ascii_lowered(
        EntryType::AddressFamily.keyword_name(),
    ));
}

proof fn lemma_name_of_field_3()
    ensures
        field_names_keyword(field_name(3), EntryType::BatchMode),
{
    reveal_strlit("batch_mode");
    reveal_strlit("BatchMode");
    let f = field_name(3);
    lemma_without_underscores_plain(f.take(5));
    lemma_without_underscores_cut(f, 5);
    let r0 = f.skip(6);
    lemma_without_underscores_plain(r0);
    assert(without_underscores(f) == f.take(5) + r0);
    assert(ascii_lowered(f.take(5) + r0) =~= ascii_lowered(
        EntryType::BatchMode.keyword_name(),
    ));
}

proof fn lemma_name_of_field_4()
    ensures
        field_names_keyword(field_name(4), EntryType::BindAddress),
{
    reveal_strlit("bind_address");
    reveal_strlit("BindAddress");
    let f = field_name(4);
    lemma_without_underscores_plain(f.take(4));
    lemma_without_underscores_cut(f, 4);
    let r0 = f.skip(5);
    lemma_without_underscores_plain(r0);
    assert(without_underscores(f) == f.take(4) + r0);
    assert(ascii_lowered(f.take(4) + r0) =~= ascii_lowered(
        EntryType::BindAddress.keyword_name(),
    ));
}

proof fn lemma_name_of_field_5()
    ensures
        field_names_keyword(field_name(5), EntryType::BindInterface),
{
    reveal_strlit("bind_interface");
    reveal_strlit("BindInterface");
    let f = field_name(5);
    lemma_without_underscores_plain(f.take(4));
    lemma_without_underscores_cut(f, 4);
    let r0 = f.skip(5);
    lemma_without_underscores_plain(r0);
    assert(without_underscores(f) == f.take(4) + r0);
    assert(ascii_lowered(f.take(4) + r0) =~= ascii_lowered(
        EntryType::BindInterface.keyword_name(),
    ));
}

proof fn lemma_name_of_field_6()
    ensures
        field_names_keyword(field_name(6), EntryType::CASignatureAlgorithms),
{
    reveal_strlit("ca_signature_algorithms");
    reveal_strlit("CASignatureAlgorithms");
    let f = field_name(6);
    lemma_without_underscores_plain(f.take(2));
    lemma_without_underscores_cut(f, 2);
    let r0 = f.skip(3);
    lemma_without_underscores_plain(r0.take(9));
    lemma_without_underscores_cut(r0, 9);
    let r1 = r0.skip(10);
    lemma_without_underscores_plain(r1);
    assert(without_underscores(f) == f.take(2) + (r0.take(9) + r1));
    assert(ascii_lowered(f.take(2) + (r0.take(9) + r1)) =~= ascii_lowered(
        EntryType::CASignatureAlgorithms.keyword_name(),
    ));
}

proof fn lemma_name_of_field_7()
    ensures
        field_names_keyword(field_name(7), EntryType::CanonicalDomains),
{
    reveal_strlit("canonical_domains");
    reveal_strlit("CanonicalDomains");
    let f = field_name(7);
    lemma_without_underscores_plain(f.take(9));
    lemma_without_underscores_cut(f, 9);
    let r0 = f.skip(10);
    lemma_without_underscores_plain(r0);
    assert(without_underscores(f) == f.take(9) + r0);
    assert(ascii_lowered(f.take(9) + r0) =~= ascii_lowered(
        EntryType::CanonicalDomains.keyword_name(),
    ));
}

proof fn lemma_name_of_field_8()
    ensures
        field_names_keyword(field_name(8), EntryType::CanonicalizeFallbackLocal),
{
    reveal_strlit("canonicalize_fallback_local");
    reveal_strlit("CanonicalizeFallbackLocal");
    let f = field_name(8);
    lemma_without_underscores_plain(f.take(12));
    lemma_without_underscores_cut(f, 12);
    let r0 = f.skip(13);
    lemma_without_underscores_plain(r0.take(8));
    lemma_without_underscores_cut(r0, 8);
    let r1 = r0.skip(9);
    lemma_without_underscores_plain(r1);
    assert(without_underscores(f) == f.take(12) + (r0.take(8) + r1));
    assert(ascii_lowered(f.take(12) + (r0.take(8) + r1)) =~= ascii_lowered(
        EntryType::CanonicalizeFallbackLocal.keyword_name(),
    ));
}

proof fn lemma_name_of_field_9()
    ensures
        field_names_keyword(field_name(9), EntryType::CanonicalizeHostname),
{
    reveal_strlit("canonicalize_hostname");
    reveal_strlit("CanonicalizeHostname");
    let f = field_name(9);
    lemma_without_underscores_plain(f.take(12));
    lemma_without_underscores_cut(f, 12);
    let r0 = f.skip(13);
    lemma_without_underscores_plain(r0);
    assert(without_underscores(f) == f.take(12) + r0);
    assert(ascii_lowered(f.take(12) + r0) =~= ascii_lowered(
        EntryType::CanonicalizeHostname.keyword_name(),
    ));
}

proof fn lemma_name_of_field_10()
    ensures
        field_names_keyword(field_name(10), EntryType::CanonicalizeMaxDots),
{
    reveal_strlit("canonicalize_max_dots");
    reveal_strlit("CanonicalizeMaxDots");
    let f = field_name(10);
    lemma_without_underscores_plain(f.take(12));
    lemma_without_underscores_cut(f, 12);
    let r0 = f.skip(13);
    lemma_without_underscores_plain(r0.take(3));
    lemma_without_underscores_cut(r0, 3);
    let r1 = r0.skip(4);
    lemma_without_underscores_plain(r1);
    assert(without_underscores(f) == f.take(12) + (r0.take(3) + r1));
    assert(ascii_lowered(f.take(12) + (r0.take(3) + r1)) =~= ascii_lowered(
        EntryType::CanonicalizeMaxDots.keyword_name(),
    ));
}

proof fn lemma_name_of_field_11()
    ensures
        field_names_keyword(field_name(11), EntryType::CanonicalizePermittedCNAMEs),
{
    reveal_strlit("canonicalize_permitted_cnames");
    reveal_strlit("CanonicalizePermittedCNAMEs");
    let f = field_name(11);
    lemma_without_underscores_plain(f.take(12));
    lemma_without_underscores_cut(f, 12);
    let r0 = f.skip(13);
    lemma_without_underscores_plain(r0.take(9));
    lemma_without_underscores_cut(r0, 9);
    let r1 = r0.skip(10);
    lemma_without_underscores_plain(r1);
    assert(without_underscores(f) == f.take(12) + (r0.take(9) + r1));
    assert(ascii_lowered(f.take(12) + (r0.take(9) + r1)) =~= ascii_lowered(
        EntryType::CanonicalizePermittedCNAMEs.keyword_name(),
    ));
}

proof fn lemma_name_of_field_12()
    ensures
        field_names_keyword(field_name(12), EntryType::CertificateFile),
{
    reveal_strlit("certificate_file");
    reveal_strlit("CertificateFile");
    let f = field_name(12);
    lemma_without_underscores_plain(f.take(11));
    lemma_without_underscores_cut(f, 11);
    let r0 = f.skip(12);
    lemma_without_underscores_plain(r0);
    assert(without_underscores(f) == f.take(11) + r0);
    assert(ascii_lowered(f.take(11) + r0) =~= ascii_lowered(
        EntryType::CertificateFile.keyword_name(),
    ));
}

proof fn lemma_name_of_field_13()
    ensures
        field_names_keyword(field_name(13), EntryType::ChannelTimeout),
{
    reveal_strlit("channel_timeout");
    reveal_strlit("ChannelTimeout");
    let f = field_name(13);
    lemma_without_underscores_plain(f.take(7));
    lemma_without_underscores_cut(f, 7);
    let r0 = f.skip(8);
    lemma_without_underscores_plain(r0);
    assert(without_underscores(f) == f.take(7) + r0);
    assert(ascii_lowered(f.take(7) + r0) =~= ascii_lowered(
        EntryType::ChannelTimeout.keyword_name(),
    ));
}

proof fn lemma_name_of_field_14()
    ensures
        field_names_keyword(field_name(14), EntryType::CheckHostIP),
{
    reveal_strlit("check_host_ip");
    reveal_strlit("CheckHostIP");
    let f = field_name(14);
    lemma_without_underscores_plain(f.take(5));
    lemma_without_underscores_cut(f, 5);
    let r0 = f.skip(6);
    lemma_without_underscores_plain(r0.take(4));
    lemma_without_underscores_cut(r0, 4);
    let r1 = r0.skip(5);
    lemma_without_underscores_plain(r1);
    assert(without_underscores(f) == f.take(5) + (r0.take(4) + r1));
    assert(ascii_lowered(f.take(5) + (r0.take(4) + r1)) =~= ascii_lowered(
        EntryType::CheckHostIP.keyword_name(),
    ));
}

proof fn lemma_name_of_field_15()
    ensures
        field_names_keyword(field_name(15), EntryType::Ciphers),
{
    reveal_strlit("ciphers");
    reveal_strlit("Ciphers");
    let f = field_name(15);
    lemma_without_underscores_plain(f);
    assert(without_underscores(f) == f);
    assert(ascii_lowered(f) =~= ascii_lowered(
        EntryType::Ciphers.keyword_name(),
    ));
}

proof fn lemma_name_of_field_16()
    ensures
        field_names_keyword(field_name(16), EntryType::ClearAllForwardings),
{
    reveal_strlit("clear_all_forwardings");
    reveal_strlit("ClearAllForwardings");
    let f = field_name(16);
    lemma_without_underscores_plain(f.take(5));
    lemma_without_underscores_cut(f, 5);
    let r0 = f.skip(6);
    lemma_without_underscores_plain(r0.take(3));
    lemma_without_underscores_cut(r0, 3);
    let r1 = r0.skip(4);
    lemma_without_underscores_plain(r1);
    assert(without_underscores(f) == f.take(5) + (r0.take(3) + r1));
    assert(ascii_lowered(f.take(5) + (r0.take(3) + r1)) =~= ascii_lowered(
        EntryType::ClearAllForwardings.keyword_name(),
    ));
}

proof fn lemma_name_of_field_17()
    ensures
        field_names_keyword(field_name(17), EntryType::Compression),
{
    reveal_strlit("compression");
    reveal_strlit("Compression");
    let f = field_name(17);
    lemma_without_underscores_plain(f);
    assert(without_underscores(f) == f);
    assert(ascii_lowered(f) =~= ascii_lowered(
        EntryType::Compression.keyword_name(),
    ));
}

proof fn lemma_name_of_field_18()
    ensures
        field_names_keyword(field_name(18), EntryType::ConnectTimeout),
{
    reveal_strlit("connect_timeout");
    reveal_strlit("ConnectTimeout");
    let f = field_name(18);
    lemma_without_underscores_plain(f.take(7));
    lemma_without_underscores_cut(f, 7);
    let r0 = f.skip(8);
    lemma_without_underscores_plain(r0);
    assert(without_underscores(f) == f.take(7) + r0);
    assert(ascii_lowered(f.take(7) + r0) =~= ascii_lowered(
        EntryType::ConnectTimeout.keyword_name(),
    ));
}

proof fn lemma_name_of_field_19()
    ensures
        field_names_keyword(field_name(19), EntryType::ConnectionAttempts),
{
    reveal_strlit("connection_attempts");
    reveal_strlit("ConnectionAttempts");
    let f = field_name(19);
    lemma_without_underscores_plain(f.take(10));
    lemma_without_underscores_cut(f, 10);
    let r0 = f.skip(11);
    lemma_without_underscores_plain(r0);
    assert(without_underscores(f) == f.take(10) + r0);
    assert(ascii_lowered(f.take(10) + r0) =~= ascii_lowered(
        EntryType::ConnectionAttempts.keyword_name(),
    ));
}

proof fn lemma_name_of_field_20()
    ensures
        field_names_keyword(field_name(20), EntryType::ControlMaster),
{
    reveal_strlit("control_master");
    reveal_strlit("ControlMaster");
    let f = field_name(20);
    lemma_without_underscores_plain(f.take(7));
    lemma_without_underscores_cut(f, 7);
    let r0 = f.skip(8);
    lemma_without_underscores_plain(r0);
    assert(without_underscores(f) == f.take(7) + r0);
    assert(ascii_lowered(f.take(7) + r0) =~= ascii_lowered(
        EntryType::ControlMaster.keyword_name(),
    ));
}

proof fn lemma_name_of_field_21()
    ensures
        field_names_keyword(field_name(21), EntryType::ControlPath),
{
    reveal_strlit("control_path");
    reveal_strlit("ControlPath");
    let f = field_name(21);
    lemma_without_underscores_plain(f.take(7));
    lemma_without_underscores_cut(f, 7);
    let r0 = f.skip(8);
    lemma_without_underscores_plain(r0);
    assert(without_underscores(f) == f.take(7) + r0);
    assert(ascii_lowered(f.take(7) + r0) =~= ascii_lowered(
        EntryType::ControlPath.keyword_name(),
    ));
}

proof fn lemma_name_of_field_22()
    ensures
        field_names_keyword(field_name(22), EntryType::ControlPersist),
{
    reveal_strlit("control_persist");
    reveal_strlit("ControlPersist");
    let f = field_name(22);
    lemma_without_underscores_plain(f.take(7));
    lemma_without_underscores_cut(f, 7);
    let r0 = f.skip(8);
    lemma_without_underscores_plain(r0);
    assert(without_underscores(f) == f.take(7) + r0);
    assert(ascii_lowered(f.take(7) + r0) =~= ascii_lowered(
        EntryType::ControlPersist.keyword_name(),
    ));
}

proof fn lemma_name_of_field_23()
    ensures
        field_names_keyword(field_name(23), EntryType::DynamicForward),
{
    reveal_strlit("dynamic_forward");
    reveal_strlit("DynamicForward");
    let f = field_name(23);
    lemma_without_underscores_plain(f.take(7));
    lemma_without_underscores_cut(f, 7);
    let r0 = f.skip(8);
    lemma_without_underscores_plain(r0);
    assert(without_underscores(f) == f.take(7) + r0);
    assert(ascii_lowered(f.take(7) + r0) =~= ascii_lowered(
        EntryType::DynamicForward.keyword_name(),
    ));
}

proof fn lemma_name_of_field_24()
    ensures
        field_names_keyword(field_name(24), EntryType::EnableEscapeCommandline),
{
    reveal_strlit("enable_escape_commandline");
    reveal_strlit("EnableEscapeCommandline");
    let f = field_name(24);
    lemma_without_underscores_plain(f.take(6));
    lemma_without_underscores_cut(f, 6);
    let r0 = f.skip(7);
    lemma_without_underscores_plain(r0.take(6));
    lemma_without_underscores_cut(r0, 6);
    let r1 = r0.skip(7);
    lemma_without_underscores_plain(r1);
    assert(without_underscores(f) == f.take(6) + (r0.take(6) + r1));
    assert(ascii_lowered(f.take(6) + (r0.take(6) + r1)) =~= ascii_lowered(
        EntryType::EnableEscapeCommandline.keyword_name(),
    ));
}

proof fn lemma_name_of_field_25()
    ensures
        field_names_keyword(field_name(25), EntryType::EnableSSHKeysign),
{
    reveal_strlit("enable_ssh_keysign");
    reveal_strlit("EnableSSHKeysign");
    let f = field_name(25);
    lemma_without_underscores_plain(f.take(6));
    lemma_without_underscores_cut(f, 6);
    let r0 = f.skip(7);
    lemma_without_underscores_plain(r0.take(3));
    lemma_without_underscores_cut(r0, 3);
    let r1 = r0.skip(4);
    lemma_without_underscores_plain(r1);
    assert(without_underscores(f) == f.take(6) + (r0.take(3) + r1));
    assert(ascii_lowered(f.take(6) + (r0.take(3) + r1)) =~= ascii_lowered(
        EntryType::EnableSSHKeysign.keyword_name(),
    ));
}

proof fn lemma_name_of_field_26()
    ensures
        field_names_keyword(field_name(26), EntryType::EscapeChar),
{
    reveal_strlit("escape_char");
    reveal_strlit("EscapeChar");
    let f = field_name(26);
    lemma_without_underscores_plain(f.take(6));
    lemma_without_underscores_cut(f, 6);
    let r0 = f.skip(7);
    lemma_without_underscores_plain(r0);
    assert(without_underscores(f) == f.take(6) + r0);
    assert(ascii_lowered(f.take(6) + r0) =~= ascii_lowered(
        EntryType::EscapeChar.keyword_name(),
    ));
}

proof fn lemma_name_of_field_27()
    ensures
        field_names_keyword(field_name(27), EntryType::ExitOnForwardFailure),
{
    reveal_strlit("exit_on_forward_failure");
    reveal_strlit("ExitOnForwardFailure");
    let f = field_name(27);
    lemma_without_underscores_plain(f.take(4));
    lemma_without_underscores_cut(f, 4);
    let r0 = f.skip(5);
    lemma_without_underscores_plain(r0.take(2));
    lemma_without_underscores_cut(r0, 2);
    let r1 = r0.skip(3);
    lemma_without_underscores_plain(r1.take(7));
    lemma_without_underscores_cut(r1, 7);
    let r2 = r1.skip(8);
    lemma_without_underscores_plain(r2);
    assert(without_underscores(f) == f.take(4) + (r0.take(2) + (r1.take(7) + r2)));
    assert(ascii_lowered(f.take(4) + (r0.take(2) + (r1.take(7) + r2))) =~= ascii_lowered(
        EntryType::ExitOnForwardFailure.keyword_name(),
    ));
}

proof fn lemma_name_of_field_28()
    ensures
        field_names_keyword(field_name(28), EntryType::FingerprintHash),
{
    reveal_strlit("fingerprint_hash");
    reveal_strlit("FingerprintHash");
    let f = field_name(28);
    lemma_without_underscores_plain(f.take(11));
    lemma_without_underscores_cut(f, 11);
    let r0 = f.skip(12);
    lemma_without_underscores_plain(r0);
    assert(without_underscores(f) == f.take(11) + r0);
    assert(ascii_lowered(f.take(11) + r0) =~= ascii_lowered(
        EntryType::FingerprintHash.keyword_name(),
    ));
}

proof fn lemma_name_of_field_29()
    ensures
        field_names_keyword(field_name(29), EntryType::ForkAfterAuthentication),
{
    reveal_strlit("fork_after_authentication");
    reveal_strlit("ForkAfterAuthentication");
    let f = field_name(29);
    lemma_without_underscores_plain(f.take(4));
    lemma_without_underscores_cut(f, 4);
    let r0 = f.skip(5);
    lemma_without_underscores_plain(r0.take(5));
    lemma_without_underscores_cut(r0, 5);
    let r1 = r0.skip(6);
    lemma_without_underscores_plain(r1);
    assert(without_underscores(f) == f.take(4) + (r0.take(5) + r1));
    assert(ascii_lowered(f.take(4) + (r0.take(5) + r1)) =~= ascii_lowered(
        EntryType::ForkAfterAuthentication.keyword_name(),
    ));
}

proof fn lemma_name_of_field_30()
    ensures
        field_names_keyword(field_name(30), EntryType::ForwardAgent),
{
    reveal_strlit("forward_agent");
    reveal_strlit("ForwardAgent");
    let f = field_name(30);
    lemma_without_underscores_plain(f.take(7));
    lemma_without_underscores_cut(f, 7);
    let r0 = f.skip(8);
    lemma_without_underscores_plain(r0);
    assert(without_underscores(f) == f.take(7) + r0);
    assert(ascii_lowered(f.take(7) + r0) =~= ascii_lowered(
        EntryType::ForwardAgent.keyword_name(),
    ));
}

proof fn lemma_name_of_field_31()
    ensures
        field_names_keyword(field_name(31), EntryType::ForwardX11),
{
    reveal_strlit("forward_x11");
    reveal_strlit("ForwardX11");
    let f = field_name(31);
    lemma_without_underscores_plain(f.take(7));
    lemma_without_underscores_cut(f, 7);
    let r0 = f.skip(8);
    lemma_without_underscores_plain(r0);
    assert(without_underscores(f) == f.take(7) + r0);
    assert(ascii_lowered(f.take(7) + r0) =~= ascii_lowered(
        EntryType::ForwardX11.keyword_name(),
    ));
}

proof fn lemma_name_of_field_32()
    ensures
        field_names_keyword(field_name(32), EntryType::ForwardX11Timeout),
{
    reveal_strlit("forward_x11_timeout");
    reveal_strlit("ForwardX11Timeout");
    let f = field_name(32);
    lemma_without_underscores_plain(f.take(7));
    lemma_without_underscores_cut(f, 7);
    let r0 = f.skip(8);
    lemma_without_underscores_plain(r0.take(3));
    lemma_without_underscores_cut(r0, 3);
    let r1 = r0.skip(4);
    lemma_without_underscores_plain(r1);
    assert(without_underscores(f) == f.take(7) + (r0.take(3) + r1));
    assert(ascii_lowered(f.take(7) + (r0.take(3) + r1)) =~= ascii_lowered(
        EntryType::ForwardX11Timeout.keyword_name(),
    ));
}

proof fn lemma_name_of_field_33()
    ensures
        field_names_keyword(field_name(33), EntryType::ForwardX11Trusted),
{
    reveal_strlit("forward_x11_trusted");
    reveal_strlit("ForwardX11Trusted");
    let f = field_name(33);
    lemma_without_underscores_plain(f.take(7));
    lemma_without_underscores_cut(f, 7);
    let r0 = f.skip(8);
    lemma_without_underscores_plain(r0.take(3));
    lemma_without_underscores_cut(r0, 3);
    let r1 = r0.skip(4);
    lemma_without_underscores_plain(r1);
    assert(without_underscores(f) == f.take(7) + (r0.take(3) + r1));
    assert(ascii_lowered(f.take(7) + (r0.take(3) + r1)) =~= ascii_lowered(
        EntryType::ForwardX11Trusted.keyword_name(),
    ));
}

proof fn lemma_name_of_field_34()
    ensures
        field_names_keyword(field_name(34), EntryType::GatewayPorts),
{
    reveal_strlit("gateway_ports");
    reveal_strlit("GatewayPorts");
    let f = field_name(34);
    lemma_without_underscores_plain(f.take(7));
    lemma_without_underscores_cut(f, 7);
    let r0 = f.skip(8);
    lemma_without_underscores_plain(r0);
    assert(without_underscores(f) == f.take(7) + r0);
    assert(ascii_lowered(f.take(7) + r0) =~= ascii_lowered(
        EntryType::GatewayPorts.keyword_name(),
    ));
}

proof fn lemma_name_of_field_35()
    ensures
        field_names_keyword(field_name(35), EntryType::GlobalKnownHostsFile),
{
    reveal_strlit("global_known_hosts_file");
    reveal_strlit("GlobalKnownHostsFile");
    let f = field_name(35);
    lemma_without_underscores_plain(f.take(6));
    lemma_without_underscores_cut(f, 6);
    let r0 = f.skip(7);
    lemma_without_underscores_plain(r0.take(5));
    lemma_without_underscores_cut(r0, 5);
    let r1 = r0.skip(6);
    lemma_without_underscores_plain(r1.take(5));
    lemma_without_underscores_cut(r1, 5);
    let r2 = r1.skip(6);
    lemma_without_underscores_plain(r2);
    assert(without_underscores(f) == f.take(6) + (r0.take(5) + (r1.take(5) + r2)));
    assert(ascii_lowered(f.take(6) + (r0.take(5) + (r1.take(5) + r2))) =~= ascii_lowered(
        EntryType::GlobalKnownHostsFile.keyword_name(),
    ));
}

proof fn lemma_name_of_field_36()
    ensures
        field_names_keyword(field_name(36), EntryType::GSSAPIAuthentication),
{
    reveal_strlit("gssapi_authentication");
    reveal_strlit("GSSAPIAuthentication");
    let f = field_name(36);
    lemma_without_underscores_plain(f.take(6));
    lemma_without_underscores_cut(f, 6);
    let r0 = f.skip(7);
    lemma_without_underscores_plain(r0);
    assert(without_underscores(f) == f.take(6) + r0);
    assert(ascii_lowered(f.take(6) + r0) =~= ascii_lowered(
        EntryType::GSSAPIAuthentication.keyword_name(),
    ));
}

proof fn lemma_name_of_field_37()
    ensures
        field_names_keyword(field_name(37), EntryType::GSSAPIDelegateCredentials),
{
    reveal_strlit("gssapi_delegate_credentials");
    reveal_strlit("GSSAPIDelegateCredentials");
    let f = field_name(37);
    lemma_without_underscores_plain(f.take(6));
    lemma_without_underscores_cut(f, 6);
    let r0 = f.skip(7);
    lemma_without_underscores_plain(r0.take(8));
    lemma_without_underscores_cut(r0, 8);
    let r1 = r0.skip(9);
    lemma_without_underscores_plain(r1);
    assert(without_underscores(f) == f.take(6) + (r0.take(8) + r1));
    assert(ascii_lowered(f.take(6) + (r0.take(8) + r1)) =~= ascii_lowered(
        EntryType::GSSAPIDelegateCredentials.keyword_name(),
    ));
}

proof fn lemma_name_of_field_38()
    ensures
        field_names_keyword(field_name(38), EntryType::HashKnownHosts),
{
    reveal_strlit("hash_known_hosts");
    reveal_strlit("HashKnownHosts");
    let f = field_name(38);
    lemma_without_underscores_plain(f.take(4));
    lemma_without_underscores_cut(f, 4);
    let r0 = f.skip(5);
    lemma_without_underscores_plain(r0.take(5));
    lemma_without_underscores_cut(r0, 5);
    let r1 = r0.skip(6);
    lemma_without_underscores_plain(r1);
    assert(without_underscores(f) == f.take(4) + (r0.take(5) + r1));
    assert(ascii_lowered(f.take(4) + (r0.take(5) + r1)) =~= ascii_lowered(
        EntryType::HashKnownHosts.keyword_name(),
    ));
}

proof fn lemma_name_of_field_39()
    ensures
        field_names_keyword(field_name(39), EntryType::HostKeyAlgorithms),
{
    reveal_strlit("host_key_algorithms");
    reveal_strlit("HostKeyAlgorithms");
    let f = field_name(39);
    lemma_without_underscores_plain(f.take(4));
    lemma_without_underscores_cut(f, 4);
    let r0 = f.skip(5);
    lemma_without_underscores_plain(r0.take(3));
    lemma_without_underscores_cut(r0, 3);
    let r1 = r0.skip(4);
    lemma_without_underscores_plain(r1);
    assert(without_underscores(f) == f.take(4) + (r0.take(3) + r1));
    assert(ascii_lowered(f.take(4) + (r0.take(3) + r1)) =~= ascii_lowered(
        EntryType::HostKeyAlgorithms.keyword_name(),
    ));
}

proof fn lemma_name_of_field_40()
    ensures
        field_names_keyword(field_name(40), EntryType::HostKeyAlias),
{
    reveal_strlit("host_key_alias");
    reveal_strlit("HostKeyAlias");
    let f = field_name(40);
    lemma_without_underscores_plain(f.take(4));
    lemma_without_underscores_cut(f, 4);
    let r0 = f.skip(5);
    lemma_without_underscores_plain(r0.take(3));
    lemma_without_underscores_cut(r0, 3);
    let r1 = r0.skip(4);
    lemma_without_underscores_plain(r1);
    assert(without_underscores(f) == f.take(4) + (r0.take(3) + r1));
    assert(ascii_lowered(f.take(4) + (r0.take(3) + r1)) =~= ascii_lowered(
        EntryType::HostKeyAlias.keyword_name(),
    ));
}

proof fn lemma_name_of_field_41()
    ensures
        field_names_keyword(field_name(41), EntryType::HostbasedAcceptedAlgorithms),
{
    reveal_strlit("hostbased_accepted_algorithms");
    reveal_strlit("HostbasedAcceptedAlgorithms");
    let f = field_name(41);
    lemma_without_underscores_plain(f.take(9));
    lemma_without_underscores_cut(f, 9);
    let r0 = f.skip(10);
    lemma_without_underscores_plain(r0.take(8));
    lemma_without_underscores_cut(r0, 8);
    let r1 = r0.skip(9);
    lemma_without_underscores_plain(r1);
    assert(without_underscores(f) == f.take(9) + (r0.take(8) + r1));
    assert(ascii_lowered(f.take(9) + (r0.take(8) + r1)) =~= ascii_lowered(
        EntryType::HostbasedAcceptedAlgorithms.keyword_name(),
    ));
}

proof fn lemma_name_of_field_42()
    ensures
        field_names_keyword(field_name(42), EntryType::HostbasedAuthentication),
{
    reveal_strlit("hostbased_authentication");
    reveal_strlit("HostbasedAuthentication");
    let f = field_name(42);
    lemma_without_underscores_plain(f.take(9));
    lemma_without_underscores_cut(f, 9);
    let r0 = f.skip(10);
    lemma_without_underscores_plain(r0);
    assert(without_underscores(f) == f.take(9) + r0);
    assert(ascii_lowered(f.take(9) + r0) =~= ascii_lowered(
        EntryType::HostbasedAuthentication.keyword_name(),
    ));
}

proof fn lemma_name_of_field_43()
    ensures
        field_names_keyword(field_name(43), EntryType::Hostname),
{
    reveal_strlit("hostname");
    reveal_strlit("Hostname");
    let f = field_name(43);
    lemma_without_underscores_plain(f);
    assert(without_underscores(f) == f);
    assert(ascii_lowered(f) =~= ascii_lowered(
        EntryType::Hostname.keyword_name(),
    ));
}

proof fn lemma_name_of_field_44()
    ensures
        field_names_keyword(field_name(44), EntryType::IdentitiesOnly),
{
    reveal_strlit("identities_only");
    reveal_strlit("IdentitiesOnly");
    let f = field_name(44);
    lemma_without_underscores_plain(f.take(10));
    lemma_without_underscores_cut(f, 10);
    let r0 = f.skip(11);
    lemma_without_underscores_plain(r0);
    assert(without_underscores(f) == f.take(10) + r0);
    assert(ascii_lowered(f.take(10) + r0) =~= ascii_lowered(
        EntryType::IdentitiesOnly.keyword_name(),
    ));
}

proof fn lemma_name_of_field_45()
    ensures
        field_names_keyword(field_name(45), EntryType::IdentityAgent),
{
    reveal_strlit("identity_agent");
    reveal_strlit("IdentityAgent");
    let f = field_name(45);
    lemma_without_underscores_plain(f.take(8));
    lemma_without_underscores_cut(f, 8);
    let r0 = f.skip(9);
    lemma_without_underscores_plain(r0);
    assert(without_underscores(f) == f.take(8) + r0);
    assert(ascii_lowered(f.take(8) + r0) =~= ascii_lowered(
        EntryType::IdentityAgent.keyword_name(),
    ));
}

proof fn lemma_name_of_field_46()
    ensures
        field_names_keyword(field_name(46), EntryType::IdentityFile),
{
    reveal_strlit("identity_file");
    reveal_strlit("IdentityFile");
    let f = field_name(46);
    lemma_without_underscores_plain(f.take(8));
    lemma_without_underscores_cut(f, 8);
    let r0 = f.skip(9);
    lemma_without_underscores_plain(r0);
    assert(without_underscores(f) == f.take(8) + r0);
    assert(ascii_lowered(f.take(8) + r0) =~= ascii_lowered(
        EntryType::IdentityFile.keyword_name(),
    ));
}

proof fn lemma_name_of_field_47()
    ensures
        field_names_keyword(field_name(47), EntryType::IgnoreUnknown),
{
    reveal_strlit("ignore_unknown");
    reveal_strlit("IgnoreUnknown");
    let f = field_name(47);
    lemma_without_underscores_plain(f.take(6));
    lemma_without_underscores_cut(f, 6);
    let r0 = f.skip(7);
    lemma_without_underscores_plain(r0);
    assert(without_underscores(f) == f.take(6) + r0);
    assert(ascii_lowered(f.take(6) + r0) =~= ascii_lowered(
        EntryType::IgnoreUnknown.keyword_name(),
    ));
}

proof fn lemma_name_of_field_48()
    ensures
        field_names_keyword(field_name(48), EntryType::Include),
{
    reveal_strlit("include");
    reveal_strlit("Include");
    let f = field_name(48);
    lemma_without_underscores_plain(f);
    assert(without_underscores(f) == f);
    assert(ascii_lowered(f) =~= ascii_lowered(
        EntryType::Include.keyword_name(),
    ));
}

proof fn lemma_name_of_field_49()
    ensures
        field_names_keyword(field_name(49), EntryType::IPQoS),
{
    reveal_strlit("ipqos");
    reveal_strlit("IPQoS");
    let f = field_name(49);
    lemma_without_underscores_plain(f);
    assert(without_underscores(f) == f);
    assert(ascii_lowered(f) =~= ascii_lowered(
        EntryType::IPQoS.keyword_name(),
    ));
}

proof fn lemma_name_of_field_50()
    ensures
        field_names_keyword(field_name(50), EntryType::KbdInteractiveAuthentication),
{
    reveal_strlit("kbd_interactive_authentication");
    reveal_strlit("KbdInteractiveAuthentication");
    let f = field_name(50);
    lemma_without_underscores_plain(f.take(3));
    lemma_without_underscores_cut(f, 3);
    let r0 = f.skip(4);
    lemma_without_underscores_plain(r0.take(11));
    lemma_without_underscores_cut(r0, 11);
    let r1 = r0.skip(12);
    lemma_without_underscores_plain(r1);
    assert(without_underscores(f) == f.take(3) + (r0.take(11) + r1));
    assert(ascii_lowered(f.take(3) + (r0.take(11) + r1)) =~= ascii_lowered(
        EntryType::KbdInteractiveAuthentication.keyword_name(),
    ));
}

proof fn lemma_name_of_field_51()
    ensures
        field_names_keyword(field_name(51), EntryType::KbdInteractiveDevices),
{
    reveal_strlit("kbd_interactive_devices");
    reveal_strlit("KbdInteractiveDevices");
    let f = field_name(51);
    lemma_without_underscores_plain(f.take(3));
    lemma_without_underscores_cut(f, 3);
    let r0 = f.skip(4);
    lemma_without_underscores_plain(r0.take(11));
    lemma_without_underscores_cut(r0, 11);
    let r1 = r0.skip(12);
    lemma_without_underscores_plain(r1);
    assert(without_underscores(f) == f.take(3) + (r0.take(11) + r1));
    assert(ascii_lowered(f.take(3) + (r0.take(11) + r1)) =~= ascii_lowered(
        EntryType::KbdInteractiveDevices.keyword_name(),
    ));
}

proof fn lemma_name_of_field_52()
    ensures
        field_names_keyword(field_name(52), EntryType::KexAlgorithms),
{
    reveal_strlit("kex_algorithms");
    reveal_strlit("KexAlgorithms");
    let f = field_name(52);
    lemma_without_underscores_plain(f.take(3));
    lemma_without_underscores_cut(f, 3);
    let r0 = f.skip(4);
    lemma_without_underscores_plain(r0);
    assert(without_underscores(f) == f.take(3) + r0);
    assert(ascii_lowered(f.take(3) + r0) =~= ascii_lowered(
        EntryType::KexAlgorithms.keyword_name(),
    ));
}

proof fn lemma_name_of_field_53()
    ensures
        field_names_keyword(field_name(53), EntryType::KnownHostsCommand),
{
    reveal_strlit("known_hosts_command");
    reveal_strlit("KnownHostsCommand");
    let f = field_name(53);
    lemma_without_underscores_plain(f.take(5));
    lemma_without_underscores_cut(f, 5);
    let r0 = f.skip(6);
    lemma_without_underscores_plain(r0.take(5));
    lemma_without_underscores_cut(r0, 5);
    let r1 = r0.skip(6);
    lemma_without_underscores_plain(r1);
    assert(without_underscores(f) == f.take(5) + (r0.take(5) + r1));
    assert(ascii_lowered(f.take(5) + (r0.take(5) + r1)) =~= ascii_lowered(
        EntryType::KnownHostsCommand.keyword_name(),
    ));
}

proof fn lemma_name_of_field_54()
    ensures
        field_names_keyword(field_name(54), EntryType::LocalCommand),
{
    reveal_strlit("local_command");
    reveal_strlit("LocalCommand");
    let f = field_name(54);
    lemma_without_underscores_plain(f.take(5));
    lemma_without_underscores_cut(f, 5);
    let r0 = f.skip(6);
    lemma_without_underscores_plain(r0);
    assert(without_underscores(f) == f.take(5) + r0);
    assert(ascii_lowered(f.take(5) + r0) =~= ascii_lowered(
        EntryType::LocalCommand.keyword_name(),
    ));
}

proof fn lemma_name_of_field_55()
    ensures
        field_names_keyword(field_name(55), EntryType::LocalForward),
{
    reveal_strlit("local_forward");
    reveal_strlit("LocalForward");
    let f = field_name(55);
    lemma_without_underscores_plain(f.take(5));
    lemma_without_underscores_cut(f, 5);
    let r0 = f.skip(6);
    lemma_without_underscores_plain(r0);
    assert(without_underscores(f) == f.take(5) + r0);
    assert(ascii_lowered(f.take(5) + r0) =~= ascii_lowered(
        EntryType::LocalForward.keyword_name(),
    ));
}

proof fn lemma_name_of_field_56()
    ensures
        field_names_keyword(field_name(56), EntryType::LogLevel),
{
    reveal_strlit("log_level");
    reveal_strlit("LogLevel");
    let f = field_name(56);
    lemma_without_underscores_plain(f.take(3));
    lemma_without_underscores_cut(f, 3);
    let r0 = f.skip(4);
    lemma_without_underscores_plain(r0);
    assert(without_underscores(f) == f.take(3) + r0);
    assert(ascii_lowered(f.take(3) + r0) =~= ascii_lowered(
        EntryType::LogLevel.keyword_name(),
    ));
}

proof fn lemma_name_of_field_57()
    ensures
        field_names_keyword(field_name(57), EntryType::LogVerbose),
{
    reveal_strlit("log_verbose");
    reveal_strlit("LogVerbose");
    let f = field_name(57);
    lemma_without_underscores_plain(f.take(3));
    lemma_without_underscores_cut(f, 3);
    let r0 = f.skip(4);
    lemma_without_underscores_plain(r0);
    assert(without_underscores(f) == f.take(3) + r0);
    assert(ascii_lowered(f.take(3) + r0) =~= ascii_lowered(
        EntryType::LogVerbose.keyword_name(),
    ));
}

proof fn lemma_name_of_field_58()
    ensures
        field_names_keyword(field_name(58), EntryType::MACs),
{
    reveal_strlit("macs");
    reveal_strlit("MACs");
    let f = field_name(58);
    lemma_without_underscores_plain(f);
    assert(without_underscores(f) == f);
    assert(ascii_lowered(f) =~= ascii_lowered(
        EntryType::MACs.keyword_name(),
    ));
}

proof fn lemma_name_of_field_59()
    ensures
        field_names_keyword(field_name(59), EntryType::Match),
{
    reveal_strlit("match_field");
    reveal_strlit("Match");
    reveal_strlit("_field");
    assert(field_name(59) =~= ascii_lowered(EntryType::Match.keyword_name()) + "_field"@);
}

proof fn lemma_name_of_field_61()
    ensures
        field_names_keyword(field_name(61), EntryType::NoHostAuthenticationForLocalhost),
{
    reveal_strlit("no_host_authentication_for_localhost");
    reveal_strlit("NoHostAuthenticationForLocalhost");
    let f = field_name(61);
    lemma_without_underscores_plain(f.take(2));
    lemma_without_underscores_cut(f, 2);
    let r0 = f.skip(3);
    lemma_without_underscores_plain(r0.take(4));
    lemma_without_underscores_cut(r0, 4);
    let r1 = r0.skip(5);
    lemma_without_underscores_plain(r1.take(14));
    lemma_without_underscores_cut(r1, 14);
    let r2 = r1.skip(15);
    lemma_without_underscores_plain(r2.take(3));
    lemma_without_underscores_cut(r2, 3);
    let r3 = r2.skip(4);
    lemma_without_underscores_plain(r3);
    assert(without_underscores(f) == f.take(2) + (r0.take(4) + (r1.take(14) + (r2.take(3) + r3))));
    assert(ascii_lowered(f.take(2) + (r0.take(4) + (r1.take(14) + (r2.take(3) + r3)))) =~= ascii_lowered(
        EntryType::NoHostAuthenticationForLocalhost.keyword_name(),
    ));
}

proof fn lemma_name_of_field_62()
    ensures
        field_names_keyword(field_name(62), EntryType::NumberOfPasswordPrompts),
{
    reveal_strlit("number_of_password_prompts");
    reveal_strlit("NumberOfPasswordPrompts");
    let f = field_name(62);
    lemma_without_underscores_plain(f.take(6));
    lemma_without_underscores_cut(f, 6);
    let r0 = f.skip(7);
    lemma_without_underscores_plain(r0.take(2));
    lemma_without_underscores_cut(r0, 2);
    let r1 = r0.skip(3);
    lemma_without_underscores_plain(r1.take(8));
    lemma_without_underscores_cut(r1, 8);
    let r2 = r1.skip(9);
    lemma_without_underscores_plain(r2);
    assert(without_underscores(f) == f.take(6) + (r0.take(2) + (r1.take(8) + r2)));
    assert(ascii_lowered(f.take(6) + (r0.take(2) + (r1.take(8) + r2))) =~= ascii_lowered(
        EntryType::NumberOfPasswordPrompts.keyword_name(),
    ));
}

proof fn lemma_name_of_field_63()
    ensures
        field_names_keyword(field_name(63), EntryType::ObscureKeystrokeTiming),
{
    reveal_strlit("obscure_keystroke_timing");
    reveal_strlit("ObscureKeystrokeTiming");
    let f = field_name(63);
    lemma_without_underscores_plain(f.take(7));
    lemma_without_underscores_cut(f, 7);
    let r0 = f.skip(8);
    lemma_without_underscores_plain(r0.take(9));
    lemma_without_underscores_cut(r0, 9);
    let r1 = r0.skip(10);
    lemma_without_underscores_plain(r1);
    assert(without_underscores(f) == f.take(7) + (r0.take(9) + r1));
    assert(ascii_lowered(f.take(7) + (r0.take(9) + r1)) =~= ascii_lowered(
        EntryType::ObscureKeystrokeTiming.keyword_name(),
    ));
}

proof fn lemma_name_of_field_64()
    ensures
        field_names_keyword(field_name(64), EntryType::PasswordAuthentication),
{
    reveal_strlit("password_authentication");
    reveal_strlit("PasswordAuthentication");
    let f = field_name(64);
    lemma_without_underscores_plain(f.take(8));
    lemma_without_underscores_cut(f, 8);
    let r0 = f.skip(9);
    lemma_without_underscores_plain(r0);
    assert(without_underscores(f) == f.take(8) + r0);
    assert(ascii_lowered(f.take(8) + r0) =~= ascii_lowered(
        EntryType::PasswordAuthentication.keyword_name(),
    ));
}

proof fn lemma_name_of_field_65()
    ensures
        field_names_keyword(field_name(65), EntryType::PermitLocalCommand),
{
    reveal_strlit("permit_local_command");
    reveal_strlit("PermitLocalCommand");
    let f = field_name(65);
    lemma_without_underscores_plain(f.take(6));
    lemma_without_underscores_cut(f, 6);
    let r0 = f.skip(7);
    lemma_without_underscores_plain(r0.take(5));
    lemma_without_underscores_cut(r0, 5);
    let r1 = r0.skip(6);
    lemma_without_underscores_plain(r1);
    assert(without_underscores(f) == f.take(6) + (r0.take(5) + r1));
    assert(ascii_lowered(f.take(6) + (r0.take(5) + r1)) =~= ascii_lowered(
        EntryType::PermitLocalCommand.keyword_name(),
    ));
}

proof fn lemma_name_of_field_66()
    ensures
        field_names_keyword(field_name(66), EntryType::PermitRemoteOpen),
{
    reveal_strlit("permit_remote_open");
    reveal_strlit("PermitRemoteOpen");
    let f = field_name(66);
    lemma_without_underscores_plain(f.take(6));
    lemma_without_underscores_cut(f, 6);
    let r0 = f.skip(7);
    lemma_without_underscores_plain(r0.take(6));
    lemma_without_underscores_cut(r0, 6);
    let r1 = r0.skip(7);
    lemma_without_underscores_plain(r1);
    assert(without_underscores(f) == f.take(6) + (r0.take(6) + r1));
    assert(ascii_lowered(f.take(6) + (r0.take(6) + r1)) =~= ascii_lowered(
        EntryType::PermitRemoteOpen.keyword_name(),
    ));
}

proof fn lemma_name_of_field_67()
    ensures
        field_names_keyword(field_name(67), EntryType::PKCS11Provider),
{
    reveal_strlit("pkcs11_provider");
    reveal_strlit("PKCS11Provider");
    let f = field_name(67);
    lemma_without_underscores_plain(f.take(6));
    lemma_without_underscores_cut(f, 6);
    let r0 = f.skip(7);
    lemma_without_underscores_plain(r0);
    assert(without_underscores(f) == f.take(6) + r0);
    assert(ascii_lowered(f.take(6) + r0) =~= ascii_lowered(
        EntryType::PKCS11Provider.keyword_name(),
    ));
}

proof fn lemma_name_of_field_68()
    ensures
        field_names_keyword(field_name(68), EntryType::Port),
{
    reveal_strlit("port");
    reveal_strlit("Port");
    let f = field_name(68);
    lemma_without_underscores_plain(f);
    assert(without_underscores(f) == f);
    assert(ascii_lowered(f) =~= ascii_lowered(
        EntryType::Port.keyword_name(),
    ));
}

proof fn lemma_name_of_field_69()
    ensures
        field_names_keyword(field_name(69), EntryType::PreferredAuthentications),
{
    reveal_strlit("preferred_authentications");
    reveal_strlit("PreferredAuthentications");
    let f = field_name(69);
    lemma_without_underscores_plain(f.take(9));
    lemma_without_underscores_cut(f, 9);
    let r0 = f.skip(10);
    lemma_without_underscores_plain(r0);
    assert(without_underscores(f) == f.take(9) + r0);
    assert(ascii_lowered(f.take(9) + r0) =~= ascii_lowered(
        EntryType::PreferredAuthentications.keyword_name(),
    ));
}

proof fn lemma_name_of_field_70()
    ensures
        field_names_keyword(field_name(70), EntryType::ProxyCommand),
{
    reveal_strlit("proxy_command");
    reveal_strlit("ProxyCommand");
    let f = field_name(70);
    lemma_without_underscores_plain(f.take(5));
    lemma_without_underscores_cut(f, 5);
    let r0 = f.skip(6);
    lemma_without_underscores_plain(r0);
    assert(without_underscores(f) == f.take(5) + r0);
    assert(ascii_lowered(f.take(5) + r0) =~= ascii_lowered(
        EntryType::ProxyCommand.keyword_name(),
    ));
}

proof fn lemma_name_of_field_71()
    ensures
        field_names_keyword(field_name(71), EntryType::ProxyJump),
{
    reveal_strlit("proxy_jump");
    reveal_strlit("ProxyJump");
    let f = field_name(71);
    lemma_without_underscores_plain(f.take(5));
    lemma_without_underscores_cut(f, 5);
    let r0 = f.skip(6);
    lemma_without_underscores_plain(r0);
    assert(without_underscores(f) == f.take(5) + r0);
    assert(ascii_lowered(f.take(5) + r0) =~= ascii_lowered(
        EntryType::ProxyJump.keyword_name(),
    ));
}

proof fn lemma_name_of_field_72()
    ensures
        field_names_keyword(field_name(72), EntryType::ProxyUseFdpass),
{
    reveal_strlit("proxy_use_fdpass");
    reveal_strlit("ProxyUseFdpass");
    let f = field_name(72);
    lemma_without_underscores_plain(f.take(5));
    lemma_without_underscores_cut(f, 5);
    let r0 = f.skip(6);
    lemma_without_underscores_plain(r0.take(3));
    lemma_without_underscores_cut(r0, 3);
    let r1 = r0.skip(4);
    lemma_without_underscores_plain(r1);
    assert(without_underscores(f) == f.take(5) + (r0.take(3) + r1));
    assert(ascii_lowered(f.take(5) + (r0.take(3) + r1)) =~= ascii_lowered(
        EntryType::ProxyUseFdpass.keyword_name(),
    ));
}

proof fn lemma_name_of_field_73()
    ensures
        field_names_keyword(field_name(73), EntryType::PubkeyAcceptedAlgorithms),
{
    reveal_strlit("pubkey_accepted_algorithms");
    reveal_strlit("PubkeyAcceptedAlgorithms");
    let f = field_name(73);
    lemma_without_underscores_plain(f.take(6));
    lemma_without_underscores_cut(f, 6);
    let r0 = f.skip(7);
    lemma_without_underscores_plain(r0.take(8));
    lemma_without_underscores_cut(r0, 8);
    let r1 = r0.skip(9);
    lemma_without_underscores_plain(r1);
    assert(without_underscores(f) == f.take(6) + (r0.take(8) + r1));
    assert(ascii_lowered(f.take(6) + (r0.take(8) + r1)) =~= ascii_lowered(
        EntryType::PubkeyAcceptedAlgorithms.keyword_name(),
    ));
}

proof fn lemma_name_of_field_74()
    ensures
        field_names_keyword(field_name(74), EntryType::PubkeyAuthentication),
{
    reveal_strlit("pubkey_authentication");
    reveal_strlit("PubkeyAuthentication");
    let f = field_name(74);
    lemma_without_underscores_plain(f.take(6));
    lemma_without_underscores_cut(f, 6);
    let r0 = f.skip(7);
    lemma_without_underscores_plain(r0);
    assert(without_underscores(f) == f.take(6) + r0);
    assert(ascii_lowered(f.take(6) + r0) =~= ascii_lowered(
        EntryType::PubkeyAuthentication.keyword_name(),
    ));
}

proof fn lemma_name_of_field_75()
    ensures
        field_names_keyword(field_name(75), EntryType::RekeyLimit),
{
    reveal_strlit("rekey_limit");
    reveal_strlit("RekeyLimit");
    let f = field_name(75);
    lemma_without_underscores_plain(f.take(5));
    lemma_without_underscores_cut(f, 5);
    let r0 = f.skip(6);
    lemma_without_underscores_plain(r0);
    assert(without_underscores(f) == f.take(5) + r0);
    assert(ascii_lowered(f.take(5) + r0) =~= ascii_lowered(
        EntryType::RekeyLimit.keyword_name(),
    ));
}

proof fn lemma_name_of_field_76()
    ensures
        field_names_keyword(field_name(76), EntryType::RemoteCommand),
{
    reveal_strlit("remote_command");
    reveal_strlit("RemoteCommand");
    let f = field_name(76);
    lemma_without_underscores_plain(f.take(6));
    lemma_without_underscores_cut(f, 6);
    let r0 = f.skip(7);
    lemma_without_underscores_plain(r0);
    assert(without_underscores(f) == f.take(6) + r0);
    assert(ascii_lowered(f.take(6) + r0) =~= ascii_lowered(
        EntryType::RemoteCommand.keyword_name(),
    ));
}

proof fn lemma_name_of_field_77()
    ensures
        field_names_keyword(field_name(77), EntryType::RemoteForward),
{
    reveal_strlit("remote_forward");
    reveal_strlit("RemoteForward");
    let f = field_name(77);
    lemma_without_underscores_plain(f.take(6));
    lemma_without_underscores_cut(f, 6);
    let r0 = f.skip(7);
    lemma_without_underscores_plain(r0);
    assert(without_underscores(f) == f.take(6) + r0);
    assert(ascii_lowered(f.take(6) + r0) =~= ascii_lowered(
        EntryType::RemoteForward.keyword_name(),
    ));
}

proof fn lemma_name_of_field_78()
    ensures
        field_names_keyword(field_name(78), EntryType::RequestTTY),
{
    reveal_strlit("request_tty");
    reveal_strlit("RequestTTY");
    let f = field_name(78);
    lemma_without_underscores_plain(f.take(7));
    lemma_without_underscores_cut(f, 7);
    let r0 = f.skip(8);
    lemma_without_underscores_plain(r0);
    assert(without_underscores(f) == f.take(7) + r0);
    assert(ascii_lowered(f.take(7) + r0) =~= ascii_lowered(
        EntryType::RequestTTY.keyword_name(),
    ));
}

proof fn lemma_name_of_field_79()
    ensures
        field_names_keyword(field_name(79), EntryType::RequiredRSASize),
{
    reveal_strlit("required_rsa_size");
    reveal_strlit("RequiredRSASize");
    let f = field_name(79);
    lemma_without_underscores_plain(f.take(8));
    lemma_without_underscores_cut(f, 8);
    let r0 = f.skip(9);
    lemma_without_underscores_plain(r0.take(3));
    lemma_without_underscores_cut(r0, 3);
    let r1 = r0.skip(4);
    lemma_without_underscores_plain(r1);
    assert(without_underscores(f) == f.take(8) + (r0.take(3) + r1));
    assert(ascii_lowered(f.take(8) + (r0.take(3) + r1)) =~= ascii_lowered(
        EntryType::RequiredRSASize.keyword_name(),
    ));
}

proof fn lemma_name_of_field_80()
    ensures
        field_names_keyword(field_name(80), EntryType::RevokedHostKeys),
{
    reveal_strlit("revoked_host_keys");
    reveal_strlit("RevokedHostKeys");
    let f = field_name(80);
    lemma_without_underscores_plain(f.take(7));
    lemma_without_underscores_cut(f, 7);
    let r0 = f.skip(8);
    lemma_without_underscores_plain(r0.take(4));
    lemma_without_underscores_cut(r0, 4);
    let r1 = r0.skip(5);
    lemma_without_underscores_plain(r1);
    assert(without_underscores(f) == f.take(7) + (r0.take(4) + r1));
    assert(ascii_lowered(f.take(7) + (r0.take(4) + r1)) =~= ascii_lowered(
        EntryType::RevokedHostKeys.keyword_name(),
    ));
}

proof fn lemma_name_of_field_81()
    ensures
        field_names_keyword(field_name(81), EntryType::SecurityKeyProvider),
{
    reveal_strlit("security_key_provider");
    reveal_strlit("SecurityKeyProvider");
    let f = field_name(81);
    lemma_without_underscores_plain(f.take(8));
    lemma_without_underscores_cut(f, 8);
    let r0 = f.skip(9);
    lemma_without_underscores_plain(r0.take(3));
    lemma_without_underscores_cut(r0, 3);
    let r1 = r0.skip(4);
    lemma_without_underscores_plain(r1);
    assert(without_underscores(f) == f.take(8) + (r0.take(3) + r1));
    assert(ascii_lowered(f.take(8) + (r0.take(3) + r1)) =~= ascii_lowered(
        EntryType::SecurityKeyProvider.keyword_name(),
    ));
}

proof fn lemma_name_of_field_82()
    ensures
        field_names_keyword(field_name(82), EntryType::SendEnv),
{
    reveal_strlit("send_env");
    reveal_strlit("SendEnv");
    let f = field_name(82);
    lemma_without_underscores_plain(f.take(4));
    lemma_without_underscores_cut(f, 4);
    let r0 = f.skip(5);
    lemma_without_underscores_plain(r0);
    assert(without_underscores(f) == f.take(4) + r0);
    assert(ascii_lowered(f.take(4) + r0) =~= ascii_lowered(
        EntryType::SendEnv.keyword_name(),
    ));
}

proof fn lemma_name_of_field_83()
    ensures
        field_names_keyword(field_name(83), EntryType::ServerAliveCountMax),
{
    reveal_strlit("server_alive_count_max");
    reveal_strlit("ServerAliveCountMax");
    let f = field_name(83);
    lemma_without_underscores_plain(f.take(6));
    lemma_without_underscores_cut(f, 6);
    let r0 = f.skip(7);
    lemma_without_underscores_plain(r0.take(5));
    lemma_without_underscores_cut(r0, 5);
    let r1 = r0.skip(6);
    lemma_without_underscores_plain(r1.take(5));
    lemma_without_underscores_cut(r1, 5);
    let r2 = r1.skip(6);
    lemma_without_underscores_plain(r2);
    assert(without_underscores(f) == f.take(6) + (r0.take(5) + (r1.take(5) + r2)));
    assert(ascii_lowered(f.take(6) + (r0.take(5) + (r1.take(5) + r2))) =~= ascii_lowered(
        EntryType::ServerAliveCountMax.keyword_name(),
    ));
}

proof fn lemma_name_of_field_84()
    ensures
        field_names_keyword(field_name(84), EntryType::ServerAliveInterval),
{
    reveal_strlit("server_alive_interval");
    reveal_strlit("ServerAliveInterval");
    let f = field_name(84);
    lemma_without_underscores_plain(f.take(6));
    lemma_without_underscores_cut(f, 6);
    let r0 = f.skip(7);
    lemma_without_underscores_plain(r0.take(5));
    lemma_without_underscores_cut(r0, 5);
    let r1 = r0.skip(6);
    lemma_without_underscores_plain(r1);
    assert(without_underscores(f) == f.take(6) + (r0.take(5) + r1));
    assert(ascii_lowered(f.take(6) + (r0.take(5) + r1)) =~= ascii_lowered(
        EntryType::ServerAliveInterval.keyword_name(),
    ));
}

proof fn lemma_name_of_field_85()
    ensures
        field_names_keyword(field_name(85), EntryType::SessionType),
{
    reveal_strlit("session_type");
    reveal_strlit("SessionType");
    let f = field_name(85);
    lemma_without_underscores_plain(f.take(7));
    lemma_without_underscores_cut(f, 7);
    let r0 = f.skip(8);
    lemma_without_underscores_plain(r0);
    assert(without_underscores(f) == f.take(7) + r0);
    assert(ascii_lowered(f.take(7) + r0) =~= ascii_lowered(
        EntryType::SessionType.keyword_name(),
    ));
}

proof fn lemma_name_of_field_86()
    ensures
        field_names_keyword(field_name(86), EntryType::SetEnv),
{
    reveal_strlit("set_env");
    reveal_strlit("SetEnv");
    let f = field_name(86);
    lemma_without_underscores_plain(f.take(3));
    lemma_without_underscores_cut(f, 3);
    let r0 = f.skip(4);
    lemma_without_underscores_plain(r0);
    assert(without_underscores(f) == f.take(3) + r0);
    assert(ascii_lowered(f.take(3) + r0) =~= ascii_lowered(
        EntryType::SetEnv.keyword_name(),
    ));
}

proof fn lemma_name_of_field_87()
    ensures
        field_names_keyword(field_name(87), EntryType::StdinNull),
{
    reveal_strlit("stdin_null");
    reveal_strlit("StdinNull");
    let f = field_name(87);
    lemma_without_underscores_plain(f.take(5));
    lemma_without_underscores_cut(f, 5);
    let r0 = f.skip(6);
    lemma_without_underscores_plain(r0);
    assert(without_underscores(f) == f.take(5) + r0);
    assert(ascii_lowered(f.take(5) + r0) =~= ascii_lowered(
        EntryType::StdinNull.keyword_name(),
    ));
}

proof fn lemma_name_of_field_88()
    ensures
        field_names_keyword(field_name(88), EntryType::StreamLocalBindMask),
{
    reveal_strlit("stream_local_bind_mask");
    reveal_strlit("StreamLocalBindMask");
    let f = field_name(88);
    lemma_without_underscores_plain(f.take(6));
    lemma_without_underscores_cut(f, 6);
    let r0 = f.skip(7);
    lemma_without_underscores_plain(r0.take(5));
    lemma_without_underscores_cut(r0, 5);
    let r1 = r0.skip(6);
    lemma_without_underscores_plain(r1.take(4));
    lemma_without_underscores_cut(r1, 4);
    let r2 = r1.skip(5);
    lemma_without_underscores_plain(r2);
    assert(without_underscores(f) == f.take(6) + (r0.take(5) + (r1.take(4) + r2)));
    assert(ascii_lowered(f.take(6) + (r0.take(5) + (r1.take(4) + r2))) =~= ascii_lowered(
        EntryType::StreamLocalBindMask.keyword_name(),
    ));
}

proof fn lemma_name_of_field_89()
    ensures
        field_names_keyword(field_name(89), EntryType::StreamLocalBindUnlink),
{
    reveal_strlit("stream_local_bind_unlink");
    reveal_strlit("StreamLocalBindUnlink");
    let f = field_name(89);
    lemma_without_underscores_plain(f.take(6));
    lemma_without_underscores_cut(f, 6);
    let r0 = f.skip(7);
    lemma_without_underscores_plain(r0.take(5));
    lemma_without_underscores_cut(r0, 5);
    let r1 = r0.skip(6);
    lemma_without_underscores_plain(r1.take(4));
    lemma_without_underscores_cut(r1, 4);
    let r2 = r1.skip(5);
    lemma_without_underscores_plain(r2);
    assert(without_underscores(f) == f.take(6) + (r0.take(5) + (r1.take(4) + r2)));
    assert(ascii_lowered(f.take(6) + (r0.take(5) + (r1.take(4) + r2))) =~= ascii_lowered(
        EntryType::StreamLocalBindUnlink.keyword_name(),
    ));
}

proof fn lemma_name_of_field_90()
    ensures
        field_names_keyword(field_name(90), EntryType::StrictHostKeyChecking),
{
    reveal_strlit("strict_host_key_checking");
    reveal_strlit("StrictHostKeyChecking");
    let f = field_name(90);
    lemma_without_underscores_plain(f.take(6));
    lemma_without_underscores_cut(f, 6);
    let r0 = f.skip(7);
    lemma_without_underscores_plain(r0.take(4));
    lemma_without_underscores_cut(r0, 4);
    let r1 = r0.skip(5);
    lemma_without_underscores_plain(r1.take(3));
    lemma_without_underscores_cut(r1, 3);
    let r2 = r1.skip(4);
    lemma_without_underscores_plain(r2);
    assert(without_underscores(f) == f.take(6) + (r0.take(4) + (r1.take(3) + r2)));
    assert(ascii_lowered(f.take(6) + (r0.take(4) + (r1.take(3) + r2))) =~= ascii_lowered(
        EntryType::StrictHostKeyChecking.keyword_name(),
    ));
}

proof fn lemma_name_of_field_91()
    ensures
        field_names_keyword(field_name(91), EntryType::SyslogFacility),
{
    reveal_strlit("syslog_facility");
    reveal_strlit("SyslogFacility");
    let f = field_name(91);
    lemma_without_underscores_plain(f.take(6));
    lemma_without_underscores_cut(f, 6);
    let r0 = f.skip(7);
    lemma_without_underscores_plain(r0);
    assert(without_underscores(f) == f.take(6) + r0);
    assert(ascii_lowered(f.take(6) + r0) =~= ascii_lowered(
        EntryType::SyslogFacility.keyword_name(),
    ));
}

proof fn lemma_name_of_field_92()
    ensures
        field_names_keyword(field_name(92), EntryType::Tag),
{
    reveal_strlit("tag");
    reveal_strlit("Tag");
    let f = field_name(92);
    lemma_without_underscores_plain(f);
    assert(without_underscores(f) == f);
    assert(ascii_lowered(f) =~= ascii_lowered(
        EntryType::Tag.keyword_name(),
    ));
}

proof fn lemma_name_of_field_93()
    ensures
        field_names_keyword(field_name(93), EntryType::TCPKeepAlive),
{
    reveal_strlit("tcp_keep_alive");
    reveal_strlit("TCPKeepAlive");
    let f = field_name(93);
    lemma_without_underscores_plain(f.take(3));
    lemma_without_underscores_cut(f, 3);
    let r0 = f.skip(4);
    lemma_without_underscores_plain(r0.take(4));
    lemma_without_underscores_cut(r0, 4);
    let r1 = r0.skip(5);
    lemma_without_underscores_plain(r1);
    assert(without_underscores(f) == f.take(3) + (r0.take(4) + r1));
    assert(ascii_lowered(f.take(3) + (r0.take(4) + r1)) =~= ascii_lowered(
        EntryType::TCPKeepAlive.keyword_name(),
    ));
}

proof fn lemma_name_of_field_94()
    ensures
        field_names_keyword(field_name(94), EntryType::Tunnel),
{
    reveal_strlit("tunnel");
    reveal_strlit("Tunnel");
    let f = field_name(94);
    lemma_without_underscores_plain(f);
    assert(without_underscores(f) == f);
    assert(ascii_lowered(f) =~= ascii_lowered(
        EntryType::Tunnel.keyword_name(),
    ));
}

proof fn lemma_name_of_field_95()
    ensures
        field_names_keyword(field_name(95), EntryType::TunnelDevice),
{
    reveal_strlit("tunnel_device");
    reveal_strlit("TunnelDevice");
    let f = field_name(95);
    lemma_without_underscores_plain(f.take(6));
    lemma_without_underscores_cut(f, 6);
    let r0 = f.skip(7);
    lemma_without_underscores_plain(r0);
    assert(without_underscores(f) == f.take(6) + r0);
    assert(ascii_lowered(f.take(6) + r0) =~= ascii_lowered(
        EntryType::TunnelDevice.keyword_name(),
    ));
}

proof fn lemma_name_of_field_96()
    ensures
        field_names_keyword(field_name(96), EntryType::UpdateHostKeys),
{
    reveal_strlit("update_host_keys");
    reveal_strlit("UpdateHostKeys");
    let f = field_name(96);
    lemma_without_underscores_plain(f.take(6));
    lemma_without_underscores_cut(f, 6);
    let r0 = f.skip(7);
    lemma_without_underscores_plain(r0.take(4));
    lemma_without_underscores_cut(r0, 4);
    let r1 = r0.skip(5);
    lemma_without_underscores_plain(r1);
    assert(without_underscores(f) == f.take(6) + (r0.take(4) + r1));
    assert(ascii_lowered(f.take(6) + (r0.take(4) + r1)) =~= ascii_lowered(
        EntryType::UpdateHostKeys.keyword_name(),
    ));
}

proof fn lemma_name_of_field_97()
    ensures
        field_names_keyword(field_name(97), EntryType::User),
{
    reveal_strlit("user");
    reveal_strlit("User");
    let f = field_name(97);
    lemma_without_underscores_plain(f);
    assert(without_underscores(f) == f);
    assert(ascii_lowered(f) =~= ascii_lowered(
        EntryType::User.keyword_name(),
    ));
}

proof fn lemma_name_of_field_98()
    ensures
        field_names_keyword(field_name(98), EntryType::UserKnownHostsFile),
{
    reveal_strlit("user_known_hosts_file");
    reveal_strlit("UserKnownHostsFile");
    let f = field_name(98);
    lemma_without_underscores_plain(f.take(4));
    lemma_without_underscores_cut(f, 4);
    let r0 = f.skip(5);
    lemma_without_underscores_plain(r0.take(5));
    lemma_without_underscores_cut(r0, 5);
    let r1 = r0.skip(6);
    lemma_without_underscores_plain(r1.take(5));
    lemma_without_underscores_cut(r1, 5);
    let r2 = r1.skip(6);
    lemma_without_underscores_plain(r2);
    assert(without_underscores(f) == f.take(4) + (r0.take(5) + (r1.take(5) + r2)));
    assert(ascii_lowered(f.take(4) + (r0.take(5) + (r1.take(5) + r2))) =~= ascii_lowered(
        EntryType::UserKnownHostsFile.keyword_name(),
    ));
}

proof fn lemma_name_of_field_99()
    ensures
        field_names_keyword(field_name(99), EntryType::VerifyHostKeyDNS),
{
    reveal_strlit("verify_host_key_dns");
    reveal_strlit("VerifyHostKeyDNS");
    let f = field_name(99);
    lemma_without_underscores_plain(f.take(6));
    lemma_without_underscores_cut(f, 6);
    let r0 = f.skip(7);
    lemma_without_underscores_plain(r0.take(4));
    lemma_without_underscores_cut(r0, 4);
    let r1 = r0.skip(5);
    lemma_without_underscores_plain(r1.take(3));
    lemma_without_underscores_cut(r1, 3);
    let r2 = r1.skip(4);
    lemma_without_underscores_plain(r2);
    assert(without_underscores(f) == f.take(6) + (r0.take(4) + (r1.take(3) + r2)));
    assert(ascii_lowered(f.take(6) + (r0.take(4) + (r1.take(3) + r2))) =~= ascii_lowered(
        EntryType::VerifyHostKeyDNS.keyword_name(),
    ));
}

proof fn lemma_name_of_field_100()
    ensures
        field_names_keyword(field_name(100), EntryType::VisualHostKey),
{
    reveal_strlit("visual_host_key");
    reveal_strlit("VisualHostKey");
    let f = field_name(100);
    lemma_without_underscores_plain(f.take(6));
    lemma_without_underscores_cut(f, 6);
    let r0 = f.skip(7);
    lemma_without_underscores_plain(r0.take(4));
    lemma_without_underscores_cut(r0, 4);
    let r1 = r0.skip(5);
    lemma_without_underscores_plain(r1);
    assert(without_underscores(f) == f.take(6) + (r0.take(4) + r1));
    assert(ascii_lowered(f.take(6) + (r0.take(4) + r1)) =~= ascii_lowered(
        EntryType::VisualHostKey.keyword_name(),
    ));
}

proof fn lemma_name_of_field_101()
    ensures
        field_names_keyword(field_name(101), EntryType::XAuthLocation),
{
    reveal_strlit("x_auth_location");
    reveal_strlit("XAuthLocation");
    let f = field_name(101);
    lemma_without_underscores_plain(f.take(1));
    lemma_without_underscores_cut(f, 1);
    let r0 = f.skip(2);
    lemma_without_underscores_plain(r0.take(4));
    lemma_without_underscores_cut(r0, 4);
    let r1 = r0.skip(5);
    lemma_without_underscores_plain(r1);
    assert(without_underscores(f) == f.take(1) + (r0.take(4) + r1));
    assert(ascii_lowered(f.take(1) + (r0.take(4) + r1)) =~= ascii_lowered(
        EntryType::XAuthLocation.keyword_name(),
    ));
}

proof fn lemma_fields_0_to_10(h: Host, m: HostModel, i: int)
    requires
        describes_block(h, m),
        0 <= i <= 10,
        i != 2,
        i != 60,
    ensures
        reads_own_keyword(h, m, i),
{
    if i == 0 {
        lemma_name_of_field_0();
        assert(field_reads(h, m, i, EntryType::AddKeysToAgent));
    } else if i == 1 {
        lemma_name_of_field_1();
        assert(field_reads(h, m, i, EntryType::AddressFamily));
    } else if i == 3 {
        lemma_name_of_field_3();
        assert(field_reads(h, m, i, EntryType::BatchMode));
    } else if i == 4 {
        lemma_name_of_field_4();
        assert(field_reads(h, m, i, EntryType::BindAddress));
    } else if i == 5 {
        lemma_name_of_field_5();
        assert(field_reads(h, m, i, EntryType::BindInterface));
    } else if i == 6 {
        lemma_name_of_field_6();
        assert(field_reads(h, m, i, EntryType::CASignatureAlgorithms));
    } else if i == 7 {
        lemma_name_of_field_7();
        assert(field_reads(h, m, i, EntryType::CanonicalDomains));
    } else if i == 8 {
        lemma_name_of_field_8();
        assert(field_reads(h, m, i, EntryType::CanonicalizeFallbackLocal));
    } else if i == 9 {
        lemma_name_of_field_9();
        assert(field_reads(h, m, i, EntryType::CanonicalizeHostname));
    } else if i == 10 {
        lemma_name_of_field_10();
        assert(field_reads(h, m, i, EntryType::CanonicalizeMaxDots));
    }
}

proof fn lemma_fields_11_to_20(h: Host, m: HostModel, i: int)
    requires
        describes_block(h, m),
        11 <= i <= 20,
        i != 2,
        i != 60,
    ensures
        reads_own_keyword(h, m, i),
{
    if i == 11 {
        lemma_name_of_field_11();
        assert(field_reads(h, m, i, EntryType::CanonicalizePermittedCNAMEs));
    } else if i == 12 {
        lemma_name_of_field_12();
        assert(field_reads(h, m, i, EntryType::CertificateFile));
    } else if i == 13 {
        lemma_name_of_field_13();
        assert(field_reads(h, m, i, EntryType::ChannelTimeout));
    } else if i == 14 {
        lemma_name_of_field_14();
        assert(field_reads(h, m, i, EntryType::CheckHostIP));
    } else if i == 15 {
        lemma_name_of_field_15();
        assert(field_reads(h, m, i, EntryType::Ciphers));
    } else if i == 16 {
        lemma_name_of_field_16();
        assert(field_reads(h, m, i, EntryType::ClearAllForwardings));
    } else if i == 17 {
        lemma_name_of_field_17();
        assert(field_reads(h, m, i, EntryType::Compression));
    } else if i == 18 {
        lemma_name_of_field_18();
        assert(field_reads(h, m, i, EntryType::ConnectTimeout));
    } else if i == 19 {
        lemma_name_of_field_19();
        assert(field_reads(h, m, i, EntryType::ConnectionAttempts));
    } else if i == 20 {
        lemma_name_of_field_20();
        assert(field_reads(h, m, i, EntryType::ControlMaster));
    }
}

proof fn lemma_fields_21_to_30(h: Host, m: HostModel, i: int)
    requires
        describes_block(h, m),
        21 <= i <= 30,
        i != 2,
        i != 60,
    ensures
        reads_own_keyword(h, m, i),
{
    if i == 21 {
        lemma_name_of_field_21();
        assert(field_reads(h, m, i, EntryType::ControlPath));
    } else if i == 22 {
        lemma_name_of_field_22();
        assert(field_reads(h, m, i, EntryType::ControlPersist));
    } else if i == 23 {
        lemma_name_of_field_23();
        assert(field_reads(h, m, i, EntryType::DynamicForward));
    } else if i == 24 {
        lemma_name_of_field_24();
        assert(field_reads(h, m, i, EntryType::EnableEscapeCommandline));
    } else if i == 25 {
        lemma_name_of_field_25();
        assert(field_reads(h, m, i, EntryType::EnableSSHKeysign));
    } else if i == 26 {
        lemma_name_of_field_26();
        assert(field_reads(h, m, i, EntryType::EscapeChar));
    } else if i == 27 {
        lemma_name_of_field_27();
        assert(field_reads(h, m, i, EntryType::ExitOnForwardFailure));
    } else if i == 28 {
        lemma_name_of_field_28();
        assert(field_reads(h, m, i, EntryType::FingerprintHash));
    } else if i == 29 {
        lemma_name_of_field_29();
        assert(field_reads(h, m, i, EntryType::ForkAfterAuthentication));
    } else if i == 30 {
        lemma_name_of_field_30();
        assert(field_reads(h, m, i, EntryType::ForwardAgent));
    }
}

proof fn lemma_fields_31_to_40(h: Host, m: HostModel, i: int)
    requires
        describes_block(h, m),
        31 <= i <= 40,
        i != 2,
        i != 60,
    ensures
        reads_own_keyword(h, m, i),
{
    if i == 31 {
        lemma_name_of_field_31();
        assert(field_reads(h, m, i, EntryType::ForwardX11));
    } else if i == 32 {
        lemma_name_of_field_32();
        assert(field_reads(h, m, i, EntryType::ForwardX11Timeout));
    } else if i == 33 {
        lemma_name_of_field_33();
        assert(field_reads(h, m, i, EntryType::ForwardX11Trusted));
    } else if i == 34 {
        lemma_name_of_field_34();
        assert(field_reads(h, m, i, EntryType::GatewayPorts));
    } else if i == 35 {
        lemma_name_of_field_35();
        assert(field_reads(h, m, i, EntryType::GlobalKnownHostsFile));
    } else if i == 36 {
        lemma_name_of_field_36();
        assert(field_reads(h, m, i, EntryType::GSSAPIAuthentication));
    } else if i == 37 {
        lemma_name_of_field_37();
        assert(field_reads(h, m, i, EntryType::GSSAPIDelegateCredentials));
    } else if i == 38 {
        lemma_name_of_field_38();
        assert(field_reads(h, m, i, EntryType::HashKnownHosts));
    } else if i == 39 {
        lemma_name_of_field_39();
        assert(field_reads(h, m, i, EntryType::HostKeyAlgorithms));
    } else if i == 40 {
        lemma_name_of_field_40();
        assert(field_reads(h, m, i, EntryType::HostKeyAlias));
    }
}

proof fn lemma_fields_41_to_50(h: Host, m: HostModel, i: int)
    requires
        describes_block(h, m),
        41 <= i <= 50,
        i != 2,
        i != 60,
    ensures
        reads_own_keyword(h, m, i),
{
    if i == 41 {
        lemma_name_of_field_41();
        assert(field_reads(h, m, i, EntryType::HostbasedAcceptedAlgorithms));
    } else if i == 42 {
        lemma_name_of_field_42();
        assert(field_reads(h, m, i, EntryType::HostbasedAuthentication));
    } else if i == 43 {
        lemma_name_of_field_43();
        assert(field_reads(h, m, i, EntryType::Hostname));
    } else if i == 44 {
        lemma_name_of_field_44();
        assert(field_reads(h, m, i, EntryType::IdentitiesOnly));
    } else if i == 45 {
        lemma_name_of_field_45();
        assert(field_reads(h, m, i, EntryType::IdentityAgent));
    } else if i == 46 {
        lemma_name_of_field_46();
        assert(field_reads(h, m, i, EntryType::IdentityFile));
    } else if i == 47 {
        lemma_name_of_field_47();
        assert(field_reads(h, m, i, EntryType::IgnoreUnknown));
    } else if i == 48 {
        lemma_name_of_field_48();
        assert(field_reads(h, m, i, EntryType::Include));
    } else if i == 49 {
        lemma_name_of_field_49();
        assert(field_reads(h, m, i, EntryType::IPQoS));
    } else if i == 50 {
        lemma_name_of_field_50();
        assert(field_reads(h, m, i, EntryType::KbdInteractiveAuthentication));
    }
}

proof fn lemma_fields_51_to_61(h: Host, m: HostModel, i: int)
    requires
        describes_block(h, m),
        51 <= i <= 61,
        i != 2,
        i != 60,
    ensures
        reads_own_keyword(h, m, i),
{
    if i == 51 {
        lemma_name_of_field_51();
        assert(field_reads(h, m, i, EntryType::KbdInteractiveDevices));
    } else if i == 52 {
        lemma_name_of_field_52();
        assert(field_reads(h, m, i, EntryType::KexAlgorithms));
    } else if i == 53 {
        lemma_name_of_field_53();
        assert(field_reads(h, m, i, EntryType::KnownHostsCommand));
    } else if i == 54 {
        lemma_name_of_field_54();
        assert(field_reads(h, m, i, EntryType::LocalCommand));
    } else if i == 55 {
        lemma_name_of_field_55();
        assert(field_reads(h, m, i, EntryType::LocalForward));
    } else if i == 56 {
        lemma_name_of_field_56();
        assert(field_reads(h, m, i, EntryType::LogLevel));
    } else if i == 57 {
        lemma_name_of_field_57();
        assert(field_reads(h, m, i, EntryType::LogVerbose));
    } else if i == 58 {
        lemma_name_of_field_58();
        assert(field_reads(h, m, i, EntryType::MACs));
    } else if i == 59 {
        lemma_name_of_field_59();
        assert(field_reads(h, m, i, EntryType::Match));
    } else if i == 61 {
        lemma_name_of_field_61();
        assert(field_reads(h, m, i, EntryType::NoHostAuthenticationForLocalhost));
    }
}

proof fn lemma_fields_62_to_71(h: Host, m: HostModel, i: int)
    requires
        describes_block(h, m),
        62 <= i <= 71,
        i != 2,
        i != 60,
    ensures
        reads_own_keyword(h, m, i),
{
    if i == 62 {
        lemma_name_of_field_62();
        assert(field_reads(h, m, i, EntryType::NumberOfPasswordPrompts));
    } else if i == 63 {
        lemma_name_of_field_63();
        assert(field_reads(h, m, i, EntryType::ObscureKeystrokeTiming));
    } else if i == 64 {
        lemma_name_of_field_64();
        assert(field_reads(h, m, i, EntryType::PasswordAuthentication));
    } else if i == 65 {
        lemma_name_of_field_65();
        assert(field_reads(h, m, i, EntryType::PermitLocalCommand));
    } else if i == 66 {
        lemma_name_of_field_66();
        assert(field_reads(h, m, i, EntryType::PermitRemoteOpen));
    } else if i == 67 {
        lemma_name_of_field_67();
        assert(field_reads(h, m, i, EntryType::PKCS11Provider));
    } else if i == 68 {
        lemma_name_of_field_68();
        assert(field_reads(h, m, i, EntryType::Port));
    } else if i == 69 {
        lemma_name_of_field_69();
        assert(field_reads(h, m, i, EntryType::PreferredAuthentications));
    } else if i == 70 {
        lemma_name_of_field_70();
        assert(field_reads(h, m, i, EntryType::ProxyCommand));
    } else if i == 71 {
        lemma_name_of_field_71();
        assert(field_reads(h, m, i, EntryType::ProxyJump));
    }
}

proof fn lemma_fields_72_to_81(h: Host, m: HostModel, i: int)
    requires
        describes_block(h, m),
        72 <= i <= 81,
        i != 2,
        i != 60,
    ensures
        reads_own_keyword(h, m, i),
{
    if i == 72 {
        lemma_name_of_field_72();
        assert(field_reads(h, m, i, EntryType::ProxyUseFdpass));
    } else if i == 73 {
        lemma_name_of_field_73();
        assert(field_reads(h, m, i, EntryType::PubkeyAcceptedAlgorithms));
    } else if i == 74 {
        lemma_name_of_field_74();
        assert(field_reads(h, m, i, EntryType::PubkeyAuthentication));
    } else if i == 75 {
        lemma_name_of_field_75();
        assert(field_reads(h, m, i, EntryType::RekeyLimit));
    } else if i == 76 {
        lemma_name_of_field_76();
        assert(field_reads(h, m, i, EntryType::RemoteCommand));
    } else if i == 77 {
        lemma_name_of_field_77();
        assert(field_reads(h, m, i, EntryType::RemoteForward));
    } else if i == 78 {
        lemma_name_of_field_78();
        assert(field_reads(h, m, i, EntryType::RequestTTY));
    } else if i == 79 {
        lemma_name_of_field_79();
        assert(field_reads(h, m, i, EntryType::RequiredRSASize));
    } else if i == 80 {
        lemma_name_of_field_80();
        assert(field_reads(h, m, i, EntryType::RevokedHostKeys));
    } else if i == 81 {
        lemma_name_of_field_81();
        assert(field_reads(h, m, i, EntryType::SecurityKeyProvider));
    }
}

proof fn lemma_fields_82_to_91(h: Host, m: HostModel, i: int)
    requires
        describes_block(h, m),
        82 <= i <= 91,
        i != 2,
        i != 60,
    ensures
        reads_own_keyword(h, m, i),
{
    if i == 82 {
        lemma_name_of_field_82();
        assert(field_reads(h, m, i, EntryType::SendEnv));
    } else if i == 83 {
        lemma_name_of_field_83();
        assert(field_reads(h, m, i, EntryType::ServerAliveCountMax));
    } else if i == 84 {
        lemma_name_of_field_84();
        assert(field_reads(h, m, i, EntryType::ServerAliveInterval));
    } else if i == 85 {
        lemma_name_of_field_85();
        assert(field_reads(h, m, i, EntryType::SessionType));
    } else if i == 86 {
        lemma_name_of_field_86();
        assert(field_reads(h, m, i, EntryType::SetEnv));
    } else if i == 87 {
        lemma_name_of_field_87();
        assert(field_reads(h, m, i, EntryType::StdinNull));
    } else if i == 88 {
        lemma_name_of_field_88();
        assert(field_reads(h, m, i, EntryType::StreamLocalBindMask));
    } else if i == 89 {
        lemma_name_of_field_89();
        assert(field_reads(h, m, i, EntryType::StreamLocalBindUnlink));
    } else if i == 90 {
        lemma_name_of_field_90();
        assert(field_reads(h, m, i, EntryType::StrictHostKeyChecking));
    } else if i == 91 {
        lemma_name_of_field_91();
        assert(field_reads(h, m, i, EntryType::SyslogFacility));
    }
}

proof fn lemma_fields_92_to_101(h: Host, m: HostModel, i: int)
    requires
        describes_block(h, m),
        92 <= i <= 101,
        i != 2,
        i != 60,
    ensures
        reads_own_keyword(h, m, i),
{
    if i == 92 {
        lemma_name_of_field_92();
        assert(field_reads(h, m, i, EntryType::Tag));
    } else if i == 93 {
        lemma_name_of_field_93();
        assert(field_reads(h, m, i, EntryType::TCPKeepAlive));
    } else if i == 94 {
        lemma_name_of_field_94();
        assert(field_reads(h, m, i, EntryType::Tunnel));
    } else if i == 95 {
        lemma_name_of_field_95();
        assert(field_reads(h, m, i, EntryType::TunnelDevice));
    } else if i == 96 {
        lemma_name_of_field_96();
        assert(field_reads(h, m, i, EntryType::UpdateHostKeys));
    } else if i == 97 {
        lemma_name_of_field_97();
        assert(field_reads(h, m, i, EntryType::User));
    } else if i == 98 {
        lemma_name_of_field_98();
        assert(field_reads(h, m, i, EntryType::UserKnownHostsFile));
    } else if i == 99 {
        lemma_name_of_field_99();
        assert(field_reads(h, m, i, EntryType::VerifyHostKeyDNS));
    } else if i == 100 {
        lemma_name_of_field_100();
        assert(field_reads(h, m, i, EntryType::VisualHostKey));
    } else if i == 101 {
        lemma_name_of_field_101();
        assert(field_reads(h, m, i, EntryType::XAuthLocation));
    }
}

/// Every field of a record but its name and aliases holds what the block
/// records for the keyword the field is named after: `proxy_command` the
/// value of `ProxyCommand`, `user` that of `User`, `match_field` that of
/// `Match`, and `hostname` that of `Hostname` (or nothing when unset).
pub proof fn law_fields_read_their_keywords(h: Host, m: HostModel, i: int)
    requires
        describes_block(h, m),
        0 <= i < HOST_FIELD_COUNT,
        i != 2,
        i != 60,
    ensures
        exists|e: EntryType| #[trigger] field_names_keyword(field_name(i), e) && field_reads(h, m, i, e),
{
    if i <= 10 {
        lemma_fields_0_to_10(h, m, i);
    } else if i <= 20 {
        lemma_fields_11_to_20(h, m, i);
    } else if i <= 30 {
        lemma_fields_21_to_30(h, m, i);
    } else if i <= 40 {
        lemma_fields_31_to_40(h, m, i);
    } else if i <= 50 {
        lemma_fields_41_to_50(h, m, i);
    } else if i <= 61 {
        lemma_fields_51_to_61(h, m, i);
    } else if i <= 71 {
        lemma_fields_62_to_71(h, m, i);
    } else if i <= 81 {
        lemma_fields_72_to_81(h, m, i);
    } else if i <= 91 {
        lemma_fields_82_to_91(h, m, i);
    } else if i <= 101 {
        lemma_fields_92_to_101(h, m, i);
    }
}

} // verus!
