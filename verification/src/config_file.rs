//! Writing host records back to an SSH configuration file.

use vstd::prelude::*;
use vstd::string::StringExecFns;
use crate::host::{HOST_FIELD_COUNT, Host, field_names, present_fields};
use crate::text::{
    blank, chars_of, is_blank, is_whitespace, is_ws, join_strings, same_text, seq_join,
    split_chars, split_on, split_words, string_from_chars, strings_view, trim, trim_chars,
    trim_start, trim_start_chars, words,
};

verus! {

/// ASCII upper-casing of one character (`char::to_ascii_uppercase`).
pub open spec fn ascii_upper(c: char) -> char {
    if 'a' <= c && c <= 'z' {
        ((c as u32) - 32) as char
    } else {
        c
    }
}

/// ASCII lower-casing of one character (`char::to_ascii_lowercase`).
pub open spec fn ascii_lower(c: char) -> char {
    if 'A' <= c && c <= 'Z' {
        ((c as u32) + 32) as char
    } else {
        c
    }
}

/// Executable form of `ascii_upper`.
pub fn to_ascii_upper(c: char) -> (r: char)
    ensures
        r == ascii_upper(c),
{
    if 'a' <= c && c <= 'z' {
        let u = (c as u32) - 32;
        let b = u as u8;
        b as char
    } else {
        c
    }
}

/// Executable form of `ascii_lower`.
pub fn to_ascii_lower(c: char) -> (r: char)
    ensures
        r == ascii_lower(c),
{
    if 'A' <= c && c <= 'Z' {
        let u = (c as u32) + 32;
        let b = u as u8;
        b as char
    } else {
        c
    }
}

/// A snake_case name in PascalCase: underscores are dropped and the first
/// character of every underscore-separated piece is upper-cased.
pub open spec fn pascal(s: Seq<char>) -> Seq<char>
    decreases s.len(),
{
    if s.len() == 0 {
        seq![]
    } else {
        let prev = pascal(s.drop_last());
        let c = s.last();
        if c == '_' {
            prev
        } else if s.len() == 1 || s[s.len() - 2] == '_' {
            prev.push(ascii_upper(c))
        } else {
            prev.push(c)
        }
    }
}

/// Convert snake_case field names into SSH config-style names.
pub fn format_ssh_key(field: &str) -> (r: String)
    ensures
        r@ == pascal(field@),
{
    let cs = chars_of(field);
    let mut out: Vec<char> = Vec::new();
    let mut i: usize = 0;
    while i < cs.len()
        invariant
            i <= cs@.len(),
            cs@ == field@,
            out@ == pascal(field@.take(i as int)),
        decreases cs@.len() - i,
    {
        let c = cs[i];
        assert(field@.take(i + 1).drop_last() =~= field@.take(i as int));
        assert(field@.take(i + 1).last() == c);
        if c != '_' {
            if i == 0 || cs[i - 1] == '_' {
                out.push(to_ascii_upper(c));
            } else {
                out.push(c);
            }
            assert(i > 0 ==> field@.take(i + 1)[i - 1] == cs@[i - 1]);
        }
        i = i + 1;
    }
    assert(field@.take(field@.len() as int) =~= field@);
    string_from_chars(out.as_slice())
}

/// The non-empty trimmed pieces of a list of pieces, in order.
pub open spec fn nonempty_trimmed(ps: Seq<Seq<char>>) -> Seq<Seq<char>>
    decreases ps.len(),
{
    if ps.len() == 0 {
        seq![]
    } else if trim(ps.last()).len() == 0 {
        nonempty_trimmed(ps.drop_last())
    } else {
        nonempty_trimmed(ps.drop_last()).push(trim(ps.last()))
    }
}

/// The aliases as the `Host` line lists them: the comma-separated aliases,
/// trimmed, empty ones dropped, separated by spaces.
pub open spec fn aliases_text(a: Seq<char>) -> Seq<char> {
    if is_blank(a) {
        seq![]
    } else {
        seq_join(nonempty_trimmed(split_on(a, ',')), seq![' '])
    }
}

/// The `Host` line of a record.
pub open spec fn host_line(name: Seq<char>, aliases: Seq<char>) -> Seq<char> {
    let head = seq!['H', 'o', 's', 't', ' '] + name;
    if aliases_text(aliases).len() == 0 {
        head
    } else {
        head + seq![' '] + aliases_text(aliases)
    }
}

/// One indented option line per field, for the fields other than `name`
/// and `aliases`.
pub open spec fn option_lines(fields: Seq<(Seq<char>, Seq<char>)>) -> Seq<Seq<char>>
    decreases fields.len(),
{
    if fields.len() == 0 {
        seq![]
    } else {
        let prev = option_lines(fields.drop_last());
        let (k, v) = fields.last();
        if k == "name"@ || k == "aliases"@ {
            prev
        } else {
            prev.push(seq![' ', ' ', ' ', ' '] + pascal(k) + seq![' '] + v)
        }
    }
}

/// The lines of configuration that describe a host record.
pub open spec fn host_block_lines(h: Host) -> Seq<Seq<char>> {
    seq![host_line(h.name@, h.aliases@)] + option_lines(
        present_fields(field_names(), h.field_values(), HOST_FIELD_COUNT as nat),
    )
}

fn aliases_line_part(aliases: &String) -> (r: String)
    ensures
        r@ == aliases_text(aliases@),
{
    if blank(aliases.as_str()) {
        return String::new();
    }
    let cs = chars_of(aliases.as_str());
    let pieces = split_chars(&cs, ',');
    let ghost pv = pieces@.map_values(|v: Vec<char>| v@);
    let mut kept: Vec<String> = Vec::new();
    let mut i: usize = 0;
    while i < pieces.len()
        invariant
            i <= pieces@.len(),
            pv == pieces@.map_values(|v: Vec<char>| v@),
            pv == split_on(aliases@, ','),
            strings_view(kept@) == nonempty_trimmed(pv.take(i as int)),
        decreases pieces@.len() - i,
    {
        assert(pv.take(i + 1).drop_last() =~= pv.take(i as int));
        assert(pv.take(i + 1).last() == pieces@[i as int]@);
        let t = trim_chars(&pieces[i]);
        if t.len() > 0 {
            let ghost before = strings_view(kept@);
            kept.push(string_from_chars(t.as_slice()));
            assert(strings_view(kept@) =~= before.push(t@));
        }
        i = i + 1;
    }
    assert(pv.take(pv.len() as int) =~= pv);
    let sep = " ";
    proof {
        reveal_strlit(" ");
        assert(sep@ =~= seq![' ']);
    }
    join_strings(kept.as_slice(), sep)
}

/// Convert a Host into lines of SSH config (Vec<String>).
pub fn format_host_block(host: &Host) -> (r: Vec<String>)
    ensures
        strings_view(r@) == host_block_lines(*host),
{
    let aliases = aliases_line_part(&host.aliases);
    let head = String::from_str("Host ");
    proof {
        reveal_strlit("Host ");
        reveal_strlit(" ");
    }
    let mut line = head.concat(host.name.as_str());
    if aliases.as_str().unicode_len() > 0 {
        line = line.concat(" ");
        line = line.concat(aliases.as_str());
    }
    assert(line@ =~= host_line(host.name@, host.aliases@));
    let mut lines: Vec<String> = Vec::new();
    lines.push(line);
    let fields = host.iter_fields();
    let ghost fv = fields@.map_values(|p: (String, String)| (p.0@, p.1@));
    let mut i: usize = 0;
    while i < fields.len()
        invariant
            i <= fields@.len(),
            fv == fields@.map_values(|p: (String, String)| (p.0@, p.1@)),
            strings_view(lines@) == seq![host_line(host.name@, host.aliases@)] + option_lines(
                fv.take(i as int),
            ),
        decreases fields@.len() - i,
    {
        assert(fv.take(i + 1).drop_last() =~= fv.take(i as int));
        assert(fv.take(i + 1).last() == (fields@[i as int].0@, fields@[i as int].1@));
        let key = &fields[i].0;
        let value = &fields[i].1;
        if !same_text(key.as_str(), "name") && !same_text(key.as_str(), "aliases") {
            let indent = String::from_str("    ");
            proof {
                reveal_strlit("    ");
                reveal_strlit(" ");
            }
            let ssh_key = format_ssh_key(key.as_str());
            let l = indent.concat(ssh_key.as_str()).concat(" ").concat(value.as_str());
            let ghost before = strings_view(lines@);
            lines.push(l);
            assert(strings_view(lines@) =~= before.push(l@));
            assert(l@ =~= seq![' ', ' ', ' ', ' '] + pascal(key@) + seq![' '] + value@);
        }
        i = i + 1;
    }
    assert(fv.take(fv.len() as int) =~= fv);
    lines
}

/// A line opens a host block when, after leading whitespace, it starts with
/// `host ` in any letter case. (Lower-casing the whole line first gives the
/// same answer: only `H`, `O`, `S`, `T` and the space lower-case to these
/// five characters, each to a single character.)
pub open spec fn is_host_line(line: Seq<char>) -> bool {
    let t = trim_start(line);
    &&& t.len() >= 5
    &&& ascii_lower(t[0]) == 'h'
    &&& ascii_lower(t[1]) == 'o'
    &&& ascii_lower(t[2]) == 's'
    &&& ascii_lower(t[3]) == 't'
    &&& t[4] == ' '
}

/// Reads lines into blocks: the finished blocks and the block being read.
/// A host line closes the block being read, if it has lines; blank lines
/// are dropped.
pub open spec fn scan_blocks(lines: Seq<Seq<char>>) -> (Seq<Seq<Seq<char>>>, Seq<Seq<char>>)
    decreases lines.len(),
{
    if lines.len() == 0 {
        (seq![], seq![])
    } else {
        let (done, cur) = scan_blocks(lines.drop_last());
        let line = lines.last();
        let (done2, cur2) = if is_host_line(line) && cur.len() > 0 {
            (done.push(cur), Seq::<Seq<char>>::empty())
        } else {
            (done, cur)
        };
        if is_blank(line) {
            (done2, cur2)
        } else {
            (done2, cur2.push(line))
        }
    }
}

/// The blocks of a configuration file, each a non-empty list of non-blank
/// lines.
pub open spec fn config_blocks(lines: Seq<Seq<char>>) -> Seq<Seq<Seq<char>>> {
    let (done, cur) = scan_blocks(lines);
    if cur.len() > 0 {
        done.push(cur)
    } else {
        done
    }
}

/// A block is the block of host `name`: its first line is a host line whose
/// second word is `name`.
pub open spec fn block_is_for(block: Seq<Seq<char>>, name: Seq<char>) -> bool {
    &&& block.len() > 0
    &&& is_host_line(block[0])
    &&& words(block[0]).len() > 1
    &&& words(block[0])[1] == name
}

/// The first block that belongs to host `name`.
pub open spec fn first_block_for(blocks: Seq<Seq<Seq<char>>>, name: Seq<char>) -> Option<int>
    decreases blocks.len(),
{
    if blocks.len() == 0 {
        None
    } else {
        match first_block_for(blocks.drop_last(), name) {
            Some(i) => Some(i),
            None => if block_is_for(blocks.last(), name) {
                Some(blocks.len() - 1)
            } else {
                None
            },
        }
    }
}

/// The blocks with the record's block in place of the host's first block,
/// or appended when the host has none.
pub open spec fn blocks_with_host(blocks: Seq<Seq<Seq<char>>>, h: Host) -> Seq<Seq<Seq<char>>> {
    match first_block_for(blocks, h.name@) {
        Some(i) => blocks.update(i, host_block_lines(h)),
        None => blocks.push(host_block_lines(h)),
    }
}

/// The lines of the blocks, with one blank line between consecutive blocks.
pub open spec fn block_file_lines(blocks: Seq<Seq<Seq<char>>>) -> Seq<Seq<char>>
    decreases blocks.len(),
{
    if blocks.len() == 0 {
        seq![]
    } else if blocks.len() == 1 {
        blocks[0]
    } else {
        block_file_lines(blocks.drop_last()) + seq![Seq::<char>::empty()] + blocks.last()
    }
}

/// The lines of a configuration file after saving a host record into it:
/// the record's block replaces the host's first block, or is appended, and
/// blocks are written with exactly one blank line in between.
pub open spec fn saved_config_lines(lines: Seq<Seq<char>>, h: Host) -> Seq<Seq<char>> {
    block_file_lines(blocks_with_host(config_blocks(lines), h))
}

/// Whether a line opens a host block.
pub fn line_is_host_line(line: &String) -> (r: bool)
    ensures
        r == is_host_line(line@),
{
    let cs = chars_of(line.as_str());
    let t = trim_start_chars(&cs);
    t.len() >= 5 && to_ascii_lower(t[0]) == 'h' && to_ascii_lower(t[1]) == 'o'
        && to_ascii_lower(t[2]) == 's' && to_ascii_lower(t[3]) == 't' && t[4] == ' '
}

/// Groups the lines of a configuration file into blocks.
pub fn read_config_blocks(lines: &Vec<String>) -> (r: Vec<Vec<String>>)
    ensures
        r@.map_values(|b: Vec<String>| strings_view(b@)) == config_blocks(strings_view(lines@)),
{
    let ghost lv = strings_view(lines@);
    let mut done: Vec<Vec<String>> = Vec::new();
    let mut cur: Vec<String> = Vec::new();
    let mut i: usize = 0;
    while i < lines.len()
        invariant
            i <= lines@.len(),
            lv == strings_view(lines@),
            (done@.map_values(|b: Vec<String>| strings_view(b@)), strings_view(cur@))
                == scan_blocks(lv.take(i as int)),
        decreases lines@.len() - i,
    {
        let line = &lines[i];
        assert(lv.take(i + 1).drop_last() =~= lv.take(i as int));
        assert(lv.take(i + 1).last() == line@);
        let ghost d0 = done@.map_values(|b: Vec<String>| strings_view(b@));
        let ghost c0 = strings_view(cur@);
        if line_is_host_line(line) && cur.len() > 0 {
            done.push(cur);
            cur = Vec::new();
            assert(done@.map_values(|b: Vec<String>| strings_view(b@)) =~= d0.push(c0));
            assert(strings_view(cur@) =~= Seq::<Seq<char>>::empty());
        }
        if !blank(line.as_str()) {
            let ghost c1 = strings_view(cur@);
            cur.push(line.clone());
            assert(strings_view(cur@) =~= c1.push(line@));
        }
        i = i + 1;
    }
    assert(lv.take(lv.len() as int) =~= lv);
    if cur.len() > 0 {
        let ghost d0 = done@.map_values(|b: Vec<String>| strings_view(b@));
        let ghost c0 = strings_view(cur@);
        done.push(cur);
        assert(done@.map_values(|b: Vec<String>| strings_view(b@)) =~= d0.push(c0));
    }
    done
}

fn block_belongs_to(block: &Vec<String>, name: &String) -> (r: bool)
    ensures
        r == block_is_for(strings_view(block@), name@),
{
    if block.len() == 0 {
        return false;
    }
    let first = &block[0];
    if !line_is_host_line(first) {
        return false;
    }
    let cs = chars_of(first.as_str());
    let ws = split_words(&cs);
    if ws.len() <= 1 {
        return false;
    }
    let second = string_from_chars(ws[1].as_slice());
    assert(second@ == words(first@)[1]);
    same_text(second.as_str(), name.as_str())
}

/// Finds the first block that belongs to host `name`.
pub fn find_host_block(blocks: &Vec<Vec<String>>, name: &String) -> (r: Option<usize>)
    ensures
        r matches Some(i) ==> i < blocks@.len(),
        match r {
            Some(i) => first_block_for(blocks@.map_values(|b: Vec<String>| strings_view(b@)), name@)
                == Some(i as int),
            None => first_block_for(blocks@.map_values(|b: Vec<String>| strings_view(b@)), name@)
                is None,
        },
{
    let ghost bv = blocks@.map_values(|b: Vec<String>| strings_view(b@));
    let mut i: usize = 0;
    while i < blocks.len()
        invariant
            i <= blocks@.len(),
            bv == blocks@.map_values(|b: Vec<String>| strings_view(b@)),
            first_block_for(bv.take(i as int), name@) is None,
        decreases blocks@.len() - i,
    {
        assert(bv.take(i + 1).drop_last() =~= bv.take(i as int));
        assert(bv.take(i + 1).last() == strings_view(blocks@[i as int]@));
        if block_belongs_to(&blocks[i], name) {
            proof {
                lemma_first_block_prefix(bv, name@, i as int + 1);
            }
            return Some(i);
        }
        i = i + 1;
    }
    assert(bv.take(bv.len() as int) =~= bv);
    None
}

proof fn lemma_first_block_prefix(bs: Seq<Seq<Seq<char>>>, name: Seq<char>, n: int)
    requires
        0 < n <= bs.len(),
        first_block_for(bs.take(n), name) == Some(n - 1),
    ensures
        first_block_for(bs, name) == Some(n - 1),
    decreases bs.len(),
{
    if bs.len() > n {
        assert(bs.drop_last().take(n) =~= bs.take(n));
        lemma_first_block_prefix(bs.drop_last(), name, n);
    } else {
        assert(bs.take(n) =~= bs);
    }
}

/// The lines of a configuration file after saving a host record into it.
pub fn save_config_lines(lines: &Vec<String>, host: &Host) -> (r: Vec<String>)
    ensures
        strings_view(r@) == saved_config_lines(strings_view(lines@), *host),
{
    let mut blocks = read_config_blocks(lines);
    let ghost b0 = blocks@.map_values(|b: Vec<String>| strings_view(b@));
    let new_block = format_host_block(host);
    match find_host_block(&blocks, &host.name) {
        Some(i) => {
            blocks.set(i, new_block);
            assert(blocks@.map_values(|b: Vec<String>| strings_view(b@)) =~= b0.update(
                i as int,
                host_block_lines(*host),
            ));
        },
        None => {
            blocks.push(new_block);
            assert(blocks@.map_values(|b: Vec<String>| strings_view(b@)) =~= b0.push(
                host_block_lines(*host),
            ));
        },
    }
    write_blocks(&blocks)
}

/// The lines of the blocks, with one blank line between consecutive blocks.
fn write_blocks(blocks: &Vec<Vec<String>>) -> (r: Vec<String>)
    ensures
        strings_view(r@) == block_file_lines(blocks@.map_values(|b: Vec<String>| strings_view(b@))),
{
    let ghost bv = blocks@.map_values(|b: Vec<String>| strings_view(b@));
    let mut out: Vec<String> = Vec::new();
    let mut i: usize = 0;
    while i < blocks.len()
        invariant
            i <= blocks@.len(),
            bv == blocks@.map_values(|b: Vec<String>| strings_view(b@)),
            strings_view(out@) == block_file_lines(bv.take(i as int)),
        decreases blocks@.len() - i,
    {
        assert(bv.take(i + 1).drop_last() =~= bv.take(i as int));
        assert(bv.take(i + 1).last() == strings_view(blocks@[i as int]@));
        let ghost before = strings_view(out@);
        if i > 0 {
            out.push(String::new());
        }
        let ghost mid = strings_view(out@);
        let block = &blocks[i];
        let mut k: usize = 0;
        while k < block.len()
            invariant
                k <= block@.len(),
                strings_view(out@) == mid + strings_view(block@).take(k as int),
            decreases block@.len() - k,
        {
            let ghost o = strings_view(out@);
            out.push(block[k].clone());
            assert(strings_view(out@) =~= o.push(block@[k as int]@));
            assert(strings_view(block@).take(k + 1) =~= strings_view(block@).take(k as int).push(
                block@[k as int]@,
            ));
            assert(strings_view(out@) =~= mid + strings_view(block@).take(k + 1));
            k = k + 1;
        }
        assert(strings_view(block@).take(block@.len() as int) =~= strings_view(block@));
        if i == 0 {
            assert(strings_view(out@) =~= block_file_lines(bv.take(1)));
        } else {
            assert(strings_view(out@) =~= block_file_lines(bv.take(i + 1)));
        }
        i = i + 1;
    }
    assert(bv.take(bv.len() as int) =~= bv);
    out
}

/// The blocks without the first block of host `name`, if it has one.
pub open spec fn blocks_without_host(blocks: Seq<Seq<Seq<char>>>, name: Seq<char>) -> Seq<Seq<Seq<char>>> {
    match first_block_for(blocks, name) {
        Some(i) => blocks.remove(i),
        None => blocks,
    }
}

/// The lines of a configuration file after removing host `name` from it:
/// its first block is dropped and the blocks are written with exactly one
/// blank line in between.
pub open spec fn removed_config_lines(lines: Seq<Seq<char>>, name: Seq<char>) -> Seq<Seq<char>> {
    block_file_lines(blocks_without_host(config_blocks(lines), name))
}

/// The lines of a configuration file after removing host `name` from it.
pub fn remove_host_lines(lines: &Vec<String>, name: &String) -> (r: Vec<String>)
    ensures
        strings_view(r@) == removed_config_lines(strings_view(lines@), name@),
{
    let mut blocks = read_config_blocks(lines);
    let ghost b0 = blocks@.map_values(|b: Vec<String>| strings_view(b@));
    match find_host_block(&blocks, name) {
        Some(i) => {
            blocks.remove(i);
            assert(blocks@.map_values(|b: Vec<String>| strings_view(b@)) =~= b0.remove(i as int));
        },
        None => {},
    }
    write_blocks(&blocks)
}

} // verus!
