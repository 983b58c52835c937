//! Layout arithmetic and text preparation for the screen: the help line's
//! segments, the chooser's centered area and its scroll window.

use vstd::prelude::*;
use crate::text::{chars_of, string_from_chars, trim, trim_chars, trim_start, trim_start_chars};

verus! {

/// The pieces of `s[start..]` found by scanning from `i` for non-overlapping
/// occurrences of `sep`, leftmost first (`str::split` with a text pattern).
pub open spec fn split_scan(s: Seq<char>, sep: Seq<char>, start: int, i: int) -> Seq<Seq<char>>
    recommends
        sep.len() > 0,
        0 <= start <= i <= s.len(),
    decreases s.len() + 1 - i,
{
    if sep.len() == 0 || i < start || i + sep.len() > s.len() {
        seq![s.subrange(start, s.len() as int)]
    } else if s.subrange(i, i + sep.len()) == sep {
        seq![s.subrange(start, i)] + split_scan(s, sep, i + sep.len(), i + sep.len())
    } else {
        split_scan(s, sep, start, i + 1)
    }
}

/// The pieces of `s` between the occurrences of `sep`.
pub open spec fn split_text(s: Seq<char>, sep: Seq<char>) -> Seq<Seq<char>> {
    split_scan(s, sep, 0, 0)
}

/// Position of the first `c` in `s`.
pub open spec fn index_of_char(s: Seq<char>, c: char) -> Option<int>
    decreases s.len(),
{
    if s.len() == 0 {
        None
    } else if s[0] == c {
        Some(0)
    } else {
        match index_of_char(s.drop_first(), c) {
            Some(i) => Some(i + 1),
            None => None,
        }
    }
}

/// The segments a part of a help message shows as: the key up to and
/// including the first `)`, bold, then a space and the trimmed description
/// when there is one; a part without `)` shows plain.
pub open spec fn part_segments(part: Seq<char>) -> Seq<(Seq<char>, bool)> {
    let p = trim(part);
    match index_of_char(p, ')') {
        Some(e) => {
            let desc = trim_start(p.skip(e + 1));
            if desc.len() > 0 {
                seq![(p.take(e + 1), true), (seq![' '] + desc, false)]
            } else {
                seq![(p.take(e + 1), true)]
            }
        },
        None => seq![(p, false)],
    }
}

/// The segments of the parts of a help message, with a plain ` | ` between
/// parts.
pub open spec fn parts_segments(parts: Seq<Seq<char>>) -> Seq<(Seq<char>, bool)>
    decreases parts.len(),
{
    if parts.len() == 0 {
        seq![]
    } else if parts.len() == 1 {
        part_segments(parts[0])
    } else {
        parts_segments(parts.drop_last()) + seq![(seq![' ', '|', ' '], false)] + part_segments(
            parts.last(),
        )
    }
}

/// The segments of a help message whose parts are separated by ` | `.
pub open spec fn help_segments(msg: Seq<char>) -> Seq<(Seq<char>, bool)> {
    parts_segments(split_text(msg, seq![' ', '|', ' ']))
}

/// The separator between the parts of a help message.
fn help_separator() -> (r: Vec<char>)
    ensures
        r@ == seq![' ', '|', ' '],
{
    let mut r: Vec<char> = Vec::new();
    r.push(' ');
    r.push('|');
    r.push(' ');
    assert(r@ =~= seq![' ', '|', ' ']);
    r
}

/// Whether `sep` occurs in `s` at position `i`.
fn occurs_here(s: &Vec<char>, sep: &Vec<char>, i: usize) -> (r: bool)
    requires
        i + sep@.len() <= s@.len(),
    ensures
        r == (s@.subrange(i as int, i + sep@.len()) == sep@),
{
    let n = s.len();
    let mut k: usize = 0;
    while k < sep.len()
        invariant
            n == s@.len(),
            i + sep@.len() <= s@.len(),
            k <= sep@.len(),
            forall|t: int| 0 <= t < k ==> s@[i + t] == sep@[t],
        decreases sep@.len() - k,
    {
        if s[i + k] != sep[k] {
            assert(s@.subrange(i as int, i + sep@.len())[k as int] != sep@[k as int]);
            return false;
        }
        k = k + 1;
    }
    assert(s@.subrange(i as int, i + sep@.len()) =~= sep@);
    true
}

/// The characters of `s` from `a` to `b`.
fn slice_chars(s: &Vec<char>, a: usize, b: usize) -> (r: Vec<char>)
    requires
        a <= b <= s@.len(),
    ensures
        r@ == s@.subrange(a as int, b as int),
{
    let mut r: Vec<char> = Vec::new();
    let mut k: usize = a;
    while k < b
        invariant
            a <= k <= b <= s@.len(),
            r@ == s@.subrange(a as int, k as int),
        decreases b - k,
    {
        r.push(s[k]);
        assert(r@ =~= s@.subrange(a as int, k + 1));
        k = k + 1;
    }
    r
}

/// The pieces of `s` between the non-overlapping occurrences of a
/// non-empty `sep`, found from the left.
pub fn split_text_chars(s: &Vec<char>, sep: &Vec<char>) -> (r: Vec<Vec<char>>)
    requires
        sep@.len() > 0,
    ensures
        r@.map_values(|p: Vec<char>| p@) == split_text(s@, sep@),
{
    let mut r: Vec<Vec<char>> = Vec::new();
    let mut start: usize = 0;
    let mut i: usize = 0;
    let n = s.len();
    let m = sep.len();
    while i <= n && n - i >= m
        invariant
            n == s@.len(),
            m == sep@.len(),
            m > 0,
            start <= i <= n,
            r@.map_values(|p: Vec<char>| p@) + split_scan(s@, sep@, start as int, i as int)
                == split_text(s@, sep@),
        decreases n + 1 - i,
    {
        if occurs_here(s, sep, i) {
            let piece = slice_chars(s, start, i);
            let ghost before = r@;
            r.push(piece);
            assert(r@.map_values(|p: Vec<char>| p@) =~= before.map_values(|p: Vec<char>| p@).push(
                s@.subrange(start as int, i as int),
            ));
            assert(split_scan(s@, sep@, start as int, i as int) == seq![
                s@.subrange(start as int, i as int),
            ] + split_scan(s@, sep@, (i + m) as int, (i + m) as int));
            assert(before.map_values(|p: Vec<char>| p@) + split_scan(s@, sep@, start as int, i as int)
                =~= r@.map_values(|p: Vec<char>| p@) + split_scan(
                s@,
                sep@,
                (i + m) as int,
                (i + m) as int,
            ));
            i = i + m;
            start = i;
        } else {
            i = i + 1;
        }
    }
    let last = slice_chars(s, start, n);
    let ghost before = r@;
    r.push(last);
    assert(split_scan(s@, sep@, start as int, i as int) == seq![s@.subrange(start as int, n as int)]);
    assert(r@.map_values(|p: Vec<char>| p@) =~= before.map_values(|p: Vec<char>| p@) + seq![
        s@.subrange(start as int, n as int),
    ]);
    r
}

/// Position of the first `c` in `s`.
fn find_char(s: &Vec<char>, c: char) -> (r: Option<usize>)
    ensures
        match r {
            Some(i) => i < s@.len() && index_of_char(s@, c) == Some(i as int),
            None => index_of_char(s@, c) is None,
        },
{
    let mut i: usize = 0;
    assert(s@.skip(0) =~= s@);
    while i < s.len()
        invariant
            i <= s@.len(),
            index_of_char(s@, c) == (match index_of_char(s@.skip(i as int), c) {
                Some(k) => Some(k + i),
                None => None,
            }),
        decreases s@.len() - i,
    {
        assert(s@.skip(i as int).drop_first() =~= s@.skip(i + 1));
        if s[i] == c {
            return Some(i);
        }
        i = i + 1;
    }
    None
}

/// Appends the segments of one part of a help message.
fn push_part_segments(out: &mut Vec<(String, bool)>, part: &Vec<char>)
    ensures
        segments_text(final(out)@) == segments_text(old(out)@) + part_segments(part@),
{
    let p = trim_chars(part);
    let pn = p.len();
    match find_char(&p, ')') {
        Some(e) => {
            assert(e < pn);
            let key = slice_chars(&p, 0, e + 1);
            let rest = slice_chars(&p, e + 1, p.len());
            let desc = trim_start_chars(&rest);
            assert(p@.take(e + 1) =~= p@.subrange(0, e + 1));
            assert(p@.skip(e + 1) =~= p@.subrange(e + 1, p@.len() as int));
            let ghost before = out@;
            out.push((string_from_chars(key.as_slice()), true));
            if desc.len() > 0 {
                let mut d: Vec<char> = Vec::new();
                d.push(' ');
                let mut k: usize = 0;
                while k < desc.len()
                    invariant
                        k <= desc@.len(),
                        d@ == seq![' '] + desc@.take(k as int),
                    decreases desc@.len() - k,
                {
                    d.push(desc[k]);
                    assert(desc@.take(k + 1) =~= desc@.take(k as int).push(desc@[k as int]));
                    assert(d@ =~= seq![' '] + desc@.take(k + 1));
                    k = k + 1;
                }
                assert(desc@.take(desc@.len() as int) =~= desc@);
                out.push((string_from_chars(d.as_slice()), false));
            }
            assert(segments_text(out@) =~= segments_text(before) + part_segments(part@));
        },
        None => {
            let ghost before = out@;
            out.push((string_from_chars(p.as_slice()), false));
            assert(segments_text(out@) =~= segments_text(before) + part_segments(part@));
        },
    }
}

/// Segments of strings as segments of texts.
pub open spec fn segments_text(v: Seq<(String, bool)>) -> Seq<(Seq<char>, bool)> {
    v.map_values(|e: (String, bool)| (e.0@, e.1))
}

/// Splits a help message into its parts at ` | ` and each part into a bold
/// key, ending at its first `)`, and a plain description, with a plain
/// ` | ` between parts.
pub fn styled_help(msg: &str) -> (r: Vec<(String, bool)>)
    ensures
        segments_text(r@) == help_segments(msg@),
{
    let cs = chars_of(msg);
    let sep = help_separator();
    let parts = split_text_chars(&cs, &sep);
    let ghost pv = parts@.map_values(|p: Vec<char>| p@);
    let mut out: Vec<(String, bool)> = Vec::new();
    let mut i: usize = 0;
    while i < parts.len()
        invariant
            i <= parts@.len(),
            sep@ == seq![' ', '|', ' '],
            pv == parts@.map_values(|p: Vec<char>| p@),
            segments_text(out@) == parts_segments(pv.take(i as int)),
        decreases parts@.len() - i,
    {
        assert(pv.take(i + 1).drop_last() =~= pv.take(i as int));
        assert(pv.take(i + 1).last() == parts@[i as int]@);
        if i > 0 {
            let ghost before = out@;
            let bar = string_from_chars(sep.as_slice());
            assert(bar@ == seq![' ', '|', ' ']);
            out.push((bar, false));
            assert(segments_text(out@) =~= segments_text(before) + seq![(seq![' ', '|', ' '], false)]);
        } else {
            assert(pv.take(1) =~= seq![pv[0]]);
        }
        push_part_segments(&mut out, &parts[i]);
        i = i + 1;
    }
    assert(pv.take(parts@.len() as int) =~= pv);
    out
}

/// A rectangle of the terminal.
#[derive(Clone, Copy, Debug, PartialEq, Eq, Structural)]
pub struct Area {
    pub x: u16,
    pub y: u16,
    pub width: u16,
    pub height: u16,
}

/// The size that is `percent` percent of `whole`, rounded down.
pub open spec fn percent_of(whole: u16, percent: u16) -> int {
    whole * percent / 100
}

/// Half of what is left of `whole` beside `part`, none when nothing is left.
pub open spec fn half_gap(whole: u16, part: int) -> int {
    if part <= whole {
        (whole - part) / 2
    } else {
        0
    }
}

/// The area `percent_x` percent as wide and `percent_y` percent as high as
/// `r`, centered in `r`.
pub open spec fn centered_area(percent_y: u16, percent_x: u16, r: Area) -> Area {
    let width = percent_of(r.width, percent_x);
    let height = percent_of(r.height, percent_y);
    Area {
        x: (r.x + half_gap(r.width, width)) as u16,
        y: (r.y + half_gap(r.height, height)) as u16,
        width: width as u16,
        height: height as u16,
    }
}

/// The width product, the height and the offsets of centering `r` fit in
/// `u16`.
pub open spec fn centering_fits(percent_y: u16, percent_x: u16, r: Area) -> bool {
    &&& r.width * percent_x <= u16::MAX
    &&& percent_of(r.height, percent_y) <= u16::MAX
    &&& r.x + half_gap(r.width, percent_of(r.width, percent_x)) <= u16::MAX
    &&& r.y + half_gap(r.height, percent_of(r.height, percent_y)) <= u16::MAX
}

/// Centers in `r` an area of the given width and height percentages.
pub fn centered_rect(percent_y: u16, percent_x: u16, r: Area) -> (a: Area)
    requires
        centering_fits(percent_y, percent_x, r),
    ensures
        a == centered_area(percent_y, percent_x, r),
{
    let tall: u32 = (r.height as u32) * (percent_y as u32);
    assert(tall == r.height * percent_y) by (nonlinear_arith)
        requires
            tall == (r.height as u32) * (percent_y as u32),
            r.height * percent_y <= 0xffff * 0xffff,
    {
    }
    let modal_height = (tall / 100) as u16;
    let vertical_gap = r.height.saturating_sub(modal_height) / 2;
    let modal_width = r.width * percent_x / 100;
    let horizontal_gap = r.width.saturating_sub(modal_width) / 2;
    Area {
        x: r.x + horizontal_gap,
        y: r.y + vertical_gap,
        width: modal_width,
        height: modal_height,
    }
}

/// The rows of the chooser's list that are shown: from `start` up to `end`,
/// scrolled so that the selected row is the last one shown once it would
/// fall below the list.
pub open spec fn list_window(total: usize, visible: usize, selected: usize) -> (usize, usize) {
    let start = if total > visible && selected >= visible {
        (selected - visible + 1) as usize
    } else {
        0usize
    };
    let end = if start + visible < total {
        (start + visible) as usize
    } else {
        total
    };
    (start, end)
}

/// The window of the chooser's list to show.
pub fn scroll_window(total: usize, visible: usize, selected: usize) -> (r: (usize, usize))
    requires
        total > visible && selected >= visible ==> selected < total + visible,
        selected < usize::MAX,
    ensures
        r == list_window(total, visible, selected),
        r.0 <= r.1 <= total,
{
    let start = if total > visible && selected >= visible {
        selected - visible + 1
    } else {
        0
    };
    let end = if start + visible < total {
        start + visible
    } else {
        total
    };
    (start, end)
}


/// The chooser's window always holds the selected row of a non-empty list.
pub proof fn law_window_shows_selection(total: usize, visible: usize, selected: usize)
    requires
        selected < total,
        visible > 0,
    ensures
        list_window(total, visible, selected).0 <= selected < list_window(total, visible, selected).1,
{
}

/// A centered area no wider and no higher than its container lies inside
/// it, with equal gaps (to within one) on either side.
pub proof fn law_centered_inside(percent_y: u16, percent_x: u16, r: Area)
    requires
        percent_x <= 100,
        percent_y <= 100,
        r.width * percent_x <= u16::MAX,
        r.x + r.width <= u16::MAX,
        r.y + r.height <= u16::MAX,
    ensures
        centering_fits(percent_y, percent_x, r),
        r.x <= centered_area(percent_y, percent_x, r).x,
        centered_area(percent_y, percent_x, r).x + centered_area(percent_y, percent_x, r).width
            <= r.x + r.width,
        r.y <= centered_area(percent_y, percent_x, r).y,
        centered_area(percent_y, percent_x, r).y + centered_area(percent_y, percent_x, r).height
            <= r.y + r.height,
{
    let w = percent_of(r.width, percent_x);
    let h = percent_of(r.height, percent_y);
    assert(0 <= w <= r.width) by (nonlinear_arith)
        requires
            w == r.width * percent_x / 100,
            percent_x <= 100,
            r.width >= 0,
            percent_x >= 0,
    {
        assert(r.width * percent_x <= r.width * 100);
    }
    assert(0 <= h <= r.height) by (nonlinear_arith)
        requires
            h == r.height * percent_y / 100,
            percent_y <= 100,
            r.height >= 0,
            percent_y >= 0,
    {
        assert(r.height * percent_y <= r.height * 100);
    }
}

} // verus!
