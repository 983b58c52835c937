//! Decisions of the interactive host browser: field-name conventions,
//! selection movement, the add-field chooser and key handling.

use vstd::prelude::*;
use crate::config_file::{ascii_lower, ascii_upper, format_ssh_key, pascal};
use crate::host::{field_names, get_all_host_fields};
use crate::text::{
    chars_of, contains_text, same_text, string_from_chars, strings_view, text_contains,
};
use vstd::string::StrSliceExecFns;

verus! {

/// Whether `char::is_uppercase` holds of a character.
pub uninterp spec fn char_is_uppercase(c: char) -> bool;

/// The first character that `char::to_lowercase` yields for a character.
pub uninterp spec fn char_lowercase_first(c: char) -> char;

/// Trusted: `char::is_uppercase` tests the Unicode `Uppercase` property,
/// which among ASCII characters holds exactly of `A` to `Z`.
#[verifier::external_body]
fn is_uppercase(c: char) -> (r: bool)
    ensures
        r == char_is_uppercase(c),
        (c as u32) < 128 ==> (r <==> ('A' <= c && c <= 'Z')),
{
    c.is_uppercase()
}

/// Trusted: the first character of `char::to_lowercase`, which always
/// yields at least one character; for `A` to `Z` it is the ASCII lower case.
#[verifier::external_body]
fn lowercase_first(c: char) -> (r: char)
    ensures
        r == char_lowercase_first(c),
        'A' <= c && c <= 'Z' ==> r == ascii_lower(c),
{
    match c.to_lowercase().next() {
        Some(l) => l,
        None => c,
    }
}

/// Whether a character is upper case: `A` to `Z` among ASCII characters,
/// the Unicode `Uppercase` property beyond.
pub open spec fn is_upper_char(c: char) -> bool {
    if (c as u32) < 128 {
        'A' <= c && c <= 'Z'
    } else {
        char_is_uppercase(c)
    }
}

/// The lower case of an upper-case character.
pub open spec fn lower_char(c: char) -> char {
    if 'A' <= c && c <= 'Z' {
        ascii_lower(c)
    } else {
        char_lowercase_first(c)
    }
}

/// Converts a PascalCase label to snake_case: every upper-case character is
/// lower-cased and, unless it is the first character, preceded by `_`.
pub open spec fn snake(s: Seq<char>) -> Seq<char>
    decreases s.len(),
{
    if s.len() == 0 {
        seq![]
    } else {
        let prev = snake(s.drop_last());
        let c = s.last();
        if is_upper_char(c) {
            if s.len() > 1 {
                prev + seq!['_', lower_char(c)]
            } else {
                prev.push(lower_char(c))
            }
        } else {
            prev.push(c)
        }
    }
}

/// Converts a field name to the label shown in the form.
pub fn to_pascal_case(s: &str) -> (r: String)
    ensures
        r@ == pascal(s@),
{
    format_ssh_key(s)
}

/// Converts a form label back to a field name.
pub fn to_snake_case(s: &str) -> (r: String)
    ensures
        r@ == snake(s@),
{
    let cs = chars_of(s);
    let mut out: Vec<char> = Vec::new();
    let mut i: usize = 0;
    while i < cs.len()
        invariant
            i <= cs@.len(),
            cs@ == s@,
            out@ == snake(s@.take(i as int)),
        decreases cs@.len() - i,
    {
        let c = cs[i];
        assert(s@.take(i + 1).drop_last() =~= s@.take(i as int));
        assert(s@.take(i + 1).last() == c);
        let ghost before = out@;
        if is_uppercase(c) {
            if i > 0 {
                out.push('_');
            }
            out.push(lowercase_first(c));
            assert(out@ =~= snake(s@.take(i + 1)));
        } else {
            out.push(c);
        }
        i = i + 1;
    }
    assert(s@.take(s@.len() as int) =~= s@);
    string_from_chars(out.as_slice())
}

} // verus!

verus! {

/// A field name in snake_case: lower-case ASCII letters, digits and
/// underscores, starting with a letter, each underscore followed by a letter.
pub open spec fn is_snake_name(s: Seq<char>) -> bool {
    &&& s.len() > 0
    &&& 'a' <= s[0] && s[0] <= 'z'
    &&& forall|i: int|
        0 <= i < s.len() ==> ('a' <= #[trigger] s[i] && s[i] <= 'z') || ('0' <= s[i] && s[i]
            <= '9') || s[i] == '_'
    &&& forall|i: int|
        0 <= i < s.len() && #[trigger] s[i] == '_' ==> i + 1 < s.len() && 'a' <= s[i + 1]
            && s[i + 1] <= 'z'
}

proof fn lemma_snake_push(x: Seq<char>, c: char)
    ensures
        snake(x.push(c)) == (if is_upper_char(c) {
            if x.len() > 0 {
                snake(x) + seq!['_', lower_char(c)]
            } else {
                snake(x).push(lower_char(c))
            }
        } else {
            snake(x).push(c)
        }),
{
    assert(x.push(c).drop_last() =~= x);
}

proof fn lemma_ascii_case(c: char)
    ensures
        'a' <= c && c <= 'z' ==> is_upper_char(ascii_upper(c)) && lower_char(ascii_upper(c)) == c
            && ascii_upper(c) != '_',
        ('a' <= c && c <= 'z') || ('0' <= c && c <= '9') ==> !is_upper_char(c),
{
}

proof fn lemma_pascal_len_pos(s: Seq<char>)
    requires
        s.len() > 0,
        s.last() != '_',
    ensures
        pascal(s).len() > 0,
{
}

/// Turning a field name into a form label and back gives the field name.
pub proof fn law_snake_of_pascal(s: Seq<char>)
    requires
        is_snake_name(s),
    ensures
        snake(pascal(s)) == s,
    decreases s.len(),
{
    let n = s.len();
    let c = s.last();
    lemma_ascii_case(c);
    if n == 1 {
        assert(pascal(s.drop_last()) == Seq::<char>::empty());
        assert(pascal(s) =~= seq![ascii_upper(c)]);
        lemma_snake_push(Seq::<char>::empty(), ascii_upper(c));
        assert(seq![ascii_upper(c)] =~= Seq::<char>::empty().push(ascii_upper(c)));
        assert(snake(pascal(s)) =~= s);
    } else {
        let init = s.drop_last();
        assert(c != '_') by {
            if c == '_' {
                assert(s[n - 1] == '_');
            }
        }
        if s[n - 2] == '_' {
            let init2 = init.drop_last();
            assert(n >= 3) by {
                if n == 2 {
                    assert(s[0] == '_');
                }
            }
            assert(is_snake_name(init2)) by {
                assert forall|i: int| 0 <= i < init2.len() && #[trigger] init2[i] == '_' implies i + 1
                    < init2.len() && 'a' <= init2[i + 1] && init2[i + 1] <= 'z' by {
                    assert(s[i] == '_');
                    if i + 1 == init2.len() {
                        assert(s[i + 1] == '_');
                    }
                }
                assert forall|i: int| 0 <= i < init2.len() implies ('a' <= #[trigger] init2[i]
                    && init2[i] <= 'z') || ('0' <= init2[i] && init2[i] <= '9') || init2[i]
                    == '_' by {
                    assert(s[i] == init2[i]);
                }
            }
            law_snake_of_pascal(init2);
            assert(init.last() == '_');
            assert(pascal(init) == pascal(init2));
            assert(pascal(s) == pascal(init).push(ascii_upper(c)));
            assert(init2.last() != '_') by {
                assert(s[n - 3] == init2.last());
                if s[n - 3] == '_' {
                    assert(s[n - 2] == '_');
                }
            }
            assert(init2.len() > 0);
            lemma_pascal_len_pos(init2);
            lemma_snake_push(pascal(init2), ascii_upper(c));
            assert(snake(pascal(s)) =~= s);
        } else {
            assert(is_snake_name(init)) by {
                assert forall|i: int| 0 <= i < init.len() && #[trigger] init[i] == '_' implies i + 1
                    < init.len() && 'a' <= init[i + 1] && init[i + 1] <= 'z' by {
                    assert(s[i] == '_');
                    if i + 1 == init.len() {
                        assert(s[i + 1] == c);
                    }
                }
                assert forall|i: int| 0 <= i < init.len() implies ('a' <= #[trigger] init[i]
                    && init[i] <= 'z') || ('0' <= init[i] && init[i] <= '9') || init[i] == '_' by {
                    assert(s[i] == init[i]);
                }
            }
            law_snake_of_pascal(init);
            assert(('a' <= c && c <= 'z') || ('0' <= c && c <= '9')) by {
                assert(('a' <= s[n - 1] && s[n - 1] <= 'z') || ('0' <= s[n - 1] && s[n - 1] <= '9')
                    || s[n - 1] == '_');
            }
            assert(pascal(s) == pascal(init).push(c));
            lemma_snake_push(pascal(init), c);
            assert(snake(pascal(s)) =~= s);
        }
    }
}

} // verus!

verus! {

/// Rows that PageUp and PageDown move the selection by.
pub const PAGE_STEP: usize = 21;

/// The row after the selected one, wrapping to the first row.
pub open spec fn spec_next_row(selected: Option<usize>, count: usize) -> usize {
    match selected {
        Some(i) => if count == 0 || i >= count - 1 {
            0
        } else {
            (i + 1) as usize
        },
        None => 0,
    }
}

/// The row before the selected one, wrapping to the last row.
pub open spec fn spec_previous_row(selected: Option<usize>, count: usize) -> usize {
    match selected {
        Some(i) => if count == 0 {
            0
        } else if i == 0 {
            (count - 1) as usize
        } else {
            (i - 1) as usize
        },
        None => 0,
    }
}

/// Moves the selection down one row.
pub fn next_row(selected: Option<usize>, count: usize) -> (r: usize)
    ensures
        r == spec_next_row(selected, count),
{
    match selected {
        Some(i) => if count == 0 || i >= count - 1 {
            0
        } else {
            i + 1
        },
        None => 0,
    }
}

/// Moves the selection up one row.
pub fn previous_row(selected: Option<usize>, count: usize) -> (r: usize)
    ensures
        r == spec_previous_row(selected, count),
{
    match selected {
        Some(i) => if count == 0 {
            0
        } else if i == 0 {
            count - 1
        } else {
            i - 1
        },
        None => 0,
    }
}

/// The row a page further down, stopping at the last row.
pub open spec fn spec_page_down_row(selected: Option<usize>, count: usize) -> usize {
    let i = match selected {
        Some(i) => i as int,
        None => 0,
    };
    let target = if i + PAGE_STEP > usize::MAX { usize::MAX as int } else { i + PAGE_STEP };
    if target < count - 1 { target as usize } else { (count - 1) as usize }
}

/// The row a page further up, stopping at the first row.
pub open spec fn spec_page_up_row(selected: Option<usize>) -> usize {
    let i = match selected {
        Some(i) => i as int,
        None => 0,
    };
    if i >= PAGE_STEP { (i - PAGE_STEP) as usize } else { 0 }
}

/// Moves the selection a page down.
pub fn page_down_row(selected: Option<usize>, count: usize) -> (r: usize)
    requires
        count > 0,
    ensures
        r == spec_page_down_row(selected, count),
{
    let i = match selected {
        Some(i) => i,
        None => 0,
    };
    let target = i.saturating_add(PAGE_STEP);
    if target < count - 1 { target } else { count - 1 }
}

/// Moves the selection a page up.
pub fn page_up_row(selected: Option<usize>) -> (r: usize)
    ensures
        r == spec_page_up_row(selected),
{
    let i = match selected {
        Some(i) => i,
        None => 0,
    };
    i.saturating_sub(PAGE_STEP)
}

/// The selection kept within a list of `count` rows after filtering.
pub open spec fn spec_clamped_row(selected: Option<usize>, count: usize) -> usize {
    let i = match selected {
        Some(i) => i,
        None => 0,
    };
    if count == 0 { 0 } else if i < count - 1 { i } else { (count - 1) as usize }
}

/// Keeps the selection within a list of `count` rows.
pub fn clamp_row(selected: Option<usize>, count: usize) -> (r: usize)
    ensures
        r == spec_clamped_row(selected, count),
        count > 0 ==> r < count,
{
    let i = match selected {
        Some(i) => i,
        None => 0,
    };
    if count == 0 {
        0
    } else if i < count - 1 {
        i
    } else {
        count - 1
    }
}

/// The form field above the current one, wrapping to the last field.
pub open spec fn spec_field_up(index: usize, count: usize) -> usize {
    if index == 0 { (count - 1) as usize } else { (index - 1) as usize }
}

/// The form field below the current one, wrapping to the first field.
pub open spec fn spec_field_down(index: usize, count: usize) -> usize {
    ((index + 1) % (count as int)) as usize
}

/// Moves the form cursor one field up.
pub fn field_up(index: usize, count: usize) -> (r: usize)
    requires
        index > 0 || count > 0,
    ensures
        r == spec_field_up(index, count),
{
    if index == 0 {
        count - 1
    } else {
        index - 1
    }
}

/// Moves the form cursor one field down.
pub fn field_down(index: usize, count: usize) -> (r: usize)
    requires
        count > 0,
        index < usize::MAX,
    ensures
        r == spec_field_down(index, count),
{
    (index + 1) % count
}

/// The keys the browser distinguishes.
#[derive(Clone, Copy, Debug, PartialEq, Eq, Structural)]
pub enum Key {
    Esc,
    Tab,
    Enter,
    Up,
    Down,
    Home,
    End,
    PageUp,
    PageDown,
    Char(char),
    Other,
}

/// A key press, with whether Control was held.
#[derive(Clone, Copy, Debug, PartialEq, Eq, Structural)]
pub struct KeyPress {
    pub key: Key,
    pub ctrl: bool,
}

/// Which pane has the keyboard.
#[derive(Clone, Copy, Debug, PartialEq, Eq, Structural)]
pub enum Focus {
    Table,
    Form,
}

/// What key handling reads of the browser's state.
#[derive(Clone, Copy, Debug, PartialEq, Eq, Structural)]
pub struct ViewState {
    pub focus: Focus,
    pub selected: Option<usize>,
    pub host_count: usize,
    pub field_count: usize,
    pub field_index: usize,
    pub in_field_edit: bool,
    pub modal_open: bool,
    pub exit_after_session: bool,
}

/// What a key press does.
#[derive(Clone, Copy, Debug, PartialEq, Eq, Structural)]
pub enum KeyDecision {
    /// Leave the browser.
    Quit,
    /// Add the field chosen in the chooser.
    ConfirmModal,
    /// Close the chooser and change nothing else.
    CancelModal,
    /// The chooser handles the key.
    ModalKey,
    /// Load the selected host into the form and focus it.
    OpenForm,
    /// Select this row.
    Select(usize),
    /// Start an SSH session with the host on this row; quit afterwards when
    /// `then_quit`.
    StartSession(usize, bool),
    /// The key is consumed and changes nothing.
    Nothing,
    /// The key goes to the search box.
    Search,
    /// Save the edited field first when `commit`, then focus the table.
    CloseForm(bool),
    /// The key goes to the field being edited.
    EditField,
    /// Move the form cursor to this field.
    SelectField(usize),
    /// Enter in the form: save the edited field when `commit`, otherwise
    /// start editing the selected field.
    ToggleEdit(bool),
    /// Open the chooser of fields to add.
    OpenModal,
}

/// Key presses on which the browser would stop with an arithmetic or index
/// failure: End or PageDown on an empty list, moving through or editing an
/// empty form.
pub open spec fn key_fails(v: ViewState, k: KeyPress) -> bool {
    if k.key == Key::Esc || v.modal_open {
        false
    } else {
        match v.focus {
            Focus::Table => {
                let ctrl_move = k.ctrl && (k.key == Key::Char('c') || k.key == Key::Char('j')
                    || k.key == Key::Char('n') || k.key == Key::Char('k') || k.key == Key::Char(
                    'p',
                ));
                !ctrl_move && k.key != Key::Tab && (k.key == Key::End || k.key == Key::PageDown)
                    && v.host_count == 0
            },
            Focus::Form => {
                if v.in_field_edit {
                    (k.key == Key::Up || k.key == Key::Down || (k.key != Key::Tab && k.key
                        != Key::Enter)) && v.field_index >= v.field_count
                } else {
                    (k.key == Key::Up && v.field_index == 0 && v.field_count == 0) || (k.key
                        == Key::Down && (v.field_count == 0 || v.field_index == usize::MAX))
                }
            },
        }
    }
}

/// Whether the browser would stop with an arithmetic or index failure on
/// this key press.
pub fn key_would_fail(v: ViewState, k: KeyPress) -> (r: bool)
    ensures
        r == key_fails(v, k),
{
    if k.key == Key::Esc || v.modal_open {
        return false;
    }
    match v.focus {
        Focus::Table => {
            let ctrl_move = k.ctrl && (k.key == Key::Char('c') || k.key == Key::Char('j')
                || k.key == Key::Char('n') || k.key == Key::Char('k') || k.key == Key::Char('p'));
            !ctrl_move && k.key != Key::Tab && (k.key == Key::End || k.key == Key::PageDown)
                && v.host_count == 0
        },
        Focus::Form => {
            if v.in_field_edit {
                (k.key == Key::Up || k.key == Key::Down || (k.key != Key::Tab && k.key
                    != Key::Enter)) && v.field_index >= v.field_count
            } else {
                (k.key == Key::Up && v.field_index == 0 && v.field_count == 0) || (k.key
                    == Key::Down && (v.field_count == 0 || v.field_index == usize::MAX))
            }
        },
    }
}

/// After a key has been handled, it also goes to the search box, the list
/// is refiltered and the form reloaded, when the table has the keyboard and
/// the chooser is closed.
pub open spec fn key_feeds_search(v: ViewState) -> bool {
    v.focus == Focus::Table && !v.modal_open
}

/// Whether a handled key also goes to the search box.
pub fn search_follows(v: ViewState) -> (r: bool)
    ensures
        r == key_feeds_search(v),
{
    match v.focus {
        Focus::Table => !v.modal_open,
        Focus::Form => false,
    }
}

/// What a key press does in a given state.
pub open spec fn key_decision(v: ViewState, k: KeyPress) -> KeyDecision {
    if v.modal_open {
        if k.key == Key::Esc {
            KeyDecision::CancelModal
        } else if k.key == Key::Enter {
            KeyDecision::ConfirmModal
        } else {
            KeyDecision::ModalKey
        }
    } else if k.key == Key::Esc {
        KeyDecision::Quit
    } else {
        match v.focus {
            Focus::Table => {
                if k.key == Key::Tab {
                    KeyDecision::OpenForm
                } else if k.ctrl && k.key == Key::Char('c') {
                    KeyDecision::Quit
                } else if k.ctrl && (k.key == Key::Char('j') || k.key == Key::Char('n')) {
                    KeyDecision::Select(spec_next_row(v.selected, v.host_count))
                } else if k.ctrl && (k.key == Key::Char('k') || k.key == Key::Char('p')) {
                    KeyDecision::Select(spec_previous_row(v.selected, v.host_count))
                } else {
                    match k.key {
                        Key::Down => KeyDecision::Select(spec_next_row(v.selected, v.host_count)),
                        Key::Up => KeyDecision::Select(spec_previous_row(v.selected, v.host_count)),
                        Key::Home => KeyDecision::Select(0),
                        Key::End => KeyDecision::Select((v.host_count - 1) as usize),
                        Key::PageDown => KeyDecision::Select(
                            spec_page_down_row(v.selected, v.host_count),
                        ),
                        Key::PageUp => KeyDecision::Select(spec_page_up_row(v.selected)),
                        Key::Enter => {
                            let i = match v.selected {
                                Some(i) => i,
                                None => 0,
                            };
                            if i >= v.host_count {
                                KeyDecision::Nothing
                            } else {
                                KeyDecision::StartSession(i, v.exit_after_session)
                            }
                        },
                        _ => KeyDecision::Search,
                    }
                }
            },
            Focus::Form => {
                match k.key {
                    Key::Tab => KeyDecision::CloseForm(v.in_field_edit),
                    Key::Enter => KeyDecision::ToggleEdit(v.in_field_edit),
                    Key::Up => if v.in_field_edit {
                        KeyDecision::EditField
                    } else {
                        KeyDecision::SelectField(spec_field_up(v.field_index, v.field_count))
                    },
                    Key::Down => if v.in_field_edit {
                        KeyDecision::EditField
                    } else {
                        KeyDecision::SelectField(spec_field_down(v.field_index, v.field_count))
                    },
                    Key::Char('a') if !v.in_field_edit => KeyDecision::OpenModal,
                    _ => if v.in_field_edit {
                        KeyDecision::EditField
                    } else {
                        KeyDecision::Nothing
                    },
                }
            },
        }
    }
}

/// Decides what a key press does.
pub fn decide_key(v: ViewState, k: KeyPress) -> (r: KeyDecision)
    requires
        !key_fails(v, k),
    ensures
        r == key_decision(v, k),
{
    if v.modal_open {
        return if k.key == Key::Esc {
            KeyDecision::CancelModal
        } else if k.key == Key::Enter {
            KeyDecision::ConfirmModal
        } else {
            KeyDecision::ModalKey
        };
    }
    if k.key == Key::Esc {
        return KeyDecision::Quit;
    }
    match v.focus {
        Focus::Table => {
            if k.key == Key::Tab {
                return KeyDecision::OpenForm;
            }
            if k.ctrl {
                match k.key {
                    Key::Char('c') => {
                        return KeyDecision::Quit;
                    },
                    Key::Char('j') | Key::Char('n') => {
                        return KeyDecision::Select(next_row(v.selected, v.host_count));
                    },
                    Key::Char('k') | Key::Char('p') => {
                        return KeyDecision::Select(previous_row(v.selected, v.host_count));
                    },
                    _ => {},
                }
            }
            match k.key {
                Key::Down => KeyDecision::Select(next_row(v.selected, v.host_count)),
                Key::Up => KeyDecision::Select(previous_row(v.selected, v.host_count)),
                Key::Home => KeyDecision::Select(0),
                Key::End => KeyDecision::Select(v.host_count - 1),
                Key::PageDown => KeyDecision::Select(page_down_row(v.selected, v.host_count)),
                Key::PageUp => KeyDecision::Select(page_up_row(v.selected)),
                Key::Enter => {
                    let i = match v.selected {
                        Some(i) => i,
                        None => 0,
                    };
                    if i >= v.host_count {
                        KeyDecision::Nothing
                    } else {
                        KeyDecision::StartSession(i, v.exit_after_session)
                    }
                },
                _ => KeyDecision::Search,
            }
        },
        Focus::Form => {
            match k.key {
                Key::Tab => KeyDecision::CloseForm(v.in_field_edit),
                Key::Enter => KeyDecision::ToggleEdit(v.in_field_edit),
                Key::Up => if v.in_field_edit {
                    KeyDecision::EditField
                } else {
                    KeyDecision::SelectField(field_up(v.field_index, v.field_count))
                },
                Key::Down => if v.in_field_edit {
                    KeyDecision::EditField
                } else {
                    KeyDecision::SelectField(field_down(v.field_index, v.field_count))
                },
                Key::Char('a') if !v.in_field_edit => KeyDecision::OpenModal,
                _ => if v.in_field_edit {
                    KeyDecision::EditField
                } else {
                    KeyDecision::Nothing
                },
            }
        },
    }
}

} // verus!

verus! {

/// Moving up a row and then down a row returns to the row.
pub proof fn law_previous_then_next(i: usize, count: usize)
    requires
        i < count,
    ensures
        spec_next_row(Some(spec_previous_row(Some(i), count)), count) == i,
        spec_previous_row(Some(spec_next_row(Some(i), count)), count) == i,
{
}

/// In the table, with the chooser closed, Up selects the row above the
/// selected one (the last row from the first) and Down the row below it
/// (the first row from the last), with or without Control; pressing one
/// after the other returns to the row.
pub proof fn law_table_arrows(v: ViewState, i: usize, ctrl: bool)
    requires
        v.focus == Focus::Table,
        !v.modal_open,
        v.selected == Some(i),
        i < v.host_count,
    ensures
        key_decision(v, (KeyPress { key: Key::Up, ctrl })) == KeyDecision::Select(
            if i == 0 {
                (v.host_count - 1) as usize
            } else {
                (i - 1) as usize
            },
        ),
        key_decision(v, (KeyPress { key: Key::Down, ctrl })) == KeyDecision::Select(
            if i + 1 == v.host_count {
                0usize
            } else {
                (i + 1) as usize
            },
        ),
        forall|r: usize|
            key_decision(v, (KeyPress { key: Key::Up, ctrl })) == KeyDecision::Select(r)
                ==> key_decision(
                (ViewState { selected: Some(r), ..v }),
                (KeyPress { key: Key::Down, ctrl }),
            ) == KeyDecision::Select(i),
        forall|r: usize|
            key_decision(v, (KeyPress { key: Key::Down, ctrl })) == KeyDecision::Select(r)
                ==> key_decision(
                (ViewState { selected: Some(r), ..v }),
                (KeyPress { key: Key::Up, ctrl }),
            ) == KeyDecision::Select(i),
{
}

/// In the table, with the chooser closed and a row selected: Home selects
/// the first row, End the last, PageDown the row a page further down (at
/// most the last), PageUp the row a page further up (at least the first),
/// and Enter starts a session with the selected host.
pub proof fn law_table_jumps(v: ViewState, i: usize, ctrl: bool)
    requires
        v.focus == Focus::Table,
        !v.modal_open,
        v.selected == Some(i),
        i < v.host_count,
    ensures
        key_decision(v, (KeyPress { key: Key::Home, ctrl })) == KeyDecision::Select(0),
        key_decision(v, (KeyPress { key: Key::End, ctrl })) == KeyDecision::Select(
            (v.host_count - 1) as usize,
        ),
        key_decision(v, (KeyPress { key: Key::PageDown, ctrl })) == KeyDecision::Select(
            if i + PAGE_STEP < v.host_count {
                (i + PAGE_STEP) as usize
            } else {
                (v.host_count - 1) as usize
            },
        ),
        key_decision(v, (KeyPress { key: Key::PageUp, ctrl })) == KeyDecision::Select(
            if i >= PAGE_STEP {
                (i - PAGE_STEP) as usize
            } else {
                0usize
            },
        ),
        key_decision(v, (KeyPress { key: Key::Enter, ctrl })) == KeyDecision::StartSession(
            i,
            v.exit_after_session,
        ),
{
}

/// Moving the form cursor up and then down returns to the field.
pub proof fn law_field_up_then_down(i: usize, count: usize)
    requires
        i < count,
    ensures
        spec_field_down(spec_field_up(i, count), count) == i,
        spec_field_up(spec_field_down(i, count), count) == i,
{
    if i == 0 {
        assert((count - 1 + 1) % (count as int) == 0) by (nonlinear_arith)
            requires count > 0;
    } else {
        assert((i - 1 + 1) % (count as int) == i) by (nonlinear_arith)
            requires 0 < i < count;
    }
    if i + 1 < count {
        assert((i + 1) % (count as int) == i + 1) by (nonlinear_arith)
            requires 0 <= i + 1 < count;
    } else {
        assert((i + 1) % (count as int) == 0) by (nonlinear_arith)
            requires i + 1 == count;
    }
}

/// Selection movement keeps the selection on a row of a non-empty list.
pub proof fn law_moves_stay_in_list(selected: Option<usize>, count: usize)
    requires
        count > 0,
        selected matches Some(i) ==> i < count,
    ensures
        spec_next_row(selected, count) < count,
        spec_previous_row(selected, count) < count,
        spec_page_down_row(selected, count) < count,
        spec_page_up_row(selected) < count,
        spec_clamped_row(selected, count) < count,
{
}

} // verus!

verus! {

/// The fields offered by the chooser: every host field but `name` and
/// `aliases`, and none that the host already has.
pub open spec fn offered_fields(all: Seq<Seq<char>>, existing: Seq<Seq<char>>) -> Seq<Seq<char>>
    decreases all.len(),
{
    if all.len() == 0 {
        seq![]
    } else {
        let prev = offered_fields(all.drop_last(), existing);
        let f = all.last();
        if f == "name"@ || f == "aliases"@ || existing.contains(f) {
            prev
        } else {
            prev.push(f)
        }
    }
}

/// The offered fields that hold the filter text, in order.
pub open spec fn matching_fields(fields: Seq<Seq<char>>, filter: Seq<char>) -> Seq<Seq<char>>
    decreases fields.len(),
{
    if fields.len() == 0 {
        seq![]
    } else {
        let prev = matching_fields(fields.drop_last(), filter);
        if filter.len() == 0 || contains_text(fields.last(), filter) {
            prev.push(fields.last())
        } else {
            prev
        }
    }
}

/// The chooser of fields to add to a host.
pub struct AddFieldModal {
    /// Filter text typed by the user.
    pub filter: String,
    /// Fields available for addition (derived from the Host struct).
    pub available_fields: Vec<String>,
    /// Filtered list based on the current filter value.
    pub filtered_fields: Vec<String>,
    /// The current selected index from the filtered list.
    pub selected_index: usize,
}

fn list_contains(list: &[String], s: &String) -> (r: bool)
    ensures
        r == strings_view(list@).contains(s@),
{
    let mut i: usize = 0;
    while i < list.len()
        invariant
            i <= list@.len(),
            forall|k: int| 0 <= k < i ==> list@[k]@ != s@,
        decreases list@.len() - i,
    {
        if same_text(list[i].as_str(), s.as_str()) {
            assert(strings_view(list@)[i as int] == s@);
            return true;
        }
        i = i + 1;
    }
    assert(!strings_view(list@).contains(s@)) by {
        if strings_view(list@).contains(s@) {
            let k = choose|k: int| 0 <= k < list@.len() && strings_view(list@)[k] == s@;
            assert(list@[k]@ == s@);
        }
    }
    false
}

impl AddFieldModal {
    /// Create a new chooser based on the list of existing fields already in
    /// the host.
    pub fn new(existing_fields: &[String]) -> (r: Self)
        ensures
            strings_view(r.available_fields@) == offered_fields(
                field_names(),
                strings_view(existing_fields@),
            ),
            r.filter@ == Seq::<char>::empty(),
            strings_view(r.filtered_fields@) == strings_view(r.available_fields@),
            r.selected_index == 0,
            r.state() == chooser_start(strings_view(existing_fields@)),
    {
        let all = get_all_host_fields();
        let ghost av = strings_view(all@);
        let ghost ex = strings_view(existing_fields@);
        let mut available: Vec<String> = Vec::new();
        let mut i: usize = 0;
        while i < all.len()
            invariant
                i <= all@.len(),
                av == strings_view(all@),
                av == field_names(),
                ex == strings_view(existing_fields@),
                strings_view(available@) == offered_fields(av.take(i as int), ex),
            decreases all@.len() - i,
        {
            let f = &all[i];
            assert(av.take(i + 1).drop_last() =~= av.take(i as int));
            assert(av.take(i + 1).last() == f@);
            if !same_text(f.as_str(), "name") && !same_text(f.as_str(), "aliases")
                && !list_contains(existing_fields, f) {
                let ghost before = strings_view(available@);
                available.push(f.clone());
                assert(strings_view(available@) =~= before.push(f@));
            }
            i = i + 1;
        }
        assert(av.take(av.len() as int) =~= av);
        let mut modal = AddFieldModal {
            filter: String::new(),
            available_fields: available,
            filtered_fields: Vec::new(),
            selected_index: 0,
        };
        modal.update_filtered();
        proof {
            lemma_matching_empty_filter(strings_view(modal.available_fields@), modal.filter@);
        }
        modal
    }

    /// Update the filtered list using the current filter text.
    pub fn update_filtered(&mut self)
        ensures
            final(self).filter == old(self).filter,
            final(self).available_fields == old(self).available_fields,
            strings_view(final(self).filtered_fields@) == matching_fields(
                strings_view(old(self).available_fields@),
                old(self).filter@,
            ),
            final(self).selected_index == (if old(self).selected_index
                >= final(self).filtered_fields@.len() && final(self).filtered_fields@.len() > 0 {
                0
            } else {
                old(self).selected_index
            }),
            final(self).filtered_fields@.len() > 0 ==> final(self).selected_index
                < final(self).filtered_fields@.len(),
    {
        let ghost av = strings_view(self.available_fields@);
        let mut filtered: Vec<String> = Vec::new();
        let filter_empty = self.filter.as_str().unicode_len() == 0;
        let mut i: usize = 0;
        while i < self.available_fields.len()
            invariant
                i <= self.available_fields@.len(),
                av == strings_view(self.available_fields@),
                filter_empty == (self.filter@.len() == 0),
                strings_view(filtered@) == matching_fields(av.take(i as int), self.filter@),
            decreases self.available_fields@.len() - i,
        {
            let f = &self.available_fields[i];
            assert(av.take(i + 1).drop_last() =~= av.take(i as int));
            assert(av.take(i + 1).last() == f@);
            if filter_empty || text_contains(f.as_str(), self.filter.as_str()) {
                let ghost before = strings_view(filtered@);
                filtered.push(f.clone());
                assert(strings_view(filtered@) =~= before.push(f@));
            }
            i = i + 1;
        }
        assert(av.take(av.len() as int) =~= av);
        self.filtered_fields = filtered;
        if self.selected_index >= self.filtered_fields.len() && self.filtered_fields.len() > 0 {
            self.selected_index = 0;
        }
    }

    /// Handle a key: Down and Up move through the filtered list, any other
    /// key refilters with the current filter text.
    pub fn handle_event(&mut self, key: Key) -> (r: bool)
        requires
            key == Key::Down && old(self).filtered_fields@.len() > 0
                ==> old(self).selected_index < usize::MAX,
        ensures
            r,
            final(self).filter == old(self).filter,
            final(self).available_fields == old(self).available_fields,
            key == Key::Down ==> final(self).filtered_fields == old(self).filtered_fields
                && final(self).selected_index == (if old(self).filtered_fields@.len() > 0 {
                spec_field_down(old(self).selected_index, old(self).filtered_fields@.len() as usize)
            } else {
                old(self).selected_index
            }),
            key == Key::Up ==> final(self).filtered_fields == old(self).filtered_fields
                && final(self).selected_index == (if old(self).filtered_fields@.len() > 0 {
                spec_field_up(old(self).selected_index, old(self).filtered_fields@.len() as usize)
            } else {
                old(self).selected_index
            }),
            key != Key::Down && key != Key::Up ==> strings_view(final(self).filtered_fields@)
                == matching_fields(strings_view(old(self).available_fields@), old(self).filter@),
            (old(self).filtered_fields@.len() > 0 ==> old(self).selected_index
                < old(self).filtered_fields@.len()) ==> (final(self).filtered_fields@.len() > 0
                ==> final(self).selected_index < final(self).filtered_fields@.len()),
            final(self).state() == chooser_step(old(self).state(), key, old(self).filter@),
    {
        match key {
            Key::Down => {
                if self.filtered_fields.len() > 0 {
                    let n = self.filtered_fields.len();
                    let i = self.selected_index;
                    self.selected_index = field_down(i, n);
                    proof {
                        if i < n {
                            law_chooser_moves_stay_in_list(i, n);
                        }
                    }
                }
                true
            },
            Key::Up => {
                if self.filtered_fields.len() > 0 {
                    let n = self.filtered_fields.len();
                    let i = self.selected_index;
                    self.selected_index = field_up(i, n);
                    proof {
                        if i < n {
                            law_chooser_moves_stay_in_list(i, n);
                        }
                    }
                }
                true
            },
            _ => {
                self.update_filtered();
                true
            },
        }
    }
}

impl AddFieldModal {
    /// The field that confirming the chooser adds: the selected one, or none
    /// when the filtered list is empty.
    pub fn chosen_field(&self) -> (r: Option<String>)
        requires
            self.filtered_fields@.len() > 0 ==> self.selected_index < self.filtered_fields@.len(),
        ensures
            match r {
                Some(f) => self.filtered_fields@.len() > 0 && f@
                    == self.filtered_fields@[self.selected_index as int]@,
                None => self.filtered_fields@.len() == 0,
            },
    {
        if self.filtered_fields.len() > 0 {
            Some(self.filtered_fields[self.selected_index].clone())
        } else {
            None
        }
    }
}

proof fn lemma_matching_empty_filter(fields: Seq<Seq<char>>, filter: Seq<char>)
    requires
        filter.len() == 0,
    ensures
        matching_fields(fields, filter) == fields,
    decreases fields.len(),
{
    if fields.len() > 0 {
        lemma_matching_empty_filter(fields.drop_last(), filter);
    }
}


/// The chooser never offers `name` or `aliases`, nor a field the host
/// already has, and offers only fields from the list it was given.
pub proof fn law_offered_fields_exclude(all: Seq<Seq<char>>, existing: Seq<Seq<char>>)
    ensures
        forall|k: int| 0 <= k < offered_fields(all, existing).len() ==> {
            let f = #[trigger] offered_fields(all, existing)[k];
            &&& f != "name"@
            &&& f != "aliases"@
            &&& !existing.contains(f)
            &&& all.contains(f)
        },
    decreases all.len(),
{
    if all.len() > 0 {
        law_offered_fields_exclude(all.drop_last(), existing);
        let prev = offered_fields(all.drop_last(), existing);
        assert forall|k: int| 0 <= k < offered_fields(all, existing).len() implies {
            let f = #[trigger] offered_fields(all, existing)[k];
            &&& f != "name"@
            &&& f != "aliases"@
            &&& !existing.contains(f)
            &&& all.contains(f)
        } by {
            let f = offered_fields(all, existing)[k];
            if k < prev.len() {
                assert(f == prev[k]);
                let j = choose|j: int| 0 <= j < all.drop_last().len() && all.drop_last()[j] == f;
                assert(all[j] == f);
            } else {
                assert(f == all.last());
                assert(all[all.len() - 1] == f);
            }
        }
    }
}


/// Escape closes the field chooser when it is open, and otherwise quits
/// the browser, whatever pane has the keyboard.
pub proof fn law_escape_cancels_or_quits(v: ViewState, ctrl: bool)
    ensures
        key_decision(v, KeyPress { key: Key::Esc, ctrl }) == (if v.modal_open {
            KeyDecision::CancelModal
        } else {
            KeyDecision::Quit
        }),
        !key_fails(v, KeyPress { key: Key::Esc, ctrl }),
{
}

/// Moving through the chooser keeps the selection on a row of its list.
pub proof fn law_chooser_moves_stay_in_list(i: usize, n: usize)
    requires
        i < n,
    ensures
        spec_field_down(i, n) < n,
        spec_field_up(i, n) < n,
{
    assert((i + 1) % (n as int) < n) by (nonlinear_arith)
        requires
            n > 0,
    ;
}


/// The chooser lists exactly the offered fields that hold the filter text,
/// in their order: each listed field is offered and holds the text, and
/// each offered field that holds it is listed.
pub proof fn law_filtered_fields_match(fields: Seq<Seq<char>>, filter: Seq<char>)
    ensures
        forall|k: int| 0 <= k < matching_fields(fields, filter).len() ==> fields.contains(
            #[trigger] matching_fields(fields, filter)[k],
        ) && (filter.len() == 0 || contains_text(matching_fields(fields, filter)[k], filter)),
        forall|k: int| 0 <= k < fields.len() && (filter.len() == 0 || contains_text(#[trigger] fields[k], filter))
            ==> matching_fields(fields, filter).contains(fields[k]),
    decreases fields.len(),
{
    if fields.len() > 0 {
        let init = fields.drop_last();
        law_filtered_fields_match(init, filter);
        let prev = matching_fields(init, filter);
        let cur = matching_fields(fields, filter);
        assert forall|k: int| 0 <= k < cur.len() implies fields.contains(#[trigger] cur[k]) && (
        filter.len() == 0 || contains_text(cur[k], filter)) by {
            if k < prev.len() {
                assert(cur[k] == prev[k]);
                let j = choose|j: int| 0 <= j < init.len() && init[j] == prev[k];
                assert(fields[j] == init[j]);
            } else {
                assert(cur[k] == fields[fields.len() - 1]);
            }
        }
        assert forall|k: int| 0 <= k < fields.len() && (filter.len() == 0 || contains_text(
            #[trigger] fields[k],
            filter,
        )) implies cur.contains(fields[k]) by {
            if k < fields.len() - 1 {
                assert(fields[k] == init[k]);
                assert(prev.contains(init[k]));
                let j = choose|j: int| 0 <= j < prev.len() && prev[j] == init[k];
                assert(cur[j] == prev[j]);
            } else {
                assert(cur[cur.len() - 1] == fields[k]);
            }
        }
    }
}


/// The field chooser as text: its filter, the fields it offers, the
/// offered fields shown for the filter, and the selected row.
pub struct ChooserState {
    pub filter: Seq<char>,
    pub available: Seq<Seq<char>>,
    pub filtered: Seq<Seq<char>>,
    pub selected: int,
}

impl AddFieldModal {
    /// The chooser's state as text.
    pub open spec fn state(&self) -> ChooserState {
        ChooserState {
            filter: self.filter@,
            available: strings_view(self.available_fields@),
            filtered: strings_view(self.filtered_fields@),
            selected: self.selected_index as int,
        }
    }
}

/// The chooser as `new` builds it for the fields a host already has.
pub open spec fn chooser_start(existing: Seq<Seq<char>>) -> ChooserState {
    let offered = offered_fields(field_names(), existing);
    ChooserState { filter: Seq::<char>::empty(), available: offered, filtered: offered, selected: 0 }
}

/// One key in the chooser: Down and Up move the selection one row, wrapping
/// around (no move in an empty list); any other key comes with the filter
/// text as it stands after the key, and the list is filtered again, the
/// selection going back to the first row when it falls off the list.
pub open spec fn chooser_step(s: ChooserState, key: Key, text: Seq<char>) -> ChooserState {
    let n = s.filtered.len() as int;
    if key == Key::Down {
        if n > 0 {
            ChooserState { selected: (s.selected + 1) % n, ..s }
        } else {
            s
        }
    } else if key == Key::Up {
        if n > 0 {
            ChooserState { selected: if s.selected == 0 { n - 1 } else { s.selected - 1 }, ..s }
        } else {
            s
        }
    } else {
        let f = matching_fields(s.available, text);
        ChooserState {
            filter: text,
            filtered: f,
            selected: if s.selected >= f.len() && f.len() > 0 { 0 } else { s.selected },
            ..s
        }
    }
}

/// The chooser after a sequence of keys, each with the filter text after it.
pub open spec fn chooser_run(s: ChooserState, events: Seq<(Key, Seq<char>)>) -> ChooserState
    decreases events.len(),
{
    if events.len() == 0 {
        s
    } else {
        let prev = chooser_run(s, events.drop_last());
        chooser_step(prev, events.last().0, events.last().1)
    }
}

/// Whatever keys the chooser gets after `new`, it keeps offering the same
/// fields, shows exactly the offered fields that hold its filter text, in
/// order, and keeps the selection on a row of a non-empty list.
pub proof fn law_chooser_events(existing: Seq<Seq<char>>, events: Seq<(Key, Seq<char>)>)
    ensures
        chooser_run(chooser_start(existing), events).available == offered_fields(field_names(), existing),
        chooser_run(chooser_start(existing), events).filtered == matching_fields(
            chooser_run(chooser_start(existing), events).available,
            chooser_run(chooser_start(existing), events).filter,
        ),
        chooser_run(chooser_start(existing), events).filtered.len() > 0 ==> 0 <= chooser_run(
            chooser_start(existing),
            events,
        ).selected < chooser_run(chooser_start(existing), events).filtered.len(),
        chooser_run(chooser_start(existing), events).selected >= 0,
    decreases events.len(),
{
    if events.len() == 0 {
        let s = chooser_start(existing);
        lemma_matching_empty_filter(s.available, s.filter);
    } else {
        law_chooser_events(existing, events.drop_last());
        let prev = chooser_run(chooser_start(existing), events.drop_last());
        let n = prev.filtered.len() as int;
        if n > 0 && (events.last().0 == Key::Down) {
            assert(0 <= (prev.selected + 1) % n < n) by (nonlinear_arith)
                requires
                    n > 0,
                    prev.selected >= 0,
            ;
        }
    }
}

} // verus!
