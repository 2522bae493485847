use vstd::prelude::*;
use ratatui_textarea::{CursorMove, Input, Key, TextArea};
use crate::keys::{KeyCode, KeyEvent, KeyEventKind};
use crate::text::views;

verus! {

/// A multi-line text editor: the `TextArea` of ratatui-textarea, held out of
/// sight of the verifier; what it holds is known through `editor_lines`.
#[verifier::external_body]
#[derive(Debug)]
pub struct Editor {
    /// The editor itself, which the drawing code reads.
    pub area: TextArea<'static>,
}

/// The lines of text that an editor holds.
pub uninterp spec fn editor_lines(t: Editor) -> Seq<Seq<char>>;

/// Whether a selection of text is under way in the editor (its
/// `is_selecting`): typing then replaces the selected text.
pub uninterp spec fn editor_selecting(t: Editor) -> bool;

/// The editor's cursor (its `cursor`): a line, and a position in that line
/// counted in characters.
pub uninterp spec fn editor_cursor(t: Editor) -> (nat, nat);

/// Whether the editor keeps the settings it is made with: no soft wrapping,
/// no mask character, and a tab that inserts spaces up to the next multiple
/// of four columns.
pub uninterp spec fn editor_standard(t: Editor) -> bool;

/// What every editor keeps: at least one line, and the cursor on a line,
/// at most at its end.
pub open spec fn editor_wf(t: Editor) -> bool {
    let lines = editor_lines(t);
    let cur = editor_cursor(t);
    &&& lines.len() > 0
    &&& cur.0 < lines.len()
    &&& cur.1 <= lines[cur.0 as int].len()
}

/// A character that the editor draws one column wide (printable ASCII), or
/// a tab.
pub open spec fn narrow_char(c: char) -> bool {
    (' ' <= c && c <= '~') || c == '\t'
}

/// Whether every character of the lines is narrow.
pub open spec fn narrow_lines(lines: Seq<Seq<char>>) -> bool {
    forall|i: int, j: int|
        0 <= i < lines.len() && 0 <= j < lines[i].len() ==> narrow_char(#[trigger] lines[i][j])
}

/// A movement of the editor's cursor.
pub enum CursorMotion {
    Back,
    Forward,
    Bottom,
    End,
}

/// The lines an editor holds when made from `lines`: those lines, or one
/// empty line when there are none.
pub open spec fn editor_lines_of(lines: Seq<String>) -> Seq<Seq<char>> {
    if lines.len() == 0 { seq![Seq::<char>::empty()] } else { views(lines) }
}

/// The cursor one character on: to the start of the next line from the end
/// of a line, and nowhere from the end of the last line.
pub open spec fn forward_of(lines: Seq<Seq<char>>, cur: (nat, nat)) -> (nat, nat) {
    if cur.1 < lines[cur.0 as int].len() {
        (cur.0, cur.1 + 1)
    } else if cur.0 + 1 < lines.len() {
        ((cur.0 + 1) as nat, 0)
    } else {
        cur
    }
}

/// The cursor one character back: to the end of the previous line from the
/// start of a line, and nowhere from the start of the first line.
pub open spec fn back_of(lines: Seq<Seq<char>>, cur: (nat, nat)) -> (nat, nat) {
    if cur.1 > 0 {
        (cur.0, (cur.1 - 1) as nat)
    } else if cur.0 > 0 {
        ((cur.0 - 1) as nat, lines[cur.0 - 1].len())
    } else {
        cur
    }
}

/// `TextArea::new` of ratatui-textarea: an editor holding the given lines,
/// or one empty line when there are none, with the cursor at the start, no
/// selection, and the standard settings.
#[verifier::external_body]
pub(crate) fn editor_new(lines: Vec<String>) -> (r: Editor)
    ensures
        editor_lines(r) == editor_lines_of(lines@),
        !editor_selecting(r),
        editor_cursor(r) == (0nat, 0nat),
        editor_standard(r),
        editor_wf(r),
{
    Editor { area: TextArea::new(lines) }
}

/// `TextArea::lines` of ratatui-textarea, copied into a vector: the lines
/// the editor holds.
#[verifier::external_body]
pub(crate) fn editor_text_lines(t: &Editor) -> (r: Vec<String>)
    ensures
        views(r@) == editor_lines(*t),
{
    t.area.lines().to_vec()
}

/// `TextArea::move_cursor` of ratatui-textarea: moves the cursor; the lines,
/// the settings and whether a selection is under way stay. `Bottom` goes to
/// the last line, keeping the column where that line is long enough; `End`
/// goes to the end of the line. `Forward` and `Back` go one character on or
/// back (see `forward_of`, `back_of`) when every character is narrow and
/// the settings are standard; otherwise they count screen columns, which is
/// not stated.
#[verifier::external_body]
pub(crate) fn editor_move_cursor(t: &mut Editor, motion: CursorMotion)
    ensures
        editor_lines(*final(t)) == editor_lines(*old(t)),
        editor_selecting(*final(t)) == editor_selecting(*old(t)),
        editor_standard(*final(t)) == editor_standard(*old(t)),
        editor_wf(*final(t)),
        motion is Bottom && editor_wf(*old(t)) ==> editor_cursor(*final(t)) == (
            (editor_lines(*old(t)).len() - 1) as nat,
            if editor_cursor(*old(t)).1 <= editor_lines(*old(t)).last().len() {
                editor_cursor(*old(t)).1
            } else {
                editor_lines(*old(t)).last().len()
            },
        ),
        motion is End && editor_wf(*old(t)) ==> editor_cursor(*final(t)) == (
            editor_cursor(*old(t)).0,
            editor_lines(*old(t))[editor_cursor(*old(t)).0 as int].len(),
        ),
        motion is Forward && editor_wf(*old(t)) && editor_standard(*old(t)) && narrow_lines(
            editor_lines(*old(t)),
        ) ==> editor_cursor(*final(t)) == forward_of(editor_lines(*old(t)), editor_cursor(*old(t))),
        motion is Back && editor_wf(*old(t)) && editor_standard(*old(t)) && narrow_lines(
            editor_lines(*old(t)),
        ) ==> editor_cursor(*final(t)) == back_of(editor_lines(*old(t)), editor_cursor(*old(t))),
{
    let m = match motion {
        CursorMotion::Back => CursorMove::Back,
        CursorMotion::Forward => CursorMove::Forward,
        CursorMotion::Bottom => CursorMove::Bottom,
        CursorMotion::End => CursorMove::End,
    };
    t.area.move_cursor(m)
}

/// The lines with `s` inserted in line `r` before position `c`.
pub open spec fn insert_at(lines: Seq<Seq<char>>, r: nat, c: nat, s: Seq<char>) -> Seq<Seq<char>> {
    lines.update(r as int, lines[r as int].take(c as int) + s + lines[r as int].skip(c as int))
}

/// The lines with line `r` cut in two before position `c`.
pub open spec fn split_at(lines: Seq<Seq<char>>, r: nat, c: nat) -> Seq<Seq<char>> {
    lines.take(r as int).push(lines[r as int].take(c as int)).push(lines[r as int].skip(c as int))
        + lines.skip((r + 1) as int)
}

/// The lines without the character at position `c` of line `r`.
pub open spec fn remove_at(lines: Seq<Seq<char>>, r: nat, c: nat) -> Seq<Seq<char>> {
    lines.update(r as int, lines[r as int].remove(c as int))
}

/// The lines with line `r` and the next one made one.
pub open spec fn join_after(lines: Seq<Seq<char>>, r: nat) -> Seq<Seq<char>> {
    lines.take(r as int).push(lines[r as int] + lines[(r + 1) as int]) + lines.skip((r + 2) as int)
}

/// A run of `n` spaces.
pub open spec fn spaces(n: nat) -> Seq<char> {
    Seq::new(n, |i: int| ' ')
}

/// The columns that the first `c` characters of a narrow line take when
/// the editor measures them for a tab: one each, tabs none.
pub open spec fn columns_before(line: Seq<char>, c: nat) -> nat {
    line.take(c as int).filter(|x: char| x != '\t').len()
}

/// The spaces a tab inserts at position `c` of a narrow line: up to the next
/// multiple of four columns.
pub open spec fn tab_width(line: Seq<char>, c: nat) -> nat {
    (4 - columns_before(line, c) % 4) as nat
}

/// Lines, cursor, and whether the text changed, after an edit.
pub type EditOutcome = (Seq<Seq<char>>, (nat, nat), bool);

/// Typing `ch` at the cursor, with no selection: a line break for `\n` and
/// `\r`, otherwise the character, the cursor after it.
pub open spec fn typed_outcome(lines: Seq<Seq<char>>, cur: (nat, nat), ch: char) -> EditOutcome {
    if ch == '\n' || ch == '\r' {
        (split_at(lines, cur.0, cur.1), ((cur.0 + 1) as nat, 0nat), true)
    } else {
        (insert_at(lines, cur.0, cur.1, seq![ch]), (cur.0, cur.1 + 1), true)
    }
}

/// Backspace with no selection: the character before the cursor goes; at
/// the start of a line, the line joins the previous one; at the start of
/// the text nothing happens.
pub open spec fn backspace_outcome(lines: Seq<Seq<char>>, cur: (nat, nat)) -> EditOutcome {
    if cur.1 > 0 {
        (remove_at(lines, cur.0, (cur.1 - 1) as nat), (cur.0, (cur.1 - 1) as nat), true)
    } else if cur.0 > 0 {
        (join_after(lines, (cur.0 - 1) as nat), ((cur.0 - 1) as nat, lines[cur.0 - 1].len()), true)
    } else {
        (lines, cur, false)
    }
}

/// Delete with no selection: the character after the cursor goes; at the
/// end of a line, the next line joins it; at the end of the text nothing
/// happens.
pub open spec fn delete_outcome(lines: Seq<Seq<char>>, cur: (nat, nat)) -> EditOutcome {
    if cur.1 < lines[cur.0 as int].len() {
        (remove_at(lines, cur.0, cur.1), cur, true)
    } else if cur.0 + 1 < lines.len() {
        (join_after(lines, cur.0), cur, true)
    } else {
        (lines, cur, false)
    }
}

/// Tab with no selection: spaces up to the next multiple of four columns,
/// the cursor after them.
pub open spec fn tab_outcome(lines: Seq<Seq<char>>, cur: (nat, nat)) -> EditOutcome {
    let n = tab_width(lines[cur.0 as int], cur.1);
    (insert_at(lines, cur.0, cur.1, spaces(n)), (cur.0, cur.1 + n), true)
}

/// A key that moves the editor's cursor, as ratatui-textarea names it.
pub enum MoveKey {
    Left,
    Right,
    Up,
    Down,
    Home,
    End,
    PageUp,
    PageDown,
}

/// A key of ratatui-textarea's `Key` that is neither a character nor a
/// cursor movement.
pub enum EditKey {
    Backspace,
    Enter,
    Tab,
    Delete,
    Esc,
    F(u8),
    /// The key that the editor always ignores.
    Null,
}

/// What an edit key does with no selection under way, where that is fixed:
/// Enter cuts the line; Backspace, and with narrow characters and the
/// standard settings Delete and Tab, without Ctrl and Alt, as their outcome
/// functions say.
pub open spec fn edit_key_outcome(
    k: EditKey,
    ctrl: bool,
    alt: bool,
    lines: Seq<Seq<char>>,
    cur: (nat, nat),
    plain: bool,
) -> Option<EditOutcome> {
    match k {
        EditKey::Enter => Some((split_at(lines, cur.0, cur.1), ((cur.0 + 1) as nat, 0nat), true)),
        EditKey::Backspace => if !ctrl && !alt { Some(backspace_outcome(lines, cur)) } else { None },
        EditKey::Delete => if !ctrl && !alt && plain {
            Some(delete_outcome(lines, cur))
        } else {
            None
        },
        EditKey::Tab => if !ctrl && !alt && plain { Some(tab_outcome(lines, cur)) } else { None },
        _ => None,
    }
}

/// Whether the editor's layout is standard and its text narrow: then the
/// column moves and the tab are stated exactly.
pub open spec fn editor_plain(t: Editor) -> bool {
    editor_standard(t) && narrow_lines(editor_lines(t))
}

/// `TextArea::input` of ratatui-textarea with a typed character and the
/// modifier keys held. Without Ctrl and Alt the character is inserted at the
/// cursor (a line break for `\n` and `\r`), ending any selection, and a change
/// is reported; with no selection under way the outcome is `typed_outcome`.
/// Only Shift starts a selection. With no selection under way, the lines stay
/// when no change is reported. What the Ctrl and Alt bindings do otherwise,
/// and what typing over a selection leaves, is not stated.
#[verifier::external_body]
fn editor_type_char(t: &mut Editor, c: char, ctrl: bool, alt: bool, shift: bool) -> (modified: bool)
    ensures
        editor_wf(*final(t)),
        editor_standard(*final(t)) == editor_standard(*old(t)),
        !modified && !editor_selecting(*old(t)) ==> editor_lines(*final(t)) == editor_lines(*old(t)),
        !ctrl && !alt ==> modified && !editor_selecting(*final(t)),
        !shift && !editor_selecting(*old(t)) ==> !editor_selecting(*final(t)),
        !ctrl && !alt && !editor_selecting(*old(t)) && editor_wf(*old(t)) ==> typed_outcome(
            editor_lines(*old(t)),
            editor_cursor(*old(t)),
            c,
        ) == (editor_lines(*final(t)), editor_cursor(*final(t)), modified),
{
    t.area.input(Input { key: Key::Char(c), ctrl, alt, shift })
}

/// `TextArea::input` of ratatui-textarea with a cursor key and the modifier
/// keys held: with any modifiers, these keys only move the cursor, select or
/// scroll, so the lines stay and no change is reported; without Shift they
/// start no selection. Home goes to the start of the line, End to its end;
/// where the other keys put the cursor is not stated.
#[verifier::external_body]
fn editor_move_key(t: &mut Editor, k: MoveKey, ctrl: bool, alt: bool, shift: bool) -> (modified: bool)
    ensures
        !modified,
        editor_lines(*final(t)) == editor_lines(*old(t)),
        editor_wf(*final(t)),
        editor_standard(*final(t)) == editor_standard(*old(t)),
        !shift && !editor_selecting(*old(t)) ==> !editor_selecting(*final(t)),
        k is Home && editor_wf(*old(t)) ==> editor_cursor(*final(t)) == (
            editor_cursor(*old(t)).0,
            0nat,
        ),
        k is End && editor_wf(*old(t)) ==> editor_cursor(*final(t)) == (
            editor_cursor(*old(t)).0,
            editor_lines(*old(t))[editor_cursor(*old(t)).0 as int].len(),
        ),
{
    let key = match k {
        MoveKey::Left => Key::Left,
        MoveKey::Right => Key::Right,
        MoveKey::Up => Key::Up,
        MoveKey::Down => Key::Down,
        MoveKey::Home => Key::Home,
        MoveKey::End => Key::End,
        MoveKey::PageUp => Key::PageUp,
        MoveKey::PageDown => Key::PageDown,
    };
    t.area.input(Input { key, ctrl, alt, shift })
}

/// `TextArea::input` of ratatui-textarea with one of the other keys and the
/// modifier keys held. None of them starts a selection. Enter ends any
/// selection and reports a change. Esc, the function keys and the ignored
/// key have no binding: the editor stays as it was. With no selection under
/// way, the lines stay when no change is reported, and the outcome is
/// `edit_key_outcome` where that names one.
#[verifier::external_body]
fn editor_edit_key(t: &mut Editor, k: EditKey, ctrl: bool, alt: bool, shift: bool) -> (modified: bool)
    ensures
        editor_wf(*final(t)),
        editor_standard(*final(t)) == editor_standard(*old(t)),
        !modified && !editor_selecting(*old(t)) ==> editor_lines(*final(t)) == editor_lines(*old(t)),
        !editor_selecting(*old(t)) ==> !editor_selecting(*final(t)),
        k is Enter ==> modified && !editor_selecting(*final(t)),
        (k is Esc || k is F || k is Null) ==> !modified && *final(t) == *old(t),
        !editor_selecting(*old(t)) && editor_wf(*old(t)) ==> match edit_key_outcome(
            k,
            ctrl,
            alt,
            editor_lines(*old(t)),
            editor_cursor(*old(t)),
            editor_plain(*old(t)),
        ) {
            Some(o) => o == (editor_lines(*final(t)), editor_cursor(*final(t)), modified),
            None => true,
        },
{
    let key = match k {
        EditKey::Backspace => Key::Backspace,
        EditKey::Enter => Key::Enter,
        EditKey::Tab => Key::Tab,
        EditKey::Delete => Key::Delete,
        EditKey::Esc => Key::Esc,
        EditKey::F(n) => Key::F(n),
        EditKey::Null => Key::Null,
    };
    t.area.input(Input { key, ctrl, alt, shift })
}

/// Whether the editor's answer to a key event is fixed by the key alone:
/// a released key, a cursor key, Esc, a function key or a key the editor has
/// no name for never changes the text; a character typed without Ctrl and
/// Alt, and Enter, always do. For the other keys it depends on the text and
/// the cursor.
pub open spec fn editor_answer_known(event: KeyEvent) -> bool {
    event.kind == KeyEventKind::Release || match event.code {
        KeyCode::Char(_) => !event.modifiers.control && !event.modifiers.alt,
        KeyCode::Backspace | KeyCode::Delete | KeyCode::Tab | KeyCode::BackTab => false,
        _ => true,
    }
}

/// Whether the editor reports a change for a key event whose answer is
/// fixed by the key alone: a typed character or Enter, pressed or repeated.
pub open spec fn editor_reports_change(event: KeyEvent) -> bool {
    event.kind != KeyEventKind::Release && (event.code is Char || event.code == KeyCode::Enter)
}

/// Whether the editor has no binding for the key event: a released key,
/// Esc, a function key, or a key it has no name for.
pub open spec fn editor_ignores(event: KeyEvent) -> bool {
    event.kind == KeyEventKind::Release || event.code is Esc || event.code is F
        || event.code is Insert || event.code is Null || event.code is Other
}

/// Whether the key only moves the editor's cursor.
pub open spec fn moves_cursor(code: KeyCode) -> bool {
    code is Left || code is Right || code is Up || code is Down || code is Home || code is End
        || code is PageUp || code is PageDown
}

/// Lines, cursor and reported change after a pressed key, from `lines` and
/// the cursor `cur` with no selection under way, where the outcome is fixed
/// (`plain`: the layout is standard and the text narrow); `None` where it
/// is not stated.
pub open spec fn key_outcome(
    lines: Seq<Seq<char>>,
    cur: (nat, nat),
    event: KeyEvent,
    plain: bool,
) -> Option<EditOutcome> {
    let ctrl = event.modifiers.control;
    let alt = event.modifiers.alt;
    if event.kind == KeyEventKind::Release {
        Some((lines, cur, false))
    } else {
        match event.code {
            KeyCode::Char(c) => if !ctrl && !alt { Some(typed_outcome(lines, cur, c)) } else { None },
            KeyCode::Enter => edit_key_outcome(EditKey::Enter, ctrl, alt, lines, cur, plain),
            KeyCode::Backspace => edit_key_outcome(EditKey::Backspace, ctrl, alt, lines, cur, plain),
            KeyCode::Delete => edit_key_outcome(EditKey::Delete, ctrl, alt, lines, cur, plain),
            KeyCode::Tab | KeyCode::BackTab => edit_key_outcome(
                EditKey::Tab,
                ctrl,
                alt,
                lines,
                cur,
                plain,
            ),
            KeyCode::Home => Some((lines, (cur.0, 0nat), false)),
            KeyCode::End => Some((lines, (cur.0, lines[cur.0 as int].len()), false)),
            KeyCode::Esc | KeyCode::F(_) | KeyCode::Insert | KeyCode::Null | KeyCode::Other => Some(
                (lines, cur, false),
            ),
            _ => None,
        }
    }
}

/// What handing the key event to the editor `a` gives, `b`: the editor stays
/// well formed and keeps its settings; a key without binding leaves it as it
/// was; with no selection under way, the lines stay when no change is
/// reported, and the lines and cursor are `key_outcome` where that names
/// them; only Shift starts a selection, and a typed character or Enter ends
/// it.
pub open spec fn editor_input_effect(a: Editor, event: KeyEvent, b: Editor, modified: bool) -> bool {
    &&& editor_wf(b)
    &&& editor_standard(b) == editor_standard(a)
    &&& editor_ignores(event) ==> b == a
    &&& editor_answer_known(event) ==> modified == editor_reports_change(event)
    &&& !modified && !editor_selecting(a) ==> editor_lines(b) == editor_lines(a)
    &&& editor_answer_known(event) && editor_reports_change(event) ==> !editor_selecting(b)
    &&& !event.modifiers.shift && !editor_selecting(a) ==> !editor_selecting(b)
    &&& !editor_selecting(a) && editor_wf(a) ==> match key_outcome(
        editor_lines(a),
        editor_cursor(a),
        event,
        editor_plain(a),
    ) {
        Some(o) => o == (editor_lines(b), editor_cursor(b), modified),
        None => true,
    }
}

/// Typing into the lines at a cursor within them always changes them.
pub proof fn lemma_typing_changes_lines(lines: Seq<Seq<char>>, cur: (nat, nat), ch: char)
    requires
        cur.0 < lines.len(),
        cur.1 <= lines[cur.0 as int].len(),
    ensures
        typed_outcome(lines, cur, ch).0 != lines,
{
    let o = typed_outcome(lines, cur, ch).0;
    if ch == '\n' || ch == '\r' {
        assert(o.len() == lines.len() + 1);
    } else {
        assert(o[cur.0 as int].len() == lines[cur.0 as int].len() + 1);
    }
}

/// Hands a key event of the terminal to the editor, read as the editor reads
/// a terminal key: a released key is no key, back-tab is tab with shift, and
/// the keys the editor has no name for are its ignored key. Says whether the
/// text changed; see `editor_input_effect` for what it does.
pub fn editor_input(t: &mut Editor, event: KeyEvent) -> (modified: bool)
    ensures
        editor_input_effect(*old(t), event, *final(t), modified),
{
    if event.kind == KeyEventKind::Release {
        return editor_edit_key(t, EditKey::Null, false, false, false);
    }
    let ctrl = event.modifiers.control;
    let alt = event.modifiers.alt;
    let shift = event.modifiers.shift;
    match event.code {
        KeyCode::Char(c) => editor_type_char(t, c, ctrl, alt, shift),
        KeyCode::Left => editor_move_key(t, MoveKey::Left, ctrl, alt, shift),
        KeyCode::Right => editor_move_key(t, MoveKey::Right, ctrl, alt, shift),
        KeyCode::Up => editor_move_key(t, MoveKey::Up, ctrl, alt, shift),
        KeyCode::Down => editor_move_key(t, MoveKey::Down, ctrl, alt, shift),
        KeyCode::Home => editor_move_key(t, MoveKey::Home, ctrl, alt, shift),
        KeyCode::End => editor_move_key(t, MoveKey::End, ctrl, alt, shift),
        KeyCode::PageUp => editor_move_key(t, MoveKey::PageUp, ctrl, alt, shift),
        KeyCode::PageDown => editor_move_key(t, MoveKey::PageDown, ctrl, alt, shift),
        KeyCode::Backspace => editor_edit_key(t, EditKey::Backspace, ctrl, alt, shift),
        KeyCode::Enter => editor_edit_key(t, EditKey::Enter, ctrl, alt, shift),
        KeyCode::Tab => editor_edit_key(t, EditKey::Tab, ctrl, alt, shift),
        KeyCode::BackTab => editor_edit_key(t, EditKey::Tab, ctrl, alt, true),
        KeyCode::Delete => editor_edit_key(t, EditKey::Delete, ctrl, alt, shift),
        KeyCode::Esc => editor_edit_key(t, EditKey::Esc, ctrl, alt, shift),
        KeyCode::F(n) => editor_edit_key(t, EditKey::F(n), ctrl, alt, shift),
        KeyCode::Insert | KeyCode::Null | KeyCode::Other => editor_edit_key(t, EditKey::Null, ctrl, alt, shift),
    }
}

} // verus!
