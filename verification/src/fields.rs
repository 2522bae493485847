use vstd::prelude::*;
use vstd::utf8::{is_char_boundary, length_of_first_scalar};
use crate::keys::{KeyCode, KeyEvent};
use crate::text::{byte_len, string_insert, string_remove, utf8_bytes};

verus! {

/// A one-line text input: a label, the text, and the cursor as a byte
/// position in the text.
#[derive(Debug)]
pub struct StringField {
    pub label: &'static str,
    pub value: String,
    pub cursor: usize,
}

impl StringField {
    /// The bytes of the text.
    pub open spec fn bytes(&self) -> Seq<u8> {
        utf8_bytes(self.value@)
    }

    /// The cursor lies within the text.
    pub open spec fn wf(&self) -> bool {
        self.cursor <= self.bytes().len()
    }

    /// Whether a key press can be handled. Typing a character needs the
    /// cursor on a character boundary; backspace needs the character
    /// boundary one byte before the cursor. Other keys are always fine.
    pub open spec fn key_ok(&self, event: KeyEvent) -> bool {
        match event.code {
            KeyCode::Char(_) => is_char_boundary(self.bytes(), self.cursor as int),
            KeyCode::Backspace => self.cursor > 0 ==> (is_char_boundary(
                self.bytes(),
                self.cursor - 1,
            ) && self.cursor - 1 < self.bytes().len()),
            _ => true,
        }
    }

    /// The field after a key press: a character is inserted at the cursor,
    /// which moves one byte on; backspace moves the cursor one byte back and
    /// removes the character that starts there; other keys change nothing.
    pub open spec fn pressed(self, new_value: Seq<u8>, new_cursor: int, event: KeyEvent) -> bool {
        let b = self.bytes();
        let c = self.cursor as int;
        match event.code {
            KeyCode::Char(ch) => new_value == b.take(c) + utf8_bytes(seq![ch]) + b.skip(c)
                && new_cursor == c + 1,
            KeyCode::Backspace => if c > 0 {
                let k = length_of_first_scalar(b.skip(c - 1));
                new_value == b.take(c - 1) + b.skip(c - 1 + k) && new_cursor == c - 1
            } else {
                new_value == b && new_cursor == c
            },
            _ => new_value == b && new_cursor == c,
        }
    }

    /// Whether a key press can be handled (see `key_ok`).
    pub fn accepts(&self, event: KeyEvent) -> (r: bool)
        ensures
            r == self.key_ok(event),
    {
        match event.code {
            KeyCode::Char(_) => self.value.as_str().is_char_boundary(self.cursor),
            KeyCode::Backspace => {
                if self.cursor > 0 {
                    self.value.as_str().is_char_boundary(self.cursor - 1) && self.cursor - 1
                        < byte_len(&self.value)
                } else {
                    true
                }
            },
            _ => true,
        }
    }

    /// A field holding `value` with the cursor after its last byte.
    pub fn new(label: &'static str, value: String) -> (r: Self)
        ensures
            r.label == label,
            r.value == value,
            r.cursor == utf8_bytes(value@).len(),
            r.wf(),
    {
        let cursor = byte_len(&value);
        Self { label, cursor, value }
    }

    /// An empty field.
    pub fn blank(label: &'static str) -> (r: Self)
        ensures
            r.label == label,
            r.value@ == Seq::<char>::empty(),
            r.cursor == 0,
            r.wf(),
    {
        Self { label, value: String::new(), cursor: 0 }
    }

    /// The text of the field.
    pub fn stringfield_to_string(self) -> (r: String)
        ensures
            r == self.value,
    {
        self.value
    }

    /// Handles a key press: a character is typed at the cursor, backspace
    /// removes the character before it.
    pub fn on_key_press(&mut self, event: KeyEvent)
        requires
            old(self).key_ok(event),
        ensures
            final(self).label == old(self).label,
            old(self).pressed(final(self).bytes(), final(self).cursor as int, event),
            old(self).wf() ==> final(self).wf(),
    {
        match event.code {
            KeyCode::Char(c) => {
                string_insert(&mut self.value, self.cursor, c);
                proof {
                    let b = utf8_bytes(old(self).value@);
                    vstd::utf8::encode_utf8_valid_utf8(old(self).value@);
                    vstd::utf8::encode_utf8_first_scalar(seq![c]);
                    assert(utf8_bytes(seq![c]).len() >= 1);
                    assert(self.cursor as int <= b.len()) by {
                        if self.cursor as int > b.len() {
                            assert(!is_char_boundary(b, self.cursor as int));
                        }
                    }
                }
                self.cursor += 1;
            },
            KeyCode::Backspace => {
                if self.cursor > 0 {
                    self.cursor -= 1;
                    let _removed = string_remove(&mut self.value, self.cursor);
                }
            },
            _ => {},
        }
    }

    /// Moves the cursor one byte back, unless it is at the start.
    pub fn cursor_left(&mut self)
        ensures
            final(self).value == old(self).value,
            final(self).label == old(self).label,
            final(self).cursor == (if old(self).cursor > 0 {
                old(self).cursor - 1
            } else {
                old(self).cursor as int
            }),
            old(self).wf() ==> final(self).wf(),
    {
        if self.cursor > 0 {
            self.cursor -= 1;
        }
    }

    /// Moves the cursor one byte on, unless it is at the end.
    pub fn cursor_right(&mut self)
        ensures
            final(self).value == old(self).value,
            final(self).label == old(self).label,
            final(self).cursor == (if old(self).cursor < old(self).bytes().len() {
                old(self).cursor + 1
            } else {
                old(self).cursor as int
            }),
            old(self).wf() ==> final(self).wf(),
    {
        if self.cursor < byte_len(&self.value) {
            self.cursor += 1;
        }
    }
}

/// Typing a character and then pressing backspace gives back the text and
/// the cursor there were before: backspace is always possible after typing.
pub proof fn lemma_type_then_backspace(
    f: StringField,
    g: StringField,
    h: StringField,
    typed: KeyEvent,
    back: KeyEvent,
)
    requires
        f.wf(),
        typed.code is Char,
        back.code == KeyCode::Backspace,
        f.key_ok(typed),
        f.pressed(g.bytes(), g.cursor as int, typed),
    ensures
        g.key_ok(back),
        g.pressed(h.bytes(), h.cursor as int, back) ==> h.bytes() == f.bytes() && h.cursor
            == f.cursor && h.value@ == f.value@,
{
    let c = typed.code->Char_0;
    let b = f.bytes();
    let p = f.cursor as int;
    let e = utf8_bytes(seq![c]);
    let gb = g.bytes();
    vstd::utf8::encode_utf8_first_scalar(seq![c]);
    vstd::utf8::encode_utf8_valid_utf8(seq![c]);
    vstd::utf8::encode_utf8_valid_utf8(g.value@);
    assert(seq![c].drop_first() =~= Seq::<char>::empty());
    assert(utf8_bytes(Seq::<char>::empty()) =~= Seq::<u8>::empty());
    assert(seq![c][0] == c);
    assert(e =~= vstd::utf8::encode_scalar(c as u32) + utf8_bytes(Seq::<char>::empty()));
    assert(e =~= vstd::utf8::encode_scalar(c as u32));
    assert(e.len() >= 1);
    assert(vstd::utf8::is_char_boundary(e, 0));
    vstd::utf8::is_char_boundary_iff_not_is_continuation_byte(e, 0);
    assert(gb =~= b.take(p) + e + b.skip(p));
    assert(gb[p] == e[0]);
    vstd::utf8::is_char_boundary_iff_not_is_continuation_byte(gb, p);
    assert(gb.skip(p) =~= e + b.skip(p));
    assert(gb.skip(p)[0] == e[0]);
    assert(length_of_first_scalar(gb.skip(p)) == length_of_first_scalar(e));
    if g.pressed(h.bytes(), h.cursor as int, back) {
        assert(h.bytes() =~= b);
        vstd::utf8::encode_utf8_decode_utf8(h.value@);
        vstd::utf8::encode_utf8_decode_utf8(f.value@);
    }
}

/// Moving the cursor back and then on returns it to where it was, when it
/// was not at the start of the text.
pub proof fn lemma_left_then_right(f: StringField, g: StringField, h: StringField)
    requires
        f.wf(),
        f.cursor > 0,
        g.value == f.value,
        g.cursor == f.cursor - 1,
        h.value == g.value,
        h.cursor == (if g.cursor < g.bytes().len() { g.cursor + 1 } else { g.cursor as int }),
    ensures
        h.cursor == f.cursor,
        h.value == f.value,
{
}

} // verus!
