//! A one-line text editor driven by key presses: letters, digits and space
//! are typed at the caret, the arrow keys move the caret and backspace
//! deletes the character before it.

use vstd::prelude::*;
use vstd::string::is_ascii_spec_bytes;
use vstd::utf8::is_ascii_chars;

verus! {

broadcast use vstd::string::group_string_axioms;

/// The keys that the editor tells apart; every other key is `Other`.
#[derive(Debug, Clone, Copy, PartialEq, Eq)]
pub enum EditKey {
    A, B, C, D, E, F, G, H, I, J, K, L, M, N, O, P, Q, R, S, T, U, V, W, X, Y, Z,
    Space,
    Key0, Key1, Key2, Key3, Key4, Key5, Key6, Key7, Key8, Key9,
    Right,
    Left,
    Back,
    Other,
}

/// The position of a letter key in the alphabet.
pub open spec fn letter_index(key: EditKey) -> Option<int> {
    match key {
        EditKey::A => Some(0), EditKey::B => Some(1), EditKey::C => Some(2),
        EditKey::D => Some(3), EditKey::E => Some(4), EditKey::F => Some(5),
        EditKey::G => Some(6), EditKey::H => Some(7), EditKey::I => Some(8),
        EditKey::J => Some(9), EditKey::K => Some(10), EditKey::L => Some(11),
        EditKey::M => Some(12), EditKey::N => Some(13), EditKey::O => Some(14),
        EditKey::P => Some(15), EditKey::Q => Some(16), EditKey::R => Some(17),
        EditKey::S => Some(18), EditKey::T => Some(19), EditKey::U => Some(20),
        EditKey::V => Some(21), EditKey::W => Some(22), EditKey::X => Some(23),
        EditKey::Y => Some(24), EditKey::Z => Some(25),
        _ => None,
    }
}

/// The value of a digit key.
pub open spec fn digit_value(key: EditKey) -> Option<int> {
    match key {
        EditKey::Key0 => Some(0), EditKey::Key1 => Some(1), EditKey::Key2 => Some(2),
        EditKey::Key3 => Some(3), EditKey::Key4 => Some(4), EditKey::Key5 => Some(5),
        EditKey::Key6 => Some(6), EditKey::Key7 => Some(7), EditKey::Key8 => Some(8),
        EditKey::Key9 => Some(9),
        _ => None,
    }
}

/// The character a key types: a capital letter with shift and a small one
/// without, a digit, or a space.
pub open spec fn typed_char(key: EditKey, shift: bool) -> Option<char> {
    if let Some(i) = letter_index(key) {
        Some(((if shift { 65int } else { 97int }) + i) as char)
    } else if let Some(d) = digit_value(key) {
        Some((48int + d) as char)
    } else if key == EditKey::Space {
        Some(' ')
    } else {
        None
    }
}

/// The text and caret after typing `c` with the caret at `caret`: `c` goes in
/// at the caret, which moves past it.
pub open spec fn after_insert(text: Seq<char>, caret: nat, c: char) -> (Seq<char>, nat) {
    (text.insert(caret as int, c), caret + 1)
}

/// The text and caret after a backspace: the character before the caret goes
/// and the caret moves back onto its place; at the start nothing changes.
pub open spec fn after_backspace(text: Seq<char>, caret: nat) -> (Seq<char>, nat) {
    if caret > 0 {
        (text.remove(caret - 1), (caret - 1) as nat)
    } else {
        (text, caret)
    }
}

/// The text and caret after pressing `key` on `text` with the caret at
/// `caret`.
pub open spec fn after_key(text: Seq<char>, caret: nat, key: EditKey, shift: bool) -> (Seq<char>, nat) {
    if let Some(c) = typed_char(key, shift) {
        after_insert(text, caret, c)
    } else if key == EditKey::Right {
        (text, if caret + 1 <= text.len() { caret + 1 } else { text.len() })
    } else if key == EditKey::Left {
        (text, (caret - 1) as nat)
    } else if key == EditKey::Back {
        after_backspace(text, caret)
    } else {
        (text, caret)
    }
}

/// Whether the editor takes `key`: moving left from the start would take the
/// caret below zero, and typing into a text of `isize::MAX` bytes would
/// outgrow the string's capacity.
pub open spec fn accepts_key(text: Seq<char>, caret: nat, key: EditKey, shift: bool) -> bool {
    &&& !(key == EditKey::Left && caret == 0)
    &&& typed_char(key, shift) is Some ==> text.len() < isize::MAX
}

/// Calls `String::insert(idx, c)`. Trusted: std inserts `c` at byte position
/// `idx`; on an ASCII string byte positions are character positions, and std
/// panics past the end, which `requires` excludes, as it does a string that
/// would outgrow `isize::MAX` bytes.
#[verifier::external_body]
fn string_insert(s: &mut String, idx: usize, c: char)
    requires
        is_ascii_chars(old(s)@),
        idx <= old(s)@.len(),
        old(s)@.len() < isize::MAX,
    ensures
        final(s)@ == old(s)@.insert(idx as int, c),
{
    s.insert(idx, c);
}

/// Calls `String::remove(idx)`. Trusted: std removes and returns the
/// character at byte position `idx`; on an ASCII string byte positions are
/// character positions, and std panics at or past the end, which `requires`
/// excludes.
#[verifier::external_body]
fn string_remove(s: &mut String, idx: usize) -> (c: char)
    requires
        is_ascii_chars(old(s)@),
        idx < old(s)@.len(),
    ensures
        c == old(s)@[idx as int],
        final(s)@ == old(s)@.remove(idx as int),
{
    s.remove(idx)
}

/// An editable line of text with a caret.
pub struct TextEditor {
    caret_position: usize,
    text: String,
}

impl TextEditor {
    /// The text being edited.
    pub closed spec fn text_view(&self) -> Seq<char> {
        self.text@
    }

    /// Where the caret stands, in characters from the start.
    pub closed spec fn caret(&self) -> nat {
        self.caret_position as nat
    }

    /// The editor's invariant: the text is ASCII, so characters and bytes
    /// coincide, it fits a string, and the caret lies within it.
    pub closed spec fn wf(&self) -> bool {
        &&& is_ascii_chars(self.text@)
        &&& self.text@.len() <= isize::MAX
        &&& self.caret_position <= self.text@.len()
    }

    /// What the invariant gives a caller: the text is ASCII and fits a
    /// string, and the caret lies within it.
    pub proof fn lemma_wf(&self)
        requires
            self.wf(),
        ensures
            is_ascii_chars(self.text_view()),
            self.text_view().len() <= isize::MAX,
            self.caret() <= self.text_view().len(),
    {
    }

    /// An empty editor.
    pub fn new() -> (e: TextEditor)
        ensures
            e.wf(),
            e.text_view() == Seq::<char>::empty(),
            e.caret() == 0,
    {
        TextEditor { caret_position: 0, text: String::new() }
    }

    /// The text being edited.
    pub fn text(&self) -> (res: &str)
        ensures
            res@ == self.text_view(),
    {
        self.text.as_str()
    }

    /// Where the caret stands.
    pub fn caret_position(&self) -> (res: usize)
        ensures
            res == self.caret(),
    {
        self.caret_position
    }

    /// The length of the text; ASCII text has one byte per character.
    fn text_len(&self) -> (len: usize)
        requires
            self.wf(),
        ensures
            len == self.text@.len(),
    {
        let s = self.text.as_str();
        proof {
            is_ascii_spec_bytes(s);
        }
        s.len()
    }

    /// Types `character`, turned to lower case unless `uppercase` is set.
    fn insert_letter(&mut self, character: char, uppercase: bool)
        requires
            old(self).wf(),
            'A' <= character <= 'Z',
            old(self).text@.len() < isize::MAX,
        ensures
            final(self).wf(),
            final(self).caret() == old(self).caret() + 1,
            final(self).text_view() == old(self).text_view().insert(
                old(self).caret() as int,
                if uppercase { character } else { ((character as int) + 32) as char },
            ),
    {
        let mut character = character;
        if !uppercase {
            character = ((character as u8) + 32) as char;
        }
        self.insert_character(character);
    }

    /// Moves the caret one character right, stopping at the end.
    fn advance_caret(&mut self)
        requires
            old(self).wf(),
        ensures
            final(self).wf(),
            final(self).text_view() == old(self).text_view(),
            final(self).caret() == if old(self).caret() + 1 <= old(self).text@.len() {
                old(self).caret() + 1
            } else {
                old(self).text@.len()
            },
    {
        let len = self.text_len();
        let next = self.caret_position + 1;
        self.caret_position = if next < len { next } else { len };
    }

    /// Moves the caret one character left.
    fn retreat_caret(&mut self)
        requires
            old(self).wf(),
            old(self).caret() > 0,
        ensures
            final(self).wf(),
            final(self).text_view() == old(self).text_view(),
            final(self).caret() == old(self).caret() - 1,
    {
        self.caret_position = self.caret_position - 1;
    }

    /// Types `character` at the caret.
    pub fn insert_character(&mut self, character: char)
        requires
            old(self).wf(),
            character <= '\u{7f}',
            old(self).text_view().len() < isize::MAX,
        ensures
            final(self).wf(),
            (final(self).text_view(), final(self).caret()) == after_insert(
                old(self).text_view(),
                old(self).caret(),
                character,
            ),
    {
        string_insert(&mut self.text, self.caret_position, character);
        self.caret_position = self.caret_position + 1;
        proof {
            assert forall|i: int| 0 <= i < self.text@.len() implies '\0' <= #[trigger] self.text@[i]
                <= '\u{7f}' by {
                if i < old(self).caret_position {
                    assert(self.text@[i] == old(self).text@[i]);
                } else if i > old(self).caret_position {
                    assert(self.text@[i] == old(self).text@[i - 1]);
                }
            }
        }
    }

    /// Deletes the character before the caret, if there is one.
    pub fn backspace(&mut self)
        requires
            old(self).wf(),
        ensures
            final(self).wf(),
            (final(self).text_view(), final(self).caret()) == after_backspace(
                old(self).text_view(),
                old(self).caret(),
            ),
    {
        if self.caret_position > 0 {
            string_remove(&mut self.text, self.caret_position - 1);
            self.caret_position = self.caret_position - 1;
            proof {
                assert forall|i: int| 0 <= i < self.text@.len() implies '\0' <= #[trigger] self.text@[i]
                    <= '\u{7f}' by {
                    if i < old(self).caret_position - 1 {
                        assert(self.text@[i] == old(self).text@[i]);
                    } else {
                        assert(self.text@[i] == old(self).text@[i + 1]);
                    }
                }
            }
        }
    }

    /// Applies a key press; `shift` picks capital letters.
    pub fn handle_key(&mut self, keycode: EditKey, shift: bool)
        requires
            old(self).wf(),
            accepts_key(old(self).text_view(), old(self).caret(), keycode, shift),
        ensures
            final(self).wf(),
            final(self).caret() <= final(self).text_view().len(),
            (final(self).text_view(), final(self).caret()) == after_key(
                old(self).text_view(),
                old(self).caret(),
                keycode,
                shift,
            ),
    {
        match keycode {
            EditKey::A => self.insert_letter('A', shift),
            EditKey::B => self.insert_letter('B', shift),
            EditKey::C => self.insert_letter('C', shift),
            EditKey::D => self.insert_letter('D', shift),
            EditKey::E => self.insert_letter('E', shift),
            EditKey::F => self.insert_letter('F', shift),
            EditKey::G => self.insert_letter('G', shift),
            EditKey::H => self.insert_letter('H', shift),
            EditKey::I => self.insert_letter('I', shift),
            EditKey::J => self.insert_letter('J', shift),
            EditKey::K => self.insert_letter('K', shift),
            EditKey::L => self.insert_letter('L', shift),
            EditKey::M => self.insert_letter('M', shift),
            EditKey::N => self.insert_letter('N', shift),
            EditKey::O => self.insert_letter('O', shift),
            EditKey::P => self.insert_letter('P', shift),
            EditKey::Q => self.insert_letter('Q', shift),
            EditKey::R => self.insert_letter('R', shift),
            EditKey::S => self.insert_letter('S', shift),
            EditKey::T => self.insert_letter('T', shift),
            EditKey::U => self.insert_letter('U', shift),
            EditKey::V => self.insert_letter('V', shift),
            EditKey::W => self.insert_letter('W', shift),
            EditKey::X => self.insert_letter('X', shift),
            EditKey::Y => self.insert_letter('Y', shift),
            EditKey::Z => self.insert_letter('Z', shift),
            EditKey::Space => self.insert_character(' '),
            EditKey::Key0 => self.insert_character('0'),
            EditKey::Key1 => self.insert_character('1'),
            EditKey::Key2 => self.insert_character('2'),
            EditKey::Key3 => self.insert_character('3'),
            EditKey::Key4 => self.insert_character('4'),
            EditKey::Key5 => self.insert_character('5'),
            EditKey::Key6 => self.insert_character('6'),
            EditKey::Key7 => self.insert_character('7'),
            EditKey::Key8 => self.insert_character('8'),
            EditKey::Key9 => self.insert_character('9'),
            EditKey::Right => self.advance_caret(),
            EditKey::Left => self.retreat_caret(),
            EditKey::Back => self.backspace(),
            EditKey::Other => {},
        }
    }
}

/// Each key types its own character whether or not shift is held: a digit
/// key its digit, the space bar a space, a letter key its letter, capital
/// with shift and small without; the arrows, backspace and every other key
/// type nothing.
pub proof fn lemma_keys_type_their_characters(shift: bool)
    ensures
        typed_char(EditKey::Key0, shift) == Some('0'),
        typed_char(EditKey::Key1, shift) == Some('1'),
        typed_char(EditKey::Key2, shift) == Some('2'),
        typed_char(EditKey::Key3, shift) == Some('3'),
        typed_char(EditKey::Key4, shift) == Some('4'),
        typed_char(EditKey::Key5, shift) == Some('5'),
        typed_char(EditKey::Key6, shift) == Some('6'),
        typed_char(EditKey::Key7, shift) == Some('7'),
        typed_char(EditKey::Key8, shift) == Some('8'),
        typed_char(EditKey::Key9, shift) == Some('9'),
        typed_char(EditKey::Space, shift) == Some(' '),
        typed_char(EditKey::A, shift) == Some(if shift { 'A' } else { 'a' }),
        typed_char(EditKey::B, shift) == Some(if shift { 'B' } else { 'b' }),
        typed_char(EditKey::C, shift) == Some(if shift { 'C' } else { 'c' }),
        typed_char(EditKey::D, shift) == Some(if shift { 'D' } else { 'd' }),
        typed_char(EditKey::E, shift) == Some(if shift { 'E' } else { 'e' }),
        typed_char(EditKey::F, shift) == Some(if shift { 'F' } else { 'f' }),
        typed_char(EditKey::G, shift) == Some(if shift { 'G' } else { 'g' }),
        typed_char(EditKey::H, shift) == Some(if shift { 'H' } else { 'h' }),
        typed_char(EditKey::I, shift) == Some(if shift { 'I' } else { 'i' }),
        typed_char(EditKey::J, shift) == Some(if shift { 'J' } else { 'j' }),
        typed_char(EditKey::K, shift) == Some(if shift { 'K' } else { 'k' }),
        typed_char(EditKey::L, shift) == Some(if shift { 'L' } else { 'l' }),
        typed_char(EditKey::M, shift) == Some(if shift { 'M' } else { 'm' }),
        typed_char(EditKey::N, shift) == Some(if shift { 'N' } else { 'n' }),
        typed_char(EditKey::O, shift) == Some(if shift { 'O' } else { 'o' }),
        typed_char(EditKey::P, shift) == Some(if shift { 'P' } else { 'p' }),
        typed_char(EditKey::Q, shift) == Some(if shift { 'Q' } else { 'q' }),
        typed_char(EditKey::R, shift) == Some(if shift { 'R' } else { 'r' }),
        typed_char(EditKey::S, shift) == Some(if shift { 'S' } else { 's' }),
        typed_char(EditKey::T, shift) == Some(if shift { 'T' } else { 't' }),
        typed_char(EditKey::U, shift) == Some(if shift { 'U' } else { 'u' }),
        typed_char(EditKey::V, shift) == Some(if shift { 'V' } else { 'v' }),
        typed_char(EditKey::W, shift) == Some(if shift { 'W' } else { 'w' }),
        typed_char(EditKey::X, shift) == Some(if shift { 'X' } else { 'x' }),
        typed_char(EditKey::Y, shift) == Some(if shift { 'Y' } else { 'y' }),
        typed_char(EditKey::Z, shift) == Some(if shift { 'Z' } else { 'z' }),
        typed_char(EditKey::Right, shift) is None,
        typed_char(EditKey::Left, shift) is None,
        typed_char(EditKey::Back, shift) is None,
        typed_char(EditKey::Other, shift) is None,
{
}

/// Backspace undoes typing: inserting any character at the caret and
/// then pressing backspace gives back the text and the caret from before.
pub proof fn lemma_backspace_undoes_insert(text: Seq<char>, caret: nat, c: char)
    requires
        caret <= text.len(),
    ensures
        ({
            let (typed, moved) = after_insert(text, caret, c);
            after_backspace(typed, moved) == (text, caret)
        }),
{
    assert(text.insert(caret as int, c).remove(caret as int) =~= text);
}

/// Backspace undoes typing: typing a character and then pressing backspace
/// gives back the text and the caret from before.
pub proof fn lemma_backspace_undoes_typing(text: Seq<char>, caret: nat, key: EditKey, shift: bool, shift_back: bool)
    requires
        caret <= text.len(),
        typed_char(key, shift) is Some,
    ensures
        ({
            let (typed, moved) = after_key(text, caret, key, shift);
            after_key(typed, moved, EditKey::Back, shift_back) == (text, caret)
        }),
{
    let c = typed_char(key, shift)->0;
    let typed = text.insert(caret as int, c);
    assert(typed.remove(caret as int) =~= text);
}

/// Moving the caret left and then right brings it back to where it was.
pub proof fn lemma_right_undoes_left(text: Seq<char>, caret: nat, shift: bool)
    requires
        0 < caret <= text.len(),
    ensures
        ({
            let (t1, c1) = after_key(text, caret, EditKey::Left, shift);
            after_key(t1, c1, EditKey::Right, shift) == (text, caret)
        }),
{
}

/// Every key keeps the caret within the text, and typing adds exactly one
/// character while the other keys never lengthen the text.
pub proof fn lemma_caret_stays_in_text(text: Seq<char>, caret: nat, key: EditKey, shift: bool)
    requires
        caret <= text.len(),
        accepts_key(text, caret, key, shift),
    ensures
        ({
            let (t1, c1) = after_key(text, caret, key, shift);
            &&& c1 <= t1.len()
            &&& typed_char(key, shift) is Some ==> t1.len() == text.len() + 1
            &&& typed_char(key, shift) is None ==> t1.len() <= text.len()
        }),
{
}

/// Only letters, digits and space type, and they type ASCII characters.
pub proof fn lemma_typed_chars_are_ascii(key: EditKey, shift: bool)
    ensures
        typed_char(key, shift) matches Some(c) ==> ('\0' <= c <= '\u{7f}'),
{
}

} // verus!
