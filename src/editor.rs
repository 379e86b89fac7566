//! A single-line text buffer with a cursor counted in characters.
use vstd::prelude::*;
use vstd::string::*;
use vstd::utf8::*;
use crate::string_ops::{string_insert, string_push};
use crate::utf8::{byte_offset, lemma_encode_utf8_add, lemma_len_le_utf8_len, lemma_prefix_is_char_boundary, utf8_len};

verus! {

broadcast use vstd::utf8::group_utf8_lib;

/// The text typed so far and the cursor position in it. The cursor is a
/// character index, never a byte index, so multi-byte characters are never
/// split.
pub struct UserInputInfo {
    character_index: usize,
    input: String,
}

impl UserInputInfo {
    /// The characters of the buffer.
    pub closed spec fn text(&self) -> Seq<char> {
        self.input@
    }

    /// The cursor, as a number of characters from the start.
    pub closed spec fn cursor(&self) -> nat {
        self.character_index as nat
    }

    /// The cursor lies within the text, and the text fits in memory.
    pub open spec fn wf(&self) -> bool {
        &&& self.cursor() <= self.text().len()
        &&& utf8_len(self.text()) <= isize::MAX
    }

    /// An empty buffer with the cursor at the start.
    pub fn new() -> (r: UserInputInfo)
        ensures
            r.wf(),
            r.text() == Seq::<char>::empty(),
            r.cursor() == 0,
    {
        let r = UserInputInfo { character_index: 0, input: String::new() };
        assert(encode_utf8(r.text()) =~= Seq::<u8>::empty());
        r
    }

    /// The text typed so far.
    pub fn input(&self) -> (r: &str)
        ensures
            r@ == self.text(),
    {
        self.input.as_str()
    }

    /// The cursor position, in characters.
    pub fn character_index(&self) -> (r: usize)
        ensures
            r == self.cursor(),
    {
        self.character_index
    }

    /// Whether no character has been typed.
    pub fn is_empty(&self) -> (r: bool)
        ensures
            r == (self.text().len() == 0),
    {
        self.input.as_str().is_empty()
    }

    /// The number of characters in the buffer.
    pub fn char_count(&self) -> (r: usize)
        ensures
            r == self.text().len(),
    {
        self.input.as_str().unicode_len()
    }

    /// `pos` clamped to the range of valid cursor positions.
    pub fn clamp_cursor(&self, pos: usize) -> (r: usize)
        ensures
            r == (if pos <= self.text().len() { pos as int } else { self.text().len() as int }),
    {
        let n = self.char_count();
        if pos <= n {
            pos
        } else {
            n
        }
    }

    /// Byte offset in the UTF-8 text at which the cursor stands.
    pub fn byte_index(&self) -> (r: usize)
        requires
            self.wf(),
        ensures
            r == utf8_len(self.text().take(self.cursor() as int)),
    {
        byte_offset(self.input.as_str(), self.character_index)
    }

    /// Moves the cursor one character to the left, stopping at the start.
    pub fn move_cursor_left(&mut self)
        requires
            old(self).wf(),
        ensures
            final(self).wf(),
            final(self).text() == old(self).text(),
            final(self).cursor() == (if old(self).cursor() == 0 { 0 } else { old(self).cursor() - 1 }),
    {
        let pos = if self.character_index == 0 { 0 } else { self.character_index - 1 };
        self.character_index = self.clamp_cursor(pos);
    }

    /// Moves the cursor one character to the right, stopping at the end.
    pub fn move_cursor_right(&mut self)
        requires
            old(self).wf(),
        ensures
            final(self).wf(),
            final(self).text() == old(self).text(),
            final(self).cursor() == (if old(self).cursor() == old(self).text().len() {
                old(self).cursor()
            } else {
                old(self).cursor() + 1
            }),
    {
        proof {
            lemma_len_le_utf8_len(self.input@);
        }
        let pos = if self.character_index == usize::MAX {
            usize::MAX
        } else {
            self.character_index + 1
        };
        self.character_index = self.clamp_cursor(pos);
    }

    /// Puts the cursor at the start.
    pub fn reset_cursor(&mut self)
        requires
            old(self).wf(),
        ensures
            final(self).wf(),
            final(self).text() == old(self).text(),
            final(self).cursor() == 0,
    {
        self.character_index = 0;
    }

    /// Empties the buffer and puts the cursor at the start.
    pub fn clear(&mut self)
        ensures
            final(self).wf(),
            final(self).text() == Seq::<char>::empty(),
            final(self).cursor() == 0,
    {
        *self = UserInputInfo::new();
    }

    /// Inserts `c` at the cursor and moves the cursor past it.
    pub fn enter_char(&mut self, c: char)
        requires
            old(self).wf(),
        ensures
            final(self).wf(),
            final(self).text() == old(self).text().insert(old(self).cursor() as int, c),
            final(self).cursor() == old(self).cursor() + 1,
    {
        let idx = self.byte_index();
        let ghost v = self.input@;
        let ghost k = self.character_index as int;
        proof {
            lemma_prefix_is_char_boundary(v, k);
            assert(v =~= v.take(k) + v.skip(k));
            lemma_encode_utf8_add(v.take(k), v.skip(k));
        }
        string_insert(&mut self.input, idx, c);
        proof {
            let w = v.take(k) + seq![c] + v.skip(k);
            let bytes = encode_utf8(v);
            assert(bytes.take(idx as int) =~= encode_utf8(v.take(k)));
            assert(bytes.skip(idx as int) =~= encode_utf8(v.skip(k)));
            lemma_encode_utf8_add(v.take(k), seq![c]);
            lemma_encode_utf8_add(v.take(k) + seq![c], v.skip(k));
            assert(encode_utf8(self.input@) == encode_utf8(w));
            assert(decode_utf8(encode_utf8(self.input@)) == decode_utf8(encode_utf8(w)));
            assert(w =~= v.insert(k, c));
        }
        self.move_cursor_right();
    }

    /// Removes the character left of the cursor and moves the cursor back
    /// over it; does nothing when the cursor is at the start.
    pub fn delete_char(&mut self)
        requires
            old(self).wf(),
        ensures
            final(self).wf(),
            old(self).cursor() == 0 ==> final(self).text() == old(self).text()
                && final(self).cursor() == 0,
            old(self).cursor() > 0 ==> final(self).text() == old(self).text().remove(
                old(self).cursor() - 1,
            ) && final(self).cursor() == old(self).cursor() - 1,
    {
        if self.character_index != 0 {
            let current = self.character_index;
            let ghost v = self.input@;
            let mut rebuilt = String::new();
            let mut i: usize = 0;
            proof {
                lemma_len_le_utf8_len(v);
                assert(encode_utf8(rebuilt@) =~= Seq::<u8>::empty());
            }
            for c in it: self.input.chars()
                invariant
                    it.seq() == v,
                    i == it.index(),
                    0 < current <= v.len() <= isize::MAX,
                    utf8_len(rebuilt@) <= isize::MAX,
                    rebuilt@ == (if i < current {
                        v.take(i as int)
                    } else {
                        v.take(current - 1) + v.subrange(current as int, i as int)
                    }),
            {
                if i + 1 != current {
                    string_push(&mut rebuilt, c);
                }
                proof {
                    assert(rebuilt@ =~= (if i + 1 < current {
                        v.take(i + 1)
                    } else {
                        v.take(current - 1) + v.subrange(current as int, i + 1)
                    }));
                }
                i = i + 1;
            }
            self.input = rebuilt;
            self.character_index = current - 1;
            assert(self.input@ =~= v.remove(current - 1));
        }
    }
}

} // verus!
