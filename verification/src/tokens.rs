//! The lazy whitespace tokenizer: an owned text buffer and a cursor, handing
//! out one maximal non-whitespace run at a time.

use vstd::prelude::*;

use crate::text::is_whitespace_char;
use crate::text::is_ws_char;
use crate::text::lemma_tokens_split;
use crate::text::tokens_of;

verus! {

/// A lazy, non-restartable producer of the whitespace-delimited tokens of an
/// owned text buffer. The cursor only moves forward; once it reaches the end
/// the sequence is exhausted for good.
#[derive(Debug)]
pub struct SpaceSeparatedStrings {
    src: String,
    next_character_index: usize,
}

impl SpaceSeparatedStrings {
    #[verifier::type_invariant]
    spec fn wf(self) -> bool {
        self.next_character_index <= self.src@.len()
    }

    /// The whole text the producer was built from.
    pub closed spec fn text(self) -> Seq<char> {
        self.src@
    }

    /// How many characters have been consumed so far.
    pub closed spec fn cursor(self) -> nat {
        self.next_character_index as nat
    }

    /// The unconsumed tail of the text; the tokens still to come are exactly
    /// `tokens_of` this tail.
    pub open spec fn remaining(self) -> Seq<char> {
        self.text().skip(self.cursor() as int)
    }

    /// Builds a producer over a copy of the given text, with nothing
    /// consumed yet.
    pub fn new(src: &str) -> (r: Self)
        ensures
            r.text() == src@,
            r.cursor() == 0,
    {
        SpaceSeparatedStrings { src: String::from_str(src), next_character_index: 0 }
    }

    /// Hands out the next token: the first maximal non-whitespace run of the
    /// unconsumed tail, or nothing once only whitespace is left. The cursor
    /// never moves backwards, so after the first `None` every later call
    /// returns `None` as well.
    pub fn next(&mut self) -> (r: Option<String>)
        ensures
            final(self).text() == old(self).text(),
            old(self).cursor() <= final(self).cursor() <= final(self).text().len(),
            match r {
                Option::None => tokens_of(old(self).remaining()).len() == 0
                    && final(self).remaining().len() == 0,
                Option::Some(tok) => tokens_of(old(self).remaining()).len() > 0
                    && tok@ == tokens_of(old(self).remaining())[0]
                    && tokens_of(final(self).remaining()) == tokens_of(
                    old(self).remaining(),
                ).skip(1),
            },
    {
        proof {
            use_type_invariant(&*self);
        }
        let ghost text = self.src@;
        let ghost c0 = self.next_character_index as int;
        let ghost orig = self.remaining();
        let len = self.src.as_str().unicode_len();
        while self.next_character_index < len && is_whitespace_char(
            self.src.as_str().get_char(self.next_character_index),
        )
            invariant
                self.src@ == text,
                len == text.len(),
                c0 <= self.next_character_index <= len,
                tokens_of(text.skip(self.next_character_index as int)) == tokens_of(orig),
            decreases len - self.next_character_index,
        {
            proof {
                let i = self.next_character_index as int;
                assert(text.skip(i)[0] == text[i]);
                assert(text.skip(i).skip(1) =~= text.skip(i + 1));
            }
            self.next_character_index = self.next_character_index + 1;
        }
        if self.next_character_index == len {
            proof {
                assert(self.remaining() =~= Seq::<char>::empty());
                assert(tokens_of(Seq::<char>::empty()) == Seq::<Seq<char>>::empty());
            }
            return Option::None;
        }
        let start = self.next_character_index;
        let mut end = start;
        while end < len && !is_whitespace_char(self.src.as_str().get_char(end))
            invariant
                self.src@ == text,
                len == text.len(),
                start <= end <= len,
                forall|m: int| start <= m < end ==> !is_ws_char(text[m]),
            decreases len - end,
        {
            end = end + 1;
        }
        let word = self.src.as_str().substring_char(start, end);
        let tok = String::from_str(word);
        proof {
            assert(end > start);
            let s = text.skip(start as int);
            let a = text.subrange(start as int, end as int);
            let b = text.skip(end as int);
            assert(a + b =~= s);
            assert forall|i: int| 0 <= i < a.len() implies !is_ws_char(a[i]) by {
                assert(a[i] == text[start + i]);
            }
            if b.len() > 0 {
                assert(b[0] == text[end as int]);
            }
            lemma_tokens_split(a, b);
            assert(word@ == a);
            assert((seq![a] + tokens_of(b))[0] == a);
            assert((seq![a] + tokens_of(b)).skip(1) =~= tokens_of(b));
        }
        self.next_character_index = end;
        Option::Some(tok)
    }
}

} // verus!
