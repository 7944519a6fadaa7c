//! Bounded transcript accumulator: text is appended at the end and, past the
//! limit, the oldest characters are dropped.

use crate::recent::{keep_last, lemma_keep_last_append};
use vstd::prelude::*;
use vstd::string::*;

verus! {

/// What a run of pushes, in order, leaves in a buffer bounded by `limit`.
pub open spec fn pushed_texts(text: Seq<char>, limit: nat, pushes: Seq<Seq<char>>) -> Seq<char>
    decreases pushes.len(),
{
    if pushes.len() == 0 {
        text
    } else {
        keep_last(pushed_texts(text, limit, pushes.drop_last()) + pushes.last(), limit)
    }
}

/// All the pushed texts, one after the other.
pub open spec fn concat_all(pushes: Seq<Seq<char>>) -> Seq<char>
    decreases pushes.len(),
{
    if pushes.len() == 0 {
        Seq::<char>::empty()
    } else {
        concat_all(pushes.drop_last()) + pushes.last()
    }
}

/// The transcript so far, bounded to the most recent `limite` characters.
pub struct BufferTexto {
    limite: u32,
    texto: String,
}

impl BufferTexto {
    #[verifier::type_invariant]
    spec fn inv(self) -> bool {
        self.texto@.len() <= self.limite
    }

    /// The accumulated text, as characters.
    pub closed spec fn view(&self) -> Seq<char> {
        self.texto@
    }

    /// The bound on the number of characters held.
    pub closed spec fn limit(&self) -> nat {
        self.limite as nat
    }

    /// An empty buffer that will hold at most `limite` characters.
    pub fn new(limite: u32) -> (buffer: Self)
        ensures
            buffer@ == Seq::<char>::empty(),
            buffer.limit() == limite,
    {
        Self { texto: String::new(), limite }
    }

    /// Appends `string`; past the limit, only the most recent `limit`
    /// characters stay.
    pub fn push(&mut self, string: &str)
        ensures
            final(self).limit() == old(self).limit(),
            final(self)@ == keep_last(old(self)@ + string@, old(self).limit()),
            final(self)@.len() <= old(self).limit(),
    {
        let mut joined = self.texto.clone();
        joined.append(string);
        self.texto = Self::truncate(joined, self.limite);
    }

    /// A copy of the accumulated text; the buffer is left as it is.
    pub fn get(&self) -> (texto: String)
        ensures
            texto@ == self@,
            texto@.len() <= self.limit(),
    {
        proof {
            use_type_invariant(self);
        }
        self.texto.clone()
    }

    /// Drops from the front of `texto` what it has beyond `limite`
    /// characters.
    fn truncate(texto: String, limite: u32) -> (kept: String)
        ensures
            kept@ == keep_last(texto@, limite as nat),
            kept@.len() <= limite,
    {
        let len = texto.as_str().unicode_len();
        if len > limite as usize {
            let tail = texto.as_str().substring_char(len - limite as usize, len);
            String::from_str(tail)
        } else {
            texto
        }
    }
}

/// After every push the buffer holds at most `limit` characters, and after
/// any run of pushes it holds the last `limit` characters of what it held
/// followed by everything pushed: all of it where that fits, else its
/// suffix of length `limit`.
pub proof fn lemma_pushes_keep_suffix(text: Seq<char>, limit: nat, pushes: Seq<Seq<char>>)
    requires
        text.len() <= limit,
    ensures
        pushed_texts(text, limit, pushes).len() <= limit,
        pushed_texts(text, limit, pushes) == keep_last(text + concat_all(pushes), limit),
        (text + concat_all(pushes)).len() <= limit ==> pushed_texts(text, limit, pushes) == text
            + concat_all(pushes),
        (text + concat_all(pushes)).len() > limit ==> pushed_texts(text, limit, pushes) == (text
            + concat_all(pushes)).subrange(
            (text + concat_all(pushes)).len() - limit,
            (text + concat_all(pushes)).len() as int,
        ),
    decreases pushes.len(),
{
    if pushes.len() == 0 {
        assert(text + concat_all(pushes) == text);
    } else {
        let front = pushes.drop_last();
        lemma_pushes_keep_suffix(text, limit, front);
        lemma_keep_last_append(text + concat_all(front), pushes.last(), limit);
        assert(text + concat_all(pushes) == (text + concat_all(front)) + pushes.last());
    }
}

} // verus!
