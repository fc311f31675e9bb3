//! The shared text buffer that the read loop fills and consumers read.
//!
//! One growing text buffer is the single hand-off point between the producer
//! (the read loop) and any number of consumers. In a running program the
//! buffer sits behind a reference-counted mutual-exclusion lock owned by the
//! embedding; every operation here corresponds to one critical section, so a
//! consumer always observes a fully formed string and never a torn write.
//! The buffer never shrinks except through `clear` / `replace_all`, which
//! substitute the whole contents.

use vstd::prelude::*;
use vstd::string::*;

verus! {

/// The growing terminal text. Its view is the sequence of characters held.
pub struct SharedBuffer {
    text: String,
}

impl View for SharedBuffer {
    type V = Seq<char>;

    closed spec fn view(&self) -> Seq<char> {
        self.text@
    }
}

impl SharedBuffer {
    /// A fresh buffer holds no text.
    pub fn new() -> (r: SharedBuffer)
        ensures
            r@ == Seq::<char>::empty(),
    {
        SharedBuffer { text: String::new() }
    }

    /// Appends `text` verbatim at the end; nothing already held is lost.
    pub fn append(&mut self, text: &str)
        ensures
            final(self)@ == old(self)@ + text@,
    {
        self.text.append(text);
    }

    /// Replaces the whole contents with `text`.
    pub fn replace_all(&mut self, text: &str)
        ensures
            final(self)@ == text@,
    {
        self.text = String::from_str(text);
    }

    /// Empties the buffer: the same as replacing the contents with nothing.
    pub fn clear(&mut self)
        ensures
            final(self)@ == Seq::<char>::empty(),
    {
        self.text = String::new();
    }

    /// Returns a copy of the current contents.
    pub fn snapshot(&self) -> (r: String)
        ensures
            r@ == self@,
    {
        self.text.clone()
    }

    /// Number of characters currently held.
    pub fn len(&self) -> (r: usize)
        ensures
            r == self@.len(),
    {
        self.text.as_str().unicode_len()
    }
}

/// The concatenation, in order, of a sequence of texts.
pub open spec fn concat_all(texts: Seq<Seq<char>>) -> Seq<char>
    decreases texts.len(),
{
    if texts.len() == 0 {
        Seq::empty()
    } else {
        texts[0] + concat_all(texts.subrange(1, texts.len() as int))
    }
}

/// The contents of a buffer that started at `start` after each text of
/// `texts` has been appended, in call order.
pub open spec fn after_appends(start: Seq<char>, texts: Seq<Seq<char>>) -> Seq<char>
    decreases texts.len(),
{
    if texts.len() == 0 {
        start
    } else {
        after_appends(start + texts[0], texts.subrange(1, texts.len() as int))
    }
}

/// Ordering law of the buffer: appending any sequence of texts, one by one
/// and in call order, leaves exactly the starting contents followed by their
/// concatenation in that order. A later snapshot therefore returns the
/// appends in the order they were made.
pub proof fn lemma_appends_in_order(start: Seq<char>, texts: Seq<Seq<char>>)
    ensures
        after_appends(start, texts) == start + concat_all(texts),
    decreases texts.len(),
{
    if texts.len() == 0 {
        assert(after_appends(start, texts) =~= start + concat_all(texts));
    } else {
        let rest = texts.subrange(1, texts.len() as int);
        lemma_appends_in_order(start + texts[0], rest);
        assert((start + texts[0]) + concat_all(rest) =~= start + (texts[0] + concat_all(rest)));
    }
}

} // verus!
