use vstd::prelude::*;

verus! {

/// The mathematical value of a [`Sentence`].
pub struct SentenceView {
    pub lang: Seq<char>,
    pub text: Seq<char>,
    pub votes: int,
}

/// A text fragment tagged with a language and a net vote count.
#[derive(Clone, Debug, PartialEq, Eq)]
pub struct Sentence {
    pub lang: String,
    pub text: String,
    pub votes: i32,
}

impl View for Sentence {
    type V = SentenceView;

    open spec fn view(&self) -> SentenceView {
        SentenceView { lang: self.lang@, text: self.text@, votes: self.votes as int }
    }
}

impl Sentence {
    /// A fresh sentence, with no votes yet.
    pub fn new(lang: String, text: String) -> (r: Sentence)
        ensures
            r@ == (SentenceView { lang: lang@, text: text@, votes: 0 }),
    {
        Sentence { lang, text, votes: 0 }
    }
}

} // verus!
