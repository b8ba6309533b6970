use vstd::prelude::*;

use crate::sentence::{Sentence, SentenceView};

verus! {

/// The mathematical value of a [`SentenceModel`].
pub struct BoardView {
    pub source: SentenceView,
    pub target: Seq<char>,
    pub translations: Seq<SentenceView>,
    pub placeholder: Option<Seq<char>>,
}

/// The mathematical value of a [`Model`].
pub enum ModelView {
    Loading,
    Loaded(BoardView),
}

/// One translation session: the sentence to translate, the language shown,
/// every candidate translation in insertion order, and the text that a user
/// may still promote into a candidate.
#[derive(Clone, Debug, PartialEq, Eq)]
pub struct SentenceModel {
    pub source: Sentence,
    pub target: String,
    pub translations: Vec<Sentence>,
    pub placeholder: Option<String>,
}

/// The application state: waiting for the sentence, or a board to work on.
#[derive(Clone, Debug, PartialEq, Eq)]
pub enum Model {
    Loading,
    Loaded(SentenceModel),
}

/// The events that change a [`Model`].
#[derive(Clone, Debug, PartialEq, Eq)]
pub enum Msg {
    Again,
    Great,
    /// Add one vote to the translation at this position of the full list.
    Upvote(usize),
    /// Take one vote from the translation at this position of the full list.
    Downvote(usize),
    /// Show the translations of this language.
    Target(String),
    /// Turn the pending placeholder into a translation. The payload is the
    /// text that the input field holds now, or `None` when no field is attached.
    Promote(Option<String>),
    /// The sentence to translate has arrived.
    SentenceMsg(Sentence),
}

/// Why an event could not be applied; the model is then left as it was.
#[derive(Clone, Copy, Debug, PartialEq, Eq, Structural)]
pub enum UpdateError {
    /// A vote named a position outside the list of translations.
    IndexOutOfRange,
    /// A promotion came with no pending placeholder or no input text.
    MissingPlaceholder,
    /// The vote count would leave the range of `i32`.
    VoteOverflow,
}

pub open spec fn seq_views(s: Seq<Sentence>) -> Seq<SentenceView> {
    s.map_values(|x: Sentence| x@)
}

pub open spec fn opt_view(o: Option<String>) -> Option<Seq<char>> {
    match o {
        Some(s) => Some(s@),
        None => None,
    }
}

impl View for SentenceModel {
    type V = BoardView;

    open spec fn view(&self) -> BoardView {
        BoardView {
            source: self.source@,
            target: self.target@,
            translations: seq_views(self.translations@),
            placeholder: opt_view(self.placeholder),
        }
    }
}

impl View for Model {
    type V = ModelView;

    open spec fn view(&self) -> ModelView {
        match self {
            Model::Loading => ModelView::Loading,
            Model::Loaded(b) => ModelView::Loaded(b@),
        }
    }
}

pub open spec fn fits_i32(v: int) -> bool {
    i32::MIN <= v <= i32::MAX
}

/// The board with `delta` added to the votes of translation `i`, if `i` is a
/// position of the full list and the count stays within `i32`.
pub open spec fn vote_step(b: BoardView, i: int, delta: int) -> (BoardView, Result<(), UpdateError>) {
    if !(0 <= i < b.translations.len()) {
        (b, Err(UpdateError::IndexOutOfRange))
    } else if !fits_i32(b.translations[i].votes + delta) {
        (b, Err(UpdateError::VoteOverflow))
    } else {
        let t = b.translations[i];
        (
            BoardView {
                translations: b.translations.update(
                    i,
                    SentenceView { lang: t.lang, text: t.text, votes: t.votes + delta },
                ),
                ..b
            },
            Ok(()),
        )
    }
}

/// The board after the placeholder has been promoted with the input's text:
/// one new translation in the target language with one vote, and no
/// placeholder left.
pub open spec fn promote_step(b: BoardView, input: Option<Seq<char>>) -> (BoardView, Result<(), UpdateError>) {
    if b.placeholder is None || input is None {
        (b, Err(UpdateError::MissingPlaceholder))
    } else {
        (
            BoardView {
                translations: b.translations.push(
                    SentenceView { lang: b.target, text: input->Some_0, votes: 1 },
                ),
                placeholder: None,
                ..b
            },
            Ok(()),
        )
    }
}

/// What an event does to a board.
pub open spec fn board_step(b: BoardView, msg: Msg) -> (BoardView, Result<(), UpdateError>) {
    match msg {
        Msg::Upvote(i) => vote_step(b, i as int, 1),
        Msg::Downvote(i) => vote_step(b, i as int, -1),
        Msg::Target(l) => (BoardView { target: l@, ..b }, Ok(())),
        Msg::Promote(t) => promote_step(b, opt_view(t)),
        _ => (b, Ok(())),
    }
}

/// A candidate that a new board starts with: no votes yet.
pub open spec fn seeded(lang: Seq<char>, text: Seq<char>) -> SentenceView {
    SentenceView { lang, text, votes: 0 }
}

/// The board built around a sentence once it has arrived: three candidates in
/// English, two in Japanese, English shown, and a pending placeholder.
pub open spec fn initial_board(source: SentenceView) -> BoardView {
    BoardView {
        source,
        target: "en_US"@,
        translations: seq![
            seeded("en_US"@, "Translation 1"@),
            seeded("en_US"@, "Translation 2"@),
            seeded("en_US"@, "Translation 3"@),
            seeded("ja"@, "Translation 4"@),
            seeded("ja"@, "Translation 5"@),
        ],
        placeholder: Some("Traducao do google"@),
    }
}

/// What an event does to the application state. While loading, only the
/// arrival of the sentence counts; once loaded, a second arrival is ignored.
pub open spec fn step(m: ModelView, msg: Msg) -> (ModelView, Result<(), UpdateError>) {
    match m {
        ModelView::Loading => match msg {
            Msg::SentenceMsg(s) => (ModelView::Loaded(initial_board(s@)), Ok(())),
            _ => (ModelView::Loading, Ok(())),
        },
        ModelView::Loaded(b) => {
            let (b2, r) = board_step(b, msg);
            (ModelView::Loaded(b2), r)
        },
    }
}

fn text_of(s: &str) -> (r: String)
    ensures
        r@ == s@,
{
    s.to_owned()
}

impl SentenceModel {
    /// The board of a session that starts with `source`.
    pub fn init_board(source: Sentence) -> (r: SentenceModel)
        ensures
            r@ == initial_board(source@),
    {
        let lang = text_of("en_US");
        let ja = text_of("ja");
        let mut translations: Vec<Sentence> = Vec::new();
        translations.push(Sentence::new(lang.clone(), text_of("Translation 1")));
        translations.push(Sentence::new(lang.clone(), text_of("Translation 2")));
        translations.push(Sentence::new(lang.clone(), text_of("Translation 3")));
        translations.push(Sentence::new(ja.clone(), text_of("Translation 4")));
        translations.push(Sentence::new(ja, text_of("Translation 5")));
        let r = SentenceModel {
            source,
            target: lang,
            translations,
            placeholder: Some(text_of("Traducao do google")),
        };
        assert(r@.translations =~= initial_board(source@).translations);
        r
    }

    /// Adds one vote to translation `i` (`up`) or takes one away, addressing
    /// the full list rather than the shown subset.
    pub fn vote(&mut self, i: usize, up: bool) -> (r: Result<(), UpdateError>)
        ensures
            (final(self)@, r) == vote_step(old(self)@, i as int, if up { 1 } else { -1 }),
    {
        if i >= self.translations.len() {
            return Err(UpdateError::IndexOutOfRange);
        }
        let v = self.translations[i].votes;
        let nv: i32 = if up {
            if v == i32::MAX {
                return Err(UpdateError::VoteOverflow);
            }
            v + 1
        } else {
            if v == i32::MIN {
                return Err(UpdateError::VoteOverflow);
            }
            v - 1
        };
        self.translations[i].votes = nv;
        let ghost want = vote_step(old(self)@, i as int, if up { 1 } else { -1 }).0;
        assert(self@.translations =~= want.translations);
        Ok(())
    }

    /// Shows the translations of `lang` from now on; none need exist.
    pub fn set_target(&mut self, lang: String)
        ensures
            final(self)@ == (BoardView { target: lang@, ..old(self)@ }),
    {
        self.target = lang;
    }

    /// Appends the input's text as a translation in the target language with
    /// one vote, and clears the placeholder. Without a pending placeholder or
    /// without input text nothing changes.
    pub fn promote(&mut self, input: Option<String>) -> (r: Result<(), UpdateError>)
        ensures
            (final(self)@, r) == promote_step(old(self)@, opt_view(input)),
    {
        if self.placeholder.is_none() {
            return Err(UpdateError::MissingPlaceholder);
        }
        match input {
            None => Err(UpdateError::MissingPlaceholder),
            Some(text) => {
                self.placeholder = None;
                let mut sentence = Sentence::new(self.target.clone(), text);
                sentence.votes = 1;
                self.translations.push(sentence);
                let ghost want = promote_step(old(self)@, opt_view(input)).0;
                assert(self@.translations =~= want.translations);
                Ok(())
            },
        }
    }

    /// Applies one event to the board.
    pub fn apply(&mut self, msg: Msg) -> (r: Result<(), UpdateError>)
        ensures
            (final(self)@, r) == board_step(old(self)@, msg),
    {
        match msg {
            Msg::Upvote(i) => self.vote(i, true),
            Msg::Downvote(i) => self.vote(i, false),
            Msg::Target(lang) => {
                self.set_target(lang);
                Ok(())
            },
            Msg::Promote(input) => self.promote(input),
            _ => Ok(()),
        }
    }
}

/// The state before the sentence to translate has arrived.
pub fn init() -> (r: Model)
    ensures
        r@ == ModelView::Loading,
{
    Model::Loading
}

/// The sentence that every session translates.
pub open spec fn source_sentence() -> SentenceView {
    SentenceView { lang: "pt_BR"@, text: "O gato esta no cesto"@, votes: 0 }
}

/// Answers the request for the sentence to translate; it cannot fail, and
/// every id gets the same sentence.
pub fn fetch_sentence(_id: usize) -> (r: Msg)
    ensures
        r matches Msg::SentenceMsg(s) && s@ == source_sentence(),
{
    Msg::SentenceMsg(Sentence::new(text_of("pt_BR"), text_of("O gato esta no cesto")))
}

/// Applies one event to the application state; an error leaves it unchanged.
pub fn update(msg: Msg, model: &mut Model) -> (r: Result<(), UpdateError>)
    ensures
        (final(model)@, r) == step(old(model)@, msg),
{
    match model {
        Model::Loading => {
            match msg {
                Msg::SentenceMsg(s) => {
                    *model = Model::Loaded(SentenceModel::init_board(s));
                },
                _ => {},
            }
            Ok(())
        },
        Model::Loaded(board) => board.apply(msg),
    }
}

} // verus!
