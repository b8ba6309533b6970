use vstd::prelude::*;

use crate::board::{BoardView, Model, ModelView, SentenceModel, opt_view};
use crate::sentence::SentenceView;

verus! {

/// The mathematical value of a [`Row`].
pub struct RowView {
    pub index: int,
    pub votes: int,
    pub text: Seq<char>,
}

/// The mathematical value of a [`BoardScreen`].
pub struct BoardScreenView {
    pub source_lang: Seq<char>,
    pub source_text: Seq<char>,
    pub target: Seq<char>,
    pub rows: Seq<RowView>,
    pub placeholder: Option<Seq<char>>,
}

/// The mathematical value of a [`Screen`].
pub enum ScreenView {
    Loading,
    Board(BoardScreenView),
}

/// One shown translation. `index` is its position in the full list, which is
/// what its vote controls send back.
#[derive(Clone, Debug, PartialEq, Eq)]
pub struct Row {
    pub index: usize,
    pub votes: i32,
    pub text: String,
}

/// What a loaded board shows: the source sentence, the target language, the
/// translations in that language, and the placeholder if one is pending.
#[derive(Clone, Debug, PartialEq, Eq)]
pub struct BoardScreen {
    pub source_lang: String,
    pub source_text: String,
    pub target: String,
    pub rows: Vec<Row>,
    pub placeholder: Option<String>,
}

/// What the application shows.
#[derive(Clone, Debug, PartialEq, Eq)]
pub enum Screen {
    Loading,
    Board(BoardScreen),
}

impl View for Row {
    type V = RowView;

    open spec fn view(&self) -> RowView {
        RowView { index: self.index as int, votes: self.votes as int, text: self.text@ }
    }
}

pub open spec fn row_views(s: Seq<Row>) -> Seq<RowView> {
    s.map_values(|r: Row| r@)
}

impl View for BoardScreen {
    type V = BoardScreenView;

    open spec fn view(&self) -> BoardScreenView {
        BoardScreenView {
            source_lang: self.source_lang@,
            source_text: self.source_text@,
            target: self.target@,
            rows: row_views(self.rows@),
            placeholder: opt_view(self.placeholder),
        }
    }
}

impl View for Screen {
    type V = ScreenView;

    open spec fn view(&self) -> ScreenView {
        match self {
            Screen::Loading => ScreenView::Loading,
            Screen::Board(b) => ScreenView::Board(b@),
        }
    }
}

/// The translations of `ts` in language `lang`, in list order, each with its
/// position in `ts`.
pub open spec fn shown(ts: Seq<SentenceView>, lang: Seq<char>) -> Seq<RowView>
    decreases ts.len(),
{
    if ts.len() == 0 {
        Seq::empty()
    } else {
        let k = ts.len() - 1;
        let before = shown(ts.drop_last(), lang);
        if ts[k].lang == lang {
            before.push(RowView { index: k, votes: ts[k].votes, text: ts[k].text })
        } else {
            before
        }
    }
}

pub open spec fn board_screen(b: BoardView) -> BoardScreenView {
    BoardScreenView {
        source_lang: b.source.lang,
        source_text: b.source.text,
        target: b.target,
        rows: shown(b.translations, b.target),
        placeholder: b.placeholder,
    }
}

pub open spec fn screen_of(m: ModelView) -> ScreenView {
    match m {
        ModelView::Loading => ScreenView::Loading,
        ModelView::Loaded(b) => ScreenView::Board(board_screen(b)),
    }
}

/// Projects a board onto what it shows, without changing it.
pub fn view_sentence_model(model: &SentenceModel) -> (r: BoardScreen)
    ensures
        r@ == board_screen(model@),
{
    let ghost ts = model@.translations;
    let mut rows: Vec<Row> = Vec::new();
    let n = model.translations.len();
    let mut k: usize = 0;
    while k < n
        invariant
            n == model.translations@.len(),
            ts == model@.translations,
            0 <= k <= n,
            row_views(rows@) == shown(ts.take(k as int), model@.target),
        decreases n - k,
    {
        let t = &model.translations[k];
        assert(ts.take(k + 1).drop_last() =~= ts.take(k as int));
        if t.lang == model.target {
            rows.push(Row { index: k, votes: t.votes, text: t.text.clone() });
            assert(row_views(rows@) =~= shown(ts.take(k + 1), model@.target));
        }
        k = k + 1;
    }
    assert(ts.take(n as int) =~= ts);
    BoardScreen {
        source_lang: model.source.lang.clone(),
        source_text: model.source.text.clone(),
        target: model.target.clone(),
        rows,
        placeholder: model.placeholder.clone(),
    }
}

/// Projects the application state onto what it shows, without changing it.
pub fn view(model: &Model) -> (r: Screen)
    ensures
        r@ == screen_of(model@),
{
    match model {
        Model::Loading => Screen::Loading,
        Model::Loaded(board) => Screen::Board(view_sentence_model(board)),
    }
}

} // verus!
