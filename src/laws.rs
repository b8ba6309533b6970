use vstd::prelude::*;

use crate::board::{
    BoardView, Model, ModelView, Msg, UpdateError, fits_i32, opt_view, step,
};
use crate::sentence::SentenceView;
use crate::view::{RowView, Screen, board_screen, screen_of, shown};

verus! {

/// The state after a sequence of events, each applied to the result of the
/// ones before it.
pub open spec fn run(m: ModelView, msgs: Seq<Msg>) -> ModelView
    decreases msgs.len(),
{
    if msgs.len() == 0 {
        m
    } else {
        step(run(m, msgs.drop_last()), msgs.last()).0
    }
}

/// Whether `msg` is a vote on a position below `n`.
pub open spec fn is_vote_below(msg: Msg, n: int) -> bool {
    match msg {
        Msg::Upvote(i) => i < n,
        Msg::Downvote(i) => i < n,
        _ => false,
    }
}

/// What `msg` adds to the votes of position `j`.
pub open spec fn vote_delta(msg: Msg, j: int) -> int {
    match msg {
        Msg::Upvote(i) => if i == j { 1 } else { 0 },
        Msg::Downvote(i) => if i == j { -1 } else { 0 },
        _ => 0,
    }
}

/// The net sum of the votes that `msgs` cast on position `j`.
pub open spec fn net_votes(msgs: Seq<Msg>, j: int) -> int
    decreases msgs.len(),
{
    if msgs.len() == 0 {
        0
    } else {
        net_votes(msgs.drop_last(), j) + vote_delta(msgs.last(), j)
    }
}

/// After any sequence of votes on positions of the list, each translation's
/// count is its first count plus the net sum of the votes cast on it; the
/// languages and texts, the order, and the rest of the board stay as they
/// were. Counts are held to `i32`, so every intermediate count must fit.
pub proof fn votes_add_up(b: BoardView, msgs: Seq<Msg>)
    requires
        forall|k: int| 0 <= k < msgs.len() ==> is_vote_below(#[trigger] msgs[k], b.translations.len() as int),
        forall|p: int, j: int|
            0 <= p <= msgs.len() && 0 <= j < b.translations.len() ==> fits_i32(
                b.translations[j].votes + #[trigger] net_votes(msgs.take(p), j),
            ),
    ensures
        run(ModelView::Loaded(b), msgs) matches ModelView::Loaded(b2) && b2.source == b.source
            && b2.target == b.target && b2.placeholder == b.placeholder
            && b2.translations.len() == b.translations.len() && forall|j: int|
            0 <= j < b.translations.len() ==> #[trigger] b2.translations[j] == (SentenceView {
                lang: b.translations[j].lang,
                text: b.translations[j].text,
                votes: b.translations[j].votes + net_votes(msgs, j),
            }),
    decreases msgs.len(),
{
    if msgs.len() > 0 {
        let pre = msgs.drop_last();
        assert forall|p: int, j: int|
            0 <= p <= pre.len() && 0 <= j < b.translations.len() implies fits_i32(
            b.translations[j].votes + #[trigger] net_votes(pre.take(p), j),
        ) by {
            assert(pre.take(p) =~= msgs.take(p));
        }
        votes_add_up(b, pre);
        let b1 = run(ModelView::Loaded(b), pre)->Loaded_0;
        assert(msgs.take(msgs.len() as int) =~= msgs);
        assert(is_vote_below(msgs[msgs.len() - 1], b.translations.len() as int));
        let b2 = run(ModelView::Loaded(b), msgs)->Loaded_0;
        assert forall|j: int| 0 <= j < b.translations.len() implies #[trigger] b2.translations[j]
            == (SentenceView {
            lang: b.translations[j].lang,
            text: b.translations[j].text,
            votes: b.translations[j].votes + net_votes(msgs, j),
        }) by {
            assert(fits_i32(b.translations[j].votes + net_votes(msgs.take(msgs.len() as int), j)));
        }
    }
}

/// `rows` holds exactly the translations of `ts` in language `lang`, each
/// once, in list order, each with its position in `ts`, its votes and its text.
pub open spec fn shows_exactly(rows: Seq<RowView>, ts: Seq<SentenceView>, lang: Seq<char>) -> bool {
    &&& forall|j: int|
        0 <= j < rows.len() ==> {
            let k = (#[trigger] rows[j]).index;
            &&& 0 <= k < ts.len()
            &&& ts[k].lang == lang
            &&& rows[j].votes == ts[k].votes
            &&& rows[j].text == ts[k].text
        }
    &&& forall|j1: int, j2: int|
        0 <= j1 < j2 < rows.len() ==> (#[trigger] rows[j1]).index < (#[trigger] rows[j2]).index
    &&& forall|k: int|
        0 <= k < ts.len() && (#[trigger] ts[k]).lang == lang ==> exists|j: int|
            0 <= j < rows.len() && (#[trigger] rows[j]).index == k
}

/// The rows of a language are exactly its translations, in list order.
pub proof fn shown_is_exact(ts: Seq<SentenceView>, lang: Seq<char>)
    ensures
        shows_exactly(shown(ts, lang), ts, lang),
    decreases ts.len(),
{
    if ts.len() > 0 {
        let pre = ts.drop_last();
        shown_is_exact(pre, lang);
        let rows = shown(ts, lang);
        let before = shown(pre, lang);
        assert forall|k: int|
            0 <= k < ts.len() && (#[trigger] ts[k]).lang == lang implies exists|j: int|
            0 <= j < rows.len() && (#[trigger] rows[j]).index == k by {
            if k < pre.len() {
                assert(pre[k] == ts[k]);
                let j = choose|j: int| 0 <= j < before.len() && (#[trigger] before[j]).index == k;
                assert(rows[j] == before[j]);
            } else {
                assert(rows[rows.len() - 1].index == k);
            }
        }
    }
}

/// Switching the language shows exactly the translations in the new
/// language, in their list order, and changes nothing else.
pub proof fn target_shows_its_language(b: BoardView, lang: String)
    ensures
        step(ModelView::Loaded(b), Msg::Target(lang))
            == (ModelView::Loaded(BoardView { target: lang@, ..b }), Ok::<(), UpdateError>(())),
        shows_exactly(board_screen(BoardView { target: lang@, ..b }).rows, b.translations, lang@),
{
    shown_is_exact(b.translations, lang@);
}

/// Promoting a pending placeholder appends exactly one translation, in the
/// target language, with one vote and the input's text, and clears the
/// placeholder; a second promotion then fails and changes nothing.
pub proof fn promote_appends_once(b: BoardView, input: String, again: Option<String>)
    requires
        b.placeholder is Some,
    ensures
        ({
            let (m2, r) = step(ModelView::Loaded(b), Msg::Promote(Some(input)));
            let b2 = BoardView {
                translations: b.translations.push(
                    SentenceView { lang: b.target, text: input@, votes: 1 },
                ),
                placeholder: None,
                ..b
            };
            &&& r is Ok
            &&& m2 == ModelView::Loaded(b2)
            &&& step(m2, Msg::Promote(again)) == (m2, Err::<(), UpdateError>(
                UpdateError::MissingPlaceholder,
            ))
        }),
{
}

/// The projection depends on the state alone: any two results that it may
/// give for one state are the same.
pub proof fn view_is_stable(m: Model, s1: Screen, s2: Screen)
    requires
        s1@ == screen_of(m@),
        s2@ == screen_of(m@),
    ensures
        s1@ == s2@,
{
}

} // verus!
