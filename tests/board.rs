use translation_board::board::{fetch_sentence, init, update, Model, Msg, SentenceModel, UpdateError};
use translation_board::sentence::Sentence;
use translation_board::view::{view, view_sentence_model, Screen};

fn s(lang: &str, text: &str, votes: i32) -> Sentence {
    Sentence { lang: lang.to_string(), text: text.to_string(), votes }
}

fn creole_board() -> SentenceModel {
    SentenceModel {
        source: s("pt_BR", "O gato esta no cesto", 0),
        target: "creole".to_string(),
        translations: vec![
            s("creole", "T1", 0),
            s("creole", "T2", 0),
            s("creole", "T3", 0),
            s("ja", "T4", 0),
            s("ja", "T5", 0),
        ],
        placeholder: Some("Traducao do google".to_string()),
    }
}

fn shown(b: &SentenceModel) -> Vec<(usize, String, i32)> {
    view_sentence_model(b).rows.into_iter().map(|r| (r.index, r.text, r.votes)).collect()
}

fn texts(b: &SentenceModel) -> Vec<String> {
    shown(b).into_iter().map(|(_, t, _)| t).collect()
}

#[test]
fn sentence_new_has_no_votes() {
    let x = Sentence::new("ja".to_string(), "neko".to_string());
    assert_eq!(x, s("ja", "neko", 0));
}

#[test]
fn seeded_list_votes_and_target_switch() {
    let mut b = creole_board();
    assert_eq!(texts(&b), vec!["T1", "T2", "T3"]);
    assert_eq!(b.apply(Msg::Upvote(0)), Ok(()));
    assert_eq!(b.apply(Msg::Upvote(0)), Ok(()));
    assert_eq!(b.translations[0].votes, 2);
    assert_eq!(b.apply(Msg::Target("ja".to_string())), Ok(()));
    assert_eq!(
        shown(&b),
        vec![(3, "T4".to_string(), 0), (4, "T5".to_string(), 0)]
    );
}

#[test]
fn promote_appends_input_text() {
    let mut b = creole_board();
    assert_eq!(b.apply(Msg::Promote(Some("Gato no cesto".to_string()))), Ok(()));
    assert_eq!(b.translations.len(), 6);
    assert_eq!(b.translations[5], s("creole", "Gato no cesto", 1));
    assert_eq!(b.placeholder, None);
    assert_eq!(texts(&b), vec!["T1", "T2", "T3", "Gato no cesto"]);
}

#[test]
fn second_promote_is_missing_placeholder() {
    let mut b = creole_board();
    assert_eq!(b.promote(Some("a".to_string())), Ok(()));
    let before = b.clone();
    assert_eq!(b.promote(Some("b".to_string())), Err(UpdateError::MissingPlaceholder));
    assert_eq!(b, before);
}

#[test]
fn promote_without_input_keeps_placeholder() {
    let mut b = creole_board();
    let before = b.clone();
    assert_eq!(b.promote(None), Err(UpdateError::MissingPlaceholder));
    assert_eq!(b, before);
}

#[test]
fn votes_add_up_per_entry() {
    let mut b = creole_board();
    let msgs = vec![
        Msg::Upvote(1),
        Msg::Downvote(3),
        Msg::Upvote(1),
        Msg::Downvote(1),
        Msg::Downvote(3),
        Msg::Upvote(4),
    ];
    for m in msgs {
        assert_eq!(b.apply(m), Ok(()));
    }
    let votes: Vec<i32> = b.translations.iter().map(|t| t.votes).collect();
    assert_eq!(votes, vec![0, 1, 0, -2, 1]);
    let langs: Vec<&str> = b.translations.iter().map(|t| t.lang.as_str()).collect();
    assert_eq!(langs, vec!["creole", "creole", "creole", "ja", "ja"]);
}

#[test]
fn votes_may_go_negative() {
    let mut b = creole_board();
    assert_eq!(b.vote(2, false), Ok(()));
    assert_eq!(b.vote(2, false), Ok(()));
    assert_eq!(b.translations[2].votes, -2);
}

#[test]
fn vote_out_of_range_is_refused() {
    let mut b = creole_board();
    let before = b.clone();
    assert_eq!(b.apply(Msg::Upvote(5)), Err(UpdateError::IndexOutOfRange));
    assert_eq!(b.apply(Msg::Downvote(usize::MAX)), Err(UpdateError::IndexOutOfRange));
    assert_eq!(b, before);
}

#[test]
fn vote_overflow_is_refused() {
    let mut b = creole_board();
    b.translations[0].votes = i32::MAX;
    b.translations[1].votes = i32::MIN;
    let before = b.clone();
    assert_eq!(b.vote(0, true), Err(UpdateError::VoteOverflow));
    assert_eq!(b.vote(1, false), Err(UpdateError::VoteOverflow));
    assert_eq!(b, before);
    assert_eq!(b.vote(0, false), Ok(()));
    assert_eq!(b.translations[0].votes, i32::MAX - 1);
}

#[test]
fn target_without_translations_shows_none() {
    let mut b = creole_board();
    b.set_target("fr".to_string());
    assert_eq!(b.target, "fr");
    assert!(shown(&b).is_empty());
    assert_eq!(b.translations.len(), 5);
}

#[test]
fn acknowledgements_change_nothing() {
    let mut b = creole_board();
    let before = b.clone();
    assert_eq!(b.apply(Msg::Again), Ok(()));
    assert_eq!(b.apply(Msg::Great), Ok(()));
    assert_eq!(b, before);
}

#[test]
fn view_twice_is_identical() {
    let mut m = Model::Loaded(creole_board());
    assert_eq!(update(Msg::Upvote(1), &mut m), Ok(()));
    let before = m.clone();
    let a = view(&m);
    let b = view(&m);
    assert_eq!(a, b);
    assert_eq!(m, before);
}

#[test]
fn view_of_board_lists_parts() {
    let b = creole_board();
    let v = view_sentence_model(&b);
    assert_eq!(v.source_lang, "pt_BR");
    assert_eq!(v.source_text, "O gato esta no cesto");
    assert_eq!(v.target, "creole");
    assert_eq!(v.placeholder, Some("Traducao do google".to_string()));
    assert_eq!(
        shown(&b),
        vec![(0, "T1".to_string(), 0), (1, "T2".to_string(), 0), (2, "T3".to_string(), 0)]
    );
}

#[test]
fn loading_then_loaded() {
    let mut m = init();
    assert_eq!(m, Model::Loading);
    assert_eq!(view(&m), Screen::Loading);
    assert_eq!(update(Msg::Upvote(0), &mut m), Ok(()));
    assert_eq!(m, Model::Loading);
    let msg = fetch_sentence(1);
    assert_eq!(msg, Msg::SentenceMsg(s("pt_BR", "O gato esta no cesto", 0)));
    assert_eq!(update(msg.clone(), &mut m), Ok(()));
    let board = match &m {
        Model::Loaded(b) => b.clone(),
        Model::Loading => panic!("still loading"),
    };
    assert_eq!(board.source, s("pt_BR", "O gato esta no cesto", 0));
    assert_eq!(board.target, "en_US");
    assert_eq!(
        board.translations,
        vec![
            s("en_US", "Translation 1", 0),
            s("en_US", "Translation 2", 0),
            s("en_US", "Translation 3", 0),
            s("ja", "Translation 4", 0),
            s("ja", "Translation 5", 0),
        ]
    );
    assert_eq!(board.placeholder, Some("Traducao do google".to_string()));
    // A second arrival leaves the loaded board as it is.
    assert_eq!(update(msg, &mut m), Ok(()));
    assert_eq!(m, Model::Loaded(board));
}

#[test]
fn update_on_loaded_reports_errors() {
    let mut m = Model::Loaded(creole_board());
    assert_eq!(update(Msg::Upvote(9), &mut m), Err(UpdateError::IndexOutOfRange));
    assert_eq!(update(Msg::Promote(Some("x".to_string())), &mut m), Ok(()));
    assert_eq!(update(Msg::Promote(Some("y".to_string())), &mut m), Err(UpdateError::MissingPlaceholder));
}

#[test]
fn fetch_ignores_id() {
    assert_eq!(fetch_sentence(0), fetch_sentence(7));
}
