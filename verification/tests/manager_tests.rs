use jplearnbot::dictionary::{DictEntry, Gloss, Kanji, NLevel, Pos, Reading, Sense};
use jplearnbot::lexicon::Dictionary;
use jplearnbot::manager::{GameMessage, InteractionEvent, Manager};
use jplearnbot::pos_filter::PosFilter;
use jplearnbot::question::ModeChoice;

fn small_dictionary() -> Dictionary {
    Dictionary::from_entries(vec![DictEntry {
        id: 1,
        kanjis: vec![Kanji { text: "水".to_string(), levels: vec![NLevel::N4], tags: Vec::new() }],
        readings: vec![Reading {
            text: "みず".to_string(),
            relevant_to: Vec::new(),
            levels: vec![NLevel::N4],
            tags: Vec::new(),
        }],
        senses: vec![Sense {
            relevant_kanji: Vec::new(),
            relevant_reading: Vec::new(),
            pos: vec![Pos::N],
            gloss: vec![Gloss { content: "water".to_string() }],
        }],
    }])
}

fn event(custom_id: &str) -> InteractionEvent {
    InteractionEvent {
        custom_id: custom_id.to_string(),
        user_id: 9,
        user_name: "tester".to_string(),
    }
}

#[test]
fn one_session_per_key() {
    let mut manager = Manager::new(small_dictionary());
    let levels = vec![NLevel::N4];
    let filters = vec![PosFilter::Nouns];

    let first = manager.start_game(7, ModeChoice::EngToHir, &levels, &filters);
    assert!(first.is_ok());

    let second = manager.start_game(7, ModeChoice::EngToHir, &levels, &filters);
    assert!(second.is_err());

    // Another key is free.
    assert!(manager.start_game(8, ModeChoice::EngToHir, &levels, &filters).is_ok());

    // Once the session ends and deregisters, the key is free again.
    manager.deregister(7);
    assert!(manager.start_game(7, ModeChoice::EngToHir, &levels, &filters).is_ok());
}

#[test]
fn start_returns_the_sampled_pool() {
    let mut manager = Manager::new(small_dictionary());
    let setup = manager
        .start_game(1, ModeChoice::KanToEng, &vec![NLevel::N4], &vec![PosFilter::Nouns])
        .unwrap();
    assert_eq!(setup.session_id, 1);
    assert_eq!(setup.mode, ModeChoice::KanToEng);
    assert_eq!(setup.pool, vec![0]);
    assert!(setup.pos.contains(&Pos::N));
}

#[test]
fn start_with_unmatched_filters_gives_empty_pool() {
    let mut manager = Manager::new(small_dictionary());
    let setup = manager
        .start_game(1, ModeChoice::EngToHir, &vec![NLevel::N1], &vec![PosFilter::Nouns])
        .unwrap();
    assert!(setup.pool.is_empty());
}

#[test]
fn stop_signals_only_live_sessions() {
    let mut manager = Manager::new(small_dictionary());
    assert!(!manager.stop(4));

    let mut setup = manager
        .start_game(4, ModeChoice::EngToHir, &vec![NLevel::N4], &vec![PosFilter::Nouns])
        .unwrap();
    assert!(manager.stop(4));
    match setup.receiver.try_recv() {
        Ok(GameMessage::Close) => {},
        _ => panic!("expected a close signal"),
    }
}

#[test]
fn events_route_to_the_encoded_session() {
    let mut manager = Manager::new(small_dictionary());
    let mut one = manager
        .start_game(1, ModeChoice::EngToHir, &vec![NLevel::N4], &vec![PosFilter::Nouns])
        .unwrap();
    let mut two = manager
        .start_game(2, ModeChoice::EngToHir, &vec![NLevel::N4], &vec![PosFilter::Nouns])
        .unwrap();

    assert!(manager.send(event("1,round-tag,3")));

    match one.receiver.try_recv() {
        Ok(GameMessage::Interaction(e)) => {
            assert_eq!(e.custom_id, "1,round-tag,3");
            assert_eq!(e.user_name, "tester");
        },
        _ => panic!("expected the event under key 1"),
    }
    assert!(two.receiver.try_recv().is_err());
}

#[test]
fn unmatched_events_are_dropped() {
    let mut manager = Manager::new(small_dictionary());
    let mut setup = manager
        .start_game(5, ModeChoice::EngToHir, &vec![NLevel::N4], &vec![PosFilter::Nouns])
        .unwrap();

    // No leading digits: nothing is forwarded.
    assert!(!manager.send(event("no-digits,0")));
    // A key with no session: dropped silently.
    assert!(!manager.send(event("42,round,0")));
    assert!(setup.receiver.try_recv().is_err());
}

#[test]
fn session_error_text() {
    let mut manager = Manager::new(small_dictionary());
    let levels = vec![NLevel::N4];
    let filters = vec![PosFilter::Nouns];
    manager.start_game(3, ModeChoice::EngToHir, &levels, &filters).unwrap();
    let err = manager.start_game(3, ModeChoice::EngToHir, &levels, &filters).unwrap_err();
    assert_eq!(err.message(), "User has already created a session");
}
