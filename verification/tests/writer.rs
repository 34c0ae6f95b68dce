use quad_image::errors::IngestError;
use quad_image::format::Extension;
use quad_image::ident::is_image_id;
use quad_image::writer::{write_out, NameSearch, WriteAction, WriteEvent, MAX_ATTEMPTS};

fn offered(action: &WriteAction) -> String {
    match action {
        WriteAction::Create(name) => name.clone(),
        other => panic!("no candidate: {:?}", other),
    }
}

#[test]
fn a_free_name_is_stored_once_it_is_readable() {
    let (mut search, first) = NameSearch::begin(Extension::Png);
    let name = offered(&first);
    assert!(is_image_id(&name));
    assert!(name.ends_with(".png"));
    assert_eq!(1, search.tried());
    assert_eq!(
        WriteAction::MakeReadable(name.clone()),
        write_out(&mut search, WriteEvent::Created)
    );
    assert!(!search.is_finished());
    assert_eq!(WriteAction::Stored(name), write_out(&mut search, WriteEvent::MadeReadable));
    assert!(search.is_finished());
    assert_eq!(1, search.tried());
}

#[test]
fn a_taken_name_is_answered_with_another() {
    let (mut search, first) = NameSearch::begin(Extension::Jpg);
    let one = offered(&first);
    let two = offered(&write_out(&mut search, WriteEvent::AlreadyExists));
    let three = offered(&write_out(&mut search, WriteEvent::AlreadyExists));
    assert_eq!(3, search.tried());
    for name in [&one, &two, &three] {
        assert!(is_image_id(name));
        assert!(name.starts_with("e/"));
        assert!(name.ends_with(".jpg"));
        assert_eq!(16, name.len());
    }
    assert_ne!(one, two);
    assert_ne!(two, three);
    assert_eq!(
        WriteAction::MakeReadable(three.clone()),
        write_out(&mut search, WriteEvent::Created)
    );
    assert_eq!(WriteAction::Stored(three), write_out(&mut search, WriteEvent::MadeReadable));
}

#[test]
fn the_search_gives_up_after_the_last_attempt() {
    let (mut search, first) = NameSearch::begin(Extension::Gif);
    let mut latest = offered(&first);
    let mut seen = std::collections::HashSet::new();
    seen.insert(latest.clone());
    let mut issued: u32 = 1;
    while issued < MAX_ATTEMPTS {
        let next = offered(&write_out(&mut search, WriteEvent::AlreadyExists));
        assert!(is_image_id(&next));
        assert!(next.ends_with(".gif"));
        assert_ne!(latest, next);
        assert!(seen.insert(next.clone()), "{} was handed out before", next);
        latest = next;
        issued += 1;
        assert_eq!(issued, search.tried());
        assert!(!search.is_finished());
    }
    assert_eq!(32_768, issued);
    assert_eq!(32_768, seen.len());
    assert_eq!(
        WriteAction::Failed(IngestError::NameExhaustion),
        write_out(&mut search, WriteEvent::AlreadyExists)
    );
    assert!(search.is_finished());
    assert_eq!(32_768, search.tried());
    assert_eq!("couldn't find a viable file name", IngestError::NameExhaustion.message());
}

#[test]
fn other_failures_end_the_search() {
    let (mut search, _) = NameSearch::begin(Extension::Png);
    assert_eq!(
        WriteAction::Failed(IngestError::Encode),
        write_out(&mut search, WriteEvent::CreateFailed)
    );
    assert!(search.is_finished());

    let (mut search, _) = NameSearch::begin(Extension::Png);
    write_out(&mut search, WriteEvent::Created);
    assert_eq!(
        WriteAction::Failed(IngestError::Permission),
        write_out(&mut search, WriteEvent::NotReadable)
    );
    assert!(search.is_finished());
}

#[test]
fn an_event_out_of_turn_ends_the_search() {
    let (mut search, _) = NameSearch::begin(Extension::Png);
    assert_eq!(
        WriteAction::Failed(IngestError::Encode),
        write_out(&mut search, WriteEvent::MadeReadable)
    );
    assert!(search.is_finished());
    assert_eq!(
        WriteAction::Failed(IngestError::Encode),
        write_out(&mut search, WriteEvent::AlreadyExists)
    );

    let (mut search, _) = NameSearch::begin(Extension::Png);
    write_out(&mut search, WriteEvent::Created);
    assert_eq!(
        WriteAction::Failed(IngestError::Encode),
        write_out(&mut search, WriteEvent::AlreadyExists)
    );
    assert!(search.is_finished());
}

#[test]
fn each_failure_has_its_message() {
    assert_eq!("unrecognised image format", IngestError::FormatDetection.message());
    assert_eq!("image data could not be decoded", IngestError::Decode.message());
    assert_eq!("image could not be written", IngestError::Encode.message());
    assert_eq!("stored file could not be made readable", IngestError::Permission.message());
}

#[test]
fn every_place_of_a_candidate_is_drawn_at_random() {
    let mut seen: Vec<std::collections::HashSet<char>> = vec![Default::default(); 10];
    for _ in 0..400 {
        let (_, first) = NameSearch::begin(Extension::Jpg);
        let name = offered(&first);
        assert!(is_image_id(&name));
        for (place, c) in name[2..12].chars().enumerate() {
            seen[place].insert(c);
        }
    }
    for place in seen {
        assert!(place.len() > 40);
    }
}

#[test]
fn candidates_of_a_search_are_all_different() {
    let (mut search, first) = NameSearch::begin(Extension::Png);
    let mut seen = std::collections::HashSet::new();
    seen.insert(offered(&first));
    for turn in 1..2_000u32 {
        let next = offered(&write_out(&mut search, WriteEvent::AlreadyExists));
        assert!(seen.insert(next.clone()), "{} was handed out before", next);
        assert_eq!(turn + 1, search.tried());
    }
    assert_eq!(2_000, seen.len());
}
