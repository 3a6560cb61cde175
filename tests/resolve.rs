use vvspeech::error::VVSpeechError;
use vvspeech::metas::{
    find_speaker, get_appropriate_id, get_first_speaker_id, is_valid_id, select_for_info, Meta,
    Style,
};

fn style(name: &str, id: u32) -> Style {
    Style { name: name.to_string(), id }
}

fn speaker(name: &str, styles: Vec<Style>) -> Meta {
    Meta {
        name: name.to_string(),
        styles,
        speaker_uuid: format!("uuid-{}", name),
        version: "0.14.0".to_string(),
    }
}

fn zundamon_only() -> Vec<Meta> {
    vec![speaker("Zundamon", vec![style("Normal", 3), style("Sexy", 4)])]
}

fn two_speakers() -> Vec<Meta> {
    vec![
        speaker("Shikoku Metan", vec![style("Normal", 2), style("Sweet", 0), style("Tsun", 6)]),
        speaker("Zundamon", vec![style("Normal", 3), style("Sexy", 4)]),
    ]
}

#[test]
fn zundamon_id_and_name_resolves_to_id() {
    let metas = zundamon_only();
    let r = get_appropriate_id(&metas, &Some(4), &Some("Zundamon".to_string()));
    assert_eq!(r.unwrap(), 4);
}

#[test]
fn zundamon_foreign_id_is_bad_pair() {
    let metas = zundamon_only();
    let r = get_appropriate_id(&metas, &Some(5), &Some("Zundamon".to_string()));
    match r {
        Err(VVSpeechError::InvalidSpeakerNameIdPair(name, id)) => {
            assert_eq!(name, "Zundamon");
            assert_eq!(id, 5);
        }
        other => panic!("unexpected {:?}", other),
    }
}

#[test]
fn zundamon_name_alone_gives_first_style() {
    let metas = zundamon_only();
    let r = get_appropriate_id(&metas, &None, &Some("Zundamon".to_string()));
    assert_eq!(r.unwrap(), 3);
}

#[test]
fn neither_id_nor_name_gives_zero() {
    assert_eq!(get_appropriate_id(&two_speakers(), &None, &None).unwrap(), 0);
    assert_eq!(get_appropriate_id(&[], &None, &None).unwrap(), 0);
}

#[test]
fn id_alone_present_anywhere_is_accepted() {
    let metas = two_speakers();
    assert_eq!(get_appropriate_id(&metas, &Some(6), &None).unwrap(), 6);
    assert_eq!(get_appropriate_id(&metas, &Some(3), &None).unwrap(), 3);
}

#[test]
fn id_alone_absent_is_invalid_id() {
    let metas = two_speakers();
    match get_appropriate_id(&metas, &Some(42), &None) {
        Err(VVSpeechError::InvalidId(id)) => assert_eq!(id, 42),
        other => panic!("unexpected {:?}", other),
    }
    match get_appropriate_id(&[], &Some(0), &None) {
        Err(VVSpeechError::InvalidId(id)) => assert_eq!(id, 0),
        other => panic!("unexpected {:?}", other),
    }
}

#[test]
fn name_alone_uses_catalog_order() {
    let metas = two_speakers();
    assert_eq!(get_appropriate_id(&metas, &None, &Some("Shikoku Metan".to_string())).unwrap(), 2);
}

#[test]
fn unknown_name_alone_is_invalid_name() {
    match get_appropriate_id(&two_speakers(), &None, &Some("Nobody".to_string())) {
        Err(VVSpeechError::InvalidSpeakerName(name)) => assert_eq!(name, "Nobody"),
        other => panic!("unexpected {:?}", other),
    }
}

#[test]
fn unknown_name_with_valid_id_is_invalid_name() {
    match get_appropriate_id(&two_speakers(), &Some(3), &Some("zundamon".to_string())) {
        Err(VVSpeechError::InvalidSpeakerName(name)) => assert_eq!(name, "zundamon"),
        other => panic!("unexpected {:?}", other),
    }
}

#[test]
fn id_of_other_speaker_is_bad_pair_not_invalid_id() {
    let metas = two_speakers();
    match get_appropriate_id(&metas, &Some(6), &Some("Zundamon".to_string())) {
        Err(VVSpeechError::InvalidSpeakerNameIdPair(name, id)) => {
            assert_eq!(name, "Zundamon");
            assert_eq!(id, 6);
        }
        other => panic!("unexpected {:?}", other),
    }
}

#[test]
fn first_of_duplicate_names_wins() {
    let metas = vec![
        speaker("Twin", vec![style("A", 10)]),
        speaker("Twin", vec![style("B", 11)]),
    ];
    assert_eq!(find_speaker(&metas, &"Twin".to_string()), Some(0));
    assert_eq!(get_first_speaker_id(&metas, "Twin").unwrap(), 10);
}

#[test]
fn style_membership() {
    let metas = two_speakers();
    assert!(metas[0].has_id(0));
    assert!(!metas[0].has_id(3));
    assert_eq!(metas[1].first_style_id(), 3);
    assert!(is_valid_id(&metas, 4));
    assert!(!is_valid_id(&metas, 5));
    assert_eq!(find_speaker(&metas, &"Nobody".to_string()), None);
}

#[test]
fn info_selection() {
    let metas = two_speakers();
    assert_eq!(select_for_info(&metas, &None).unwrap(), None);
    assert_eq!(select_for_info(&metas, &Some("Zundamon".to_string())).unwrap(), Some(1));
    match select_for_info(&metas, &Some("Nobody".to_string())) {
        Err(VVSpeechError::InvalidSpeakerName(name)) => assert_eq!(name, "Nobody"),
        other => panic!("unexpected {:?}", other),
    }
}
