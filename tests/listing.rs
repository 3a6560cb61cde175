use vvspeech::listing::{decimal_string, describe_speaker};
use vvspeech::metas::{Meta, Style};

#[test]
fn decimal_numerals() {
    assert_eq!(decimal_string(0), "0");
    assert_eq!(decimal_string(7), "7");
    assert_eq!(decimal_string(10), "10");
    assert_eq!(decimal_string(3090), "3090");
    assert_eq!(decimal_string(u32::MAX), "4294967295");
}

#[test]
fn speaker_record_text() {
    let meta = Meta {
        name: "Zundamon".to_string(),
        styles: vec![
            Style { name: "Normal".to_string(), id: 3 },
            Style { name: "Sexy".to_string(), id: 4 },
        ],
        speaker_uuid: "388f246b".to_string(),
        version: "0.14.0".to_string(),
    };
    assert_eq!(
        describe_speaker(&meta),
        "Zundamon\n\tstyles: Normal (id: 3), Sexy (id: 4)\n\tspeaker_uuid: 388f246b\n\tversion: 0.14.0"
    );
}

#[test]
fn speaker_record_with_one_style() {
    let meta = Meta {
        name: "Metan".to_string(),
        styles: vec![Style { name: "Sweet".to_string(), id: 10 }],
        speaker_uuid: "u".to_string(),
        version: "1".to_string(),
    };
    assert_eq!(describe_speaker(&meta), "Metan\n\tstyles: Sweet (id: 10)\n\tspeaker_uuid: u\n\tversion: 1");
}
