use rmus::track::{AudioFile, Tags};

fn full_tags() -> Tags {
    Tags {
        title: Some(String::from("Blue in Green")),
        artist: Some(String::from("Miles Davis")),
        album: Some(String::from("Kind of Blue")),
        year: Some(1959),
        duration: Some(337_000),
    }
}

#[test]
fn descriptor_takes_every_tag() {
    let path = String::from("/music/blue.flac");
    let file = AudioFile::new(&path, Some(full_tags())).ok().unwrap();
    assert_eq!(file.get_path(), "/music/blue.flac");
    assert_eq!(file.get_title(), "Blue in Green");
    assert_eq!(file.get_artist(), "Miles Davis");
    assert_eq!(file.get_album(), "Kind of Blue");
    assert_eq!(file.get_year(), 1959);
    assert_eq!(file.get_raw_duration(), 337_000);
    assert_eq!(file.get_duration(), "5:37");
}

#[test]
fn missing_tags_get_their_sentinels() {
    let path = String::from("a.mp3");
    let tags = Tags { title: None, artist: None, album: None, year: None, duration: None };
    let file = AudioFile::new(&path, Some(tags)).ok().unwrap();
    assert_eq!(file.get_title(), "Unknown");
    assert_eq!(file.get_artist(), "Unknown");
    assert_eq!(file.get_album(), "Unknown");
    assert_eq!(file.get_year(), 0);
    assert_eq!(file.get_raw_duration(), 0);
    assert_eq!(file.get_duration(), "0:00");
}

#[test]
fn unreadable_file_is_metadata_unavailable() {
    let path = String::from("/music/broken.ogg");
    match AudioFile::new(&path, None) {
        Ok(_) => panic!("a file without tags must not be described"),
        Err(e) => assert_eq!(e.path, "/music/broken.ogg"),
    }
}

#[test]
fn duration_text_pads_seconds_only() {
    let path = String::from("x.wav");
    for (millis, text) in [
        (999u64, "0:00"),
        (1_000, "0:01"),
        (59_999, "0:59"),
        (60_000, "1:00"),
        (605_000, "10:05"),
        (3_600_000, "60:00"),
    ] {
        let tags = Tags { duration: Some(millis), ..full_tags() };
        let file = AudioFile::new(&path, Some(tags)).ok().unwrap();
        assert_eq!(file.get_duration(), text);
    }
}

#[test]
fn duration_text_stops_at_the_longest_shown_span() {
    let path = String::from("x.wav");
    let tags = Tags { duration: Some(u64::MAX), ..full_tags() };
    let file = AudioFile::new(&path, Some(tags)).ok().unwrap();
    let seconds = i32::MAX;
    assert_eq!(file.get_duration(), format!("{}:{:02}", seconds / 60, seconds % 60));
}

#[test]
fn clone_is_the_same_descriptor() {
    let path = String::from("/music/blue.flac");
    let file = AudioFile::new(&path, Some(full_tags())).ok().unwrap();
    let copy = file.clone();
    assert_eq!(copy.get_path(), file.get_path());
    assert_eq!(copy.get_title(), file.get_title());
    assert_eq!(copy.get_artist(), file.get_artist());
    assert_eq!(copy.get_album(), file.get_album());
    assert_eq!(copy.get_year(), file.get_year());
    assert_eq!(copy.get_raw_duration(), file.get_raw_duration());
}
