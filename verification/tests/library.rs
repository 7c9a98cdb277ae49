use rmus::library::{get_wrapped_music_list, is_music_extension};
use rmus::selection::{next_index, previous_index};
use rmus::track::{AudioFile, Tags};

fn track(name: &str) -> AudioFile {
    let tags = Tags { title: Some(String::from(name)), artist: None, album: None, year: None, duration: None };
    AudioFile::new(&String::from(name), Some(tags)).ok().unwrap()
}

fn titles(list: &[AudioFile]) -> Vec<String> {
    list.iter().map(|t| t.get_title().clone()).collect()
}

fn abcd() -> Vec<AudioFile> {
    vec![track("A"), track("B"), track("C"), track("D")]
}

#[test]
fn rotation_from_the_middle_wraps() {
    assert_eq!(titles(&get_wrapped_music_list(&abcd(), 2)), vec!["C", "D", "A", "B"]);
    assert_eq!(titles(&get_wrapped_music_list(&abcd(), 1)), vec!["B", "C", "D", "A"]);
    assert_eq!(titles(&get_wrapped_music_list(&abcd(), 3)), vec!["D", "A", "B", "C"]);
}

#[test]
fn rotation_from_zero_is_the_list() {
    assert_eq!(titles(&get_wrapped_music_list(&abcd(), 0)), vec!["A", "B", "C", "D"]);
}

#[test]
fn rotation_from_the_length_is_the_list() {
    assert_eq!(titles(&get_wrapped_music_list(&abcd(), 4)), vec!["A", "B", "C", "D"]);
}

#[test]
fn rotation_from_beyond_the_length_is_empty() {
    assert!(get_wrapped_music_list(&abcd(), 5).is_empty());
    assert!(get_wrapped_music_list(&abcd(), usize::MAX).is_empty());
}

#[test]
fn rotation_of_the_empty_list() {
    assert!(get_wrapped_music_list(&Vec::new(), 0).is_empty());
    assert!(get_wrapped_music_list(&Vec::new(), 1).is_empty());
}

#[test]
fn rotation_leaves_the_list_alone() {
    let list = abcd();
    let _ = get_wrapped_music_list(&list, 2);
    assert_eq!(titles(&list), vec!["A", "B", "C", "D"]);
}

#[test]
fn rotation_is_cyclic_for_every_start() {
    let list = abcd();
    for start in 0..list.len() {
        let wrapped = titles(&get_wrapped_music_list(&list, start));
        assert_eq!(wrapped.len(), list.len());
        for k in 0..list.len() {
            assert_eq!(&wrapped[k], list[(start + k) % list.len()].get_title());
        }
    }
}

#[test]
fn music_extensions() {
    for ext in ["mp3", "flac", "wav", "ogg"] {
        assert!(is_music_extension(ext));
    }
    for ext in ["", "MP3", "mp4", "txt", "flac ", "oga", "wave", "m"] {
        assert!(!is_music_extension(ext));
    }
}

#[test]
fn step_down_wraps_after_the_last() {
    assert_eq!(next_index(Some(0), 3), 1);
    assert_eq!(next_index(Some(1), 3), 2);
    assert_eq!(next_index(Some(2), 3), 0);
    assert_eq!(next_index(Some(7), 3), 0);
    assert_eq!(next_index(None, 3), 0);
    assert_eq!(next_index(Some(0), 1), 0);
    assert_eq!(next_index(Some(0), 0), 0);
    assert_eq!(next_index(Some(usize::MAX), usize::MAX), 0);
}

#[test]
fn step_up_wraps_before_the_first() {
    assert_eq!(previous_index(Some(2), 3), 1);
    assert_eq!(previous_index(Some(1), 3), 0);
    assert_eq!(previous_index(Some(0), 3), 2);
    assert_eq!(previous_index(None, 3), 0);
    assert_eq!(previous_index(Some(0), 1), 0);
    assert_eq!(previous_index(Some(0), 0), 0);
    assert_eq!(previous_index(Some(9), 3), 8);
}

#[test]
fn a_step_down_and_up_comes_back() {
    for count in 1..6usize {
        for i in 0..count {
            assert_eq!(previous_index(Some(next_index(Some(i), count)), count), i);
            assert_eq!(next_index(Some(previous_index(Some(i), count)), count), i);
        }
    }
}
