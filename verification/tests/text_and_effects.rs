use std::collections::VecDeque;

use sunny::effects::{
    arrange_after_enqueue, clear_removal_indices, get_artist, _get_song, get_title,
    split_duration, string_or_default, EnqueueAt, TrackMetadata,
};
use sunny::text::{split_char, starts_with, str_eq};

#[test]
fn split_char_matches_std_split() {
    for (s, c) in [("a?b?c", '?'), ("", '?'), ("?", '?'), ("abc", '/'), ("/playlist/x", '/'), ("a==b", '=')] {
        let expected: Vec<String> = s.split(c).map(|p| p.to_string()).collect();
        assert_eq!(split_char(s, c), expected);
    }
}

#[test]
fn starts_with_and_equality() {
    assert!(starts_with("https://youtu.be/abc", "https://youtu.be/"));
    assert!(!starts_with("https://youtu.b", "https://youtu.be/"));
    assert!(starts_with("anything", ""));
    assert!(str_eq("dwin_audio", "dwin_audio"));
    assert!(!str_eq("dwin_audio", "dwin_audi"));
    assert!(!str_eq("dwin_audio", "Dwin_audio"));
}

#[test]
fn split_duration_gives_minutes_and_seconds() {
    assert_eq!(split_duration(125), (2, 5));
    assert_eq!(split_duration(59), (0, 59));
    assert_eq!(split_duration(3600), (60, 0));
    assert_eq!(split_duration(0), (0, 0));
}

fn metadata(track: Option<&str>, title: Option<&str>, artist: Option<&str>, channel: Option<&str>) -> TrackMetadata {
    TrackMetadata {
        track: track.map(String::from),
        title: title.map(String::from),
        artist: artist.map(String::from),
        channel: channel.map(String::from),
    }
}

#[test]
fn title_and_artist_fall_back_in_order() {
    let full = metadata(Some("Track"), Some("Title"), Some("Artist"), Some("Channel"));
    assert_eq!(get_title(&full), "Track");
    assert_eq!(get_artist(&full), "Artist");
    let second = metadata(None, Some("Title"), None, Some("Channel"));
    assert_eq!(get_title(&second), "Title");
    assert_eq!(get_artist(&second), "Channel");
    let none = metadata(None, None, None, None);
    assert_eq!(get_title(&none), "Unknown Title");
    assert_eq!(get_artist(&none), "Unknown Artist");
}

#[test]
fn song_is_title_by_artist() {
    let m = metadata(None, Some("Never Gonna Give You Up"), None, Some("Rick Astley"));
    assert_eq!(_get_song(&m), "Never Gonna Give You Up by Rick Astley");
    assert_eq!(_get_song(&metadata(None, None, None, None)), "Unknown Title by Unknown Artist");
}

#[test]
fn string_or_default_uses_default_only_for_empty() {
    assert_eq!(string_or_default("", "d"), "d");
    assert_eq!(string_or_default("s", "d"), "s");
}

#[test]
fn front_enqueue_plays_next() {
    let mut q: VecDeque<u32> = VecDeque::from(vec![1, 2, 3, 9]);
    arrange_after_enqueue(&mut q, &EnqueueAt::Front);
    assert_eq!(q, VecDeque::from(vec![1, 9, 2, 3]));

    let mut two: VecDeque<u32> = VecDeque::from(vec![1, 9]);
    arrange_after_enqueue(&mut two, &EnqueueAt::Front);
    assert_eq!(two, VecDeque::from(vec![1, 9]));

    let mut one: VecDeque<u32> = VecDeque::from(vec![9]);
    arrange_after_enqueue(&mut one, &EnqueueAt::Front);
    assert_eq!(one, VecDeque::from(vec![9]));

    let mut empty: VecDeque<u32> = VecDeque::new();
    arrange_after_enqueue(&mut empty, &EnqueueAt::Front);
    assert!(empty.is_empty());
}

#[test]
fn back_enqueue_stays_last() {
    let mut q: VecDeque<u32> = VecDeque::from(vec![1, 2, 3, 9]);
    arrange_after_enqueue(&mut q, &EnqueueAt::Back);
    assert_eq!(q, VecDeque::from(vec![1, 2, 3, 9]));
}

#[test]
fn clear_removes_all_but_the_playing_track() {
    assert_eq!(clear_removal_indices(4), vec![3, 2, 1]);
    assert_eq!(clear_removal_indices(1), Vec::<usize>::new());
    assert_eq!(clear_removal_indices(0), Vec::<usize>::new());
    let mut queue = vec!["playing", "b", "c", "d", "e"];
    for i in clear_removal_indices(queue.len()) {
        queue.remove(i);
    }
    assert_eq!(queue, vec!["playing"]);
}
