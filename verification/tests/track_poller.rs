use nowplaying::track::{
    changed, get_current_song, truncate_chars, CurrentPlayingTrackArtist,
    CurrentPlayingTrackItem, CurrentPlayingTrackResponse, PollError, TrackSnapshot,
};

fn answer<'a>(name: &'a str, artists: &[&'a str]) -> CurrentPlayingTrackResponse<'a> {
    let mut list = heapless::Vec::new();
    for n in artists {
        assert!(list.push(CurrentPlayingTrackArtist { name: *n }).is_ok());
    }
    CurrentPlayingTrackResponse { item: CurrentPlayingTrackItem { name, artists: list } }
}

fn snap(title: &str, artist: &str) -> TrackSnapshot {
    TrackSnapshot::new(title, artist).ok().unwrap()
}

#[test]
fn snapshot_of_a_track() {
    let s = get_current_song(&answer("Song A", &["Band X", "Band Y"])).ok().unwrap();
    assert_eq!(s.title_str(), "Song A");
    assert_eq!(s.artist_str(), "Band X");
}

#[test]
fn fifty_character_name_is_cut_to_forty() {
    let name = "0123456789abcdefghijABCDEFGHIJ0123456789klmnopqrst";
    assert_eq!(name.chars().count(), 50);
    let s = get_current_song(&answer(name, &["Band X"])).ok().unwrap();
    assert_eq!(s.title_str(), "0123456789abcdefghijABCDEFGHIJ0123456789");
    assert_eq!(s.title_str().chars().count(), 40);
    assert_eq!(s.artist_str(), "Band X");
}

#[test]
fn fifty_character_artist_is_cut_to_forty() {
    let name = "x".repeat(50);
    let s = get_current_song(&answer("T", &[name.as_str()])).ok().unwrap();
    assert_eq!(s.artist_str(), "x".repeat(40));
}

#[test]
fn forty_characters_are_kept_whole() {
    let name = "y".repeat(40);
    let s = get_current_song(&answer(&name, &["a"])).ok().unwrap();
    assert_eq!(s.title_str(), name);
}

#[test]
fn only_the_first_of_six_artists_is_read() {
    let s = get_current_song(&answer("S", &["one", "two", "three", "four", "five", "six"]))
        .ok()
        .unwrap();
    assert_eq!(s.artist_str(), "one");
}

#[test]
fn no_artist_gives_an_empty_name() {
    let s = get_current_song(&answer("Song A", &[])).ok().unwrap();
    assert_eq!(s.title_str(), "Song A");
    assert_eq!(s.artist_str(), "");
}

#[test]
fn cut_counts_characters_not_bytes() {
    assert_eq!(truncate_chars("héllo", 2), "hé");
    assert_eq!(truncate_chars("héllo", 0), "");
    assert_eq!(truncate_chars("héllo", 5), "héllo");
    assert_eq!(truncate_chars("héllo", 9), "héllo");
    assert_eq!(truncate_chars("", 3), "");
}

#[test]
fn row_of_wide_characters_that_fits() {
    let name = "é".repeat(20);
    let s = get_current_song(&answer(&name, &["a"])).ok().unwrap();
    assert_eq!(s.title_str(), name);
    assert_eq!(s.title_str().len(), 40);
}

#[test]
fn title_that_overflows_its_row() {
    let name = "é".repeat(21);
    assert_eq!(get_current_song(&answer(&name, &["a"])).err(), Some(PollError::TitleOverflow));
    let long = "é".repeat(50);
    assert_eq!(get_current_song(&answer(&long, &["a"])).err(), Some(PollError::TitleOverflow));
}

#[test]
fn artist_that_overflows_its_row() {
    let name = "ü".repeat(40);
    assert_eq!(
        get_current_song(&answer("Song", &[name.as_str()])).err(),
        Some(PollError::ArtistOverflow)
    );
    assert_eq!(TrackSnapshot::new("Song", &name).err(), Some(PollError::ArtistOverflow));
    assert_eq!(TrackSnapshot::new(&name, &name).err(), Some(PollError::TitleOverflow));
}

#[test]
fn empty_snapshot() {
    let e = TrackSnapshot::empty();
    assert_eq!(e.title_str(), "");
    assert_eq!(e.artist_str(), "");
    assert!(!changed(&e, &snap("", "")));
}

#[test]
fn same_track_twice_is_no_change() {
    assert!(!changed(&snap("Song A", "Band X"), &snap("Song A", "Band X")));
}

#[test]
fn other_artist_is_a_change() {
    assert!(changed(&snap("Song A", "Band X"), &snap("Song A", "Band Y")));
}

#[test]
fn other_title_is_a_change() {
    assert!(changed(&snap("Song A", "Band X"), &snap("Song B", "Band X")));
}

#[test]
fn both_other_is_a_change() {
    assert!(changed(&snap("Song A", "Band X"), &snap("Song B", "Band Y")));
}

#[test]
fn comparison_is_byte_exact() {
    assert!(changed(&snap("Song A", "Band X"), &snap("song a", "Band X")));
    assert!(changed(&snap("Song A", "Band X"), &snap("Song A ", "Band X")));
    assert!(changed(&snap("Song", "AB"), &snap("SongA", "B")));
    assert!(changed(&snap("e\u{301}", "x"), &snap("\u{e9}", "x")));
}
