use daph::config::{default_path, Config, SEEK_DISTANCE};
use daph::fuzzy_search::{matches_lowered, search};
use daph::text::{chars_of, contains_str};
use daph::track::{is_supported_extension, track_from_tags, Audio};

fn track(name: &str, author: &str) -> Audio {
    Audio {
        is_playing: false,
        name: name.to_string(),
        author: author.to_string(),
        length: 180,
        path: format!("/music/{name}.mp3").into_bytes(),
    }
}

fn library() -> Vec<Audio> {
    vec![
        track("Yesterday", "The Beatles"),
        track("Bohemian Rhapsody", "Queen"),
        track("Let It Be", "The Beatles"),
        track("Érable", "Zoë"),
    ]
}

#[test]
fn search_matches_title_or_artist_ignoring_case() {
    let tracks = library();
    assert_eq!(search(&tracks, "BEATLES"), vec![0, 2]);
    assert_eq!(search(&tracks, "queen"), vec![1]);
    assert_eq!(search(&tracks, "be"), vec![0, 2]);
    assert_eq!(search(&tracks, "E"), vec![0, 1, 2, 3]);
    assert_eq!(search(&tracks, "rhapsody"), vec![1]);
}

#[test]
fn search_folds_non_ascii_case() {
    let tracks = library();
    assert_eq!(search(&tracks, "érable"), vec![3]);
    assert_eq!(search(&tracks, "ZOË"), vec![3]);
}

#[test]
fn search_with_empty_keyword_gives_every_track() {
    let tracks = library();
    assert_eq!(search(&tracks, ""), vec![0, 1, 2, 3]);
}

#[test]
fn search_without_match_is_empty() {
    let tracks = library();
    assert_eq!(search(&tracks, "mozart"), Vec::<usize>::new());
    assert_eq!(search(&[], "x"), Vec::<usize>::new());
}

#[test]
fn substring_search() {
    assert!(contains_str("the beatles", "beat"));
    assert!(contains_str("abc", ""));
    assert!(contains_str("", ""));
    assert!(!contains_str("", "a"));
    assert!(!contains_str("ab", "abc"));
    assert!(contains_str("aab", "ab"));
    assert!(contains_str("érable", "rab"));
    assert!(!contains_str("Beatles", "beat"));
}

#[test]
fn matching_on_lowered_text() {
    assert!(matches_lowered("yesterday", "the beatles", "beat"));
    assert!(matches_lowered("yesterday", "the beatles", "yes"));
    assert!(!matches_lowered("yesterday", "the beatles", "queen"));
}

#[test]
fn chars_of_keeps_order() {
    assert_eq!(chars_of("zoë"), vec!['z', 'o', 'ë']);
}

#[test]
fn supported_extensions() {
    assert!(is_supported_extension(b"mp3"));
    assert!(is_supported_extension(b"flac"));
    assert!(is_supported_extension(b"wav"));
    assert!(!is_supported_extension(b"MP3"));
    assert!(!is_supported_extension(b"ogg"));
    assert!(!is_supported_extension(b""));
}

#[test]
fn missing_tags_read_none() {
    let t = track_from_tags(None, Some("Queen".to_string()), 354, b"/m/a.flac".to_vec());
    assert_eq!(t.name, "None");
    assert_eq!(t.author, "Queen");
    assert_eq!(t.length, 354);
    assert_eq!(t.path, b"/m/a.flac".to_vec());
    assert!(!t.is_playing);
    let u = track_from_tags(Some("Let It Be".to_string()), None, 0, Vec::new());
    assert_eq!(u.name, "Let It Be");
    assert_eq!(u.author, "None");
}

#[test]
fn default_music_directory() {
    assert_eq!(default_path(Some(b"/home/ana".to_vec())), b"/home/ana/Music".to_vec());
    assert_eq!(default_path(Some(b"/home/ana/".to_vec())), b"/home/ana/Music".to_vec());
    assert_eq!(default_path(Some(Vec::new())), b"Music".to_vec());
    assert_eq!(default_path(None), b"/home".to_vec());
}

#[test]
fn default_seek_distance_is_five_seconds() {
    let c = Config::default_with_home(None);
    assert_eq!(c.seek_distance, 5);
    assert_eq!(SEEK_DISTANCE, 5);
    assert_eq!(c.path, b"/home".to_vec());
}
