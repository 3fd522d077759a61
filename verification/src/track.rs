//! One entry of the library: its tags, its length and where the file is.

use vstd::prelude::*;

verus! {

/// A track of the library.
#[derive(Debug, Clone)]
pub struct Audio {
    /// Marks the track that was last sent to the audio sink.
    pub is_playing: bool,
    /// The title tag, or `"None"`.
    pub name: String,
    /// The artist tag, or `"None"`.
    pub author: String,
    /// Length in whole seconds.
    pub length: u64,
    /// The file's path, as the bytes of the operating system's path.
    pub path: Vec<u8>,
}

/// The plain values of a track.
pub struct AudioView {
    pub is_playing: bool,
    pub name: Seq<char>,
    pub author: Seq<char>,
    pub length: u64,
    pub path: Seq<u8>,
}

impl View for Audio {
    type V = AudioView;

    open spec fn view(&self) -> AudioView {
        AudioView {
            is_playing: self.is_playing,
            name: self.name@,
            author: self.author@,
            length: self.length,
            path: self.path@,
        }
    }
}

/// The views of a sequence of tracks.
pub open spec fn tracks_view(tracks: Seq<Audio>) -> Seq<AudioView> {
    tracks.map_values(|t: Audio| t@)
}

/// The bytes of `mp3`, `flac` and `wav` (ASCII codes): the file extensions the player reads.
pub open spec fn supported_extension(ext: Seq<u8>) -> bool {
    ||| ext == seq![109u8, 112u8, 51u8]
    ||| ext == seq![102u8, 108u8, 97u8, 99u8]
    ||| ext == seq![119u8, 97u8, 118u8]
}

/// Whether a file with this extension is loaded into the library.
pub fn is_supported_extension(ext: &[u8]) -> (res: bool)
    ensures
        res == supported_extension(ext@),
{
    let n = ext.len();
    if n == 3 && ext[0] == 109u8 && ext[1] == 112u8 && ext[2] == 51u8 {
        assert(ext@ =~= seq![109u8, 112u8, 51u8]);
        true
    } else if n == 4 && ext[0] == 102u8 && ext[1] == 108u8 && ext[2] == 97u8 && ext[3] == 99u8 {
        assert(ext@ =~= seq![102u8, 108u8, 97u8, 99u8]);
        true
    } else if n == 3 && ext[0] == 119u8 && ext[1] == 97u8 && ext[2] == 118u8 {
        assert(ext@ =~= seq![119u8, 97u8, 118u8]);
        true
    } else {
        proof {
            if ext@ == seq![109u8, 112u8, 51u8] {
                assert(ext@[0] == 109u8 && ext@[1] == 112u8 && ext@[2] == 51u8);
            }
            if ext@ == seq![102u8, 108u8, 97u8, 99u8] {
                assert(ext@[0] == 102u8 && ext@[1] == 108u8 && ext@[2] == 97u8 && ext@[3] == 99u8);
            }
            if ext@ == seq![119u8, 97u8, 118u8] {
                assert(ext@[0] == 119u8 && ext@[1] == 97u8 && ext@[2] == 118u8);
            }
        }
        false
    }
}

/// The text shown for a tag that the file does not have.
pub open spec fn missing_tag() -> Seq<char> {
    "None"@
}

/// The tag's text, or `"None"` where the file has no such tag.
pub open spec fn tag_or_missing(tag: Option<Seq<char>>) -> Seq<char> {
    match tag {
        Some(t) => t,
        None => missing_tag(),
    }
}

/// Builds the library entry of a file from its tags: not playing, the title as
/// name and the artist as author (`"None"` where a tag is absent).
pub fn track_from_tags(title: Option<String>, artist: Option<String>, seconds: u64, path: Vec<u8>) -> (res: Audio)
    ensures
        res@ == (AudioView {
            is_playing: false,
            name: tag_or_missing(match title { Some(t) => Some(t@), None => None }),
            author: tag_or_missing(match artist { Some(a) => Some(a@), None => None }),
            length: seconds,
            path: path@,
        }),
{
    let name = match title {
        Some(t) => t,
        None => String::from_str("None"),
    };
    let author = match artist {
        Some(a) => a,
        None => String::from_str("None"),
    };
    Audio { is_playing: false, name, author, length: seconds, path }
}

} // verus!
