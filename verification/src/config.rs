//! The player's settings and their defaults.

use vstd::prelude::*;

verus! {

/// Seconds that one seek key moves by, when the configuration does not say.
pub const SEEK_DISTANCE: usize = 5;

/// The settings the player reads from its configuration file.
pub struct Config {
    /// Where the audio files are, as the bytes of the operating system's path.
    pub path: Vec<u8>,
    /// Seconds that one seek key moves by.
    pub seek_distance: usize,
}

/// The byte `/` (ASCII code 47), which separates path components.
pub open spec fn separator() -> u8 {
    47u8
}

/// The bytes of `Music` (ASCII codes).
pub open spec fn music_dir() -> Seq<u8> {
    seq![77u8, 117u8, 115u8, 105u8, 99u8]
}

/// The bytes of `/home` (ASCII codes).
pub open spec fn fallback_dir() -> Seq<u8> {
    seq![47u8, 104u8, 111u8, 109u8, 101u8]
}

/// A relative component appended to a path, as `PathBuf::join` does it on Unix:
/// a separator goes between them unless the path is empty or already ends with one.
pub open spec fn join_relative(base: Seq<u8>, component: Seq<u8>) -> Seq<u8> {
    if base.len() == 0 || base.last() == separator() {
        base + component
    } else {
        base + seq![separator()] + component
    }
}

/// The default music directory: `Music` in the home directory, or `/home`
/// when the home directory is unknown.
pub open spec fn default_path_spec(home: Option<Seq<u8>>) -> Seq<u8> {
    match home {
        Some(h) => join_relative(h, music_dir()),
        None => fallback_dir(),
    }
}

/// The bytes of `Music`.
fn music_dir_exec() -> (res: Vec<u8>)
    ensures
        res@ == music_dir(),
{
    let res: Vec<u8> = vec![77u8, 117u8, 115u8, 105u8, 99u8];
    assert(res@ =~= music_dir());
    res
}

/// The default music directory, given the home directory if there is one.
pub fn default_path(home: Option<Vec<u8>>) -> (res: Vec<u8>)
    ensures
        res@ == default_path_spec(match home { Some(h) => Some(h@), None => None }),
{
    match home {
        Some(h) => {
            let mut res = h;
            let n = res.len();
            if n > 0 && res[n - 1] != 47u8 {
                res.push(47u8);
            }
            let mut music = music_dir_exec();
            res.append(&mut music);
            assert(res@ =~= default_path_spec(Some(h@)));
            res
        },
        None => {
            let res: Vec<u8> = vec![47u8, 104u8, 111u8, 109u8, 101u8];
            assert(res@ =~= fallback_dir());
            res
        },
    }
}

impl Config {
    /// The settings used when the configuration file is absent: the default
    /// music directory and the default seek distance.
    pub fn default_with_home(home: Option<Vec<u8>>) -> (res: Config)
        ensures
            res.path@ == default_path_spec(match home { Some(h) => Some(h@), None => None }),
            res.seek_distance == SEEK_DISTANCE,
    {
        Config { path: default_path(home), seek_distance: SEEK_DISTANCE }
    }
}

} // verus!
