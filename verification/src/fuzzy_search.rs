//! Case-insensitive search of the library by title or artist.

use vstd::prelude::*;
use crate::text::{contains_seq, contains_str, lowercase, to_lowercase};
use crate::track::{Audio, AudioView, tracks_view};

verus! {

/// A track matches a keyword when the lowercased keyword occurs in its
/// lowercased title or in its lowercased artist.
pub open spec fn track_matches(t: AudioView, keyword: Seq<char>) -> bool {
    ||| contains_seq(lowercase(t.name), lowercase(keyword))
    ||| contains_seq(lowercase(t.author), lowercase(keyword))
}

/// The indices, in increasing order, of the first `n` tracks that match the keyword.
pub open spec fn search_prefix(tracks: Seq<AudioView>, keyword: Seq<char>, n: nat) -> Seq<usize>
    decreases n,
{
    if n == 0 {
        seq![]
    } else {
        let rest = search_prefix(tracks, keyword, (n - 1) as nat);
        if track_matches(tracks[n - 1], keyword) {
            rest.push((n - 1) as usize)
        } else {
            rest
        }
    }
}

/// The indices, in increasing order, of all tracks that match the keyword.
pub open spec fn search_spec(tracks: Seq<AudioView>, keyword: Seq<char>) -> Seq<usize> {
    search_prefix(tracks, keyword, tracks.len())
}

/// Whether a track matches, given its title, its artist and the keyword already
/// lowercased: the keyword occurs in the title or in the artist.
pub fn matches_lowered(name: &str, author: &str, lowercase_key: &str) -> (res: bool)
    ensures
        res == (contains_seq(name@, lowercase_key@) || contains_seq(author@, lowercase_key@)),
{
    contains_str(name, lowercase_key) || contains_str(author, lowercase_key)
}

/// The indices of the tracks whose title or artist contains the keyword,
/// ignoring case, in the order of the library.
pub fn search(tracks: &[Audio], keyword: &str) -> (res: Vec<usize>)
    ensures
        res@ == search_spec(tracks_view(tracks@), keyword@),
{
    let lowercase_key = to_lowercase(keyword);
    let ghost tv = tracks_view(tracks@);
    let n = tracks.len();
    let mut res: Vec<usize> = Vec::new();
    let mut i: usize = 0;
    while i < n
        invariant
            n == tracks@.len(),
            tv == tracks_view(tracks@),
            lowercase_key@ == lowercase(keyword@),
            i <= n,
            res@ == search_prefix(tv, keyword@, i as nat),
        decreases n - i,
    {
        let name = to_lowercase(tracks[i].name.as_str());
        let author = to_lowercase(tracks[i].author.as_str());
        assert(tv[i as int] == tracks@[i as int]@);
        if matches_lowered(name.as_str(), author.as_str(), lowercase_key.as_str()) {
            res.push(i);
        }
        i = i + 1;
    }
    res
}

} // verus!
