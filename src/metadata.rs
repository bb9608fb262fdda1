//! Track metadata as the player reports it, and the current track drawn from it.
use vstd::prelude::*;
use crate::protocol::PlayerError;
use crate::text::{find_after_last, last_index_of};

verus! {

/// Separator the player puts between the values of successive tracks.
pub const HISTORY_SEPARATOR: char = ';';

/// Address that a track search is appended to.
pub const SEARCH_URL: &'static str = "https://music.youtube.com/search?q=";

/// Title, artist and album of a track.
pub struct Track {
    pub title: String,
    pub artist: String,
    pub album: String,
}

/// The current value of a field: what follows its last separator, or the whole
/// field when it has none.
pub open spec fn current_value(raw: Seq<char>) -> Seq<char> {
    raw.subrange(last_index_of(raw, HISTORY_SEPARATOR) + 1, raw.len() as int)
}

/// `track` holds the current value of each field of `raw`.
pub open spec fn is_current_track(raw: Track, track: Track) -> bool {
    &&& track.title@ == current_value(raw.title@)
    &&& track.artist@ == current_value(raw.artist@)
    &&& track.album@ == current_value(raw.album@)
}

/// The track in words: `title by artist (album)`.
pub open spec fn description(t: Track) -> Seq<char> {
    t.title@ + " by "@ + t.artist@ + " ("@ + t.album@ + ")"@
}

/// `s` with every space turned into a plus sign.
pub open spec fn spaces_to_plus(s: Seq<char>) -> Seq<char> {
    Seq::new(s.len(), |i: int| if s[i] == ' ' { '+' } else { s[i] })
}

/// The current value of a field whose history the player has joined with separators.
pub fn current_field(raw: &str) -> (r: String)
    ensures
        r@ == current_value(raw@),
{
    let start = find_after_last(raw, HISTORY_SEPARATOR);
    String::from_str(raw.substring_char(start, raw.unicode_len()))
}

/// The track that is playing now, drawn field by field from the reported history.
pub fn current_track(raw: &Track) -> (r: Track)
    ensures
        is_current_track(*raw, r),
{
    Track {
        title: current_field(raw.title.as_str()),
        artist: current_field(raw.artist.as_str()),
        album: current_field(raw.album.as_str()),
    }
}

/// The current track from a read of the player's metadata: each field's
/// current value when the read succeeded, the read's failure otherwise.
pub fn get_track_info(metadata: Result<Track, PlayerError>) -> (r: Result<Track, PlayerError>)
    ensures
        match metadata {
            Ok(raw) => match r {
                Ok(t) => is_current_track(raw, t),
                Err(_) => false,
            },
            Err(e) => r == Err::<Track, PlayerError>(e),
        },
{
    match metadata {
        Ok(raw) => Ok(current_track(&raw)),
        Err(e) => Err(e),
    }
}

/// Replaces every space of `s` with a plus sign.
pub fn plus_for_spaces(s: &str) -> (r: String)
    ensures
        r@ == spaces_to_plus(s@),
{
    let n = s.unicode_len();
    let mut out = String::new();
    let mut i: usize = 0;
    while i < n
        invariant
            n == s@.len(),
            i <= n,
            out@ == spaces_to_plus(s@).subrange(0, i as int),
        decreases n - i,
    {
        let c = s.get_char(i);
        if c == ' ' {
            out.append("+");
        } else {
            out.append(s.substring_char(i, i + 1));
        }
        proof {
            reveal_strlit("+");
            assert(spaces_to_plus(s@).subrange(0, i + 1) =~= spaces_to_plus(s@).subrange(
                0,
                i as int,
            ).push(spaces_to_plus(s@)[i as int]));
        }
        i = i + 1;
    }
    assert(out@ =~= spaces_to_plus(s@));
    out
}

impl Track {
    /// The track in words: `title by artist (album)`.
    pub fn describe(&self) -> (r: String)
        ensures
            r@ == description(*self),
    {
        let s = self.title.clone();
        let s = s.concat(" by ");
        let s = s.concat(self.artist.as_str());
        let s = s.concat(" (");
        let s = s.concat(self.album.as_str());
        s.concat(")")
    }

    /// Address of a web search for the track's title and artist, with spaces
    /// written as plus signs.
    pub fn search_url(&self) -> (r: String)
        ensures
            r@ == spaces_to_plus(SEARCH_URL@ + self.title@ + " "@ + self.artist@),
    {
        let s = String::from_str(SEARCH_URL);
        let s = s.concat(self.title.as_str());
        let s = s.concat(" ");
        let s = s.concat(self.artist.as_str());
        plus_for_spaces(s.as_str())
    }
}

} // verus!
