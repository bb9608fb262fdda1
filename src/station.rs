//! The fixed list of stations and the names and addresses derived from it.
use vstd::prelude::*;
use crate::text::{find_first, first_index_of, same_text};

verus! {

/// Number of known stations.
pub const STATION_COUNT: usize = 7;

/// Address that every station's stream lives under.
pub const STATION_BASE_URL: &'static str = "http://stream.nightride.fm/";

/// Extension of every station's stream file.
pub const STREAM_EXTENSION: &'static str = ".ogg";

/// The station identifiers, in order.
pub open spec fn station_names() -> Seq<Seq<char>> {
    seq![
        "nightride"@,
        "chillsynth"@,
        "datawave"@,
        "spacesynth"@,
        "darksynth"@,
        "horrorsynth"@,
        "ebsm"@,
    ]
}

/// A station index is valid when it points into the list.
pub open spec fn valid_station(station: int) -> bool {
    0 <= station < STATION_COUNT
}

/// File name of a station's stream.
pub open spec fn station_file(station: int) -> Seq<char> {
    station_names()[station] + STREAM_EXTENSION@
}

/// Address of a station's stream.
pub open spec fn station_url_of(station: int) -> Seq<char> {
    STATION_BASE_URL@ + station_file(station)
}

/// A file name without its extension: everything before the first dot.
pub open spec fn stem(filename: Seq<char>) -> Seq<char> {
    filename.subrange(0, first_index_of(filename, '.') as int)
}

/// The station after `station`, wrapping round to the first.
pub open spec fn next_station_of(station: int) -> int {
    (station + 1) % (STATION_COUNT as int)
}

/// The station whose identifier is the stem of `filename`, if any.
pub open spec fn station_of(filename: Seq<char>) -> Option<int> {
    if exists|i: int| valid_station(i) && station_names()[i] == stem(filename) {
        Some(choose|i: int| valid_station(i) && station_names()[i] == stem(filename))
    } else {
        None
    }
}

/// The identifiers hold no dot and no two are the same.
pub proof fn lemma_station_names()
    ensures
        station_names().len() == STATION_COUNT,
        forall|i: int| #![auto] valid_station(i) ==> !station_names()[i].contains('.'),
        forall|i: int, j: int|
            #![trigger station_names()[i], station_names()[j]]
            valid_station(i) && valid_station(j) && station_names()[i] == station_names()[j]
                ==> i == j,
{
    reveal_strlit("nightride");
    reveal_strlit("chillsynth");
    reveal_strlit("datawave");
    reveal_strlit("spacesynth");
    reveal_strlit("darksynth");
    reveal_strlit("horrorsynth");
    reveal_strlit("ebsm");
    let names = station_names();
    assert(names[0][0] == 'n' && names[1][0] == 'c' && names[2][0] == 'd');
    assert(names[3][0] == 's' && names[4][0] == 'd' && names[5][0] == 'h' && names[6][0] == 'e');
    assert(names[2][1] == 'a' && names[4][1] == 'a' && names[2][2] == 't' && names[4][2] == 'r');
    assert forall|i: int| #![auto] valid_station(i) implies !station_names()[i].contains('.') by {
        let s = station_names()[i];
        if s.contains('.') {
            let k = choose|k: int| 0 <= k < s.len() && s[k] == '.';
            assert(s[k] != '.');
        }
    }
}

/// The stem of a station's stream file is the station's identifier.
pub proof fn lemma_stem_of_station_file(station: int)
    requires
        valid_station(station),
    ensures
        stem(station_file(station)) == station_names()[station],
{
    lemma_station_names();
    reveal_strlit(".ogg");
    let name = station_names()[station];
    let file = station_file(station);
    assert forall|j: int| 0 <= j < name.len() implies file[j] != '.' by {
        assert(file[j] == name[j]);
        assert(!name.contains('.'));
    }
    assert(file[name.len() as int] == '.');
    crate::text::lemma_first_index_of(file, '.', name.len() as int);
    assert(file.subrange(0, name.len() as int) =~= name);
}

/// Identifier of a station.
pub fn station_name(station: usize) -> (r: &'static str)
    requires
        valid_station(station as int),
    ensures
        r@ == station_names()[station as int],
{
    match station {
        0 => "nightride",
        1 => "chillsynth",
        2 => "datawave",
        3 => "spacesynth",
        4 => "darksynth",
        5 => "horrorsynth",
        _ => "ebsm",
    }
}

/// The station after `station`, wrapping round to the first.
pub fn next_station(station: usize) -> (r: usize)
    requires
        valid_station(station as int),
    ensures
        r == next_station_of(station as int),
        valid_station(r as int),
{
    (station + 1) % STATION_COUNT
}

/// Address of a station's stream: the base address, the identifier and the extension.
pub fn station_url(station: usize) -> (r: String)
    requires
        valid_station(station as int),
    ensures
        r@ == station_url_of(station as int),
{
    let url = String::from_str(STATION_BASE_URL);
    let url = url.concat(station_name(station));
    let url = url.concat(STREAM_EXTENSION);
    assert(url@ =~= station_url_of(station as int));
    url
}

/// A file name without its extension: everything before the first dot.
pub fn file_stem(filename: &str) -> (r: &str)
    ensures
        r@ == stem(filename@),
{
    let end = find_first(filename, '.');
    filename.substring_char(0, end)
}

/// Whether `filename` is the stream of `station`, its extension left aside.
pub fn is_station_file(station: usize, filename: &str) -> (r: bool)
    requires
        valid_station(station as int),
    ensures
        r == (stem(filename@) == station_names()[station as int]),
{
    same_text(file_stem(filename), station_name(station))
}

/// The station whose stream `filename` is, its extension left aside.
pub fn station_of_file(filename: &str) -> (r: Option<usize>)
    ensures
        r matches Some(s) ==> valid_station(s as int) && station_of(filename@) == Some(s as int),
        r is None ==> station_of(filename@) is None,
{
    let mut i: usize = 0;
    while i < STATION_COUNT
        invariant
            i <= STATION_COUNT,
            forall|j: int| 0 <= j < i ==> station_names()[j] != stem(filename@),
        decreases STATION_COUNT - i,
    {
        if is_station_file(i, filename) {
            proof {
                lemma_station_names();
                assert(valid_station(i as int) && station_names()[i as int] == stem(filename@));
                let k = choose|k: int|
                    valid_station(k) && station_names()[k] == stem(filename@);
                assert(station_names()[k] == station_names()[i as int]);
            }
            return Some(i);
        }
        i = i + 1;
    }
    None
}

} // verus!
