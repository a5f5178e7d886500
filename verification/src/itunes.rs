use vstd::prelude::*;
use crate::models::{ApiResults, Song, SongDetails};
use crate::utils::{remove_char, spec_trimmed, trim_ws};
use vstd::string::StringSliceAdditionalSpecFns;

verus! {

/// The uppercase hex digit for a value below sixteen.
pub open spec fn hex_digit_upper(n: int) -> char {
    if n == 0 {
        '0'
    } else if n == 1 {
        '1'
    } else if n == 2 {
        '2'
    } else if n == 3 {
        '3'
    } else if n == 4 {
        '4'
    } else if n == 5 {
        '5'
    } else if n == 6 {
        '6'
    } else if n == 7 {
        '7'
    } else if n == 8 {
        '8'
    } else if n == 9 {
        '9'
    } else if n == 10 {
        'A'
    } else if n == 11 {
        'B'
    } else if n == 12 {
        'C'
    } else if n == 13 {
        'D'
    } else if n == 14 {
        'E'
    } else {
        'F'
    }
}

/// Whether a byte of a query is percent-encoded: every non-ASCII byte, the
/// controls, and the fragment set (space, quote, angle brackets, backtick).
pub open spec fn needs_encoding(b: u8) -> bool {
    b >= 0x80 || b <= 0x1F || b == 0x7F || b == 0x20 || b == 0x22 || b == 0x3C || b == 0x3E || b
        == 0x60
}

/// How one byte of a query is written: `%XX` with uppercase hex when
/// encoded, the byte's own character otherwise.
pub open spec fn encode_byte(b: u8) -> Seq<char> {
    if needs_encoding(b) {
        seq!['%', hex_digit_upper(b as int / 16), hex_digit_upper(b as int % 16)]
    } else {
        seq![b as char]
    }
}

/// A whole query's UTF-8 bytes percent-encoded, in order.
pub open spec fn encode_bytes(bs: Seq<u8>) -> Seq<char>
    decreases bs.len(),
{
    if bs.len() == 0 {
        Seq::empty()
    } else {
        encode_bytes(bs.drop_last()) + encode_byte(bs.last())
    }
}

fn hex_digit_upper_exec(n: u8) -> (r: char)
    requires
        n < 16,
    ensures
        r == hex_digit_upper(n as int),
{
    if n == 0 {
        '0'
    } else if n == 1 {
        '1'
    } else if n == 2 {
        '2'
    } else if n == 3 {
        '3'
    } else if n == 4 {
        '4'
    } else if n == 5 {
        '5'
    } else if n == 6 {
        '6'
    } else if n == 7 {
        '7'
    } else if n == 8 {
        '8'
    } else if n == 9 {
        '9'
    } else if n == 10 {
        'A'
    } else if n == 11 {
        'B'
    } else if n == 12 {
        'C'
    } else if n == 13 {
        'D'
    } else if n == 14 {
        'E'
    } else {
        'F'
    }
}

/// Percent-encodes a query for the search URL: every non-ASCII byte of its
/// UTF-8 form, every control byte, and the fragment set (space, quote,
/// angle brackets, backtick) become `%XX`.
pub fn percent_encode_fragment(s: &str) -> (r: String)
    ensures
        r@ == encode_bytes(s.spec_bytes()),
{
    let bytes = s.as_bytes_vec();
    let n = bytes.len();
    let mut out = String::new();
    let mut i: usize = 0;
    proof {
        assert(bytes@.take(0) =~= Seq::<u8>::empty());
    }
    while i < n
        invariant
            n == bytes@.len(),
            bytes@ == s.spec_bytes(),
            i <= n,
            out@ == encode_bytes(bytes@.take(i as int)),
        decreases n - i,
    {
        let b = bytes[i];
        if b >= 0x80 || b <= 0x1F || b == 0x7F || b == 0x20 || b == 0x22 || b == 0x3C || b == 0x3E
            || b == 0x60 {
            crate::utils::push_char(&mut out, '%');
            crate::utils::push_char(&mut out, hex_digit_upper_exec(b / 16));
            crate::utils::push_char(&mut out, hex_digit_upper_exec(b % 16));
        } else {
            crate::utils::push_char(&mut out, b as char);
        }
        proof {
            assert(bytes@.take(i as int + 1).drop_last() =~= bytes@.take(i as int));
            assert(bytes@.take(i as int + 1).last() == bytes@[i as int]);
            assert(out@ =~= encode_bytes(bytes@.take(i as int + 1)));
        }
        i += 1;
    }
    proof {
        assert(bytes@.take(n as int) =~= bytes@);
    }
    out
}

/// The search query for a track: the artist with every `&` removed, the
/// track name and the album, space-separated.
pub fn song_search_query(song: &Song) -> (r: String)
    ensures
        r@ == song.artist@.filter(|c: char| c != '&') + " "@ + song.name@ + " "@ + song.album@,
{
    let mut q = remove_char(song.artist.as_str(), '&');
    q.append(" ");
    q.append(song.name.as_str());
    q.append(" ");
    q.append(song.album.as_str());
    q
}

/// The prefix of `s` before the first occurrence of `c`; all of `s` when
/// `c` does not occur.
pub open spec fn take_until(s: Seq<char>, c: char) -> Seq<char>
    decreases s.len(),
{
    if s.len() == 0 {
        s
    } else if s[0] == c {
        Seq::empty()
    } else {
        seq![s[0]] + take_until(s.drop_first(), c)
    }
}

pub proof fn lemma_take_until_at(s: Seq<char>, c: char, i: int)
    requires
        0 <= i < s.len(),
        s[i] == c,
        forall|k: int| 0 <= k < i ==> s[k] != c,
    ensures
        take_until(s, c) == s.subrange(0, i),
    decreases i,
{
    if i == 0 {
        assert(take_until(s, c) =~= s.subrange(0, 0));
    } else {
        let d = s.drop_first();
        assert(d[i - 1] == s[i]);
        assert forall|k: int| 0 <= k < i - 1 implies d[k] != c by {
            assert(d[k] == s[k + 1]);
        }
        lemma_take_until_at(d, c, i - 1);
        assert(seq![s[0]] + d.subrange(0, i - 1) =~= s.subrange(0, i));
    }
}

pub proof fn lemma_take_until_absent(s: Seq<char>, c: char)
    requires
        forall|k: int| 0 <= k < s.len() ==> s[k] != c,
    ensures
        take_until(s, c) == s,
    decreases s.len(),
{
    if s.len() > 0 {
        let d = s.drop_first();
        assert forall|k: int| 0 <= k < d.len() implies d[k] != c by {
            assert(d[k] == s[k + 1]);
        }
        lemma_take_until_absent(d, c);
        assert(seq![s[0]] + d =~= s);
    }
}

/// The prefix before the first `c`, when `c` occurs at all.
fn before_first(s: &str, c: char) -> (r: Option<&str>)
    ensures
        s@.contains(c) ==> (r matches Some(p) && p@ == take_until(s@, c)),
        !s@.contains(c) ==> r is None,
{
    let n = s.unicode_len();
    let mut i: usize = 0;
    while i < n
        invariant
            i <= n,
            n == s@.len(),
            forall|k: int| 0 <= k < i ==> s@[k] != c,
        decreases n - i,
    {
        if s.get_char(i) == c {
            proof {
                lemma_take_until_at(s@, c, i as int);
                assert(s@.contains(c)) by {
                    assert(s@[i as int] == c);
                }
            }
            return Some(s.substring_char(0, i));
        }
        i += 1;
    }
    proof {
        if s@.contains(c) {
            let j = choose|j: int| 0 <= j < s@.len() && s@[j] == c;
            assert(s@[j] != c);
        }
    }
    None
}

/// The artist an album search goes by: the album artist when set; otherwise
/// the track artist cut at the first comma, or failing that at the first
/// ampersand, with surrounding whitespace removed.
pub open spec fn spec_primary_artist(song: &Song) -> Seq<char> {
    if song.album_artist@.len() > 0 {
        song.album_artist@
    } else if song.artist@.contains(',') {
        spec_trimmed(take_until(song.artist@, ','))
    } else if song.artist@.contains('&') {
        spec_trimmed(take_until(song.artist@, '&'))
    } else {
        spec_trimmed(song.artist@)
    }
}

/// Picks the artist an album search goes by.
pub fn get_primary_artist(song: &Song) -> (r: String)
    ensures
        r@ == spec_primary_artist(song),
{
    if !song.album_artist.as_str().is_empty() {
        return song.album_artist.clone();
    }
    let base: &str = match before_first(song.artist.as_str(), ',') {
        Some(p) => p,
        None => match before_first(song.artist.as_str(), '&') {
            Some(p) => p,
            None => song.artist.as_str(),
        },
    };
    String::from_str(trim_ws(base))
}

/// The search query for an album: the primary artist and the album,
/// space-separated.
pub fn album_search_query(song: &Song) -> (r: String)
    ensures
        r@ == spec_primary_artist(song) + " "@ + song.album@,
{
    let mut q = get_primary_artist(song);
    q.append(" ");
    q.append(song.album.as_str());
    q
}

/// The search URL for the lookup service: a fixed address carrying the
/// entity kind and the percent-encoded query with every `*` removed.
pub fn search_url(entity: &str, query: &str) -> (r: String)
    ensures
        r@ == "https://itunes.apple.com/search?media=music&entity="@ + entity@ + "&limit=1&term="@
            + encode_bytes(query.spec_bytes()).filter(|c: char| c != '*'),
{
    let encoded = percent_encode_fragment(query);
    let cleaned = remove_char(encoded.as_str(), '*');
    let mut url = String::from_str("https://itunes.apple.com/search?media=music&entity=");
    url.append(entity);
    url.append("&limit=1&term=");
    url.append(cleaned.as_str());
    url
}

/// The details a track search settles on: the first result's artwork, album
/// link and track link (empty when the result has none), each with quotes
/// stripped; nothing when the page is empty.
pub fn details_from_song_results(results: &ApiResults) -> (r: Option<SongDetails>)
    ensures
        (results.result_count > 0 && results.results@.len() > 0) ==> (r matches Some(d) && {
            &&& d.artwork@ == results.results@[0].artwork_url@.filter(|c: char| c != '"')
            &&& d.album_url@ == results.results@[0].album_url@.filter(|c: char| c != '"')
            &&& d.song_url@ == (match results.results@[0].song_url {
                Some(u) => u@,
                None => Seq::<char>::empty(),
            }).filter(|c: char| c != '"')
        }),
        !(results.result_count > 0 && results.results@.len() > 0) ==> r is None,
{
    if results.result_count > 0 && results.results.len() > 0 {
        let first = &results.results[0];
        let su = match &first.song_url {
            Some(u) => u.clone(),
            None => String::new(),
        };
        Some(SongDetails::new(first.artwork_url.clone(), first.album_url.clone(), su))
    } else {
        None
    }
}

/// The details an album search falls back to: the first result's artwork
/// (or the fixed placeholder when it has none) and its album link in both
/// link fields, quotes stripped; on an empty page the placeholder artwork
/// and empty links.
pub fn details_from_album_results(results: &ApiResults) -> (r: SongDetails)
    ensures
        (results.result_count > 0 && results.results@.len() > 0) ==> {
            &&& r.artwork@ == (if results.results@[0].artwork_url@.len() == 0 {
                "no_art"@
            } else {
                results.results@[0].artwork_url@
            }).filter(|c: char| c != '"')
            &&& r.album_url@ == results.results@[0].album_url@.filter(|c: char| c != '"')
            &&& r.song_url@ == results.results@[0].album_url@.filter(|c: char| c != '"')
        },
        !(results.result_count > 0 && results.results@.len() > 0) ==> {
            &&& r.artwork@ == "no_art"@.filter(|c: char| c != '"')
            &&& r.album_url@.len() == 0
            &&& r.song_url@.len() == 0
        },
{
    if results.result_count > 0 && results.results.len() > 0 {
        let first = &results.results[0];
        let artwork = if first.artwork_url.as_str().is_empty() {
            String::from_str("no_art")
        } else {
            first.artwork_url.clone()
        };
        SongDetails::new(artwork, first.album_url.clone(), first.album_url.clone())
    } else {
        proof {
            assert(Seq::<char>::empty().filter(|c: char| c != '"') =~= Seq::<char>::empty()) by {
                reveal(Seq::filter);
            }
        }
        SongDetails::new(String::from_str("no_art"), String::new(), String::new())
    }
}

} // verus!
