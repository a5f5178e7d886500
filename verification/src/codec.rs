use vstd::prelude::*;
use crate::ipc::{IpcCommand, IpcMessage, IpcResponse, RespV};
use crate::models::{state_of_token, state_token, PlayerState};

verus! {

broadcast use vstd::utf8::char_is_scalar, vstd::utf8::char_u32_cast;

/// The lowercase hex digit for a value below sixteen.
pub open spec fn hex_digit(n: int) -> char {
    if n == 0 {
        '0'
    } else if n == 1 {
        '1'
    } else if n == 2 {
        '2'
    } else if n == 3 {
        '3'
    } else if n == 4 {
        '4'
    } else if n == 5 {
        '5'
    } else if n == 6 {
        '6'
    } else if n == 7 {
        '7'
    } else if n == 8 {
        '8'
    } else if n == 9 {
        '9'
    } else if n == 10 {
        'a'
    } else if n == 11 {
        'b'
    } else if n == 12 {
        'c'
    } else if n == 13 {
        'd'
    } else if n == 14 {
        'e'
    } else {
        'f'
    }
}

/// The value of a hex digit, or a negative number for any other character.
pub open spec fn hex_val(c: char) -> int {
    if c == '0' {
        0
    } else if c == '1' {
        1
    } else if c == '2' {
        2
    } else if c == '3' {
        3
    } else if c == '4' {
        4
    } else if c == '5' {
        5
    } else if c == '6' {
        6
    } else if c == '7' {
        7
    } else if c == '8' {
        8
    } else if c == '9' {
        9
    } else if c == 'a' || c == 'A' {
        10
    } else if c == 'b' || c == 'B' {
        11
    } else if c == 'c' || c == 'C' {
        12
    } else if c == 'd' || c == 'D' {
        13
    } else if c == 'e' || c == 'E' {
        14
    } else if c == 'f' || c == 'F' {
        15
    } else {
        -1
    }
}

proof fn lemma_hex_round(n: int)
    requires
        0 <= n < 16,
    ensures
        hex_val(hex_digit(n)) == n,
{
}

/// How one character is written inside a JSON string literal: quote and
/// backslash get a backslash escape, the common control characters get their
/// short escapes, the remaining control characters a `\u00XX` escape, and
/// everything else stands as itself.
pub open spec fn escape_char(c: char) -> Seq<char> {
    if c == '"' {
        seq!['\\', '"']
    } else if c == '\\' {
        seq!['\\', '\\']
    } else if c == '\u{8}' {
        seq!['\\', 'b']
    } else if c == '\u{9}' {
        seq!['\\', 't']
    } else if c == '\u{a}' {
        seq!['\\', 'n']
    } else if c == '\u{c}' {
        seq!['\\', 'f']
    } else if c == '\u{d}' {
        seq!['\\', 'r']
    } else if (c as u32) < 0x20 {
        seq!['\\', 'u', '0', '0', hex_digit((c as u32) as int / 16), hex_digit((c as u32) as int % 16)]
    } else {
        seq![c]
    }
}

/// A whole string's characters escaped, in order.
pub open spec fn escape_str(s: Seq<char>) -> Seq<char>
    decreases s.len(),
{
    if s.len() == 0 {
        Seq::empty()
    } else {
        escape_str(s.drop_last()) + escape_char(s.last())
    }
}

/// `escape_str` also unfolds from the front.
proof fn lemma_escape_str_front(s: Seq<char>)
    requires
        s.len() > 0,
    ensures
        escape_str(s) == escape_char(s[0]) + escape_str(s.drop_first()),
    decreases s.len(),
{
    if s.len() == 1 {
        assert(s.drop_last() =~= Seq::<char>::empty());
        assert(s.drop_first() =~= Seq::<char>::empty());
        assert(escape_str(s) =~= escape_char(s[0]) + escape_str(s.drop_first()));
    } else {
        lemma_escape_str_front(s.drop_last());
        assert(s.drop_last().drop_first() =~= s.drop_first().drop_last());
        assert(s.drop_last()[0] == s[0]);
        assert(s.drop_first().last() == s.last());
        assert(escape_str(s.drop_first()) == escape_str(s.drop_first().drop_last())
            + escape_char(s.drop_first().last()));
        assert(escape_str(s) =~= escape_char(s[0]) + escape_str(s.drop_first()));
    }
}

/// A character that stands as itself inside a JSON string literal.
pub open spec fn is_plain_char(c: char) -> bool {
    c != '"' && c != '\\' && (c as u32) >= 0x20
}

/// A string of plain characters escapes to itself.
proof fn lemma_escape_str_plain(s: Seq<char>)
    requires
        forall|k: int| 0 <= k < s.len() ==> is_plain_char(#[trigger] s[k]),
    ensures
        escape_str(s) == s,
    decreases s.len(),
{
    if s.len() > 0 {
        assert forall|k: int| 0 <= k < s.len() - 1 implies is_plain_char(
            #[trigger] s.drop_last()[k],
        ) by {
            assert(s.drop_last()[k] == s[k]);
        };
        lemma_escape_str_plain(s.drop_last());
        assert(is_plain_char(s.last()));
        assert(escape_char(s.last()) == seq![s.last()]);
        assert(s.drop_last() + seq![s.last()] =~= s);
    }
}

/// The character a two-character escape stands for, if the second character
/// forms one.
pub open spec fn unescape_two(e: char) -> Option<char> {
    if e == '"' {
        Some('"')
    } else if e == '\\' {
        Some('\\')
    } else if e == '/' {
        Some('/')
    } else if e == 'b' {
        Some('\u{8}')
    } else if e == 't' {
        Some('\u{9}')
    } else if e == 'n' {
        Some('\u{a}')
    } else if e == 'f' {
        Some('\u{c}')
    } else if e == 'r' {
        Some('\u{d}')
    } else {
        None
    }
}

/// Whether a code point value is a Unicode scalar value, and so names a
/// `char`.
pub open spec fn is_scalar_value(v: int) -> bool {
    (0 <= v < 0xD800) || (0xE000 <= v <= 0x10FFFF)
}

/// Parses the body of a JSON string literal in `s` from position `i` (just
/// after the opening quote) up to and including its closing quote. Yields the
/// unescaped contents and the position just after the closing quote, or
/// nothing when no well-formed literal starts there.
pub open spec fn parse_string_body(s: Seq<char>, i: int) -> Option<(Seq<char>, int)>
    decreases s.len() - i,
{
    if i < 0 || i >= s.len() {
        None
    } else if s[i] == '"' {
        Some((Seq::empty(), i + 1))
    } else if s[i] == '\\' {
        if i + 1 < s.len() {
            let e = s[i + 1];
            if e == 'u' {
                if i + 6 <= s.len() {
                    let d1: int = hex_val(s[i + 2]);
                    let d2: int = hex_val(s[i + 3]);
                    let d3: int = hex_val(s[i + 4]);
                    let d4: int = hex_val(s[i + 5]);
                    let v: int = d1 * 4096 + d2 * 256 + d3 * 16 + d4;
                    if d1 >= 0 && d2 >= 0 && d3 >= 0 && d4 >= 0 && is_scalar_value(v) {
                        match parse_string_body(s, i + 6) {
                            Some((t, j)) => Some((seq![(v as u32) as char] + t, j)),
                            None => None,
                        }
                    } else {
                        None
                    }
                } else {
                    None
                }
            } else {
                match unescape_two(e) {
                    Some(c) => match parse_string_body(s, i + 2) {
                        Some((t, j)) => Some((seq![c] + t, j)),
                        None => None,
                    },
                    None => None,
                }
            }
        } else {
            None
        }
    } else {
        match parse_string_body(s, i + 1) {
            Some((t, j)) => Some((seq![s[i]] + t, j)),
            None => None,
        }
    }
}

/// One position of a known slice of `full`, read back in `full` itself.
proof fn lemma_index_of_subrange(full: Seq<char>, i: int, t: Seq<char>, k: int)
    requires
        0 <= i,
        i + t.len() <= full.len(),
        full.subrange(i, i + t.len()) == t,
        0 <= k < t.len(),
    ensures
        full[i + k] == t[k],
{
    assert(full.subrange(i, i + t.len())[k] == t[k]);
}

/// A sub-slice of a known slice of `full` is the matching slice of `full`.
proof fn lemma_subslice(full: Seq<char>, i: int, t: Seq<char>, a: int, b: int)
    requires
        0 <= i,
        i + t.len() <= full.len(),
        full.subrange(i, i + t.len()) == t,
        0 <= a <= b <= t.len(),
    ensures
        full.subrange(i + a, i + b) == t.subrange(a, b),
{
    assert forall|k: int| 0 <= k < b - a implies full.subrange(i + a, i + b)[k] == t.subrange(
        a,
        b,
    )[k] by {
        assert(full.subrange(i, i + t.len())[a + k] == t[a + k]);
    };
    assert(full.subrange(i + a, i + b) =~= t.subrange(a, b));
}

/// Parsing an escaped string followed by its closing quote recovers the
/// original string and stops right after the quote.
pub proof fn lemma_parse_escaped(full: Seq<char>, i: int, s: Seq<char>)
    requires
        0 <= i,
        i + escape_str(s).len() + 1 <= full.len(),
        full.subrange(i, i + escape_str(s).len() + 1) == escape_str(s).push('"'),
    ensures
        parse_string_body(full, i) == Some((s, i + escape_str(s).len() + 1)),
    decreases s.len(),
{
    let e_all = escape_str(s);
    let target = e_all.push('"');
    if s.len() == 0 {
        assert(target[0] == '"');
        lemma_index_of_subrange(full, i, target, 0);
        assert(full[i] == '"');
    } else {
        let c = s[0];
        let e = escape_char(c);
        let rest = s.drop_first();
        lemma_escape_str_front(s);
        assert(e_all == e + escape_str(rest));
        assert forall|k: int| #![trigger e[k]] 0 <= k < e.len() implies full[i + k] == e[k] by {
            lemma_index_of_subrange(full, i, target, k);
            assert(target[k] == e_all[k]);
            assert((e + escape_str(rest))[k] == e[k]);
        };
        // The tail premise for the recursive call.
        let i2 = i + e.len();
        assert(target.subrange(e.len() as int, target.len() as int) =~= escape_str(rest).push(
            '"',
        )) by {
            assert(forall|k: int| 0 <= k < escape_str(rest).len()
                ==> #[trigger] escape_str(rest)[k] == e_all[e.len() + k]);
        }
        lemma_subslice(full, i, target, e.len() as int, target.len() as int);
        lemma_parse_escaped(full, i2, rest);
        let j = i + e_all.len() + 1;
        assert(j == i2 + escape_str(rest).len() + 1);
        assert(seq![c] + rest =~= s);
        if c == '"' || c == '\\' {
            assert(e[0] == '\\' && e[1] == c);
            assert(full[i + 0] == e[0] && full[i + 1] == e[1]);
            assert(full[i] == '\\');
            assert(unescape_two(c) == Some(c));
            assert(parse_string_body(full, i) == Some((seq![c] + rest, j)));
        } else if c == '\u{8}' || c == '\u{9}' || c == '\u{a}' || c == '\u{c}' || c == '\u{d}' {
            assert(e[0] == '\\');
            assert(full[i + 0] == e[0] && full[i + 1] == e[1]);
            assert(full[i] == '\\');
            assert(unescape_two(e[1]) == Some(c));
            assert(parse_string_body(full, i) == Some((seq![c] + rest, j)));
        } else if (c as u32) < 0x20 {
            let cv = (c as u32) as int;
            assert(e == seq!['\\', 'u', '0', '0', hex_digit(cv / 16), hex_digit(cv % 16)]);
            assert(e[0] == '\\' && e[1] == 'u' && e[2] == '0' && e[3] == '0');
            assert(full[i + 0] == e[0] && full[i + 1] == e[1] && full[i + 2] == e[2] && full[i + 3]
                == e[3] && full[i + 4] == e[4] && full[i + 5] == e[5]);
            assert(full[i] == '\\');
            assert(full[i + 4] == hex_digit(cv / 16) && full[i + 5] == hex_digit(cv % 16));
            assert(0 <= cv / 16 < 16 && 0 <= cv % 16 < 16);
            lemma_hex_round(cv / 16);
            lemma_hex_round(cv % 16);
            let v: int = hex_val('0') * 4096 + hex_val('0') * 256 + hex_val(full[i + 4]) * 16
                + hex_val(full[i + 5]);
            assert(v == (cv / 16) * 16 + cv % 16);
            assert(v == cv);
            assert(is_scalar_value(v));
            assert((v as u32) == (c as u32));
            vstd::utf8::char_u32_cast(c, v as u32);
            assert(((v as u32) as char) == c);
            assert(parse_string_body(full, i) == Some((seq![c] + rest, j)));
        } else {
            assert(e == seq![c]);
            assert(e[0] == c);
            assert(full[i + 0] == e[0]);
            assert(full[i] == c);
            assert(c != '"' && c != '\\');
            assert(parse_string_body(full, i) == Some((seq![c] + rest, j)));
        }
    }
}

/// Whether `p` stands letter for letter in `s` at position `i`.
pub open spec fn starts_at(s: Seq<char>, i: int, p: Seq<char>) -> bool {
    0 <= i && i + p.len() <= s.len() && s.subrange(i, i + p.len()) == p
}

/// A JSON boolean literal.
pub open spec fn encode_bool(b: bool) -> Seq<char> {
    if b {
        "true"@
    } else {
        "false"@
    }
}

/// A JSON string literal: the escaped contents between quotes.
pub open spec fn quoted(t: Seq<char>) -> Seq<char> {
    seq!['"'] + escape_str(t) + seq!['"']
}

/// An optional string: `null` when absent, a string literal when present.
pub open spec fn encode_opt_string(o: Option<Seq<char>>) -> Seq<char> {
    match o {
        None => "null"@,
        Some(t) => quoted(t),
    }
}

/// The canonical wire form of a response: a tagged JSON document without
/// interior whitespace, fields in declaration order.
pub open spec fn spec_encode_response(v: RespV) -> Seq<char> {
    match v {
        RespV::Success => "\"Success\""@,
        RespV::Error(m) => "{\"Error\":"@ + quoted(m) + "}"@,
        RespV::CurrentSong { title, artist, album, state } => "{\"CurrentSong\":{\"title\":"@
            + encode_opt_string(title) + ",\"artist\":"@ + encode_opt_string(artist)
            + ",\"album\":"@ + encode_opt_string(album) + ",\"state\":"@ + quoted(
            state_token(state),
        ) + "}}"@,
        RespV::Status { running, discord_connected, discord_open, music_app_open } => (
        "{\"Status\":{\"running\":"@ + encode_bool(running) + ",\"discord_connected\":"@
            + encode_bool(discord_connected) + ",\"discord_open\":"@ + encode_bool(discord_open)
            + ",\"music_app_open\":"@ + encode_bool(music_app_open) + "}}"@),
    }
}

/// The canonical wire form of a request envelope.
pub open spec fn spec_encode_request(c: IpcCommand) -> Seq<char> {
    match c {
        IpcCommand::Start => "{\"command\":\"Start\"}"@,
        IpcCommand::Stop => "{\"command\":\"Stop\"}"@,
        IpcCommand::CurrentSong => "{\"command\":\"CurrentSong\"}"@,
        IpcCommand::Status => "{\"command\":\"Status\"}"@,
        IpcCommand::Shutdown => "{\"command\":\"Shutdown\"}"@,
    }
}

/// The first position at or after `i` holding no whitespace.
pub open spec fn skip_ws(s: Seq<char>, i: int) -> int
    decreases s.len() - i,
{
    if 0 <= i && i < s.len() && crate::utils::is_ws(s[i]) {
        skip_ws(s, i + 1)
    } else {
        i
    }
}

/// The command a request token names, if any.
pub open spec fn command_of_token(t: Seq<char>) -> Option<IpcCommand> {
    if t == "Start"@ {
        Some(IpcCommand::Start)
    } else if t == "Stop"@ {
        Some(IpcCommand::Stop)
    } else if t == "CurrentSong"@ {
        Some(IpcCommand::CurrentSong)
    } else if t == "Status"@ {
        Some(IpcCommand::Status)
    } else if t == "Shutdown"@ {
        Some(IpcCommand::Shutdown)
    } else {
        None
    }
}

/// Decodes a request: one JSON object holding the single `command` key and
/// a string literal naming the command, whitespace allowed around the
/// tokens and nothing after the closing brace.
pub open spec fn spec_decode_request(s: Seq<char>) -> Option<IpcCommand> {
    let i0: int = skip_ws(s, 0);
    if i0 < s.len() && s[i0] == '{' {
        let i1: int = skip_ws(s, i0 + 1);
        if starts_at(s, i1, "\"command\""@) {
            let i2: int = skip_ws(s, i1 + "\"command\""@.len() as int);
            if i2 < s.len() && s[i2] == ':' {
                let i3: int = skip_ws(s, i2 + 1);
                match parse_quoted(s, i3) {
                    Some((tok, j)) => {
                        let i4: int = skip_ws(s, j);
                        if i4 < s.len() && s[i4] == '}' && skip_ws(s, i4 + 1) == s.len() {
                            command_of_token(tok)
                        } else {
                            None
                        }
                    },
                    None => None,
                }
            } else {
                None
            }
        } else {
            None
        }
    } else {
        None
    }
}

/// Parses a JSON boolean literal at `i`.
pub open spec fn parse_bool(s: Seq<char>, i: int) -> Option<(bool, int)> {
    if starts_at(s, i, "true"@) {
        Some((true, i + "true"@.len()))
    } else if starts_at(s, i, "false"@) {
        Some((false, i + "false"@.len()))
    } else {
        None
    }
}

/// Parses a JSON string literal at `i`: the opening quote, then its body.
pub open spec fn parse_quoted(s: Seq<char>, i: int) -> Option<(Seq<char>, int)> {
    if 0 <= i && i < s.len() && s[i] == '"' {
        parse_string_body(s, i + 1)
    } else {
        None
    }
}

/// Parses `null` or a JSON string literal at `i`.
pub open spec fn parse_opt_string(s: Seq<char>, i: int) -> Option<(Option<Seq<char>>, int)> {
    if starts_at(s, i, "null"@) {
        Some((None, i + "null"@.len()))
    } else {
        match parse_quoted(s, i) {
            Some((t, j)) => Some((Some(t), j)),
            None => None,
        }
    }
}

/// Decodes the fields of a current-song response, starting right after the
/// `title` key's colon.
pub open spec fn decode_current_song_fields(s: Seq<char>, i0: int) -> Option<RespV> {
    match parse_opt_string(s, i0) {
        Some((title, i1)) => if starts_at(s, i1, ",\"artist\":"@) {
            match parse_opt_string(s, i1 + ",\"artist\":"@.len()) {
                Some((artist, i2)) => if starts_at(s, i2, ",\"album\":"@) {
                    match parse_opt_string(s, i2 + ",\"album\":"@.len()) {
                        Some((album, i3)) => if starts_at(s, i3, ",\"state\":"@) {
                            match parse_quoted(s, i3 + ",\"state\":"@.len()) {
                                Some((tok, i4)) => if i4 + "}}"@.len() == s.len() && starts_at(
                                    s,
                                    i4,
                                    "}}"@,
                                ) {
                                    Some(
                                        RespV::CurrentSong {
                                            title,
                                            artist,
                                            album,
                                            state: state_of_token(tok),
                                        },
                                    )
                                } else {
                                    None
                                },
                                None => None,
                            }
                        } else {
                            None
                        },
                        None => None,
                    }
                } else {
                    None
                },
                None => None,
            }
        } else {
            None
        },
        None => None,
    }
}

/// Decodes the fields of a status response, starting right after the
/// `running` key's colon.
pub open spec fn decode_status_fields(s: Seq<char>, i0: int) -> Option<RespV> {
    match parse_bool(s, i0) {
        Some((running, i1)) => if starts_at(s, i1, ",\"discord_connected\":"@) {
            match parse_bool(s, i1 + ",\"discord_connected\":"@.len()) {
                Some((discord_connected, i2)) => if starts_at(s, i2, ",\"discord_open\":"@) {
                    match parse_bool(s, i2 + ",\"discord_open\":"@.len()) {
                        Some((discord_open, i3)) => if starts_at(s, i3, ",\"music_app_open\":"@) {
                            match parse_bool(s, i3 + ",\"music_app_open\":"@.len()) {
                                Some((music_app_open, i4)) => if i4 + "}}"@.len() == s.len()
                                    && starts_at(s, i4, "}}"@) {
                                    Some(
                                        RespV::Status {
                                            running,
                                            discord_connected,
                                            discord_open,
                                            music_app_open,
                                        },
                                    )
                                } else {
                                    None
                                },
                                None => None,
                            }
                        } else {
                            None
                        },
                        None => None,
                    }
                } else {
                    None
                },
                None => None,
            }
        } else {
            None
        },
        None => None,
    }
}

proof fn lemma_starts_at_self(s: Seq<char>)
    ensures
        starts_at(s, 0, s),
{
    assert(s.subrange(0, s.len() as int) =~= s);
}

/// A match of `p + q` at `i` is a match of `p` at `i` and of `q` right after.
proof fn lemma_starts_at_split(s: Seq<char>, i: int, p: Seq<char>, q: Seq<char>)
    requires
        starts_at(s, i, p + q),
    ensures
        starts_at(s, i, p),
        starts_at(s, i + p.len(), q),
{
    lemma_subslice(s, i, p + q, 0, p.len() as int);
    assert((p + q).subrange(0, p.len() as int) =~= p);
    lemma_subslice(s, i, p + q, p.len() as int, (p + q).len() as int);
    assert((p + q).subrange(p.len() as int, (p + q).len() as int) =~= q);
}

/// Matches of `p` at `i` and of `q` right after make a match of `p + q`.
proof fn lemma_starts_at_join(s: Seq<char>, i: int, p: Seq<char>, q: Seq<char>)
    requires
        starts_at(s, i, p),
        starts_at(s, i + p.len(), q),
    ensures
        starts_at(s, i, p + q),
{
    assert forall|k: int| 0 <= k < p.len() + q.len() implies s.subrange(
        i,
        i + p.len() + q.len(),
    )[k] == (p + q)[k] by {
        if k < p.len() {
            lemma_index_of_subrange(s, i, p, k);
        } else {
            lemma_index_of_subrange(s, i + p.len(), q, k - p.len());
        }
    };
    assert(s.subrange(i, i + (p + q).len()) =~= p + q);
}

/// A quoted string in `s` parses back to its contents.
proof fn lemma_parse_quoted_at(s: Seq<char>, i: int, t: Seq<char>)
    requires
        starts_at(s, i, quoted(t)),
    ensures
        parse_quoted(s, i) == Some((t, i + quoted(t).len())),
{
    let e = escape_str(t);
    lemma_starts_at_split(s, i, seq!['"'] + e, seq!['"']);
    lemma_starts_at_split(s, i, seq!['"'], e);
    lemma_index_of_subrange(s, i, seq!['"'], 0);
    assert(s[i] == '"');
    lemma_starts_at_join(s, i + 1, e, seq!['"']);
    assert(e + seq!['"'] =~= e.push('"'));
    lemma_parse_escaped(s, i + 1, t);
}

/// An encoded optional string in `s` parses back to its value.
proof fn lemma_parse_opt_at(s: Seq<char>, i: int, o: Option<Seq<char>>)
    requires
        starts_at(s, i, encode_opt_string(o)),
    ensures
        parse_opt_string(s, i) == Some((o, i + encode_opt_string(o).len())),
{
    reveal_strlit("null");
    match o {
        None => {
            assert(starts_at(s, i, "null"@));
        },
        Some(t) => {
            lemma_parse_quoted_at(s, i, t);
            assert(s[i] == '"') by {
                lemma_starts_at_split(s, i, seq!['"'] + escape_str(t), seq!['"']);
                lemma_starts_at_split(s, i, seq!['"'], escape_str(t));
                lemma_index_of_subrange(s, i, seq!['"'], 0);
            }
            assert("null"@[0] == 'n');
            assert(!starts_at(s, i, "null"@)) by {
                if starts_at(s, i, "null"@) {
                    lemma_index_of_subrange(s, i, "null"@, 0);
                }
            }
        },
    }
}

/// An encoded boolean in `s` parses back to its value.
proof fn lemma_parse_bool_at(s: Seq<char>, i: int, b: bool)
    requires
        starts_at(s, i, encode_bool(b)),
    ensures
        parse_bool(s, i) == Some((b, i + encode_bool(b).len())),
{
    reveal_strlit("true");
    reveal_strlit("false");
    if b {
        assert(starts_at(s, i, "true"@));
    } else {
        assert("false"@[0] == 'f');
        assert("true"@[0] == 't');
        lemma_index_of_subrange(s, i, "false"@, 0);
        assert(s[i] == 'f');
        assert(!starts_at(s, i, "true"@)) by {
            if starts_at(s, i, "true"@) {
                lemma_index_of_subrange(s, i, "true"@, 0);
            }
        }
    }
}

/// Decodes a response from its canonical wire form.
pub open spec fn spec_decode_response(s: Seq<char>) -> Option<RespV> {
    if s == "\"Success\""@ {
        Some(RespV::Success)
    } else if starts_at(s, 0, "{\"Error\":\""@) {
        match parse_string_body(s, "{\"Error\":\""@.len() as int) {
            Some((m, j)) => if j + "}"@.len() == s.len() && starts_at(s, j, "}"@) {
                Some(RespV::Error(m))
            } else {
                None
            },
            None => None,
        }
    } else if starts_at(s, 0, "{\"CurrentSong\":{\"title\":"@) {
        decode_current_song_fields(s, "{\"CurrentSong\":{\"title\":"@.len() as int)
    } else if starts_at(s, 0, "{\"Status\":{\"running\":"@) {
        decode_status_fields(s, "{\"Status\":{\"running\":"@.len() as int)
    } else {
        None
    }
}

proof fn lemma_rt_success()
    ensures
        spec_decode_response(spec_encode_response(RespV::Success)) == Some(RespV::Success),
{
}

proof fn lemma_rt_error(m: Seq<char>)
    ensures
        spec_decode_response(spec_encode_response(RespV::Error(m))) == Some(RespV::Error(m)),
{
    let a = "{\"Error\":"@;
    let q = quoted(m);
    let z = "}"@;
    let s = spec_encode_response(RespV::Error(m));
    let e = escape_str(m);
    reveal_strlit("{\"Error\":");
    reveal_strlit("{\"Error\":\"");
    reveal_strlit("}");
    reveal_strlit("\"Success\"");
    assert(a.len() == 9);
    lemma_starts_at_self(s);
    lemma_starts_at_split(s, 0, a + q, z);
    lemma_starts_at_split(s, 0, a, q);
    lemma_starts_at_split(s, 9, seq!['"'] + e, seq!['"']);
    lemma_starts_at_split(s, 9, seq!['"'], e);
    // This is no Success response: it opens with a brace.
    lemma_index_of_subrange(s, 0, a, 0);
    assert(a[0] == '{');
    assert(s[0] == '{');
    assert("\"Success\""@[0] == '"');
    assert(s != "\"Success\""@);
    // The Error branch matches.
    let p10 = "{\"Error\":\""@;
    lemma_starts_at_join(s, 0, a, seq!['"']);
    assert(a + seq!['"'] =~= p10);
    assert(starts_at(s, 0, p10));
    lemma_parse_quoted_at(s, 9, m);
    assert(s[9] == '"') by {
        lemma_index_of_subrange(s, 9, seq!['"'], 0);
    }
    assert(p10.len() == 10);
    assert(parse_string_body(s, 10) == Some((m, (9 + q.len()) as int)));
    assert(starts_at(s, (9 + q.len()) as int, z));
    assert(9 + q.len() + z.len() == s.len());
}

#[verifier::rlimit(100)]
#[verifier::spinoff_prover]
proof fn lemma_rt_current_song(
    title: Option<Seq<char>>,
    artist: Option<Seq<char>>,
    album: Option<Seq<char>>,
    state: PlayerState,
)
    ensures
        spec_decode_response(spec_encode_response(RespV::CurrentSong { title, artist, album, state }))
            == Some(RespV::CurrentSong { title, artist, album, state }),
{
    let v = RespV::CurrentSong { title, artist, album, state };
    let a = "{\"CurrentSong\":{\"title\":"@;
    let b = ",\"artist\":"@;
    let c = ",\"album\":"@;
    let d = ",\"state\":"@;
    let z = "}}"@;
    let e1 = encode_opt_string(title);
    let e2 = encode_opt_string(artist);
    let e3 = encode_opt_string(album);
    let q4 = quoted(state_token(state));
    let s = spec_encode_response(v);
    assert(s == a + e1 + b + e2 + c + e3 + d + q4 + z);
    reveal_strlit("{\"CurrentSong\":{\"title\":");
    reveal_strlit("{\"Error\":\"");
    reveal_strlit("\"Success\"");
    lemma_starts_at_self(s);
    lemma_starts_at_split(s, 0, a + e1 + b + e2 + c + e3 + d + q4, z);
    lemma_starts_at_split(s, 0, a + e1 + b + e2 + c + e3 + d, q4);
    lemma_starts_at_split(s, 0, a + e1 + b + e2 + c + e3, d);
    lemma_starts_at_split(s, 0, a + e1 + b + e2 + c, e3);
    lemma_starts_at_split(s, 0, a + e1 + b + e2, c);
    lemma_starts_at_split(s, 0, a + e1 + b, e2);
    lemma_starts_at_split(s, 0, a + e1, b);
    lemma_starts_at_split(s, 0, a, e1);
    // Neither the Success nor the Error branch matches.
    lemma_index_of_subrange(s, 0, a, 0);
    assert(a[0] == '{');
    assert(s[0] == '{');
    assert("\"Success\""@[0] == '"');
    assert(s != "\"Success\""@);
    let ep = "{\"Error\":\""@;
    assert(ep[2] == 'E');
    lemma_index_of_subrange(s, 0, a, 2);
    assert(a[2] == 'C');
    assert(s[2] == 'C');
    assert(!starts_at(s, 0, ep)) by {
        if starts_at(s, 0, ep) {
            lemma_index_of_subrange(s, 0, ep, 2);
        }
    }
    // The CurrentSong branch decodes field by field.
    lemma_parse_opt_at(s, a.len() as int, title);
    let i1: int = (a.len() + e1.len()) as int;
    lemma_parse_opt_at(s, (i1 + b.len()) as int, artist);
    let i2: int = (i1 + b.len() + e2.len()) as int;
    lemma_parse_opt_at(s, (i2 + c.len()) as int, album);
    let i3: int = (i2 + c.len() + e3.len()) as int;
    lemma_parse_quoted_at(s, (i3 + d.len()) as int, state_token(state));
    let i4: int = (i3 + d.len() + q4.len()) as int;
    assert(starts_at(s, i4, z));
    assert(i4 + z.len() == s.len());
    crate::models::lemma_state_token_round_trip(state);
}

#[verifier::rlimit(100)]
#[verifier::spinoff_prover]
proof fn lemma_rt_status(
    running: bool,
    discord_connected: bool,
    discord_open: bool,
    music_app_open: bool,
)
    ensures
        spec_decode_response(
            spec_encode_response(
                RespV::Status { running, discord_connected, discord_open, music_app_open },
            ),
        ) == Some(RespV::Status { running, discord_connected, discord_open, music_app_open }),
{
    let v = RespV::Status { running, discord_connected, discord_open, music_app_open };
    let a = "{\"Status\":{\"running\":"@;
    let b = ",\"discord_connected\":"@;
    let c = ",\"discord_open\":"@;
    let d = ",\"music_app_open\":"@;
    let z = "}}"@;
    let e1 = encode_bool(running);
    let e2 = encode_bool(discord_connected);
    let e3 = encode_bool(discord_open);
    let e4 = encode_bool(music_app_open);
    let s = spec_encode_response(v);
    assert(s == a + e1 + b + e2 + c + e3 + d + e4 + z);
    reveal_strlit("{\"Status\":{\"running\":");
    reveal_strlit("{\"CurrentSong\":{\"title\":");
    reveal_strlit("{\"Error\":\"");
    reveal_strlit("\"Success\"");
    lemma_starts_at_self(s);
    lemma_starts_at_split(s, 0, a + e1 + b + e2 + c + e3 + d + e4, z);
    lemma_starts_at_split(s, 0, a + e1 + b + e2 + c + e3 + d, e4);
    lemma_starts_at_split(s, 0, a + e1 + b + e2 + c + e3, d);
    lemma_starts_at_split(s, 0, a + e1 + b + e2 + c, e3);
    lemma_starts_at_split(s, 0, a + e1 + b + e2, c);
    lemma_starts_at_split(s, 0, a + e1 + b, e2);
    lemma_starts_at_split(s, 0, a + e1, b);
    lemma_starts_at_split(s, 0, a, e1);
    // None of the earlier branches matches.
    lemma_index_of_subrange(s, 0, a, 0);
    assert(a[0] == '{');
    assert(s[0] == '{');
    assert("\"Success\""@[0] == '"');
    assert(s != "\"Success\""@);
    lemma_index_of_subrange(s, 0, a, 2);
    assert(a[2] == 'S');
    assert(s[2] == 'S');
    let ep = "{\"Error\":\""@;
    assert(ep[2] == 'E');
    assert(!starts_at(s, 0, ep)) by {
        if starts_at(s, 0, ep) {
            lemma_index_of_subrange(s, 0, ep, 2);
        }
    }
    let cp = "{\"CurrentSong\":{\"title\":"@;
    assert(cp[2] == 'C');
    assert(!starts_at(s, 0, cp)) by {
        if starts_at(s, 0, cp) {
            lemma_index_of_subrange(s, 0, cp, 2);
        }
    }
    // The Status branch decodes field by field.
    lemma_parse_bool_at(s, a.len() as int, running);
    let i1: int = (a.len() + e1.len()) as int;
    lemma_parse_bool_at(s, (i1 + b.len()) as int, discord_connected);
    let i2: int = (i1 + b.len() + e2.len()) as int;
    lemma_parse_bool_at(s, (i2 + c.len()) as int, discord_open);
    let i3: int = (i2 + c.len() + e3.len()) as int;
    lemma_parse_bool_at(s, (i3 + d.len()) as int, music_app_open);
    let i4: int = (i3 + d.len() + e4.len()) as int;
    assert(starts_at(s, i4, z));
    assert(i4 + z.len() == s.len());
}

/// Round trip: encoding any response to the wire format and decoding it
/// again reproduces an equal value.
pub proof fn lemma_response_round_trip(v: RespV)
    ensures
        spec_decode_response(spec_encode_response(v)) == Some(v),
{
    match v {
        RespV::Success => lemma_rt_success(),
        RespV::Error(m) => lemma_rt_error(m),
        RespV::CurrentSong { title, artist, album, state } => lemma_rt_current_song(
            title,
            artist,
            album,
            state,
        ),
        RespV::Status { running, discord_connected, discord_open, music_app_open } => (
        lemma_rt_status(running, discord_connected, discord_open, music_app_open)),
    }
}

/// A canonical envelope around a plain, nonempty token decodes to whatever
/// command that token names.
proof fn lemma_rt_request_token(s: Seq<char>, tok: Seq<char>)
    requires
        s == "{\"command\":"@ + quoted(tok) + "}"@,
        forall|k: int| 0 <= k < tok.len() ==> is_plain_char(#[trigger] tok[k]),
        tok.len() > 0,
    ensures
        spec_decode_request(s) == command_of_token(tok),
{
    let a = "{\"command\":"@;
    let q = quoted(tok);
    let z = "}"@;
    let e = escape_str(tok);
    reveal_strlit("{\"command\":");
    reveal_strlit("\"command\"");
    reveal_strlit("}");
    assert(a.len() == 11);
    assert("\"command\""@.len() == 9);
    lemma_escape_str_plain(tok);
    lemma_starts_at_self(s);
    lemma_starts_at_split(s, 0, a + q, z);
    lemma_starts_at_split(s, 0, a, q);
    lemma_starts_at_split(s, 11, seq!['"'] + e, seq!['"']);
    lemma_starts_at_split(s, 11, seq!['"'], e);
    // The brace, the key, the colon and the opening quote stand where the
    // grammar looks for them, with no whitespace anywhere around them.
    lemma_index_of_subrange(s, 0, a, 0);
    assert(s[0] == '{');
    lemma_index_of_subrange(s, 0, a, 10);
    assert(s[10] == ':');
    lemma_subslice(s, 0, a, 1, 10);
    assert(a.subrange(1, 10) =~= "\"command\""@);
    assert(starts_at(s, 1, "\"command\""@));
    lemma_index_of_subrange(s, 1, "\"command\""@, 0);
    assert(s[1] == '"');
    lemma_index_of_subrange(s, 11, seq!['"'], 0);
    assert(s[11] == '"');
    let jq: int = (11 + q.len()) as int;
    assert(starts_at(s, jq, z));
    lemma_index_of_subrange(s, jq, z, 0);
    assert(s[jq] == '}');
    assert(jq + 1 == s.len());
    // Every skip lands exactly where it starts: no position holds whitespace.
    assert(skip_ws(s, 0) == 0);
    assert(skip_ws(s, 1) == 1);
    assert(skip_ws(s, 10) == 10);
    assert(skip_ws(s, 11) == 11);
    assert(skip_ws(s, jq) == jq);
    assert(skip_ws(s, jq + 1) == s.len());
    lemma_parse_quoted_at(s, 11, tok);
    assert(parse_quoted(s, 11) == Some((tok, jq)));
}

/// Round trip: encoding any request envelope and decoding it again
/// reproduces the command.
pub proof fn lemma_request_round_trip(c: IpcCommand)
    ensures
        spec_decode_request(spec_encode_request(c)) == Some(c),
{
    reveal_strlit("{\"command\":");
    reveal_strlit("}");
    reveal_strlit("Start");
    reveal_strlit("Stop");
    reveal_strlit("CurrentSong");
    reveal_strlit("Status");
    reveal_strlit("Shutdown");
    assert("Start"@.len() == 5);
    assert("Stop"@.len() == 4);
    assert("CurrentSong"@.len() == 11);
    assert("Status"@.len() == 6);
    assert("Shutdown"@.len() == 8);
    match c {
        IpcCommand::Start => {
            let tok = "Start"@;
            reveal_strlit("{\"command\":\"Start\"}");
            assert(forall|k: int| 0 <= k < tok.len() ==> is_plain_char(#[trigger] tok[k]));
            lemma_escape_str_plain(tok);
            assert(spec_encode_request(c) =~= "{\"command\":"@ + quoted(tok) + "}"@);
            lemma_rt_request_token(spec_encode_request(c), tok);
        },
        IpcCommand::Stop => {
            let tok = "Stop"@;
            reveal_strlit("{\"command\":\"Stop\"}");
            assert(forall|k: int| 0 <= k < tok.len() ==> is_plain_char(#[trigger] tok[k]));
            lemma_escape_str_plain(tok);
            assert(spec_encode_request(c) =~= "{\"command\":"@ + quoted(tok) + "}"@);
            lemma_rt_request_token(spec_encode_request(c), tok);
        },
        IpcCommand::CurrentSong => {
            let tok = "CurrentSong"@;
            reveal_strlit("{\"command\":\"CurrentSong\"}");
            assert(forall|k: int| 0 <= k < tok.len() ==> is_plain_char(#[trigger] tok[k]));
            lemma_escape_str_plain(tok);
            assert(spec_encode_request(c) =~= "{\"command\":"@ + quoted(tok) + "}"@);
            lemma_rt_request_token(spec_encode_request(c), tok);
        },
        IpcCommand::Status => {
            let tok = "Status"@;
            reveal_strlit("{\"command\":\"Status\"}");
            assert(forall|k: int| 0 <= k < tok.len() ==> is_plain_char(#[trigger] tok[k]));
            lemma_escape_str_plain(tok);
            assert(spec_encode_request(c) =~= "{\"command\":"@ + quoted(tok) + "}"@);
            lemma_rt_request_token(spec_encode_request(c), tok);
        },
        IpcCommand::Shutdown => {
            let tok = "Shutdown"@;
            reveal_strlit("{\"command\":\"Shutdown\"}");
            assert(forall|k: int| 0 <= k < tok.len() ==> is_plain_char(#[trigger] tok[k]));
            lemma_escape_str_plain(tok);
            assert(spec_encode_request(c) =~= "{\"command\":"@ + quoted(tok) + "}"@);
            lemma_rt_request_token(spec_encode_request(c), tok);
        },
    }
}

fn hex_digit_exec(n: u32) -> (r: char)
    requires
        n < 16,
    ensures
        r == hex_digit(n as int),
{
    if n == 0 {
        '0'
    } else if n == 1 {
        '1'
    } else if n == 2 {
        '2'
    } else if n == 3 {
        '3'
    } else if n == 4 {
        '4'
    } else if n == 5 {
        '5'
    } else if n == 6 {
        '6'
    } else if n == 7 {
        '7'
    } else if n == 8 {
        '8'
    } else if n == 9 {
        '9'
    } else if n == 10 {
        'a'
    } else if n == 11 {
        'b'
    } else if n == 12 {
        'c'
    } else if n == 13 {
        'd'
    } else if n == 14 {
        'e'
    } else {
        'f'
    }
}

fn hex_val_exec(c: char) -> (r: Option<u32>)
    ensures
        match r {
            Some(v) => hex_val(c) == v as int,
            None => hex_val(c) < 0,
        },
{
    if c == '0' {
        Some(0)
    } else if c == '1' {
        Some(1)
    } else if c == '2' {
        Some(2)
    } else if c == '3' {
        Some(3)
    } else if c == '4' {
        Some(4)
    } else if c == '5' {
        Some(5)
    } else if c == '6' {
        Some(6)
    } else if c == '7' {
        Some(7)
    } else if c == '8' {
        Some(8)
    } else if c == '9' {
        Some(9)
    } else if c == 'a' || c == 'A' {
        Some(10)
    } else if c == 'b' || c == 'B' {
        Some(11)
    } else if c == 'c' || c == 'C' {
        Some(12)
    } else if c == 'd' || c == 'D' {
        Some(13)
    } else if c == 'e' || c == 'E' {
        Some(14)
    } else if c == 'f' || c == 'F' {
        Some(15)
    } else {
        None
    }
}

fn unescape_two_exec(e: char) -> (r: Option<char>)
    ensures
        r == unescape_two(e),
{
    if e == '"' {
        Some('"')
    } else if e == '\\' {
        Some('\\')
    } else if e == '/' {
        Some('/')
    } else if e == 'b' {
        Some('\u{8}')
    } else if e == 't' {
        Some('\u{9}')
    } else if e == 'n' {
        Some('\u{a}')
    } else if e == 'f' {
        Some('\u{c}')
    } else if e == 'r' {
        Some('\u{d}')
    } else {
        None
    }
}

/// Relies on std's `char::from_u32`: it yields a character exactly for the
/// Unicode scalar values, the one with that code point.
#[verifier::external_body]
fn char_from_u32(u: u32) -> (r: Option<char>)
    ensures
        r is Some <==> is_scalar_value(u as int),
        r matches Some(c) ==> (c as u32) == u,
{
    char::from_u32(u)
}

/// Appends `escape_str(s@)` to `out`.
fn append_escaped(out: &mut String, s: &str)
    ensures
        final(out)@ == old(out)@ + escape_str(s@),
{
    let n = s.unicode_len();
    let mut i: usize = 0;
    proof {
        assert(old(out)@ + escape_str(s@.take(0)) =~= old(out)@);
    }
    while i < n
        invariant
            n == s@.len(),
            i <= n,
            out@ == old(out)@ + escape_str(s@.take(i as int)),
        decreases n - i,
    {
        let c = s.get_char(i);
        if c == '"' {
            crate::utils::push_char(out, '\\');
            crate::utils::push_char(out, '"');
        } else if c == '\\' {
            crate::utils::push_char(out, '\\');
            crate::utils::push_char(out, '\\');
        } else if c == '\u{8}' {
            crate::utils::push_char(out, '\\');
            crate::utils::push_char(out, 'b');
        } else if c == '\u{9}' {
            crate::utils::push_char(out, '\\');
            crate::utils::push_char(out, 't');
        } else if c == '\u{a}' {
            crate::utils::push_char(out, '\\');
            crate::utils::push_char(out, 'n');
        } else if c == '\u{c}' {
            crate::utils::push_char(out, '\\');
            crate::utils::push_char(out, 'f');
        } else if c == '\u{d}' {
            crate::utils::push_char(out, '\\');
            crate::utils::push_char(out, 'r');
        } else if (c as u32) < 0x20 {
            let v: u32 = c as u32;
            crate::utils::push_char(out, '\\');
            crate::utils::push_char(out, 'u');
            crate::utils::push_char(out, '0');
            crate::utils::push_char(out, '0');
            crate::utils::push_char(out, hex_digit_exec(v / 16));
            crate::utils::push_char(out, hex_digit_exec(v % 16));
        } else {
            crate::utils::push_char(out, c);
        }
        proof {
            assert(s@.take(i as int + 1).drop_last() =~= s@.take(i as int));
            assert(s@.take(i as int + 1).last() == s@[i as int]);
            assert(out@ =~= old(out)@ + escape_str(s@.take(i as int + 1)));
        }
        i += 1;
    }
    proof {
        assert(s@.take(n as int) =~= s@);
    }
}

/// Appends an optional string field in its wire form.
fn append_opt_string(out: &mut String, o: &Option<String>)
    ensures
        final(out)@ == old(out)@ + encode_opt_string(crate::ipc::view_opt_string(o)),
{
    match o {
        None => {
            out.append("null");
        },
        Some(t) => {
            out.append("\"");
            append_escaped(out, t.as_str());
            out.append("\"");
            proof {
                reveal_strlit("\"");
                assert("\""@ =~= seq!['"']);
                assert(out@ =~= old(out)@ + quoted(t@));
            }
        },
    }
}

/// Encodes a response into its canonical wire form.
pub fn encode_response(resp: &IpcResponse) -> (r: String)
    ensures
        r@ == spec_encode_response(resp@),
{
    match resp {
        IpcResponse::Success => String::from_str("\"Success\""),
        IpcResponse::Error(m) => {
            let mut out = String::from_str("{\"Error\":");
            out.append("\"");
            append_escaped(&mut out, m.as_str());
            out.append("\"");
            out.append("}");
            proof {
                reveal_strlit("\"");
                assert("\""@ =~= seq!['"']);
                assert(out@ =~= spec_encode_response(resp@));
            }
            out
        },
        IpcResponse::CurrentSong { title, artist, album, state } => {
            let mut out = String::from_str("{\"CurrentSong\":{\"title\":");
            append_opt_string(&mut out, title);
            out.append(",\"artist\":");
            append_opt_string(&mut out, artist);
            out.append(",\"album\":");
            append_opt_string(&mut out, album);
            out.append(",\"state\":");
            out.append("\"");
            append_escaped(&mut out, state.to_token());
            out.append("\"");
            out.append("}}");
            proof {
                reveal_strlit("\"");
                assert("\""@ =~= seq!['"']);
                assert(out@ =~= spec_encode_response(resp@));
            }
            out
        },
        IpcResponse::Status { running, discord_connected, discord_open, music_app_open } => {
            let mut out = String::from_str("{\"Status\":{\"running\":");
            out.append(if *running {
                "true"
            } else {
                "false"
            });
            out.append(",\"discord_connected\":");
            out.append(if *discord_connected {
                "true"
            } else {
                "false"
            });
            out.append(",\"discord_open\":");
            out.append(if *discord_open {
                "true"
            } else {
                "false"
            });
            out.append(",\"music_app_open\":");
            out.append(if *music_app_open {
                "true"
            } else {
                "false"
            });
            out.append("}}");
            proof {
                assert(out@ =~= spec_encode_response(resp@));
            }
            out
        },
    }
}

/// Encodes a request envelope into its canonical wire form.
pub fn encode_request(msg: &IpcMessage) -> (r: String)
    ensures
        r@ == spec_encode_request(msg.command),
{
    match msg.command {
        IpcCommand::Start => String::from_str("{\"command\":\"Start\"}"),
        IpcCommand::Stop => String::from_str("{\"command\":\"Stop\"}"),
        IpcCommand::CurrentSong => String::from_str("{\"command\":\"CurrentSong\"}"),
        IpcCommand::Status => String::from_str("{\"command\":\"Status\"}"),
        IpcCommand::Shutdown => String::from_str("{\"command\":\"Shutdown\"}"),
    }
}

/// Walks past whitespace from `i`.
fn skip_ws_exec(s: &str, i: usize) -> (r: usize)
    requires
        i <= s@.len(),
    ensures
        r as int == skip_ws(s@, i as int),
        i <= r <= s@.len(),
{
    let n = s.unicode_len();
    let mut j: usize = i;
    while j < n
        invariant
            i <= j <= n,
            n == s@.len(),
            skip_ws(s@, i as int) == skip_ws(s@, j as int),
        decreases n - j,
    {
        let c = s.get_char(j);
        if c == ' ' || c == '\t' || c == '\n' || c == '\r' {
            j = j + 1;
        } else {
            return j;
        }
    }
    j
}

/// Decodes a request envelope: the one-key `command` object, whitespace
/// allowed around the tokens.
pub fn decode_request(line: &str) -> (r: Option<IpcMessage>)
    ensures
        match r {
            Some(m) => spec_decode_request(line@) == Some(m.command),
            None => spec_decode_request(line@) is None,
        },
{
    let n = line.unicode_len();
    let i0 = skip_ws_exec(line, 0);
    if i0 >= n || line.get_char(i0) != '{' {
        return None;
    }
    let i1 = skip_ws_exec(line, i0 + 1);
    if !starts_with_at(line, i1, "\"command\"") {
        return None;
    }
    let klen = "\"command\"".unicode_len();
    let i2 = skip_ws_exec(line, i1 + klen);
    if i2 >= n || line.get_char(i2) != ':' {
        return None;
    }
    let i3 = skip_ws_exec(line, i2 + 1);
    match read_quoted(line, i3) {
        None => None,
        Some((tok, j)) => {
            let i4 = skip_ws_exec(line, j);
            if i4 >= n || line.get_char(i4) != '}' {
                return None;
            }
            let i5 = skip_ws_exec(line, i4 + 1);
            if i5 != n {
                return None;
            }
            if crate::utils::str_eq(tok.as_str(), "Start") {
                Some(IpcMessage { command: IpcCommand::Start })
            } else if crate::utils::str_eq(tok.as_str(), "Stop") {
                Some(IpcMessage { command: IpcCommand::Stop })
            } else if crate::utils::str_eq(tok.as_str(), "CurrentSong") {
                Some(IpcMessage { command: IpcCommand::CurrentSong })
            } else if crate::utils::str_eq(tok.as_str(), "Status") {
                Some(IpcMessage { command: IpcCommand::Status })
            } else if crate::utils::str_eq(tok.as_str(), "Shutdown") {
                Some(IpcMessage { command: IpcCommand::Shutdown })
            } else {
                None
            }
        },
    }
}

/// Whether `p` stands letter for letter in `s` at position `i`.
fn starts_with_at(s: &str, i: usize, p: &str) -> (r: bool)
    ensures
        r == starts_at(s@, i as int, p@),
{
    let n = s.unicode_len();
    let m = p.unicode_len();
    if i > n || m > n - i {
        return false;
    }
    let mut k: usize = 0;
    while k < m
        invariant
            n == s@.len(),
            m == p@.len(),
            i + m <= n,
            k <= m,
            forall|x: int| 0 <= x < k ==> s@[i + x] == p@[x],
        decreases m - k,
    {
        if s.get_char(i + k) != p.get_char(k) {
            proof {
                if starts_at(s@, i as int, p@) {
                    lemma_index_of_subrange(s@, i as int, p@, k as int);
                }
            }
            return false;
        }
        k += 1;
    }
    proof {
        assert(s@.subrange(i as int, i + p@.len()) =~= p@);
    }
    true
}

/// A successful parse always moves forward and stays inside the input.
proof fn lemma_parse_bounds(s: Seq<char>, i: int)
    ensures
        match parse_string_body(s, i) {
            Some((t, j)) => i < j <= s.len(),
            None => true,
        },
    decreases s.len() - i,
{
    if i < 0 || i >= s.len() {
    } else if s[i] == '"' {
    } else if s[i] == '\\' {
        if i + 1 < s.len() {
            if s[i + 1] == 'u' {
                if i + 6 <= s.len() {
                    lemma_parse_bounds(s, i + 6);
                }
            } else {
                lemma_parse_bounds(s, i + 2);
            }
        }
    } else {
        lemma_parse_bounds(s, i + 1);
    }
}

/// Reads a JSON string literal's body from `start` (just past the opening
/// quote), unescaping it, up to and including the closing quote.
fn read_string_body(s: &str, start: usize) -> (r: Option<(String, usize)>)
    ensures
        match r {
            Some((t, j)) => parse_string_body(s@, start as int) == Some((t@, j as int)) && j
                <= s@.len(),
            None => parse_string_body(s@, start as int) is None,
        },
{
    let n = s.unicode_len();
    let mut i: usize = start;
    let mut out = String::new();
    proof {
        lemma_parse_bounds(s@, start as int);
        if let Some((t, j)) = parse_string_body(s@, start as int) {
            assert(Seq::<char>::empty() + t =~= t);
        }
    }
    loop
        invariant
            n == s@.len(),
            out@.len() >= 0,
            (match parse_string_body(s@, i as int) {
                Some((t, j)) => parse_string_body(s@, start as int) == Some((out@ + t, j)) && 0
                    <= j <= s@.len(),
                None => parse_string_body(s@, start as int) is None,
            }),
        decreases n - i,
    {
        if i >= n {
            return None;
        }
        let ghost prev_out = out@;
        let c = s.get_char(i);
        if c == '"' {
            proof {
                assert(prev_out + Seq::<char>::empty() =~= prev_out);
            }
            return Some((out, i + 1));
        } else if c == '\\' {
            if i + 1 >= n {
                return None;
            }
            let e = s.get_char(i + 1);
            if e == 'u' {
                if n - i < 6 {
                    return None;
                }
                let h1 = hex_val_exec(s.get_char(i + 2));
                let h2 = hex_val_exec(s.get_char(i + 3));
                let h3 = hex_val_exec(s.get_char(i + 4));
                let h4 = hex_val_exec(s.get_char(i + 5));
                match (h1, h2, h3, h4) {
                    (Some(d1), Some(d2), Some(d3), Some(d4)) => {
                        let v: u32 = d1 * 4096 + d2 * 256 + d3 * 16 + d4;
                        match char_from_u32(v) {
                            Some(ch) => {
                                crate::utils::push_char(&mut out, ch);
                                i = i + 6;
                                proof {
                                    vstd::utf8::char_u32_cast(ch, v);
                                    lemma_parse_bounds(s@, i as int);
                                    if let Some((t, j)) = parse_string_body(s@, i as int) {
                                        assert(prev_out.push(ch) + t =~= prev_out + (seq![ch]
                                            + t));
                                    }
                                }
                            },
                            None => {
                                return None;
                            },
                        }
                    },
                    _ => {
                        return None;
                    },
                }
            } else {
                match unescape_two_exec(e) {
                    Some(ch) => {
                        crate::utils::push_char(&mut out, ch);
                        i = i + 2;
                        proof {
                            lemma_parse_bounds(s@, i as int);
                            if let Some((t, j)) = parse_string_body(s@, i as int) {
                                assert(prev_out.push(ch) + t =~= prev_out + (seq![ch] + t));
                            }
                        }
                    },
                    None => {
                        return None;
                    },
                }
            }
        } else {
            crate::utils::push_char(&mut out, c);
            i = i + 1;
            proof {
                lemma_parse_bounds(s@, i as int);
                if let Some((t, j)) = parse_string_body(s@, i as int) {
                    assert(prev_out.push(c) + t =~= prev_out + (seq![c] + t));
                }
            }
        }
    }
}

/// Reads a JSON string literal at `i`: the opening quote, then its body.
pub(crate) fn read_quoted(s: &str, i: usize) -> (r: Option<(String, usize)>)
    ensures
        match r {
            Some((t, j)) => parse_quoted(s@, i as int) == Some((t@, j as int)) && j <= s@.len(),
            None => parse_quoted(s@, i as int) is None,
        },
{
    let n = s.unicode_len();
    if i < n {
        let c = s.get_char(i);
        if c == '"' {
            return read_string_body(s, i + 1);
        }
    }
    None
}

/// Reads `null` or a JSON string literal at `i`.
fn read_opt_string(s: &str, i: usize) -> (r: Option<(Option<String>, usize)>)
    ensures
        match r {
            Some((o, j)) => parse_opt_string(s@, i as int) == Some(
                (crate::ipc::view_opt_string(&o), j as int),
            ) && j <= s@.len(),
            None => parse_opt_string(s@, i as int) is None,
        },
{
    let n = s.unicode_len();
    if starts_with_at(s, i, "null") {
        let l = "null".unicode_len();
        proof {
            assert(i + l <= n);
        }
        return Some((None, i + l));
    }
    match read_quoted(s, i) {
        Some((t, j)) => Some((Some(t), j)),
        None => None,
    }
}

/// Reads a JSON boolean literal at `i`.
fn read_bool(s: &str, i: usize) -> (r: Option<(bool, usize)>)
    ensures
        match r {
            Some((b, j)) => parse_bool(s@, i as int) == Some((b, j as int)) && j <= s@.len(),
            None => parse_bool(s@, i as int) is None,
        },
{
    let n = s.unicode_len();
    if starts_with_at(s, i, "true") {
        let l = "true".unicode_len();
        proof {
            assert(i + l <= n);
        }
        Some((true, i + l))
    } else if starts_with_at(s, i, "false") {
        let l = "false".unicode_len();
        proof {
            assert(i + l <= n);
        }
        Some((false, i + l))
    } else {
        None
    }
}

/// Decodes a response from its canonical wire form.
pub fn decode_response(s: &str) -> (r: Option<IpcResponse>)
    ensures
        match r {
            Some(v) => spec_decode_response(s@) == Some(v@),
            None => spec_decode_response(s@) is None,
        },
{
    if crate::utils::str_eq(s, "\"Success\"") {
        return Some(IpcResponse::Success);
    }
    if starts_with_at(s, 0, "{\"Error\":\"") {
        let i0 = "{\"Error\":\"".unicode_len();
        match read_string_body(s, i0) {
            Some((m, j)) => {
                proof {
                    reveal_strlit("}");
                }
                let n = s.unicode_len();
                if n - j == 1 && starts_with_at(s, j, "}") {
                    return Some(IpcResponse::Error(m));
                }
                return None;
            },
            None => {
                return None;
            },
        }
    }
    if starts_with_at(s, 0, "{\"CurrentSong\":{\"title\":") {
        let i0 = "{\"CurrentSong\":{\"title\":".unicode_len();
        return decode_current_song_exec(s, i0);
    }
    if starts_with_at(s, 0, "{\"Status\":{\"running\":") {
        let i0 = "{\"Status\":{\"running\":".unicode_len();
        return decode_status_exec(s, i0);
    }
    None
}

fn decode_current_song_exec(s: &str, i0: usize) -> (r: Option<IpcResponse>)
    requires
        i0 == "{\"CurrentSong\":{\"title\":"@.len(),
    ensures
        match r {
            Some(v) => decode_current_song_fields(s@, i0 as int) == Some(v@),
            None => decode_current_song_fields(s@, i0 as int) is None,
        },
{
    let n = s.unicode_len();
    match read_opt_string(s, i0) {
        Some((title, i1)) => {
            if !starts_with_at(s, i1, ",\"artist\":") {
                return None;
            }
            let i1b = i1 + ",\"artist\":".unicode_len();
            match read_opt_string(s, i1b) {
                Some((artist, i2)) => {
                    if !starts_with_at(s, i2, ",\"album\":") {
                        return None;
                    }
                    let i2b = i2 + ",\"album\":".unicode_len();
                    match read_opt_string(s, i2b) {
                        Some((album, i3)) => {
                            if !starts_with_at(s, i3, ",\"state\":") {
                                return None;
                            }
                            let i3b = i3 + ",\"state\":".unicode_len();
                            match read_quoted(s, i3b) {
                                Some((tok, i4)) => {
                                    let l2 = "}}".unicode_len();
                                    if n - i4 == l2 && starts_with_at(s, i4, "}}") {
                                        let state = crate::models::PlayerState::from_token(
                                            tok.as_str(),
                                        );
                                        Some(
                                            IpcResponse::CurrentSong {
                                                title,
                                                artist,
                                                album,
                                                state,
                                            },
                                        )
                                    } else {
                                        None
                                    }
                                },
                                None => None,
                            }
                        },
                        None => None,
                    }
                },
                None => None,
            }
        },
        None => None,
    }
}

fn decode_status_exec(s: &str, i0: usize) -> (r: Option<IpcResponse>)
    requires
        i0 == "{\"Status\":{\"running\":"@.len(),
    ensures
        match r {
            Some(v) => decode_status_fields(s@, i0 as int) == Some(v@),
            None => decode_status_fields(s@, i0 as int) is None,
        },
{
    let n = s.unicode_len();
    match read_bool(s, i0) {
        Some((running, i1)) => {
            if !starts_with_at(s, i1, ",\"discord_connected\":") {
                return None;
            }
            let i1b = i1 + ",\"discord_connected\":".unicode_len();
            match read_bool(s, i1b) {
                Some((discord_connected, i2)) => {
                    if !starts_with_at(s, i2, ",\"discord_open\":") {
                        return None;
                    }
                    let i2b = i2 + ",\"discord_open\":".unicode_len();
                    match read_bool(s, i2b) {
                        Some((discord_open, i3)) => {
                            if !starts_with_at(s, i3, ",\"music_app_open\":") {
                                return None;
                            }
                            let i3b = i3 + ",\"music_app_open\":".unicode_len();
                            match read_bool(s, i3b) {
                                Some((music_app_open, i4)) => {
                                    let l2 = "}}".unicode_len();
                                    if n - i4 == l2 && starts_with_at(s, i4, "}}") {
                                        Some(
                                            IpcResponse::Status {
                                                running,
                                                discord_connected,
                                                discord_open,
                                                music_app_open,
                                            },
                                        )
                                    } else {
                                        None
                                    }
                                },
                                None => None,
                            }
                        },
                        None => None,
                    }
                },
                None => None,
            }
        },
        None => None,
    }
}

} // verus!
