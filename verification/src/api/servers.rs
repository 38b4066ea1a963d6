//! Public server lists and the percent-encoding of query values.

use vstd::prelude::*;
use vstd::string::StringSliceAdditionalSpecFns;
use crate::text::{decimal_spec, push_decimal};

verus! {

/// One public server of a place. The frame rate the API also reports is kept
/// by the caller; nothing here reads it.
#[derive(Debug, Clone)]
pub struct GameServer {
    /// The server's Job ID (GUID used to join this exact server).
    pub id: String,
    pub max_players: u32,
    pub playing: u32,
    /// Real ping in ms, when the API provides it.
    pub ping: Option<u32>,
}

impl GameServer {
    /// True when the server is at capacity and has no free slot.
    pub fn is_full(&self) -> (b: bool)
        ensures
            b == (self.playing >= self.max_players),
    {
        self.playing >= self.max_players
    }

    /// Free slots remaining. Never negative (playing can briefly exceed max).
    pub fn free_slots(&self) -> (n: u32)
        ensures
            n == free_slots_spec(*self),
    {
        self.max_players.saturating_sub(self.playing)
    }
}

/// Free slots of a server: what is left below the player limit, never
/// negative.
pub open spec fn free_slots_spec(s: GameServer) -> u32 {
    if s.playing >= s.max_players {
        0
    } else {
        (s.max_players - s.playing) as u32
    }
}

/// A server is full exactly when it has no free slot.
pub proof fn lemma_full_iff_no_free_slot(s: GameServer)
    ensures
        (s.playing >= s.max_players) <==> free_slots_spec(s) == 0,
        free_slots_spec(s) + s.playing >= s.max_players,
{
}

/// A byte that may stand unescaped in a URL query value (RFC 3986
/// "unreserved").
pub open spec fn is_unreserved(b: u8) -> bool {
    ||| 65 <= b <= 90
    ||| 97 <= b <= 122
    ||| 48 <= b <= 57
    ||| b == 45
    ||| b == 95
    ||| b == 46
    ||| b == 126
}

/// The uppercase hexadecimal digit of `n` (`0 <= n < 16`).
pub open spec fn hex_upper(n: nat) -> char {
    if n < 10 {
        crate::text::digit_char(n)
    } else if n == 10 {
        'A'
    } else if n == 11 {
        'B'
    } else if n == 12 {
        'C'
    } else if n == 13 {
        'D'
    } else if n == 14 {
        'E'
    } else {
        'F'
    }
}

/// How one byte is written in a percent-encoded value.
pub open spec fn percent_encode_byte(b: u8) -> Seq<char> {
    if is_unreserved(b) {
        seq![b as char]
    } else {
        seq!['%', hex_upper((b / 16) as nat), hex_upper((b % 16) as nat)]
    }
}

/// The percent-encoding of a byte string.
pub open spec fn percent_encode_spec(bytes: Seq<u8>) -> Seq<char>
    decreases bytes.len(),
{
    if bytes.len() == 0 {
        Seq::empty()
    } else {
        percent_encode_spec(bytes.drop_last()) + percent_encode_byte(bytes.last())
    }
}

fn hex_upper_char(n: u8) -> (c: char)
    requires
        n < 16,
    ensures
        c == hex_upper(n as nat),
{
    if n == 0 {
        '0'
    } else if n == 1 {
        '1'
    } else if n == 2 {
        '2'
    } else if n == 3 {
        '3'
    } else if n == 4 {
        '4'
    } else if n == 5 {
        '5'
    } else if n == 6 {
        '6'
    } else if n == 7 {
        '7'
    } else if n == 8 {
        '8'
    } else if n == 9 {
        '9'
    } else if n == 10 {
        'A'
    } else if n == 11 {
        'B'
    } else if n == 12 {
        'C'
    } else if n == 13 {
        'D'
    } else if n == 14 {
        'E'
    } else {
        'F'
    }
}

/// Appends the percent-encoding of the UTF-8 bytes of `s`.
fn push_percent_encoded(out: &mut String, s: &str)
    ensures
        final(out)@ == old(out)@ + percent_encode_spec(s.spec_bytes()),
{
    let ghost start = out@;
    let bytes = s.as_bytes();
    let n = bytes.len();
    let mut i: usize = 0;
    while i < n
        invariant
            n == bytes@.len(),
            bytes@ == s.spec_bytes(),
            i <= n,
            out@ == start + percent_encode_spec(bytes@.take(i as int)),
        decreases n - i,
    {
        let b = bytes[i];
        if (65 <= b && b <= 90) || (97 <= b && b <= 122) || (48 <= b && b <= 57) || b == 45 || b
            == 95 || b == 46 || b == 126 {
            out.push(b as char);
        } else {
            out.push('%');
            out.push(hex_upper_char(b / 16));
            out.push(hex_upper_char(b % 16));
        }
        proof {
            let t = bytes@.take(i + 1);
            assert(t.drop_last() =~= bytes@.take(i as int));
            assert(t.last() == b);
            assert(out@ =~= start + percent_encode_spec(t));
        }
        i = i + 1;
    }
    assert(bytes@.take(n as int) =~= bytes@);
}

/// Percent-encode a cursor value for safe inclusion in a URL query.
pub fn percent_encode(s: &str) -> (out: String)
    ensures
        out@ == percent_encode_spec(s.spec_bytes()),
{
    let mut out = String::new();
    push_percent_encoded(&mut out, s);
    assert(out@ =~= percent_encode_spec(s.spec_bytes()));
    out
}

/// URL-encode a query string the way serde_urlencoded / browsers do.
pub fn urlencoding(s: &str) -> (out: String)
    ensures
        out@ == percent_encode_spec(s.spec_bytes()),
{
    let mut out = String::new();
    push_percent_encoded(&mut out, s);
    assert(out@ =~= percent_encode_spec(s.spec_bytes()));
    out
}

/// The request for one page of public servers of a place. `limit` must be
/// one the API accepts (10/25/50/100); the cursor is percent-encoded.
pub fn servers_url(place_id: u64, cursor: Option<&str>, limit: u32) -> (url: String)
    ensures
        url@ == "https://games.roblox.com/v1/games/"@ + decimal_spec(place_id as nat)
            + "/servers/Public?sortOrder=Asc&limit="@ + decimal_spec(limit as nat) + match cursor {
            Some(c) => "&cursor="@ + percent_encode_spec(c.spec_bytes()),
            None => Seq::<char>::empty(),
        },
{
    let mut url = String::from_str("https://games.roblox.com/v1/games/");
    push_decimal(&mut url, place_id);
    url.append("/servers/Public?sortOrder=Asc&limit=");
    push_decimal(&mut url, limit as u64);
    let ghost before = url@;
    match cursor {
        Some(c) => {
            url.append("&cursor=");
            push_percent_encoded(&mut url, c);
            assert(url@ =~= before + ("&cursor="@ + percent_encode_spec(c.spec_bytes())));
        },
        None => {
            assert(url@ =~= before + Seq::<char>::empty());
        },
    }
    url
}

/// The value of an uppercase hexadecimal digit.
pub open spec fn hex_value(c: char) -> nat {
    if 48 <= c as u32 <= 57 {
        (c as u32 - 48) as nat
    } else {
        (c as u32 - 55) as nat
    }
}

/// Reads a percent-encoded text back into bytes: `%` and two hex digits
/// stand for one byte, any other character for its own code.
pub open spec fn percent_decode_spec(s: Seq<char>) -> Seq<u8>
    decreases s.len(),
{
    if s.len() == 0 {
        Seq::empty()
    } else if s[0] == '%' && s.len() >= 3 {
        seq![(hex_value(s[1]) * 16 + hex_value(s[2])) as u8] + percent_decode_spec(s.skip(3))
    } else {
        seq![s[0] as u8] + percent_decode_spec(s.skip(1))
    }
}

/// Encoding works byte by byte: the encoding of two byte strings one after
/// the other is their encodings one after the other.
pub proof fn lemma_encode_append(a: Seq<u8>, b: Seq<u8>)
    ensures
        percent_encode_spec(a + b) == percent_encode_spec(a) + percent_encode_spec(b),
    decreases b.len(),
{
    if b.len() == 0 {
        assert(a + b =~= a);
        assert(percent_encode_spec(a) + percent_encode_spec(b) =~= percent_encode_spec(a));
    } else {
        lemma_encode_append(a, b.drop_last());
        assert((a + b).drop_last() =~= a + b.drop_last());
        assert((a + b).last() == b.last());
        assert(percent_encode_spec(a + b) =~= percent_encode_spec(a) + percent_encode_spec(b));
    }
}

proof fn lemma_hex_round_trip(n: nat)
    requires
        n < 16,
    ensures
        hex_value(hex_upper(n)) == n,
{
}

proof fn lemma_decode_byte(x: u8, rest: Seq<char>)
    ensures
        percent_decode_spec(percent_encode_byte(x) + rest) == seq![x] + percent_decode_spec(rest),
{
    let e = percent_encode_byte(x) + rest;
    if is_unreserved(x) {
        assert(e[0] == x as char);
        assert((x as char) as u32 == x);
        assert(e.skip(1) =~= rest);
    } else {
        lemma_hex_round_trip((x / 16) as nat);
        lemma_hex_round_trip((x % 16) as nat);
        assert(e.skip(3) =~= rest);
        assert((x / 16) * 16 + x % 16 == x);
    }
}

/// Percent-encoding loses nothing: decoding the text gives the bytes back,
/// so two different cursors never reach the server as the same text.
pub proof fn lemma_percent_encoding_reversible(bytes: Seq<u8>)
    ensures
        percent_decode_spec(percent_encode_spec(bytes)) == bytes,
    decreases bytes.len(),
{
    if bytes.len() > 0 {
        let first = seq![bytes[0]];
        let rest = bytes.drop_first();
        assert(first + rest =~= bytes);
        lemma_encode_append(first, rest);
        assert(first.drop_last() =~= Seq::<u8>::empty());
        assert(percent_encode_spec(first.drop_last()) =~= Seq::<char>::empty());
        assert(first.last() == bytes[0]);
        assert(percent_encode_spec(first) =~= percent_encode_byte(bytes[0]));
        lemma_decode_byte(bytes[0], percent_encode_spec(rest));
        lemma_percent_encoding_reversible(rest);
        assert(seq![bytes[0]] + rest =~= bytes);
    } else {
        assert(percent_decode_spec(percent_encode_spec(bytes)) =~= bytes);
    }
}

/// Every character of an encoded value is an unreserved ASCII character or
/// `%`: nothing that would change the meaning of a URL is sent raw.
pub proof fn lemma_percent_encoding_url_safe(bytes: Seq<u8>)
    ensures
        forall|i: int|
            0 <= i < percent_encode_spec(bytes).len() ==> {
                let c = #[trigger] percent_encode_spec(bytes)[i];
                c == '%' || (c as u32) < 256 && is_unreserved(c as u32 as u8)
            },
    decreases bytes.len(),
{
    if bytes.len() > 0 {
        lemma_percent_encoding_url_safe(bytes.drop_last());
        let prev = percent_encode_spec(bytes.drop_last());
        let x = bytes.last();
        let e = percent_encode_byte(x);
        assert forall|i: int| 0 <= i < percent_encode_spec(bytes).len() implies {
            let c = #[trigger] percent_encode_spec(bytes)[i];
            c == '%' || (c as u32) < 256 && is_unreserved(c as u32 as u8)
        } by {
            if i >= prev.len() {
                let c = e[i - prev.len()];
                if is_unreserved(x) {
                    assert((x as char) as u32 == x);
                }
            }
        }
    }
}


/// The length of the encoding of `bytes`: one character for each unreserved
/// byte, three for each other byte.
pub open spec fn encoded_len(bytes: Seq<u8>) -> nat
    decreases bytes.len(),
{
    if bytes.len() == 0 {
        0
    } else {
        encoded_len(bytes.drop_last()) + if is_unreserved(bytes.last()) {
            1nat
        } else {
            3nat
        }
    }
}

/// An uppercase hexadecimal digit.
pub open spec fn is_upper_hex(c: char) -> bool {
    ||| 48 <= c as u32 <= 57
    ||| 65 <= c as u32 <= 70
}

/// An encoded value has one character per unreserved byte and three per
/// other byte, and every `%` in it is followed by two uppercase hexadecimal
/// digits.
pub proof fn lemma_percent_encoding_shape(bytes: Seq<u8>)
    ensures
        percent_encode_spec(bytes).len() == encoded_len(bytes),
        forall|i: int|
            0 <= i < percent_encode_spec(bytes).len() && #[trigger] percent_encode_spec(bytes)[i] == '%' ==> i
                + 2 < percent_encode_spec(bytes).len() && is_upper_hex(percent_encode_spec(bytes)[i + 1])
                && is_upper_hex(percent_encode_spec(bytes)[i + 2]),
    decreases bytes.len(),
{
    if bytes.len() > 0 {
        let rest = bytes.drop_last();
        lemma_percent_encoding_shape(rest);
        let prev = percent_encode_spec(rest);
        let x = bytes.last();
        let e = percent_encode_byte(x);
        let all = percent_encode_spec(bytes);
        assert(all == prev + e);
        assert forall|i: int| 0 <= i < all.len() && #[trigger] all[i] == '%' implies i + 2 < all.len()
            && is_upper_hex(all[i + 1]) && is_upper_hex(all[i + 2]) by {
            if i < prev.len() {
                assert(prev[i] == '%');
                assert(all[i + 1] == prev[i + 1]);
                assert(all[i + 2] == prev[i + 2]);
            } else {
                assert(all[i] == e[i - prev.len()]);
                if is_unreserved(x) {
                    assert((x as char) as u32 == x);
                    assert(e[0] == x as char);
                } else {
                    assert(is_upper_hex(hex_upper((x / 16) as nat)));
                    assert(is_upper_hex(hex_upper((x % 16) as nat)));
                    assert(i == prev.len());
                }
            }
        }
    }
}

/// A character that stands for itself in a URL query value: an ASCII letter
/// or digit, `-`, `_`, `.` or `~`.
pub open spec fn is_url_plain_char(c: char) -> bool {
    ||| 'A' <= c <= 'Z'
    ||| 'a' <= c <= 'z'
    ||| '0' <= c <= '9'
    ||| c == '-'
    ||| c == '_'
    ||| c == '.'
    ||| c == '~'
}

/// How one byte is encoded: as itself when it is a plain character, else as
/// `%` and the two uppercase hexadecimal digits of its value, so that `&`
/// becomes `%26` and a space `%20`.
pub proof fn lemma_percent_encoding_of_a_byte(b: u8)
    ensures
        is_url_plain_char(b as char) ==> percent_encode_spec(seq![b]) == seq![b as char],
        !is_url_plain_char(b as char) ==> {
            let e = percent_encode_spec(seq![b]);
            &&& e.len() == 3
            &&& e[0] == '%'
            &&& is_upper_hex(e[1]) && is_upper_hex(e[2])
            &&& hex_value(e[1]) * 16 + hex_value(e[2]) == b
        },
{
    let e = percent_encode_spec(seq![b]);
    assert(seq![b].drop_last() =~= Seq::<u8>::empty());
    assert(seq![b].last() == b);
    assert(percent_encode_spec(Seq::<u8>::empty()) =~= Seq::<char>::empty());
    assert(e =~= percent_encode_byte(b));
    if is_unreserved(b) {
        assert((b as char) as u32 == b);
    }
    if !is_unreserved(b) {
        lemma_hex_round_trip((b / 16) as nat);
        lemma_hex_round_trip((b % 16) as nat);
        assert(is_upper_hex(hex_upper((b / 16) as nat)));
        assert(is_upper_hex(hex_upper((b % 16) as nat)));
    }
}

/// Every character of an encoded value is a plain character or `%` (and
/// every `%` starts an escape, by `lemma_percent_encoding_shape`): nothing
/// that would end or split a query parameter, such as `&`, `=`, `#` or a
/// space, is sent raw.
pub proof fn lemma_percent_encoding_plain_chars(bytes: Seq<u8>)
    ensures
        forall|i: int|
            0 <= i < percent_encode_spec(bytes).len() ==> is_url_plain_char(
                #[trigger] percent_encode_spec(bytes)[i],
            ) || percent_encode_spec(bytes)[i] == '%',
    decreases bytes.len(),
{
    if bytes.len() > 0 {
        lemma_percent_encoding_plain_chars(bytes.drop_last());
        let prev = percent_encode_spec(bytes.drop_last());
        let x = bytes.last();
        let e = percent_encode_byte(x);
        let all = percent_encode_spec(bytes);
        assert(all == prev + e);
        assert forall|i: int| 0 <= i < all.len() implies is_url_plain_char(#[trigger] all[i]) || all[i]
            == '%' by {
            if i < prev.len() {
                assert(all[i] == prev[i]);
            } else {
                assert(all[i] == e[i - prev.len()]);
                if is_unreserved(x) {
                    assert((x as char) as u32 == x);
                } else {
                    assert(is_upper_hex(hex_upper((x / 16) as nat)));
                    assert(is_upper_hex(hex_upper((x % 16) as nat)));
                }
            }
        }
    }
}

} // verus!
