//! Encoding of collector credentials into an HTTP Basic-auth header value.
//!
//! The header value is `"Basic "` followed by the standard padded base64
//! (RFC 4648) of the UTF-8 bytes of `username ++ ":" ++ password`.

use base64::Engine;
use vstd::prelude::*;
use vstd::utf8::encode_utf8;

verus! {

/// The digit at position `i` of the standard base64 alphabet
/// (`A`-`Z`, `a`-`z`, `0`-`9`, `+`, `/`), as an ASCII byte.
pub open spec fn b64_digit(i: int) -> u8
    recommends
        0 <= i < 64,
{
    if i < 26 {
        (65 + i) as u8  // 'A'..='Z'
    } else if i < 52 {
        (71 + i) as u8  // 'a'..='z'
    } else if i < 62 {
        (i - 4) as u8  // '0'..='9'
    } else if i == 62 {
        43u8  // '+'
    } else {
        47u8  // '/'
    }
}

/// The position of ASCII byte `b` in the standard base64 alphabet, or -1 when
/// `b` is not an alphabet byte.
pub open spec fn b64_value(b: u8) -> int {
    if 65 <= b <= 90 {
        b - 65
    } else if 97 <= b <= 122 {
        b - 71
    } else if 48 <= b <= 57 {
        b + 4
    } else if b == 43 {
        62
    } else if b == 47 {
        63
    } else {
        -1
    }
}

/// The final base64 group encoding a single trailing byte, with two bytes of
/// `=` padding (ASCII 61).
pub open spec fn b64_group1(a: u8) -> Seq<u8> {
    seq![b64_digit(a as int / 4), b64_digit((a as int % 4) * 16), 61u8, 61u8]
}

/// The final base64 group encoding two trailing bytes, with one byte of `=`
/// padding.
pub open spec fn b64_group2(a: u8, b: u8) -> Seq<u8> {
    seq![
        b64_digit(a as int / 4),
        b64_digit((a as int % 4) * 16 + b as int / 16),
        b64_digit((b as int % 16) * 4),
        61u8,
    ]
}

/// A full base64 group encoding three bytes.
pub open spec fn b64_group3(a: u8, b: u8, c: u8) -> Seq<u8> {
    seq![
        b64_digit(a as int / 4),
        b64_digit((a as int % 4) * 16 + b as int / 16),
        b64_digit((b as int % 16) * 4 + c as int / 64),
        b64_digit(c as int % 64),
    ]
}

/// Standard padded base64 (RFC 4648) of a byte sequence.
pub open spec fn b64_encode(s: Seq<u8>) -> Seq<u8>
    decreases s.len(),
{
    if s.len() == 0 {
        seq![]
    } else if s.len() == 1 {
        b64_group1(s[0])
    } else if s.len() == 2 {
        b64_group2(s[0], s[1])
    } else {
        b64_group3(s[0], s[1], s[2]) + b64_encode(s.skip(3))
    }
}

/// The characters of an ASCII byte sequence.
pub open spec fn ascii_chars(s: Seq<u8>) -> Seq<char> {
    Seq::new(s.len(), |i: int| s[i] as char)
}

/// The byte string whose base64 goes into the header: the UTF-8 bytes of the
/// username, a colon (ASCII 58), and the UTF-8 bytes of the password.
pub open spec fn auth_payload(user: Seq<char>, pass: Seq<char>) -> Seq<u8> {
    encode_utf8(user) + seq![58u8] + encode_utf8(pass)
}

/// The full Basic-auth header value for a credential pair.
pub open spec fn basic_header(user: Seq<char>, pass: Seq<char>) -> Seq<char> {
    "Basic "@ + ascii_chars(b64_encode(auth_payload(user, pass)))
}

/// Canonical decode of standard padded base64: `None` on anything that
/// `b64_encode` cannot produce (wrong length, stray padding, non-canonical
/// trailing bits).
pub open spec fn b64_decode(s: Seq<u8>) -> Option<Seq<u8>>
    decreases s.len(),
{
    if s.len() == 0 {
        Some(seq![])
    } else if s.len() % 4 != 0 {
        None
    } else {
        let i0 = b64_value(s[0]);
        let i1 = b64_value(s[1]);
        if i0 < 0 || i1 < 0 {
            None
        } else if s.len() == 4 && s[2] == 61 && s[3] == 61 {
            if i1 % 16 == 0 {
                Some(seq![(i0 * 4 + i1 / 16) as u8])
            } else {
                None
            }
        } else if s.len() == 4 && s[3] == 61 {
            let i2 = b64_value(s[2]);
            if i2 < 0 {
                None
            } else if i2 % 4 == 0 {
                Some(seq![(i0 * 4 + i1 / 16) as u8, ((i1 % 16) * 16 + i2 / 4) as u8])
            } else {
                None
            }
        } else {
            let i2 = b64_value(s[2]);
            let i3 = b64_value(s[3]);
            if i2 < 0 || i3 < 0 {
                None
            } else {
                match b64_decode(s.skip(4)) {
                    Some(rest) => Some(
                        seq![
                            (i0 * 4 + i1 / 16) as u8,
                            ((i1 % 16) * 16 + i2 / 4) as u8,
                            ((i2 % 4) * 64 + i3) as u8,
                        ] + rest,
                    ),
                    None => None,
                }
            }
        }
    }
}

/// Every alphabet digit maps back to its position, differs from the padding
/// byte, and is ASCII.
pub proof fn lemma_b64_digit_value(i: int)
    requires
        0 <= i < 64,
    ensures
        b64_value(b64_digit(i)) == i,
        b64_digit(i) != 61,
        b64_digit(i) < 128,
{
}

/// The encoding takes four output bytes per started group of three input
/// bytes.
pub proof fn lemma_b64_encode_len(s: Seq<u8>)
    ensures
        b64_encode(s).len() == 4 * ((s.len() + 2) / 3),
    decreases s.len(),
{
    if s.len() >= 3 {
        lemma_b64_encode_len(s.skip(3));
    }
}

/// Every byte of an encoding is ASCII.
pub proof fn lemma_b64_encode_ascii(s: Seq<u8>)
    ensures
        forall|j: int| 0 <= j < b64_encode(s).len() ==> #[trigger] b64_encode(s)[j] < 128,
    decreases s.len(),
{
    assert forall|i: int| 0 <= i < 64 implies #[trigger] b64_digit(i) < 128 by {
        lemma_b64_digit_value(i);
    }
    if s.len() >= 3 {
        lemma_b64_encode_ascii(s.skip(3));
        let g = b64_group3(s[0], s[1], s[2]);
        let rest = b64_encode(s.skip(3));
        assert forall|j: int| 0 <= j < b64_encode(s).len() implies #[trigger] b64_encode(s)[j]
            < 128 by {
            if j < 4 {
                assert(b64_encode(s)[j] == g[j]);
            } else {
                assert(b64_encode(s)[j] == rest[j - 4]);
            }
        }
    }
}

/// Decoding inverts encoding: `b64_decode` recovers exactly the bytes that
/// were encoded.
pub proof fn lemma_b64_round_trip(s: Seq<u8>)
    ensures
        b64_decode(b64_encode(s)) == Some(s),
    decreases s.len(),
{
    assert forall|i: int| 0 <= i < 64 implies b64_value(#[trigger] b64_digit(i)) == i
        && b64_digit(i) != 61 && b64_digit(i) < 128 by {
        lemma_b64_digit_value(i);
    }
    let e = b64_encode(s);
    if s.len() == 0 {
        assert(s =~= Seq::<u8>::empty());
    } else if s.len() == 1 {
        let a = s[0] as int;
        assert(b64_decode(e) == Some(seq![((a / 4) * 4 + ((a % 4) * 16) / 16) as u8]));
        assert(((a % 4) * 16) / 16 == a % 4);
        assert(((a % 4) * 16) % 16 == 0);
        assert((a / 4) * 4 + a % 4 == a);
        assert(Some(seq![((a / 4) * 4 + ((a % 4) * 16) / 16) as u8]) == Some(seq![s[0]]));
        assert(s =~= seq![s[0]]);
    } else if s.len() == 2 {
        let a = s[0] as int;
        let b = s[1] as int;
        let i0 = a / 4;
        let i1 = (a % 4) * 16 + b / 16;
        let i2 = (b % 16) * 4;
        assert(i1 / 16 == a % 4);
        assert(i1 % 16 == b / 16);
        assert(i2 % 4 == 0);
        assert(i2 / 4 == b % 16);
        assert(i0 * 4 + i1 / 16 == a);
        assert((i1 % 16) * 16 + i2 / 4 == b);
        assert(s =~= seq![s[0], s[1]]);
        assert(b64_decode(e) == Some(s));
    } else {
        let a = s[0] as int;
        let b = s[1] as int;
        let c = s[2] as int;
        let i0 = a / 4;
        let i1 = (a % 4) * 16 + b / 16;
        let i2 = (b % 16) * 4 + c / 64;
        let i3 = c % 64;
        lemma_b64_round_trip(s.skip(3));
        lemma_b64_encode_len(s.skip(3));
        lemma_b64_encode_len(s);
        assert(e.skip(4) =~= b64_encode(s.skip(3)));
        assert(i1 / 16 == a % 4);
        assert(i1 % 16 == b / 16);
        assert(i2 / 4 == b % 16);
        assert(i2 % 4 == c / 64);
        assert(i0 * 4 + i1 / 16 == a);
        assert((i1 % 16) * 16 + i2 / 4 == b);
        assert((i2 % 4) * 64 + i3 == c);
        assert(seq![s[0], s[1], s[2]] + s.skip(3) =~= s);
        assert(b64_decode(e) == Some(s));
    }
}

/// The credential pair recovered from a Basic-auth header value: after the
/// `"Basic "` prefix, the base64 text decodes to a payload that is split at
/// its first colon byte into the UTF-8 bytes of username and password.
pub open spec fn parse_basic_header(h: Seq<char>) -> Option<(Seq<char>, Seq<char>)> {
    let prefix = "Basic "@;
    if h.len() < prefix.len() || h.take(prefix.len() as int) != prefix {
        None
    } else {
        let text = h.skip(prefix.len() as int);
        if exists|i: int| 0 <= i < text.len() && #[trigger] (text[i] as int) >= 128 {
            None
        } else {
            match b64_decode(Seq::new(text.len(), |i: int| text[i] as u8)) {
                Some(payload) => split_credentials(payload),
                None => None,
            }
        }
    }
}

/// Splits a decoded payload at its first colon byte and decodes both sides
/// from UTF-8.
pub open spec fn split_credentials(payload: Seq<u8>) -> Option<(Seq<char>, Seq<char>)> {
    match payload.index_of_first(58u8) {
        Some(k) => {
            let ub = payload.take(k);
            let pb = payload.skip(k + 1);
            if vstd::utf8::valid_utf8(ub) && vstd::utf8::valid_utf8(pb) {
                Some((vstd::utf8::decode_utf8(ub), vstd::utf8::decode_utf8(pb)))
            } else {
                None
            }
        },
        None => None,
    }
}

/// The UTF-8 encoding of a text without colons contains no colon byte:
/// ASCII 58 only ever encodes the character `:` itself.
pub proof fn lemma_utf8_no_colon(text: Seq<char>)
    requires
        !text.contains(':'),
    ensures
        forall|j: int|
            0 <= j < encode_utf8(text).len() ==> #[trigger] encode_utf8(text)[j] != 58u8,
    decreases text.len(),
{
    broadcast use vstd::utf8::char_is_scalar;

    if text.len() > 0 {
        let c = text[0];
        let sc = c as u32;
        assert(c != ':') by {
            if c == ':' {
                assert(0 <= 0 < text.len() && text[0] == ':');
                assert(text.contains(':'));
            }
        }
        let g = vstd::utf8::encode_scalar(sc);
        assert forall|j: int| 0 <= j < g.len() implies #[trigger] g[j] != 58u8 by {
            if vstd::utf8::has_width_1_encoding(sc) {
                assert(g[0] == vstd::utf8::leading_byte_width_1(sc));
                assert(vstd::utf8::leading_byte_width_1(sc) != 58u8) by {
                    if vstd::utf8::leading_byte_width_1(sc) == 58u8 {
                        assert(sc == 58) by (bit_vector)
                            requires
                                sc < 0x80 && ((sc & 0x7F) as u8) == 58u8,
                        ;
                        assert(':' as u32 == 58);
                        vstd::utf8::char_u32_cast(c, sc);
                        vstd::utf8::char_u32_cast(':', 58);
                        assert(c == ':');
                    }
                }
            } else {
                let y2 = vstd::utf8::leading_byte_width_2(sc);
                let y3 = vstd::utf8::leading_byte_width_3(sc);
                let y4 = vstd::utf8::leading_byte_width_4(sc);
                let k1 = vstd::utf8::last_continuation_byte(sc);
                let k2 = vstd::utf8::second_last_continuation_byte(sc);
                let k3 = vstd::utf8::third_last_continuation_byte(sc);
                assert(y2 >= 0xc0 && y3 >= 0xe0 && y4 >= 0xf0 && k1 >= 0x80 && k2 >= 0x80
                    && k3 >= 0x80) by (bit_vector)
                    requires
                        y2 == 0xC0 | ((sc >> 6) & 0x1F) as u8,
                        y3 == 0xE0 | ((sc >> 12) & 0x0F) as u8,
                        y4 == 0xF0 | ((sc >> 18) & 0x07) as u8,
                        k1 == 0x80 | (sc & 0x3F) as u8,
                        k2 == 0x80 | ((sc >> 6) & 0x3F) as u8,
                        k3 == 0x80 | ((sc >> 12) & 0x3F) as u8,
                ;
            }
        }
        let rest = text.drop_first();
        assert(!rest.contains(':')) by {
            if rest.contains(':') {
                let i = choose|i: int| 0 <= i < rest.len() && rest[i] == ':';
                assert(text[i + 1] == ':');
                assert(text.contains(':'));
            }
        }
        lemma_utf8_no_colon(rest);
        assert forall|j: int|
            0 <= j < encode_utf8(text).len() implies #[trigger] encode_utf8(text)[j]
            != 58u8 by {
            if j < g.len() {
                assert(encode_utf8(text)[j] == g[j]);
            } else {
                assert(encode_utf8(text)[j] == encode_utf8(rest)[j - g.len()]);
            }
        }
    }
}

/// Decoding the encoded header recovers the original credential pair: for any
/// username without a colon and any password, parsing the header built by
/// `basic_header` yields exactly that pair.
pub proof fn lemma_basic_header_round_trip(user: Seq<char>, pass: Seq<char>)
    requires
        !user.contains(':'),
    ensures
        parse_basic_header(basic_header(user, pass)) == Some((user, pass)),
{
    broadcast use vstd::utf8::encode_utf8_valid_utf8;
    broadcast use vstd::utf8::encode_utf8_decode_utf8;

    reveal_strlit("Basic ");
    let prefix = "Basic "@;
    let payload = auth_payload(user, pass);
    let enc = b64_encode(payload);
    let h = basic_header(user, pass);
    lemma_b64_encode_ascii(payload);
    lemma_b64_round_trip(payload);
    assert(h.len() == prefix.len() + enc.len());
    assert(h.take(prefix.len() as int) =~= prefix);
    let text = h.skip(prefix.len() as int);
    assert(text =~= ascii_chars(enc));
    assert forall|i: int| 0 <= i < text.len() implies #[trigger] (text[i] as int) < 128 by {
        assert(text[i] == enc[i] as char);
        assert(enc[i] < 128);
    }
    let back = Seq::new(text.len(), |i: int| text[i] as u8);
    assert(back =~= enc) by {
        assert forall|i: int| 0 <= i < text.len() implies back[i] == enc[i] by {
            assert(text[i] == enc[i] as char);
            assert(enc[i] < 128);
        }
    }
    assert(b64_decode(back) == Some(payload));
    let ulen = encode_utf8(user).len() as int;
    lemma_utf8_no_colon(user);
    assert(payload[ulen] == 58u8);
    payload.index_of_first_ensures(58u8);
    assert(payload.contains(58u8));
    let k = payload.index_of_first(58u8).unwrap();
    assert(payload[k] == 58u8);
    assert(k == ulen) by {
        if k < ulen {
            assert(payload[k] == encode_utf8(user)[k]);
        }
        if k > ulen {
            assert(forall|j: int| 0 <= j < k ==> payload[j] != 58u8);
        }
    }
    assert(payload.take(k) =~= encode_utf8(user));
    assert(payload.skip(k + 1) =~= encode_utf8(pass));
    assert(split_credentials(payload) == Some((user, pass)));
}

/// Relies on base64's `Engine::encode` with the `STANDARD` engine: standard
/// alphabet, `=` padding (RFC 4648).
#[verifier::external_body]
fn b64_encode_exec(input: &[u8]) -> (r: String)
    ensures
        r@ == ascii_chars(b64_encode(input@)),
{
    base64::engine::general_purpose::STANDARD.encode(input)
}

/// Builds the `Authorization` header value for the collector credentials.
pub fn basic_auth_header(username: &str, password: &str) -> (r: String)
    ensures
        r@ == basic_header(username@, password@),
{
    let user_bytes: &[u8] = username.as_bytes();
    let pass_bytes: &[u8] = password.as_bytes();
    let mut payload: Vec<u8> = Vec::new();
    let mut i: usize = 0;
    proof {
        assert(payload@ =~= user_bytes@.take(0));
    }
    while i < user_bytes.len()
        invariant
            i <= user_bytes.len(),
            payload@ == user_bytes@.take(i as int),
        decreases user_bytes.len() - i,
    {
        payload.push(user_bytes[i]);
        i = i + 1;
        proof {
            assert(payload@ =~= user_bytes@.take(i as int));
        }
    }
    payload.push(58);  // ':'
    let mut j: usize = 0;
    proof {
        assert(user_bytes@.take(user_bytes@.len() as int) =~= user_bytes@);
        assert(payload@ =~= user_bytes@ + seq![58u8] + pass_bytes@.take(0));
    }
    while j < pass_bytes.len()
        invariant
            j <= pass_bytes.len(),
            payload@ == user_bytes@ + seq![58u8] + pass_bytes@.take(j as int),
        decreases pass_bytes.len() - j,
    {
        payload.push(pass_bytes[j]);
        j = j + 1;
        proof {
            assert(payload@ =~= user_bytes@ + seq![58u8] + pass_bytes@.take(j as int));
        }
    }
    proof {
        assert(user_bytes@.take(user_bytes@.len() as int) =~= user_bytes@);
        assert(pass_bytes@.take(pass_bytes@.len() as int) =~= pass_bytes@);
        assert(payload@ =~= auth_payload(username@, password@));
    }
    let encoded = b64_encode_exec(payload.as_slice());
    let mut r = "Basic ".to_owned();
    r.append(encoded.as_str());
    proof {
        assert(r@ =~= basic_header(username@, password@));
    }
    r
}

} // verus!
