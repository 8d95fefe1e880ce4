//! The hex codec: validates and decodes a textual hex payload into a byte
//! buffer, and encodes a byte buffer back into hex.
//!
//! A payload is normalized first (whitespace and line breaks stripped); it is
//! well formed when the normalized text has even length and every character
//! is a hexadecimal digit, case-insensitively. Decoding turns each
//! two-character group into one octet, preserving order, and never truncates
//! a malformed payload silently.

use vstd::prelude::*;
use vstd::string::*;
use crate::error::{ErrorKind, PrinterError};

verus! {

/// Whether a character is stripped from a hex payload before validation:
/// spaces, tabs and line breaks.
pub open spec fn is_hex_space(c: char) -> bool {
    c == ' ' || c == '\t' || c == '\n' || c == '\r'
}

/// Whether a character is a hexadecimal digit, case-insensitively.
pub open spec fn is_hex_digit(c: char) -> bool {
    (48 <= c as u32 && c as u32 <= 57)  // '0' ..= '9'
    || (65 <= c as u32 && c as u32 <= 70)  // 'A' ..= 'F'
    || (97 <= c as u32 && c as u32 <= 102)  // 'a' ..= 'f'
}

/// The numeric value of a hexadecimal digit.
pub open spec fn hex_digit_value(c: char) -> u8
    recommends
        is_hex_digit(c),
{
    if 48 <= c as u32 && c as u32 <= 57 {
        (c as u32 - 48) as u8
    } else if 65 <= c as u32 && c as u32 <= 70 {
        (c as u32 - 55) as u8
    } else {
        (c as u32 - 87) as u8
    }
}

/// The octet denoted by a two-character hex group.
pub open spec fn byte_of_pair(hi: char, lo: char) -> u8
    recommends
        is_hex_digit(hi),
        is_hex_digit(lo),
{
    (hex_digit_value(hi) * 16 + hex_digit_value(lo)) as u8
}

/// The payload with all whitespace and line-break characters removed, order
/// of the remaining characters kept.
pub open spec fn strip_spaces(s: Seq<char>) -> Seq<char>
    decreases s.len(),
{
    if s.len() == 0 {
        Seq::empty()
    } else if is_hex_space(s.last()) {
        strip_spaces(s.drop_last())
    } else {
        strip_spaces(s.drop_last()).push(s.last())
    }
}

/// Whether a normalized payload is well formed: even length, every character
/// a hex digit.
pub open spec fn hex_valid(s: Seq<char>) -> bool {
    s.len() % 2 == 0 && (forall|i: int| 0 <= i < s.len() ==> is_hex_digit(#[trigger] s[i]))
}

/// The bytes a normalized payload denotes: one octet per two-character
/// group, in payload order.
pub open spec fn hex_bytes(s: Seq<char>) -> Seq<u8>
    recommends
        hex_valid(s),
    decreases s.len(),
{
    if s.len() < 2 {
        Seq::empty()
    } else {
        hex_bytes(s.take(s.len() - 2)).push(byte_of_pair(s[s.len() - 2], s[s.len() - 1]))
    }
}

/// The lowercase hex digit for a nibble.
pub open spec fn hex_char_of(n: u8) -> char
    recommends
        n < 16,
{
    if n == 0 {
        '0'
    } else if n == 1 {
        '1'
    } else if n == 2 {
        '2'
    } else if n == 3 {
        '3'
    } else if n == 4 {
        '4'
    } else if n == 5 {
        '5'
    } else if n == 6 {
        '6'
    } else if n == 7 {
        '7'
    } else if n == 8 {
        '8'
    } else if n == 9 {
        '9'
    } else if n == 10 {
        'a'
    } else if n == 11 {
        'b'
    } else if n == 12 {
        'c'
    } else if n == 13 {
        'd'
    } else if n == 14 {
        'e'
    } else {
        'f'
    }
}

/// The lowercase hex text for a byte sequence: two digits per byte, in
/// sequence order.
pub open spec fn hex_string(bs: Seq<u8>) -> Seq<char>
    decreases bs.len(),
{
    if bs.len() == 0 {
        Seq::empty()
    } else {
        hex_string(bs.drop_last()).push(hex_char_of((bs.last() / 16) as u8)).push(
            hex_char_of((bs.last() % 16) as u8),
        )
    }
}

/// The numeric value of a hex digit, or `None` for any other character.
fn parse_hex_digit(c: char) -> (r: Option<u8>)
    ensures
        r is Some <==> is_hex_digit(c),
        r is Some ==> r->0 == hex_digit_value(c) && r->0 < 16,
{
    let v = c as u32;
    if 48 <= v && v <= 57 {
        Some((v - 48) as u8)
    } else if 65 <= v && v <= 70 {
        Some((v - 55) as u8)
    } else if 97 <= v && v <= 102 {
        Some((v - 87) as u8)
    } else {
        None
    }
}

/// Decodes a textual hex payload into the byte buffer it denotes.
///
/// Whitespace and line breaks anywhere in the payload are ignored. Decoding
/// succeeds exactly when the normalized payload is well formed, and then
/// yields one byte per two-character group, half as many bytes as normalized
/// characters; any odd-length or invalid-character payload is rejected whole
/// with an `InvalidHex` error.
pub fn decode_hex(text: &str) -> (r: Result<Vec<u8>, PrinterError>)
    ensures
        r is Ok <==> hex_valid(strip_spaces(text@)),
        r is Ok ==> r->Ok_0@ == hex_bytes(strip_spaces(text@)) && r->Ok_0@.len() * 2
            == strip_spaces(text@).len(),
        r is Err ==> r->Err_0.kind == ErrorKind::InvalidHex,
{
    let n = text.unicode_len();
    let mut cleaned: Vec<char> = Vec::new();
    let mut i: usize = 0;
    while i < n
        invariant
            n == text@.len(),
            i <= n,
            cleaned@ == strip_spaces(text@.take(i as int)),
        decreases n - i,
    {
        let c = text.get_char(i);
        proof {
            assert(text@.take(i + 1).drop_last() =~= text@.take(i as int));
            assert(text@.take(i + 1).last() == c);
        }
        if !(c == ' ' || c == '\t' || c == '\n' || c == '\r') {
            cleaned.push(c);
        }
        i += 1;
    }
    proof {
        assert(text@.take(n as int) =~= text@);
    }
    if cleaned.len() % 2 != 0 {
        return Err(
            PrinterError::new(
                ErrorKind::InvalidHex,
                String::from_str("hex payload has an odd number of digits"),
            ),
        );
    }
    let mut out: Vec<u8> = Vec::new();
    let mut j: usize = 0;
    while j < cleaned.len()
        invariant
            cleaned@ == strip_spaces(text@),
            cleaned@.len() % 2 == 0,
            j % 2 == 0,
            j <= cleaned.len(),
            forall|k: int| 0 <= k < j ==> is_hex_digit(#[trigger] cleaned@[k]),
            out@ == hex_bytes(cleaned@.take(j as int)),
        decreases cleaned.len() - j,
    {
        let c1 = cleaned[j];
        let c2 = cleaned[j + 1];
        let v1 = parse_hex_digit(c1);
        let v2 = parse_hex_digit(c2);
        match (v1, v2) {
            (Some(hi), Some(lo)) => {
                let b: u8 = hi * 16 + lo;
                proof {
                    let s = cleaned@;
                    assert(s.take(j + 2).take(j as int) =~= s.take(j as int));
                    assert(s.take(j + 2)[j as int] == c1);
                    assert(s.take(j + 2)[j + 1] == c2);
                    assert(b == byte_of_pair(c1, c2));
                }
                out.push(b);
            },
            _ => {
                proof {
                    assert(!is_hex_digit(cleaned@[j as int]) || !is_hex_digit(
                        cleaned@[j + 1],
                    ));
                }
                return Err(
                    PrinterError::new(
                        ErrorKind::InvalidHex,
                        String::from_str("hex payload holds a non-hexadecimal character"),
                    ),
                );
            },
        }
        j += 2;
    }
    proof {
        assert(cleaned@.take(cleaned@.len() as int) =~= cleaned@);
        lemma_hex_bytes_len(cleaned@);
    }
    Ok(out)
}

/// Encodes a byte buffer as lowercase hex text, two digits per byte.
pub fn encode_hex(bytes: &Vec<u8>) -> (r: String)
    ensures
        r@ == hex_string(bytes@),
{
    let mut s = String::new();
    let mut i: usize = 0;
    while i < bytes.len()
        invariant
            i <= bytes@.len(),
            s@ == hex_string(bytes@.take(i as int)),
        decreases bytes@.len() - i,
    {
        let b = bytes[i];
        push_hex_char(&mut s, b / 16);
        push_hex_char(&mut s, b % 16);
        proof {
            assert(bytes@.take(i + 1).drop_last() =~= bytes@.take(i as int));
            assert(bytes@.take(i + 1).last() == b);
        }
        i += 1;
    }
    proof {
        assert(bytes@.take(bytes@.len() as int) =~= bytes@);
    }
    s
}

/// Appends the lowercase hex digit for a nibble to a string.
fn push_hex_char(s: &mut String, n: u8)
    requires
        n < 16,
    ensures
        final(s)@ == old(s)@.push(hex_char_of(n)),
{
    match n {
        0 => {
            s.append("0");
            proof {
                reveal_strlit("0");
                assert(s@ =~= old(s)@.push('0'));
            }
        },
        1 => {
            s.append("1");
            proof {
                reveal_strlit("1");
                assert(s@ =~= old(s)@.push('1'));
            }
        },
        2 => {
            s.append("2");
            proof {
                reveal_strlit("2");
                assert(s@ =~= old(s)@.push('2'));
            }
        },
        3 => {
            s.append("3");
            proof {
                reveal_strlit("3");
                assert(s@ =~= old(s)@.push('3'));
            }
        },
        4 => {
            s.append("4");
            proof {
                reveal_strlit("4");
                assert(s@ =~= old(s)@.push('4'));
            }
        },
        5 => {
            s.append("5");
            proof {
                reveal_strlit("5");
                assert(s@ =~= old(s)@.push('5'));
            }
        },
        6 => {
            s.append("6");
            proof {
                reveal_strlit("6");
                assert(s@ =~= old(s)@.push('6'));
            }
        },
        7 => {
            s.append("7");
            proof {
                reveal_strlit("7");
                assert(s@ =~= old(s)@.push('7'));
            }
        },
        8 => {
            s.append("8");
            proof {
                reveal_strlit("8");
                assert(s@ =~= old(s)@.push('8'));
            }
        },
        9 => {
            s.append("9");
            proof {
                reveal_strlit("9");
                assert(s@ =~= old(s)@.push('9'));
            }
        },
        10 => {
            s.append("a");
            proof {
                reveal_strlit("a");
                assert(s@ =~= old(s)@.push('a'));
            }
        },
        11 => {
            s.append("b");
            proof {
                reveal_strlit("b");
                assert(s@ =~= old(s)@.push('b'));
            }
        },
        12 => {
            s.append("c");
            proof {
                reveal_strlit("c");
                assert(s@ =~= old(s)@.push('c'));
            }
        },
        13 => {
            s.append("d");
            proof {
                reveal_strlit("d");
                assert(s@ =~= old(s)@.push('d'));
            }
        },
        14 => {
            s.append("e");
            proof {
                reveal_strlit("e");
                assert(s@ =~= old(s)@.push('e'));
            }
        },
        _ => {
            s.append("f");
            proof {
                reveal_strlit("f");
                assert(s@ =~= old(s)@.push('f'));
            }
        },
    }
}

/// A well-formed payload denotes exactly half as many bytes as it has
/// characters.
pub proof fn lemma_hex_bytes_len(s: Seq<char>)
    requires
        s.len() % 2 == 0,
    ensures
        hex_bytes(s).len() * 2 == s.len(),
    decreases s.len(),
{
    if s.len() >= 2 {
        lemma_hex_bytes_len(s.take(s.len() - 2));
    }
}

/// Every character the encoder emits is a hex digit, never whitespace.
proof fn lemma_hex_char_of_props(n: u8)
    requires
        n < 16,
    ensures
        is_hex_digit(hex_char_of(n)),
        !is_hex_space(hex_char_of(n)),
        hex_digit_value(hex_char_of(n)) == n,
{
}

/// Law: the encoder's output is a well-formed hex payload as it stands —
/// two digits per byte, no whitespace to strip.
pub proof fn lemma_hex_string_valid(bs: Seq<u8>)
    ensures
        hex_string(bs).len() == 2 * bs.len(),
        hex_valid(hex_string(bs)),
        strip_spaces(hex_string(bs)) == hex_string(bs),
    decreases bs.len(),
{
    if bs.len() == 0 {
        assert(strip_spaces(hex_string(bs)) =~= hex_string(bs));
    } else {
        let prev = hex_string(bs.drop_last());
        let c1 = hex_char_of((bs.last() / 16) as u8);
        let c2 = hex_char_of((bs.last() % 16) as u8);
        lemma_hex_string_valid(bs.drop_last());
        lemma_hex_char_of_props((bs.last() / 16) as u8);
        lemma_hex_char_of_props((bs.last() % 16) as u8);
        let cur = hex_string(bs);
        assert(cur == prev.push(c1).push(c2));
        assert forall|i: int| 0 <= i < cur.len() implies is_hex_digit(#[trigger] cur[i]) by {
            if i < prev.len() {
                assert(cur[i] == prev[i]);
            } else if i == prev.len() {
                assert(cur[i] == c1);
            } else {
                assert(cur[i] == c2);
            }
        }
        assert(cur.drop_last() =~= prev.push(c1));
        assert(prev.push(c1).drop_last() =~= prev);
        assert(cur.last() == c2);
        assert(prev.push(c1).last() == c1);
        assert(strip_spaces(prev.push(c1)) == strip_spaces(prev).push(c1));
        assert(strip_spaces(cur) == strip_spaces(prev.push(c1)).push(c2));
    }
}

/// Law: decoding the hex encoding of any byte buffer yields that buffer
/// back, for every buffer.
pub proof fn lemma_hex_round_trip(bs: Seq<u8>)
    ensures
        hex_valid(strip_spaces(hex_string(bs))),
        hex_bytes(strip_spaces(hex_string(bs))) == bs,
    decreases bs.len(),
{
    lemma_hex_string_valid(bs);
    if bs.len() == 0 {
        assert(hex_bytes(hex_string(bs)) =~= bs);
    } else {
        let prev = hex_string(bs.drop_last());
        let b = bs.last();
        let c1 = hex_char_of((b / 16) as u8);
        let c2 = hex_char_of((b % 16) as u8);
        lemma_hex_round_trip(bs.drop_last());
        lemma_hex_string_valid(bs.drop_last());
        lemma_hex_char_of_props((b / 16) as u8);
        lemma_hex_char_of_props((b % 16) as u8);
        let cur = hex_string(bs);
        assert(cur == prev.push(c1).push(c2));
        assert(cur.len() == prev.len() + 2);
        assert(cur.take(cur.len() - 2) =~= prev);
        assert(cur[cur.len() - 2] == c1);
        assert(cur[cur.len() - 1] == c2);
        assert(byte_of_pair(c1, c2) == b) by {
            assert(hex_digit_value(c1) == b / 16);
            assert(hex_digit_value(c2) == b % 16);
            assert((b / 16) * 16 + (b % 16) == b) by {
                vstd::arithmetic::div_mod::lemma_fundamental_div_mod(b as int, 16);
            }
        }
        assert(hex_bytes(cur) == hex_bytes(prev).push(b));
        assert(hex_bytes(prev).push(b) =~= bs);
    }
}

} // verus!
