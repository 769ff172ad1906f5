//! Base64 text: the standard alphabet, padded with `=` to whole groups of four
//! characters.

use vstd::prelude::*;

verus! {

/// The character that stands for the six-bit value `v`: `A`-`Z` for 0-25,
/// `a`-`z` for 26-51, `0`-`9` for 52-61, then `+` and `/`.
pub open spec fn sextet_char(v: int) -> char {
    if v < 26 {
        (v + 65) as char
    } else if v < 52 {
        (v + 71) as char
    } else if v < 62 {
        (v - 4) as char
    } else if v == 62 {
        '+'
    } else {
        '/'
    }
}

/// The six-bit value that `c` stands for, if `c` is in the alphabet.
pub open spec fn char_sextet(c: char) -> Option<int> {
    let n = c as int;
    if 65 <= n <= 90 {
        Some(n - 65)
    } else if 97 <= n <= 122 {
        Some(n - 71)
    } else if 48 <= n <= 57 {
        Some(n + 4)
    } else if c == '+' {
        Some(62)
    } else if c == '/' {
        Some(63)
    } else {
        None
    }
}

/// The base64 text of `bytes`: four characters for every three bytes, the last
/// group padded with `=` where one or two bytes are left.
pub open spec fn base64_text(bytes: Seq<u8>) -> Seq<char>
    decreases bytes.len(),
{
    if bytes.len() == 0 {
        Seq::empty()
    } else if bytes.len() == 1 {
        let a = bytes[0] as int;
        seq![sextet_char(a / 4), sextet_char(a % 4 * 16), '=', '=']
    } else if bytes.len() == 2 {
        let a = bytes[0] as int;
        let b = bytes[1] as int;
        seq![sextet_char(a / 4), sextet_char(a % 4 * 16 + b / 16), sextet_char(b % 16 * 4), '=']
    } else {
        let a = bytes[0] as int;
        let b = bytes[1] as int;
        let c = bytes[2] as int;
        seq![
            sextet_char(a / 4),
            sextet_char(a % 4 * 16 + b / 16),
            sextet_char(b % 16 * 4 + c / 64),
            sextet_char(c % 64),
        ] + base64_text(bytes.skip(3))
    }
}

/// The bytes that one group of four characters stands for: three, or two or
/// one where the group ends in padding. `None` where a character is outside
/// the alphabet or the bits under the padding are not zero.
pub open spec fn group_bytes(c0: char, c1: char, c2: char, c3: char) -> Option<Seq<u8>> {
    match (char_sextet(c0), char_sextet(c1), char_sextet(c2), char_sextet(c3)) {
        (Some(p), Some(q), Some(r), Some(s)) => Some(
            seq![(p * 4 + q / 16) as u8, (q % 16 * 16 + r / 4) as u8, (r % 4 * 64 + s) as u8],
        ),
        (Some(p), Some(q), Some(r), None) => if c3 == '=' && r % 4 == 0 {
            Some(seq![(p * 4 + q / 16) as u8, (q % 16 * 16 + r / 4) as u8])
        } else {
            None
        },
        (Some(p), Some(q), None, None) => if c2 == '=' && c3 == '=' && q % 16 == 0 {
            Some(seq![(p * 4 + q / 16) as u8])
        } else {
            None
        },
        _ => None,
    }
}

/// The bytes that `text` is the base64 text of, if it is that of any.
pub open spec fn base64_bytes(text: Seq<char>) -> Option<Seq<u8>>
    decreases text.len(),
{
    if text.len() == 0 {
        Some(Seq::empty())
    } else if text.len() < 4 {
        None
    } else {
        match group_bytes(text[0], text[1], text[2], text[3]) {
            Some(head) => if head.len() < 3 {
                if text.len() == 4 {
                    Some(head)
                } else {
                    None
                }
            } else {
                match base64_bytes(text.skip(4)) {
                    Some(rest) => Some(head + rest),
                    None => None,
                }
            },
            None => None,
        }
    }
}

/// Whether `c` can occur in base64 text: a character of the alphabet, or the
/// padding character.
pub open spec fn is_base64_char(c: char) -> bool {
    char_sextet(c) is Some || c == '='
}

/// Whether `text` is made of base64 characters only.
pub open spec fn is_base64_text(text: Seq<char>) -> bool {
    forall|i: int| 0 <= i < text.len() ==> is_base64_char(#[trigger] text[i])
}

/// Every six-bit value is found again from its character.
pub proof fn sextet_round_trip(v: int)
    requires
        0 <= v < 64,
    ensures
        char_sextet(sextet_char(v)) == Some(v),
        sextet_char(v) != '=',
{
}

/// Base64 text holds nothing but characters of the alphabet and padding.
pub proof fn base64_text_is_plain(bytes: Seq<u8>)
    ensures
        is_base64_text(base64_text(bytes)),
    decreases bytes.len(),
{
    if bytes.len() >= 3 {
        let a = bytes[0] as int;
        let b = bytes[1] as int;
        let c = bytes[2] as int;
        base64_text_is_plain(bytes.skip(3));
        sextet_round_trip(a / 4);
        sextet_round_trip(a % 4 * 16 + b / 16);
        sextet_round_trip(b % 16 * 4 + c / 64);
        sextet_round_trip(c % 64);
    } else if bytes.len() == 2 {
        let a = bytes[0] as int;
        let b = bytes[1] as int;
        sextet_round_trip(a / 4);
        sextet_round_trip(a % 4 * 16 + b / 16);
        sextet_round_trip(b % 16 * 4);
    } else if bytes.len() == 1 {
        let a = bytes[0] as int;
        sextet_round_trip(a / 4);
        sextet_round_trip(a % 4 * 16);
    }
}

/// Encoding loses nothing: the base64 text of any bytes decodes to those
/// bytes again.
pub proof fn base64_round_trip(bytes: Seq<u8>)
    ensures
        base64_bytes(base64_text(bytes)) == Some(bytes),
    decreases bytes.len(),
{
    let text = base64_text(bytes);
    if bytes.len() >= 3 {
        let a = bytes[0] as int;
        let b = bytes[1] as int;
        let c = bytes[2] as int;
        sextet_round_trip(a / 4);
        sextet_round_trip(a % 4 * 16 + b / 16);
        sextet_round_trip(b % 16 * 4 + c / 64);
        sextet_round_trip(c % 64);
        let head = seq![bytes[0], bytes[1], bytes[2]];
        assert(group_bytes(text[0], text[1], text[2], text[3]) == Some(head));
        assert(text.skip(4) == base64_text(bytes.skip(3)));
        base64_round_trip(bytes.skip(3));
        assert(head + bytes.skip(3) == bytes);
    } else if bytes.len() == 2 {
        let a = bytes[0] as int;
        let b = bytes[1] as int;
        sextet_round_trip(a / 4);
        sextet_round_trip(a % 4 * 16 + b / 16);
        sextet_round_trip(b % 16 * 4);
        assert(group_bytes(text[0], text[1], text[2], text[3]) == Some(seq![bytes[0], bytes[1]]));
        assert(seq![bytes[0], bytes[1]] == bytes);
    } else if bytes.len() == 1 {
        let a = bytes[0] as int;
        sextet_round_trip(a / 4);
        sextet_round_trip(a % 4 * 16);
        assert(group_bytes(text[0], text[1], text[2], text[3]) == Some(seq![bytes[0]]));
        assert(seq![bytes[0]] == bytes);
    } else {
        assert(bytes == Seq::<u8>::empty());
    }
}

/// Calls `base64::encode`, which encodes with the standard alphabet and pads
/// with `=`: the contract says that the string it returns is the base64 text of
/// `bytes`. The call panics only where the length of that text does not fit in
/// `usize`, which no vector's length reaches.
#[verifier::external_body]
pub(crate) fn encode(bytes: &Vec<u8>) -> (text: String)
    ensures
        text@ == base64_text(bytes@),
{
    base64::encode(bytes)
}

} // verus!
