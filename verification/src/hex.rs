//! Bytes as hexadecimal text, two digits to the byte.
//!
//! The digits are `0` to `9` and `a` to `f`. Capitals are no digits.

use vstd::prelude::*;
use vstd::string::*;

verus! {

/// The value of a hexadecimal digit that is given by its code.
pub open spec fn nibble_of_code(code: u8) -> Option<u8> {
    if 48 <= code <= 57 {
        Some((code - 48) as u8)
    } else if 97 <= code <= 102 {
        Some((code - 87) as u8)
    } else {
        None
    }
}

/// The value of a hexadecimal digit.
pub open spec fn nibble_of(digit: char) -> Option<u8> {
    if '\0' <= digit <= '\u{7f}' {
        nibble_of_code(digit as u8)
    } else {
        None
    }
}

/// The digit that is written for a value below sixteen.
pub open spec fn digit_of(nibble: u8) -> char {
    if nibble == 0 {
        '0'
    } else if nibble == 1 {
        '1'
    } else if nibble == 2 {
        '2'
    } else if nibble == 3 {
        '3'
    } else if nibble == 4 {
        '4'
    } else if nibble == 5 {
        '5'
    } else if nibble == 6 {
        '6'
    } else if nibble == 7 {
        '7'
    } else if nibble == 8 {
        '8'
    } else if nibble == 9 {
        '9'
    } else if nibble == 10 {
        'a'
    } else if nibble == 11 {
        'b'
    } else if nibble == 12 {
        'c'
    } else if nibble == 13 {
        'd'
    } else if nibble == 14 {
        'e'
    } else {
        'f'
    }
}

/// The bytes that hexadecimal text stands for, or `None` where the text
/// has an odd number of characters or one that is no digit.
pub open spec fn hex_decoded(text: Seq<char>) -> Option<Seq<u8>>
    decreases text.len(),
{
    if text.len() == 0 {
        Some(Seq::<u8>::empty())
    } else if text.len() == 1 {
        None
    } else {
        match (
            hex_decoded(text.take(text.len() - 2)),
            nibble_of(text[text.len() - 2]),
            nibble_of(text[text.len() - 1]),
        ) {
            (Some(front), Some(high), Some(low)) => Some(front.push((high * 16 + low) as u8)),
            _ => None,
        }
    }
}

/// The hexadecimal text of bytes.
pub open spec fn hex_encoded(bytes: Seq<u8>) -> Seq<char>
    decreases bytes.len(),
{
    if bytes.len() == 0 {
        Seq::<char>::empty()
    } else {
        hex_encoded(bytes.drop_last()).push(digit_of(bytes.last() / 16)).push(
            digit_of(bytes.last() % 16),
        )
    }
}

/// Every digit that is written is read back with its value.
pub proof fn lemma_digit_round_trip(nibble: u8)
    requires
        nibble < 16,
    ensures
        nibble_of(digit_of(nibble)) == Some(nibble),
{
}

/// Text is hexadecimal exactly if its length is even and each of its
/// characters is a digit.
pub proof fn lemma_decodable(text: Seq<char>)
    ensures
        hex_decoded(text) is Some <==> (text.len() % 2 == 0 && forall|i: int|
            0 <= i < text.len() ==> (#[trigger] nibble_of(text[i])) is Some),
        hex_decoded(text) matches Some(bytes) ==> bytes.len() * 2 == text.len(),
    decreases text.len(),
{
    if text.len() >= 2 {
        let front = text.take(text.len() - 2);
        lemma_decodable(front);
        assert forall|i: int| 0 <= i < front.len() implies front[i] == text[i] by {}
        if hex_decoded(text) is Some {
            assert forall|i: int| 0 <= i < text.len() implies (#[trigger] nibble_of(
                text[i],
            )) is Some by {
                if i < front.len() {
                    assert(nibble_of(front[i]) is Some);
                }
            }
        }
        if text.len() % 2 == 0 && forall|i: int|
            0 <= i < text.len() ==> (#[trigger] nibble_of(text[i])) is Some {
            assert forall|i: int| 0 <= i < front.len() implies (#[trigger] nibble_of(
                front[i],
            )) is Some by {
                assert(nibble_of(text[i]) is Some);
            }
            assert(nibble_of(text[text.len() - 2]) is Some);
            assert(nibble_of(text[text.len() - 1]) is Some);
        }
    }
}

/// What is written is read back as it was.
pub proof fn lemma_hex_round_trip(bytes: Seq<u8>)
    ensures
        hex_encoded(bytes).len() == 2 * bytes.len(),
        hex_decoded(hex_encoded(bytes)) == Some(bytes),
    decreases bytes.len(),
{
    if bytes.len() > 0 {
        let front = bytes.drop_last();
        let last = bytes.last();
        lemma_hex_round_trip(front);
        let text = hex_encoded(bytes);
        assert(text.take(text.len() - 2) == hex_encoded(front));
        lemma_digit_round_trip(last / 16);
        lemma_digit_round_trip(last % 16);
        assert(((last / 16) * 16 + last % 16) as u8 == last);
        assert(front.push(last) == bytes);
    }
}

/// The value of a hexadecimal digit that is given by its code.
pub fn nibble(code: u8) -> (value: Option<u8>)
    ensures
        value == nibble_of_code(code),
        value matches Some(n) ==> n < 16,
{
    if 48 <= code && code <= 57 {
        Some(code - 48)
    } else if 97 <= code && code <= 102 {
        Some(code - 87)
    } else {
        None
    }
}

/// The digit of a value below sixteen, as text.
fn digit(nibble: u8) -> (text: &'static str)
    requires
        nibble < 16,
    ensures
        text@ == seq![digit_of(nibble)],
{
    proof {
        reveal_strlit("0");
        reveal_strlit("1");
        reveal_strlit("2");
        reveal_strlit("3");
        reveal_strlit("4");
        reveal_strlit("5");
        reveal_strlit("6");
        reveal_strlit("7");
        reveal_strlit("8");
        reveal_strlit("9");
        reveal_strlit("a");
        reveal_strlit("b");
        reveal_strlit("c");
        reveal_strlit("d");
        reveal_strlit("e");
        reveal_strlit("f");
    }
    let text = if nibble == 0 {
        "0"
    } else if nibble == 1 {
        "1"
    } else if nibble == 2 {
        "2"
    } else if nibble == 3 {
        "3"
    } else if nibble == 4 {
        "4"
    } else if nibble == 5 {
        "5"
    } else if nibble == 6 {
        "6"
    } else if nibble == 7 {
        "7"
    } else if nibble == 8 {
        "8"
    } else if nibble == 9 {
        "9"
    } else if nibble == 10 {
        "a"
    } else if nibble == 11 {
        "b"
    } else if nibble == 12 {
        "c"
    } else if nibble == 13 {
        "d"
    } else if nibble == 14 {
        "e"
    } else {
        "f"
    };
    assert(text@ =~= seq![digit_of(nibble)]);
    text
}

/// Writes bytes as hexadecimal text.
pub fn encode(bytes: &Vec<u8>) -> (text: String)
    ensures
        text@ == hex_encoded(bytes@),
{
    let mut text = String::new();
    let mut at: usize = 0;
    while at < bytes.len()
        invariant
            at <= bytes@.len(),
            text@ == hex_encoded(bytes@.take(at as int)),
        decreases bytes@.len() - at,
    {
        let byte = bytes[at];
        text.append(digit(byte / 16));
        text.append(digit(byte % 16));
        proof {
            let taken = bytes@.take(at + 1);
            assert(taken.drop_last() == bytes@.take(at as int));
            assert(taken.last() == byte);
            assert(text@ =~= hex_encoded(taken));
        }
        at = at + 1;
    }
    assert(bytes@.take(at as int) == bytes@);
    text
}

/// Reads the bytes that hexadecimal text stands for.
pub fn decode(text: &str) -> (bytes: Option<Vec<u8>>)
    ensures
        match bytes {
            Some(read) => hex_decoded(text@) == Some(read@),
            None => hex_decoded(text@) is None,
        },
{
    proof {
        lemma_decodable(text@);
    }
    if !text.is_ascii() {
        proof {
            let bad = choose|i: int|
                0 <= i < text@.len() && !('\0' <= #[trigger] text@[i] <= '\u{7f}');
            assert(nibble_of(text@[bad]) is None);
        }
        return None;
    }
    let codes = text.as_bytes();
    proof {
        is_ascii_spec_bytes(text);
    }
    assert(codes@.len() == text@.len());
    assert(forall|i: int| 0 <= i < text@.len() ==> codes@[i] == text@[i] as u8);
    if codes.len() % 2 != 0 {
        return None;
    }
    let mut bytes: Vec<u8> = Vec::new();
    let mut at: usize = 0;
    while at < codes.len()
        invariant
            at <= codes@.len(),
            at % 2 == 0,
            codes@.len() % 2 == 0,
            codes@.len() == text@.len(),
            forall|i: int| 0 <= i < text@.len() ==> codes@[i] == text@[i] as u8,
            vstd::utf8::is_ascii_chars(text@),
            hex_decoded(text@.take(at as int)) == Some(bytes@),
            hex_decoded(text@) is Some <==> (text@.len() % 2 == 0 && forall|i: int|
                0 <= i < text@.len() ==> (#[trigger] nibble_of(text@[i])) is Some),
        decreases codes@.len() - at,
    {
        let high = nibble(codes[at]);
        let low = nibble(codes[at + 1]);
        match (high, low) {
            (Some(high), Some(low)) => {
                bytes.push(high * 16 + low);
                proof {
                    let taken = text@.take(at + 2);
                    assert(taken.take(taken.len() - 2) == text@.take(at as int));
                    assert(taken[taken.len() - 2] == text@[at as int]);
                    assert(taken[taken.len() - 1] == text@[at + 1]);
                }
            },
            _ => {
                proof {
                    assert(nibble_of(text@[at as int]) is None || nibble_of(text@[at + 1]) is None);
                }
                return None;
            },
        }
        at = at + 2;
    }
    assert(text@.take(at as int) == text@);
    Some(bytes)
}

} // verus!
