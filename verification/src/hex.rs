//! Lowercase hexadecimal text for byte sequences.

use vstd::prelude::*;
use vstd::string::StrSliceExecFns;
use vstd::string::StringExecFns;

verus! {

/// The digit that stands for `n`, for `0 <= n < 16`: one of `0-9` for a
/// value below ten, one of `a-f` from ten on.
pub open spec fn hex_digit(n: int) -> char {
    if n < 10 {
        ('0' as int + n) as char
    } else {
        ('a' as int + n - 10) as char
    }
}

/// Whether `c` is one of `0-9` or `a-f`.
pub open spec fn is_hex_char(c: char) -> bool {
    ('0' <= c && c <= '9') || ('a' <= c && c <= 'f')
}

/// The value of the digit `c`; meaningful where `is_hex_char(c)`.
pub open spec fn hex_value(c: char) -> int {
    if '0' <= c && c <= '9' {
        c as int - '0' as int
    } else {
        c as int - 'a' as int + 10
    }
}

/// The half of a byte that position `i` of the text shows: the high half at
/// even positions, the low half at odd ones.
pub open spec fn nibble_at(bytes: Seq<u8>, i: int) -> int {
    if i % 2 == 0 {
        bytes[i / 2] as int / 16
    } else {
        bytes[i / 2] as int % 16
    }
}

/// The text of `bytes`: two digits for each byte, high half first.
pub open spec fn hex_string(bytes: Seq<u8>) -> Seq<char> {
    Seq::new(2 * bytes.len(), |i: int| hex_digit(nibble_at(bytes, i)))
}

/// Whether `text` is the text of some byte sequence.
pub open spec fn is_hex_text(text: Seq<char>) -> bool {
    &&& text.len() % 2 == 0
    &&& forall|i: int| 0 <= i < text.len() ==> is_hex_char(#[trigger] text[i])
}

/// The bytes that `text` shows; meaningful where `is_hex_text(text)`.
pub open spec fn hex_bytes(text: Seq<char>) -> Seq<u8> {
    Seq::new(
        text.len() / 2,
        |k: int| (16 * hex_value(text[2 * k]) + hex_value(text[2 * k + 1])) as u8,
    )
}

/// Each digit is a hex character and has its own value.
pub proof fn lemma_hex_digit_value(n: int)
    requires
        0 <= n < 16,
    ensures
        is_hex_char(hex_digit(n)),
        hex_value(hex_digit(n)) == n,
{
}

/// Each hex character is the digit of its value.
pub proof fn lemma_hex_value_digit(c: char)
    requires
        is_hex_char(c),
    ensures
        0 <= hex_value(c) < 16,
        hex_digit(hex_value(c)) == c,
{
}

/// The text of a byte sequence is twice as long as the sequence and holds
/// only the characters `0-9` and `a-f`.
pub proof fn lemma_hex_string_shape(bytes: Seq<u8>)
    ensures
        hex_string(bytes).len() == 2 * bytes.len(),
        forall|i: int| 0 <= i < hex_string(bytes).len() ==> is_hex_char(#[trigger] hex_string(bytes)[i]),
        is_hex_text(hex_string(bytes)),
{
    assert forall|i: int| 0 <= i < hex_string(bytes).len() implies is_hex_char(
        #[trigger] hex_string(bytes)[i],
    ) by {
        lemma_hex_digit_value(nibble_at(bytes, i));
    }
}

/// The empty byte sequence has the empty text.
pub proof fn lemma_hex_string_empty()
    ensures
        hex_string(Seq::<u8>::empty()) == Seq::<char>::empty(),
{
}

/// Decoding the text of a byte sequence gives the sequence back.
pub proof fn lemma_hex_round_trip(bytes: Seq<u8>)
    ensures
        is_hex_text(hex_string(bytes)),
        hex_bytes(hex_string(bytes)) == bytes,
{
    lemma_hex_string_shape(bytes);
    let text = hex_string(bytes);
    assert forall|k: int| 0 <= k < bytes.len() implies #[trigger] hex_bytes(text)[k] == bytes[k] by {
        lemma_hex_digit_value(nibble_at(bytes, 2 * k));
        lemma_hex_digit_value(nibble_at(bytes, 2 * k + 1));
    }
}

/// A hex text is the text of the bytes it decodes to, and of no others.
pub proof fn lemma_hex_text_unique(text: Seq<char>, bytes: Seq<u8>)
    ensures
        hex_string(bytes) == text <==> is_hex_text(text) && hex_bytes(text) == bytes,
{
    if hex_string(bytes) == text {
        lemma_hex_round_trip(bytes);
    }
    if is_hex_text(text) && hex_bytes(text) == bytes {
        assert forall|i: int| 0 <= i < text.len() implies hex_string(bytes)[i] == #[trigger] text[i] by {
            let k = i / 2;
            lemma_hex_value_digit(text[2 * k]);
            lemma_hex_value_digit(text[2 * k + 1]);
        }
        assert(hex_string(bytes) =~= text);
    }
}

/// The digit of `n` as a string of one character.
fn digit_str(n: u8) -> (s: &'static str)
    requires
        n < 16,
    ensures
        s@ == seq![hex_digit(n as int)],
{
    proof {
        reveal_strlit("0123456789abcdef");
    }
    let digits = "0123456789abcdef";
    let s = digits.substring_ascii(n as usize, n as usize + 1);
    assert(s@ =~= seq![hex_digit(n as int)]);
    s
}

/// Writes `bytes` as lowercase hexadecimal text, two digits for each byte.
pub fn hex_encode(bytes: &[u8]) -> (text: String)
    ensures
        text@ == hex_string(bytes@),
        text@.len() == 2 * bytes@.len(),
        forall|i: int| 0 <= i < text@.len() ==> is_hex_char(#[trigger] text@[i]),
        is_hex_text(text@) && hex_bytes(text@) == bytes@,
{
    let mut text = String::new();
    let mut k: usize = 0;
    while k < bytes.len()
        invariant
            k <= bytes.len(),
            text@.len() == 2 * k,
            forall|i: int| 0 <= i < 2 * k ==> #[trigger] text@[i] == hex_digit(nibble_at(bytes@, i)),
        decreases bytes.len() - k,
    {
        let b = bytes[k];
        text.append(digit_str(b / 16));
        text.append(digit_str(b % 16));
        k = k + 1;
    }
    proof {
        lemma_hex_string_shape(bytes@);
        lemma_hex_round_trip(bytes@);
    }
    text
}

/// The value of the digit whose ASCII code is `code`, if it is one of
/// `0-9`, `a-f`.
fn digit_value(code: u8) -> (v: Option<u8>)
    ensures
        match v {
            Some(n) => (48 <= code <= 57 && n == code - 48) || (97 <= code <= 102 && n == code - 87),
            None => !(48 <= code <= 57) && !(97 <= code <= 102),
        },
{
    if 48 <= code && code <= 57 {
        Some(code - 48)
    } else if 97 <= code && code <= 102 {
        Some(code - 87)
    } else {
        None
    }
}

/// Reads the bytes back from their text. The text is accepted where it has
/// an even number of characters, each one of `0-9` or `a-f`.
pub fn hex_decode(text: &str) -> (bytes: Option<Vec<u8>>)
    ensures
        match bytes {
            Some(v) => is_hex_text(text@) && v@ == hex_bytes(text@) && hex_string(v@) == text@,
            None => !is_hex_text(text@),
        },
{
    if !text.is_ascii() {
        return None;
    }
    let codes = text.as_bytes();
    proof {
        vstd::utf8::is_ascii_chars_encode_utf8(text@);
        vstd::utf8::is_ascii_chars_nat_bound(text@);
    }
    let n = codes.len();
    assert(forall|i: int| 0 <= i < n ==> (#[trigger] text@[i]) as int == codes@[i] as int);
    if n % 2 != 0 {
        return None;
    }
    let mut out: Vec<u8> = Vec::new();
    let mut k: usize = 0;
    while k < n / 2
        invariant
            n == text@.len(),
            n == codes@.len(),
            n % 2 == 0,
            k <= n / 2,
            forall|i: int| 0 <= i < n ==> (#[trigger] text@[i]) as int == codes@[i] as int,
            out@.len() == k,
            forall|i: int| 0 <= i < 2 * k ==> is_hex_char(#[trigger] text@[i]),
            forall|j: int| 0 <= j < k ==> #[trigger] out@[j] == hex_bytes(text@)[j],
        decreases n / 2 - k,
    {
        let hi = digit_value(codes[2 * k]);
        let lo = digit_value(codes[2 * k + 1]);
        proof {
            assert(text@[2 * k as int] as int == codes@[2 * k as int] as int);
            assert(text@[2 * k + 1] as int == codes@[2 * k + 1] as int);
        }
        match (hi, lo) {
            (Some(h), Some(l)) => {
                proof {
                    lemma_hex_value_digit(text@[2 * k as int]);
                    lemma_hex_value_digit(text@[2 * k + 1]);
                }
                out.push(16 * h + l);
            },
            _ => {
                return None;
            },
        }
        k = k + 1;
    }
    proof {
        lemma_hex_text_unique(text@, out@);
    }
    Some(out)
}

} // verus!
