//! Texts that the messages carry: lengths in bytes, MAC addresses, numbers and IPv4 addresses.

use vstd::prelude::*;

verus! {

/// `String::push` appends one character.
pub assume_specification[ String::push ](s: &mut String, c: char)
    ensures
        final(s)@ == old(s)@.push(c),
;

/// The bytes that a text takes in UTF-8.
pub open spec fn byte_len(text: Seq<char>) -> nat {
    vstd::utf8::encode_utf8(text).len()
}

/// Length of a text in bytes.
pub fn utf8_len(text: &str) -> (n: usize)
    ensures
        n == byte_len(text@),
{
    text.as_bytes().len()
}

/// The digit of `n` in upper-case hexadecimal.
pub open spec fn hex_digit(n: int) -> char {
    if n < 10 {
        (48 + n) as char
    } else {
        (55 + n) as char
    }
}

fn hex_char(n: u8) -> (c: char)
    requires
        n < 16,
    ensures
        c == hex_digit(n as int),
{
    if n < 10 {
        (48 + n) as char
    } else {
        (55 + n) as char
    }
}

/// A byte as two upper-case hexadecimal digits.
pub open spec fn hex_byte(b: u8) -> Seq<char> {
    seq![hex_digit(b as int / 16), hex_digit(b as int % 16)]
}

/// A MAC address: six bytes in upper-case hexadecimal, parted by colons.
pub open spec fn mac_text(mac: Seq<u8>) -> Seq<char> {
    hex_byte(mac[0]) + seq![':'] + hex_byte(mac[1]) + seq![':'] + hex_byte(mac[2]) + seq![':']
        + hex_byte(mac[3]) + seq![':'] + hex_byte(mac[4]) + seq![':'] + hex_byte(mac[5])
}

fn push_hex(out: &mut String, b: u8)
    ensures
        final(out)@ == old(out)@ + hex_byte(b),
{
    out.push(hex_char(b / 16));
    out.push(hex_char(b % 16));
    assert(out@ =~= old(out)@ + hex_byte(b));
}

pub fn format_mac(mac: [u8; 6]) -> (text: String)
    ensures
        text@ == mac_text(mac@),
{
    let mut out = String::new();
    push_hex(&mut out, mac[0]);
    out.push(':');
    push_hex(&mut out, mac[1]);
    out.push(':');
    push_hex(&mut out, mac[2]);
    out.push(':');
    push_hex(&mut out, mac[3]);
    out.push(':');
    push_hex(&mut out, mac[4]);
    out.push(':');
    push_hex(&mut out, mac[5]);
    assert(out@ =~= mac_text(mac@));
    out
}

/// A MAC address takes 17 bytes.
pub proof fn lemma_mac_len(mac: Seq<u8>)
    ensures
        byte_len(mac_text(mac)) == 17,
{
    let t = mac_text(mac);
    assert(t.len() == 17);
    assert forall|i: int| 0 <= i < t.len() implies '\0' <= #[trigger] t[i] <= '\u{7f}' by {
        let k = i / 3;
        if i % 3 == 2 {
            assert(t[i] == ':');
        } else {
            assert(t[i] == hex_byte(mac[k])[i % 3]);
        }
    }
    vstd::utf8::is_ascii_chars_encode_utf8(t);
}

/// The decimal digit of `n`.
pub open spec fn digit(n: int) -> char {
    (48 + n) as char
}

/// `n` in decimal, without leading zeros.
pub open spec fn decimal(n: nat) -> Seq<char>
    decreases n,
{
    if n < 10 {
        seq![digit(n as int)]
    } else {
        decimal(n / 10).push(digit(n as int % 10))
    }
}

/// Appends `n` in decimal.
pub fn push_decimal(out: &mut String, n: u64)
    ensures
        final(out)@ == old(out)@ + decimal(n as nat),
    decreases n,
{
    if n >= 10 {
        push_decimal(out, n / 10);
    }
    out.push((48 + (n % 10) as u8) as char);
    assert(out@ =~= old(out)@ + decimal(n as nat));
}

/// The characters with the Unicode property White_Space.
pub open spec fn white_space(c: char) -> bool {
    let n = c as int;
    ||| 0x09 <= n <= 0x0d
    ||| n == 0x20
    ||| n == 0x85
    ||| n == 0xa0
    ||| n == 0x1680
    ||| 0x2000 <= n <= 0x200a
    ||| n == 0x2028
    ||| n == 0x2029
    ||| n == 0x202f
    ||| n == 0x205f
    ||| n == 0x3000
}

/// A text without the white space in front.
pub open spec fn trim_start(text: Seq<char>) -> Seq<char>
    decreases text.len(),
{
    if text.len() > 0 && white_space(text[0]) {
        trim_start(text.skip(1))
    } else {
        text
    }
}

/// A text without the white space at the end.
pub open spec fn trim_end(text: Seq<char>) -> Seq<char>
    decreases text.len(),
{
    if text.len() > 0 && white_space(text.last()) {
        trim_end(text.drop_last())
    } else {
        text
    }
}

/// A text without the white space around it.
pub open spec fn trimmed(text: Seq<char>) -> Seq<char> {
    trim_end(trim_start(text))
}

/// A text of nothing but white space.
pub open spec fn blank(text: Seq<char>) -> bool {
    forall|i: int| 0 <= i < text.len() ==> white_space(#[trigger] text[i])
}

/// `str::trim`: drops the characters with the Unicode property White_Space from both ends.
#[verifier::external_body]
pub(crate) fn trim(text: &str) -> (r: &str)
    ensures
        r@ == trimmed(text@),
{
    text.trim()
}

proof fn lemma_trim_start(text: Seq<char>)
    ensures
        blank(text) ==> trim_start(text).len() == 0,
        !blank(text) ==> trim_start(text).len() > 0 && !white_space(trim_start(text)[0]),
    decreases text.len(),
{
    if text.len() > 0 && white_space(text[0]) {
        lemma_trim_start(text.skip(1));
        if blank(text) {
            assert forall|i: int| 0 <= i < text.skip(1).len() implies white_space(
                #[trigger] text.skip(1)[i],
            ) by {
                assert(text.skip(1)[i] == text[i + 1]);
            }
        } else if blank(text.skip(1)) {
            assert forall|i: int| 0 <= i < text.len() implies white_space(#[trigger] text[i]) by {
                if i > 0 {
                    assert(text[i] == text.skip(1)[i - 1]);
                }
            }
        }
    }
}

proof fn lemma_trim_end(text: Seq<char>)
    requires
        text.len() > 0,
        !white_space(text[0]),
    ensures
        trim_end(text).len() > 0,
    decreases text.len(),
{
    if white_space(text.last()) {
        lemma_trim_end(text.drop_last());
    }
}

/// Trimming leaves nothing of a blank text, and something of every other.
pub proof fn lemma_trimmed_to_nothing(text: Seq<char>)
    ensures
        trimmed(text).len() == 0 <==> blank(text),
{
    lemma_trim_start(text);
    if !blank(text) {
        lemma_trim_end(trim_start(text));
    }
}

/// Whether a text is nothing but white space.
pub fn is_blank(text: &str) -> (r: bool)
    ensures
        r == blank(text@),
{
    proof {
        lemma_trimmed_to_nothing(text@);
    }
    trim(text).is_empty()
}

} // verus!
