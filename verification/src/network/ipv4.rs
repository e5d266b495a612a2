//! IPv4 addresses in dotted decimal.

use vstd::prelude::*;

use crate::text;

verus! {

/// The dotted decimal form of four octets.
pub open spec fn ipv4_text(octets: Seq<u8>) -> Seq<char> {
    text::decimal(octets[0] as nat) + seq!['.'] + text::decimal(octets[1] as nat) + seq!['.']
        + text::decimal(octets[2] as nat) + seq!['.'] + text::decimal(octets[3] as nat)
}

/// The dotted decimal form of an address.
pub fn format_ipv4(octets: [u8; 4]) -> (text: String)
    ensures
        text@ == ipv4_text(octets@),
{
    let mut out = String::new();
    text::push_decimal(&mut out, octets[0] as u64);
    out.push('.');
    text::push_decimal(&mut out, octets[1] as u64);
    out.push('.');
    text::push_decimal(&mut out, octets[2] as u64);
    out.push('.');
    text::push_decimal(&mut out, octets[3] as u64);
    assert(out@ =~= ipv4_text(octets@));
    out
}

/// A text is no address, or a setting that must be there is not.
#[derive(Debug, Clone, Copy, PartialEq, Eq, Structural)]
pub struct InvalidArgument;

spec fn is_digit(c: u8) -> bool {
    48 <= c <= 57
}

spec fn digit_at(s: Seq<u8>, at: int) -> bool {
    at < s.len() && is_digit(s[at])
}

/// The octet that starts at `at`, and where it ends: a whole run of digits, with no leading
/// zero, that stands for at most 255.
#[verifier::opaque]
spec fn octet_at(s: Seq<u8>, at: int) -> Option<(u8, int)> {
    if !digit_at(s, at) {
        None
    } else if !digit_at(s, at + 1) {
        Some(((s[at] - 48) as u8, at + 1))
    } else if s[at] == 48 {
        None
    } else if !digit_at(s, at + 2) {
        Some(((10 * (s[at] - 48) + (s[at + 1] - 48)) as u8, at + 2))
    } else if digit_at(s, at + 3) {
        None
    } else {
        let value = 100 * (s[at] - 48) + 10 * (s[at + 1] - 48) + (s[at + 2] - 48);
        if value > 255 {
            None
        } else {
            Some((value as u8, at + 3))
        }
    }
}

/// The decimal digits of an octet as bytes.
#[verifier::opaque]
spec fn octet_digits(value: u8) -> Seq<u8> {
    let v = value as int;
    if v < 10 {
        seq![(48 + v) as u8]
    } else if v < 100 {
        seq![(48 + v / 10) as u8, (48 + v % 10) as u8]
    } else {
        seq![(48 + v / 100) as u8, (48 + v / 10 % 10) as u8, (48 + v % 10) as u8]
    }
}

proof fn lemma_octet_read(s: Seq<u8>, at: int)
    requires
        0 <= at,
    ensures
        octet_at(s, at) matches Some((value, end)) ==> {
            &&& at < end <= s.len()
            &&& s.subrange(at, end) == octet_digits(value)
        },
{
    reveal(octet_at);
    reveal(octet_digits);
    if let Some((value, end)) = octet_at(s, at) {
        assert(s.subrange(at, end) =~= octet_digits(value));
    }
}

proof fn lemma_octet_found(s: Seq<u8>, at: int, value: u8)
    requires
        0 <= at,
        at + octet_digits(value).len() <= s.len(),
        s.subrange(at, at + octet_digits(value).len()) == octet_digits(value),
        !digit_at(s, at + octet_digits(value).len()),
    ensures
        octet_at(s, at) == Some((value, at + octet_digits(value).len())),
{
    reveal(octet_at);
    reveal(octet_digits);
    let n = octet_digits(value).len() as int;
    let part = s.subrange(at, at + n);
    assert(part[0] == s[at]);
    if n > 1 {
        assert(part[1] == s[at + 1]);
    }
    if n > 2 {
        assert(part[2] == s[at + 2]);
    }
}

/// Four octets parted by dots, as bytes.
spec fn address_bytes(o: Seq<u8>) -> Seq<u8> {
    octet_digits(o[0]) + (seq![46u8] + (octet_digits(o[1]) + (seq![46u8] + (octet_digits(o[2]) + (
    seq![46u8] + octet_digits(o[3]))))))
}

/// The whole text as four octets.
spec fn octets_of(s: Seq<u8>) -> Option<Seq<u8>> {
    match octet_at(s, 0) {
        Some((a, p)) if p < s.len() && s[p] == 46 => match octet_at(s, p + 1) {
            Some((b, q)) if q < s.len() && s[q] == 46 => match octet_at(s, q + 1) {
                Some((c, r)) if r < s.len() && s[r] == 46 => match octet_at(s, r + 1) {
                    Some((d, end)) if end == s.len() => Some(seq![a, b, c, d]),
                    _ => None,
                },
                _ => None,
            },
            _ => None,
        },
        _ => None,
    }
}

proof fn lemma_split_at_dot(s: Seq<u8>, from: int, dot: int)
    requires
        0 <= from <= dot < s.len(),
        s[dot] == 46,
    ensures
        s.skip(from) == s.subrange(from, dot) + (seq![46u8] + s.skip(dot + 1)),
{
    assert(s.skip(from) =~= s.subrange(from, dot) + (seq![46u8] + s.skip(dot + 1)));
}

proof fn lemma_octets_sound(s: Seq<u8>)
    ensures
        octets_of(s) matches Some(o) ==> o.len() == 4 && s == address_bytes(o),
{
    if let Some(o) = octets_of(s) {
        let (a, p) = octet_at(s, 0).unwrap();
        let (b, q) = octet_at(s, p + 1).unwrap();
        let (c, r) = octet_at(s, q + 1).unwrap();
        let (d, end) = octet_at(s, r + 1).unwrap();
        lemma_octet_read(s, 0);
        lemma_octet_read(s, p + 1);
        lemma_octet_read(s, q + 1);
        lemma_octet_read(s, r + 1);
        lemma_split_at_dot(s, 0, p);
        lemma_split_at_dot(s, p + 1, q);
        lemma_split_at_dot(s, q + 1, r);
        assert(s.skip(0) =~= s);
        assert(s.skip(r + 1) =~= s.subrange(r + 1, end));
    }
}

proof fn lemma_octets_complete(o: Seq<u8>)
    requires
        o.len() == 4,
    ensures
        octets_of(address_bytes(o)) == Some(o),
{
    let s = address_bytes(o);
    let p = octet_digits(o[0]).len() as int;
    let q = p + 1 + octet_digits(o[1]).len();
    let r = q + 1 + octet_digits(o[2]).len();
    let end = r + 1 + octet_digits(o[3]).len();
    assert(s.subrange(0, p) =~= octet_digits(o[0]));
    assert(s.subrange(p + 1, q) =~= octet_digits(o[1]));
    assert(s.subrange(q + 1, r) =~= octet_digits(o[2]));
    assert(s.subrange(r + 1, end) =~= octet_digits(o[3]));
    assert(s[p] == 46 && s[q] == 46 && s[r] == 46);
    assert(s.len() == end);
    lemma_octet_found(s, 0, o[0]);
    lemma_octet_found(s, p + 1, o[1]);
    lemma_octet_found(s, q + 1, o[2]);
    lemma_octet_found(s, r + 1, o[3]);
    assert(seq![o[0], o[1], o[2], o[3]] =~= o);
}

/// The decimal form of an octet is ASCII, and these are its bytes.
proof fn lemma_decimal_of_octet(value: u8)
    ensures
        text::decimal(value as nat).len() == octet_digits(value).len(),
        forall|i: int|
            #![trigger text::decimal(value as nat)[i]]
            #![trigger octet_digits(value)[i]]
            0 <= i < octet_digits(value).len() ==> '.' <= text::decimal(value as nat)[i] <= '9'
                && text::decimal(value as nat)[i] as u8 == octet_digits(value)[i],
{
    reveal(octet_digits);
    reveal_with_fuel(text::decimal, 3);
    let d = text::decimal(value as nat);
    if value < 10 {
        assert(d =~= seq![text::digit(value as int)]);
    } else if value < 100 {
        assert(d =~= seq![text::digit(value as int / 10), text::digit(value as int % 10)]);
    } else {
        assert(d =~= seq![
            text::digit(value as int / 100),
            text::digit(value as int / 10 % 10),
            text::digit(value as int % 10),
        ]);
    }
}

/// The dotted decimal form is ASCII, and these are its bytes.
proof fn lemma_text_bytes(o: Seq<u8>)
    ensures
        vstd::utf8::encode_utf8(ipv4_text(o)) == address_bytes(o),
{
    let t = ipv4_text(o);
    lemma_decimal_of_octet(o[0]);
    lemma_decimal_of_octet(o[1]);
    lemma_decimal_of_octet(o[2]);
    lemma_decimal_of_octet(o[3]);
    assert(t.len() == address_bytes(o).len());
    assert forall|i: int| 0 <= i < t.len() implies '.' <= #[trigger] t[i] <= '9' && t[i] as u8
        == address_bytes(o)[i] by {
        let p = octet_digits(o[0]).len() as int;
        let q = p + 1 + octet_digits(o[1]).len();
        let r = q + 1 + octet_digits(o[2]).len();
        if i < p {
            assert(t[i] == text::decimal(o[0] as nat)[i]);
        } else if p < i < q {
            assert(t[i] == text::decimal(o[1] as nat)[i - p - 1]);
        } else if q < i < r {
            assert(t[i] == text::decimal(o[2] as nat)[i - q - 1]);
        } else if i > r {
            assert(t[i] == text::decimal(o[3] as nat)[i - r - 1]);
        } else {
            assert(t[i] == '.');
        }
    }
    assert(vstd::utf8::is_ascii_chars(t));
    vstd::utf8::is_ascii_chars_encode_utf8(t);
    assert(vstd::utf8::encode_utf8(t) =~= address_bytes(o));
}

/// The dotted decimal form takes 15 bytes at most.
pub proof fn lemma_text_len(o: Seq<u8>)
    ensures
        text::byte_len(ipv4_text(o)) <= 15,
{
    lemma_text_bytes(o);
    reveal(octet_digits);
}

/// A text has the bytes of an address only if it is the dotted decimal form of it.
proof fn lemma_bytes_determine_text(t: Seq<char>, o: Seq<u8>)
    requires
        vstd::utf8::encode_utf8(t) == address_bytes(o),
    ensures
        t == ipv4_text(o),
{
    lemma_text_bytes(o);
    vstd::utf8::encode_utf8_decode_utf8(t);
    vstd::utf8::encode_utf8_decode_utf8(ipv4_text(o));
}

fn is_digit_at(s: &[u8], at: usize) -> (r: bool)
    ensures
        r == digit_at(s@, at as int),
{
    at < s.len() && 48 <= s[at] && s[at] <= 57
}

fn read_octet(s: &[u8], at: usize) -> (r: Option<(u8, usize)>)
    requires
        at <= s@.len(),
        s@.len() <= usize::MAX - 3,
    ensures
        match r {
            Some((value, end)) => octet_at(s@, at as int) == Some((value, end as int)),
            None => octet_at(s@, at as int) is None,
        },
{
    proof {
        reveal(octet_at);
    }
    if !is_digit_at(s, at) {
        return None;
    }
    let a: u16 = (s[at] - 48) as u16;
    if !is_digit_at(s, at + 1) {
        return Some((a as u8, at + 1));
    }
    if a == 0 {
        return None;
    }
    let b: u16 = (s[at + 1] - 48) as u16;
    if !is_digit_at(s, at + 2) {
        return Some(((10 * a + b) as u8, at + 2));
    }
    if is_digit_at(s, at + 3) {
        return None;
    }
    let value: u16 = 100 * a + 10 * b + (s[at + 2] - 48) as u16;
    if value > 255 {
        None
    } else {
        Some((value as u8, at + 3))
    }
}

/// Reads an octet that a dot follows.
fn read_octet_dot(s: &[u8], at: usize) -> (r: Option<(u8, usize)>)
    requires
        at <= s@.len(),
        s@.len() <= usize::MAX - 3,
    ensures
        match r {
            Some((value, next)) => octet_at(s@, at as int) == Some((value, next - 1)) && next
                <= s@.len() && s@[next - 1] == 46,
            None => octet_at(s@, at as int) matches Some((_, end)) ==> end == s@.len()
                || s@[end] != 46,
        },
{
    proof {
        lemma_octet_read(s@, at as int);
    }
    match read_octet(s, at) {
        Some((value, end)) => if end < s.len() && s[end] == 46 {
            Some((value, end + 1))
        } else {
            None
        },
        None => None,
    }
}

fn read_octets(s: &[u8]) -> (r: Option<[u8; 4]>)
    ensures
        match r {
            Some(octets) => octets_of(s@) == Some(octets@),
            None => octets_of(s@) is None,
        },
{
    if s.len() > 15 {
        proof {
            lemma_octets_sound(s@);
            reveal(octet_digits);
        }
        return None;
    }
    let (a, p): (u8, usize) = match read_octet_dot(s, 0) {
        Some(found) => found,
        None => return None,
    };
    let (b, q): (u8, usize) = match read_octet_dot(s, p) {
        Some(found) => found,
        None => return None,
    };
    let (c, r): (u8, usize) = match read_octet_dot(s, q) {
        Some(found) => found,
        None => return None,
    };
    match read_octet(s, r) {
        Some((d, end)) => if end == s.len() {
            let octets: [u8; 4] = [a, b, c, d];
            assert(octets@ =~= seq![a, b, c, d]);
            Some(octets)
        } else {
            None
        },
        None => None,
    }
}

/// The view of a parsed address.
pub open spec fn octets_view(r: Result<[u8; 4], InvalidArgument>) -> Result<
    Seq<u8>,
    InvalidArgument,
> {
    match r {
        Ok(octets) => Ok(octets@),
        Err(e) => Err(e),
    }
}

/// The address that a text stands for: the four octets whose dotted decimal form it is.
pub open spec fn ipv4_address(text: Seq<char>) -> Result<Seq<u8>, InvalidArgument> {
    if exists|octets: Seq<u8>| octets.len() == 4 && text == #[trigger] ipv4_text(octets) {
        Ok(choose|octets: Seq<u8>| octets.len() == 4 && text == #[trigger] ipv4_text(octets))
    } else {
        Err(InvalidArgument)
    }
}

/// Reads an address in dotted decimal.
pub fn parse_ipv4(value: &str) -> (r: Result<[u8; 4], InvalidArgument>)
    ensures
        octets_view(r) == ipv4_address(value@),
{
    let bytes = value.as_bytes();
    proof {
        lemma_octets_sound(bytes@);
        if let Some(o) = octets_of(bytes@) {
            lemma_bytes_determine_text(value@, o);
        }
        assert forall|o: Seq<u8>| o.len() == 4 && value@ == #[trigger] ipv4_text(o) implies
            octets_of(bytes@) == Some(o) by {
            lemma_text_bytes(o);
            lemma_octets_complete(o);
        }
    }
    match read_octets(bytes) {
        Some(octets) => Ok(octets),
        None => Err(InvalidArgument),
    }
}

/// An address is read back from its dotted decimal form, and two addresses never share one.
pub proof fn law_ipv4_reads_back(octets: Seq<u8>)
    requires
        octets.len() == 4,
    ensures
        ipv4_address(ipv4_text(octets)) == Ok::<Seq<u8>, InvalidArgument>(octets),
{
    let t = ipv4_text(octets);
    assert forall|o: Seq<u8>| o.len() == 4 && t == #[trigger] ipv4_text(o) implies o == octets by {
        lemma_text_bytes(o);
        lemma_text_bytes(octets);
        lemma_octets_complete(o);
        lemma_octets_complete(octets);
    }
}

/// What is read as an address is written back as it stood: no other text is an address.
pub proof fn law_ipv4_text_is_canonical(text: Seq<char>)
    ensures
        ipv4_address(text) matches Ok(octets) ==> octets.len() == 4 && ipv4_text(octets) == text,
{
}

} // verus!
