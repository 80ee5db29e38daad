//! IPv4 addresses and their dotted decimal notation.
//!
//! An address is written as four decimal numbers joined by dots, each number
//! without a sign and without leading zeros. Every address has exactly one
//! such text, and [`Ipv4Address::parse`] accepts exactly these texts.

use vstd::prelude::*;
use vstd::string::is_ascii_spec_bytes;

verus! {

/// An IPv4 address: four octets, the first the most significant.
#[derive(Clone, Copy, Debug, PartialEq, Eq)]
pub struct Ipv4Address {
    pub octets: [u8; 4],
}

/// The character that writes the decimal digit `n`.
pub open spec fn digit(n: int) -> char {
    (n + 48) as u8 as char
}

/// Whether `c` is one of the ten decimal digits.
pub open spec fn is_digit(c: char) -> bool {
    '0' <= c <= '9'
}

/// The number that the decimal digit `c` writes.
pub open spec fn digit_value(c: char) -> int {
    c as int - 48
}

/// The decimal text of an octet: one to three digits, no leading zero.
#[verifier::opaque]
pub open spec fn decimal(n: u8) -> Seq<char> {
    let v = n as int;
    if v < 10 {
        seq![digit(v)]
    } else if v < 100 {
        seq![digit(v / 10), digit(v % 10)]
    } else {
        seq![digit(v / 100), digit(v / 10 % 10), digit(v % 10)]
    }
}

/// Whether `s` holds a decimal digit at index `at`.
pub open spec fn digit_at(s: Seq<char>, at: int) -> bool {
    0 <= at < s.len() && is_digit(s[at])
}

/// Whether `s` holds a dot at index `at`.
pub open spec fn dot_at(s: Seq<char>, at: int) -> bool {
    0 <= at < s.len() && s[at] == '.'
}

/// The octet written in `s` from index `start` on, with the index behind its
/// last digit: the whole run of digits there, if it is one to three digits
/// long, has no leading zero and stays below 256.
#[verifier::opaque]
pub open spec fn octet_at(s: Seq<char>, start: int) -> Option<(u8, int)> {
    if !digit_at(s, start) {
        None
    } else {
        let d0 = digit_value(s[start]);
        if !digit_at(s, start + 1) {
            Some((d0 as u8, start + 1))
        } else if d0 == 0 {
            None
        } else {
            let d1 = digit_value(s[start + 1]);
            if !digit_at(s, start + 2) {
                Some(((10 * d0 + d1) as u8, start + 2))
            } else {
                let v = 100 * d0 + 10 * d1 + digit_value(s[start + 2]);
                if digit_at(s, start + 3) || v > 255 {
                    None
                } else {
                    Some((v as u8, start + 3))
                }
            }
        }
    }
}

/// The address that a left-to-right scan of `s` reads: four octets with a dot
/// between each two, and nothing else.
pub open spec fn scan(s: Seq<char>) -> Option<Ipv4Address> {
    match octet_at(s, 0) {
        None => None,
        Some((a, i)) => if !dot_at(s, i) {
            None
        } else {
            match octet_at(s, i + 1) {
                None => None,
                Some((b, j)) => if !dot_at(s, j) {
                    None
                } else {
                    match octet_at(s, j + 1) {
                        None => None,
                        Some((c, k)) => if !dot_at(s, k) {
                            None
                        } else {
                            match octet_at(s, k + 1) {
                                None => None,
                                Some((d, m)) => if m == s.len() {
                                    Some(Ipv4Address { octets: [a, b, c, d] })
                                } else {
                                    None
                                },
                            }
                        },
                    }
                },
            }
        },
    }
}

impl Ipv4Address {
    /// The dotted decimal text of this address.
    pub open spec fn dotted(self) -> Seq<char> {
        decimal(self.octets[0]) + seq!['.'] + decimal(self.octets[1]) + seq!['.'] + decimal(
            self.octets[2],
        ) + seq!['.'] + decimal(self.octets[3])
    }

    /// The address whose dotted decimal text is `text`, if there is one.
    pub open spec fn from_dotted(text: Seq<char>) -> Option<Ipv4Address> {
        if exists|address: Ipv4Address| address.dotted() == text {
            Some(choose|address: Ipv4Address| address.dotted() == text)
        } else {
            None
        }
    }

    /// The address with the given octets, the most significant first.
    pub fn new(a: u8, b: u8, c: u8, d: u8) -> (address: Ipv4Address)
        ensures
            address.octets@ == seq![a, b, c, d],
    {
        let address = Ipv4Address { octets: [a, b, c, d] };
        assert(address.octets@ =~= seq![a, b, c, d]);
        address
    }

    /// Reads an address from its dotted decimal text. Any other text, be it
    /// only for a leading zero, a sign or a space, is no address.
    pub fn parse(text: &str) -> (found: Option<Ipv4Address>)
        ensures
            found == Ipv4Address::from_dotted(text@),
            found matches Some(address) ==> address.dotted() == text@,
            found is None ==> forall|address: Ipv4Address| address.dotted() != text@,
    {
        if !text.is_ascii() {
            proof {
                assert forall|address: Ipv4Address| address.dotted() != text@ by {
                    lemma_dotted_is_ascii(address);
                }
            }
            return None;
        }
        let found = scan_ascii(text);
        proof {
            lemma_scan_reads_dotted(text@);
        }
        found
    }
}

/// The text is no dotted decimal text of an address.
#[derive(Clone, Copy, Debug, PartialEq, Eq)]
pub struct AddressParseError;

impl core::str::FromStr for Ipv4Address {
    type Err = AddressParseError;

    /// Reads an address from its dotted decimal text, as [`Ipv4Address::parse`]
    /// does.
    fn from_str(text: &str) -> (read: Result<Ipv4Address, AddressParseError>)
        ensures
            read.ok() == Ipv4Address::from_dotted(text@),
    {
        match Ipv4Address::parse(text) {
            Some(address) => Ok(address),
            None => Err(AddressParseError),
        }
    }
}

/// Every character of a dotted decimal text is ASCII.
pub proof fn lemma_dotted_is_ascii(address: Ipv4Address)
    ensures
        vstd::utf8::is_ascii_chars(address.dotted()),
{
    let s = address.dotted();
    assert forall|i: int| 0 <= i < s.len() implies '\0' <= #[trigger] s[i] <= '\u{7f}' by {
        lemma_dotted_shape(address);
    }
}

/// A dotted decimal text holds digits and dots only.
proof fn lemma_dotted_shape(address: Ipv4Address)
    ensures
        forall|i: int|
            0 <= i < address.dotted().len() ==> is_digit(#[trigger] address.dotted()[i])
                || address.dotted()[i] == '.',
{
    lemma_decimal_shape(address.octets[0]);
    lemma_decimal_shape(address.octets[1]);
    lemma_decimal_shape(address.octets[2]);
    lemma_decimal_shape(address.octets[3]);
}

/// The decimal text of an octet holds one to three digits.
proof fn lemma_decimal_shape(n: u8)
    ensures
        1 <= decimal(n).len() <= 3,
        forall|i: int| 0 <= i < decimal(n).len() ==> is_digit(#[trigger] decimal(n)[i]),
{
    reveal(decimal);
}

/// What [`octet_at`] reads is the decimal text of its value, and the run of
/// digits ends where it says.
proof fn lemma_octet_sound(s: Seq<char>, start: int)
    requires
        octet_at(s, start) is Some,
    ensures
        ({
            let (v, end) = octet_at(s, start).unwrap();
            &&& 0 <= start < end <= s.len()
            &&& s.subrange(start, end) == decimal(v)
            &&& !digit_at(s, end)
        }),
{
    reveal(decimal);
    reveal(octet_at);
    let (v, end) = octet_at(s, start).unwrap();
    assert(s.subrange(start, end) =~= decimal(v));
}

/// Where `s` holds the decimal text of `v` from `start` on, and no digit
/// behind it, [`octet_at`] reads `v`.
proof fn lemma_octet_complete(s: Seq<char>, start: int, v: u8)
    requires
        0 <= start,
        start + decimal(v).len() <= s.len(),
        s.subrange(start, start + decimal(v).len()) == decimal(v),
        !digit_at(s, start + decimal(v).len()),
    ensures
        octet_at(s, start) == Some((v, start + decimal(v).len())),
{
    reveal(decimal);
    reveal(octet_at);
    let text = decimal(v);
    let part = s.subrange(start, start + text.len());
    assert(part[0] == s[start]);
    if text.len() >= 2 {
        assert(part[1] == s[start + 1]);
    }
    if text.len() >= 3 {
        assert(part[2] == s[start + 2]);
    }
}

/// What the scan reads from a text, the text is the dotted decimal text of.
proof fn lemma_scan_sound(s: Seq<char>)
    requires
        scan(s) is Some,
    ensures
        scan(s).unwrap().dotted() == s,
{
    lemma_octet_sound(s, 0);
    let (a, i) = octet_at(s, 0).unwrap();
    lemma_octet_sound(s, i + 1);
    let (b, j) = octet_at(s, i + 1).unwrap();
    lemma_octet_sound(s, j + 1);
    let (c, k) = octet_at(s, j + 1).unwrap();
    lemma_octet_sound(s, k + 1);
    let (d, m) = octet_at(s, k + 1).unwrap();
    let dot = seq!['.'];
    assert(s =~= s.subrange(0, i) + dot + s.subrange(i + 1, j) + dot + s.subrange(j + 1, k) + dot
        + s.subrange(k + 1, m));
}

/// From its dotted decimal text the scan reads an address back.
proof fn lemma_scan_complete(address: Ipv4Address)
    ensures
        scan(address.dotted()) == Some(address),
{
    let s = address.dotted();
    let a = address.octets[0];
    let b = address.octets[1];
    let c = address.octets[2];
    let d = address.octets[3];
    let i = decimal(a).len() as int;
    let j = i + 1 + decimal(b).len();
    let k = j + 1 + decimal(c).len();
    let m = k + 1 + decimal(d).len();
    lemma_decimal_shape(a);
    lemma_decimal_shape(b);
    lemma_decimal_shape(c);
    lemma_decimal_shape(d);
    assert(s.len() == m);
    assert(s.subrange(0, i) =~= decimal(a));
    assert(s[i] == '.');
    assert(s.subrange(i + 1, j) =~= decimal(b));
    assert(s[j] == '.');
    assert(s.subrange(j + 1, k) =~= decimal(c));
    assert(s[k] == '.');
    assert(s.subrange(k + 1, m) =~= decimal(d));
    lemma_octet_complete(s, 0, a);
    lemma_octet_complete(s, i + 1, b);
    lemma_octet_complete(s, j + 1, c);
    lemma_octet_complete(s, k + 1, d);
    let read = scan(s).unwrap();
    assert(read.octets =~= address.octets);
}

/// The scan reads exactly the dotted decimal texts, each as its own address.
pub proof fn lemma_scan_iff_dotted(s: Seq<char>, address: Ipv4Address)
    ensures
        scan(s) == Some(address) <==> s == address.dotted(),
{
    if scan(s) is Some {
        lemma_scan_sound(s);
    }
    lemma_scan_complete(address);
}

/// No two addresses share a dotted decimal text.
pub proof fn lemma_dotted_is_injective(left: Ipv4Address, right: Ipv4Address)
    requires
        left.dotted() == right.dotted(),
    ensures
        left == right,
{
    lemma_scan_iff_dotted(left.dotted(), left);
    lemma_scan_iff_dotted(left.dotted(), right);
}

/// From its dotted decimal text an address is read back, and from no other
/// text.
pub proof fn lemma_from_dotted_reads_back(text: Seq<char>, address: Ipv4Address)
    ensures
        Ipv4Address::from_dotted(text) == Some(address) <==> text == address.dotted(),
{
    lemma_scan_reads_dotted(text);
    lemma_scan_iff_dotted(text, address);
}

/// The scan finds the address that a text is the dotted decimal text of.
pub proof fn lemma_scan_reads_dotted(s: Seq<char>)
    ensures
        scan(s) == Ipv4Address::from_dotted(s),
        scan(s) matches Some(address) ==> address.dotted() == s,
        scan(s) is None ==> forall|address: Ipv4Address| address.dotted() != s,
{
    if exists|address: Ipv4Address| address.dotted() == s {
        let written = choose|address: Ipv4Address| address.dotted() == s;
        lemma_scan_complete(written);
    }
    if scan(s) is Some {
        lemma_scan_sound(s);
    }
    assert forall|address: Ipv4Address| scan(s) is None implies address.dotted() != s by {
        lemma_scan_complete(address);
    }
}

/// The octet at `start`, read from the bytes of an ASCII text.
fn read_octet(text: &str, start: usize) -> (read: Option<(u8, usize)>)
    requires
        text.is_ascii(),
    ensures
        match read {
            Some((v, end)) => octet_at(text@, start as int) == Some((v, end as int)),
            None => octet_at(text@, start as int) is None,
        },
{
    broadcast use is_ascii_spec_bytes;

    reveal(octet_at);
    let bytes = text.as_bytes();
    let n = bytes.len();
    assert(forall|i: int| 0 <= i < n ==> bytes@[i] == text@[i] as u8);
    if start >= n || bytes[start] < 48 || bytes[start] > 57 {
        return None;
    }
    let d0: u8 = bytes[start] - 48;
    if start + 1 >= n || bytes[start + 1] < 48 || bytes[start + 1] > 57 {
        return Some((d0, start + 1));
    }
    if d0 == 0 {
        return None;
    }
    let d1: u8 = bytes[start + 1] - 48;
    if start + 2 >= n || bytes[start + 2] < 48 || bytes[start + 2] > 57 {
        return Some((10 * d0 + d1, start + 2));
    }
    let d2: u8 = bytes[start + 2] - 48;
    if start + 3 < n && 48 <= bytes[start + 3] && bytes[start + 3] <= 57 {
        return None;
    }
    let v: u16 = 100 * (d0 as u16) + 10 * (d1 as u16) + (d2 as u16);
    if v > 255 {
        return None;
    }
    Some((v as u8, start + 3))
}

/// Whether the ASCII text holds a dot at index `at`.
fn read_dot(text: &str, at: usize) -> (found: bool)
    requires
        text.is_ascii(),
    ensures
        found == dot_at(text@, at as int),
{
    broadcast use is_ascii_spec_bytes;

    let bytes = text.as_bytes();
    assert(forall|i: int| 0 <= i < bytes.len() ==> bytes@[i] == text@[i] as u8);
    at < bytes.len() && bytes[at] == 46
}

/// The address that a left-to-right scan of an ASCII text reads.
fn scan_ascii(text: &str) -> (found: Option<Ipv4Address>)
    requires
        text.is_ascii(),
    ensures
        found == scan(text@),
{
    broadcast use is_ascii_spec_bytes;

    let n = text.as_bytes().len();
    assert(n == text@.len());
    let (a, i) = match read_octet(text, 0) {
        Some(read) => read,
        None => { return None; },
    };
    if !read_dot(text, i) {
        return None;
    }
    let (b, j) = match read_octet(text, i + 1) {
        Some(read) => read,
        None => { return None; },
    };
    if !read_dot(text, j) {
        return None;
    }
    let (c, k) = match read_octet(text, j + 1) {
        Some(read) => read,
        None => { return None; },
    };
    if !read_dot(text, k) {
        return None;
    }
    let (d, m) = match read_octet(text, k + 1) {
        Some(read) => read,
        None => { return None; },
    };
    if m != n {
        return None;
    }
    let address = Ipv4Address { octets: [a, b, c, d] };
    assert(address.octets =~= scan(text@).unwrap().octets);
    Some(address)
}

} // verus!
