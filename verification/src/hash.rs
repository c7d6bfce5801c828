//! Torrent content identifiers.
//!
//! A torrent is identified by a fixed 20-byte hash, rendered in daemon
//! messages as a 40-character hexadecimal string (either letter case on
//! input, lower case on output).

use vstd::prelude::*;

verus! {

/// Number of bytes in a torrent content identifier.
pub const HASH_LEN: usize = 20;

/// Whether `c` is a hexadecimal digit (either letter case).
pub open spec fn is_hex_digit(c: char) -> bool {
    ||| c == '0' || c == '1' || c == '2' || c == '3' || c == '4'
    ||| c == '5' || c == '6' || c == '7' || c == '8' || c == '9'
    ||| c == 'a' || c == 'b' || c == 'c' || c == 'd' || c == 'e' || c == 'f'
    ||| c == 'A' || c == 'B' || c == 'C' || c == 'D' || c == 'E' || c == 'F'
}

/// Numeric value of the hexadecimal digit `c`.
pub open spec fn hex_digit_value(c: char) -> u8
    recommends
        is_hex_digit(c),
{
    if c == '0' { 0 } else if c == '1' { 1 } else if c == '2' { 2 }
    else if c == '3' { 3 } else if c == '4' { 4 } else if c == '5' { 5 }
    else if c == '6' { 6 } else if c == '7' { 7 } else if c == '8' { 8 }
    else if c == '9' { 9 }
    else if c == 'a' || c == 'A' { 10 } else if c == 'b' || c == 'B' { 11 }
    else if c == 'c' || c == 'C' { 12 } else if c == 'd' || c == 'D' { 13 }
    else if c == 'e' || c == 'E' { 14 } else { 15 }
}

/// Lower-case hexadecimal digit for a value below 16.
pub open spec fn hex_char(n: u8) -> char
    recommends
        n < 16,
{
    if n == 0 { '0' } else if n == 1 { '1' } else if n == 2 { '2' }
    else if n == 3 { '3' } else if n == 4 { '4' } else if n == 5 { '5' }
    else if n == 6 { '6' } else if n == 7 { '7' } else if n == 8 { '8' }
    else if n == 9 { '9' } else if n == 10 { 'a' } else if n == 11 { 'b' }
    else if n == 12 { 'c' } else if n == 13 { 'd' } else if n == 14 { 'e' }
    else { 'f' }
}

/// Whether every character of `s` is a hexadecimal digit.
pub open spec fn all_hex_digits(s: Seq<char>) -> bool {
    forall|i: int| 0 <= i < s.len() ==> is_hex_digit(#[trigger] s[i])
}

/// The bytes denoted by a sequence of hexadecimal digit pairs.
pub open spec fn parse_hex(s: Seq<char>) -> Seq<u8> {
    Seq::new(s.len() / 2, |i: int| (hex_digit_value(s[2 * i]) * 16 + hex_digit_value(s[2 * i + 1])) as u8)
}

/// The lower-case hexadecimal rendering of `b`, two digits per byte.
pub open spec fn render_hex(b: Seq<u8>) -> Seq<char> {
    Seq::new(2 * b.len(), |i: int| if i % 2 == 0 { hex_char(b[i / 2] / 16) } else { hex_char(b[i / 2] % 16) })
}

/// A 20-byte torrent content identifier.
#[derive(Debug, Clone, PartialEq, Eq)]
pub struct InfoHash {
    bytes: Vec<u8>,
}

impl View for InfoHash {
    type V = Seq<u8>;

    closed spec fn view(&self) -> Seq<u8> {
        self.bytes@
    }
}

/// `hex_char` renders exactly the digit that `hex_digit_value` reads back.
pub proof fn lemma_hex_char_value(n: u8)
    requires
        n < 16,
    ensures
        is_hex_digit(hex_char(n)),
        hex_digit_value(hex_char(n)) == n,
{
}

/// Parsing the rendering of any byte sequence gives the bytes back, and the
/// rendering consists of hexadecimal digits only.
pub proof fn lemma_parse_render_hex(b: Seq<u8>)
    ensures
        render_hex(b).len() == 2 * b.len(),
        all_hex_digits(render_hex(b)),
        parse_hex(render_hex(b)) =~= b,
{
    let r = render_hex(b);
    assert forall|i: int| 0 <= i < r.len() implies is_hex_digit(#[trigger] r[i]) by {
        if i % 2 == 0 {
            lemma_hex_char_value(b[i / 2] / 16);
        } else {
            lemma_hex_char_value(b[i / 2] % 16);
        }
    }
    assert forall|i: int| 0 <= i < b.len() implies parse_hex(r)[i] == b[i] by {
        assert((2 * i) % 2 == 0 && (2 * i) / 2 == i);
        assert((2 * i + 1) % 2 == 1 && (2 * i + 1) / 2 == i);
        lemma_hex_char_value(b[i] / 16);
        lemma_hex_char_value(b[i] % 16);
        assert(b[i] / 16 * 16 + b[i] % 16 == b[i]) by (nonlinear_arith);
    }
}

impl InfoHash {
    /// Well-formedness: the identifier holds exactly 20 bytes.
    pub open spec fn wf(&self) -> bool {
        self@.len() == HASH_LEN
    }

    /// The identifier's bytes, in order.
    pub fn as_bytes(&self) -> (r: &Vec<u8>)
        ensures
            r@ == self@,
    {
        &self.bytes
    }

    /// Parse a 40-character hexadecimal string into an identifier.
    ///
    /// Returns a value exactly when the input is 40 characters long and
    /// every character is a hexadecimal digit.
    pub fn from_hex(s: &str) -> (r: Option<InfoHash>)
        ensures
            r is Some <==> s@.len() == 40 && all_hex_digits(s@),
            r matches Some(h) ==> h.wf() && h@ == parse_hex(s@),
    {
        if s.unicode_len() != 40 {
            return None;
        }
        let mut bytes: Vec<u8> = Vec::new();
        let mut i: usize = 0;
        while i < 20
            invariant
                s@.len() == 40,
                i <= 20,
                bytes@.len() == i,
                forall|j: int| 0 <= j < 2 * i ==> is_hex_digit(#[trigger] s@[j]),
                forall|j: int| 0 <= j < i ==> bytes@[j] == parse_hex(s@)[j],
            decreases 20 - i,
        {
            let hi = match hex_digit_of(s.get_char(2 * i)) {
                Some(v) => v,
                None => { return None; },
            };
            let lo = match hex_digit_of(s.get_char(2 * i + 1)) {
                Some(v) => v,
                None => { return None; },
            };
            bytes.push(hi * 16 + lo);
            i = i + 1;
        }
        let h = InfoHash { bytes };
        proof {
            assert(h@ =~= parse_hex(s@));
        }
        Some(h)
    }

    /// Render the identifier as its 40-character lower-case hexadecimal form.
    pub fn to_hex(&self) -> (r: String)
        requires
            self.wf(),
        ensures
            r@ == render_hex(self@),
    {
        let mut out = String::new();
        let mut i: usize = 0;
        while i < self.bytes.len()
            invariant
                self.wf(),
                i <= self.bytes@.len(),
                out@ =~= render_hex(self@).take(2 * i),
            decreases self.bytes@.len() - i,
        {
            let b = self.bytes[i];
            out.append(hex_str(b / 16));
            out.append(hex_str(b % 16));
            proof {
                assert(out@ =~= render_hex(self@).take(2 * (i + 1)));
            }
            i = i + 1;
        }
        proof {
            assert(out@ =~= render_hex(self@));
        }
        out
    }
}

/// Numeric value of a hexadecimal digit character, if it is one.
pub fn hex_digit_of(c: char) -> (r: Option<u8>)
    ensures
        r is Some <==> is_hex_digit(c),
        r matches Some(v) ==> v == hex_digit_value(c) && v < 16,
{
    match c {
        '0' => Some(0), '1' => Some(1), '2' => Some(2), '3' => Some(3),
        '4' => Some(4), '5' => Some(5), '6' => Some(6), '7' => Some(7),
        '8' => Some(8), '9' => Some(9),
        'a' | 'A' => Some(10), 'b' | 'B' => Some(11), 'c' | 'C' => Some(12),
        'd' | 'D' => Some(13), 'e' | 'E' => Some(14), 'f' | 'F' => Some(15),
        _ => None,
    }
}

/// Lower-case hexadecimal digit, as a one-character string, for a value
/// below 16.
pub fn hex_str(n: u8) -> (r: &'static str)
    requires
        n < 16,
    ensures
        r@ =~= seq![hex_char(n)],
{
    proof {
        reveal_strlit("0"); reveal_strlit("1"); reveal_strlit("2"); reveal_strlit("3");
        reveal_strlit("4"); reveal_strlit("5"); reveal_strlit("6"); reveal_strlit("7");
        reveal_strlit("8"); reveal_strlit("9"); reveal_strlit("a"); reveal_strlit("b");
        reveal_strlit("c"); reveal_strlit("d"); reveal_strlit("e"); reveal_strlit("f");
    }
    match n {
        0 => "0", 1 => "1", 2 => "2", 3 => "3", 4 => "4", 5 => "5", 6 => "6",
        7 => "7", 8 => "8", 9 => "9", 10 => "a", 11 => "b", 12 => "c",
        13 => "d", 14 => "e", _ => "f",
    }
}

} // verus!
