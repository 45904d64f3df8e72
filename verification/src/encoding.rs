//! Hex text: byte strings, addresses, and amounts zero-padded to a fixed width.

use vstd::prelude::*;

verus! {

/// The lowercase hex digit of a value below 16.
pub open spec fn hex_char(d: nat) -> char {
    if d < 10 {
        ((48 + d) as u8) as char
    } else {
        ((87 + d) as u8) as char
    }
}

/// Two lowercase hex digits per byte, high nibble first.
pub open spec fn spec_hex_lower(bytes: Seq<u8>) -> Seq<char>
    decreases bytes.len(),
{
    if bytes.len() == 0 {
        Seq::empty()
    } else {
        seq![hex_char((bytes[0] / 16) as nat), hex_char((bytes[0] % 16) as nat)] + spec_hex_lower(
            bytes.drop_first(),
        )
    }
}

/// The digits of `n` in lowercase hex, without leading zeros ("0" for zero).
pub open spec fn hex_digits(n: nat) -> Seq<char>
    decreases n,
{
    if n < 16 {
        seq![hex_char(n)]
    } else {
        hex_digits(n / 16) + seq![hex_char(n % 16)]
    }
}

/// `text` preceded by enough '0' characters to make it `width` long.
pub open spec fn zero_padded(text: Seq<char>, width: nat) -> Seq<char> {
    if text.len() < width {
        Seq::new((width - text.len()) as nat, |i: int| '0') + text
    } else {
        text
    }
}

/// How an address displays in short: `0x`, the lowercase hex of its first
/// two bytes, an ellipsis, and the lowercase hex of its last two.
pub open spec fn spec_address_display(addr: Seq<u8>) -> Seq<char> {
    seq!['0', 'x'] + spec_hex_lower(addr.subrange(0, 2)) + seq!['…'] + spec_hex_lower(
        addr.subrange(addr.len() - 2, addr.len() as int),
    )
}

/// `hex::encode`: lowercase hex, two digits per byte.
#[verifier::external_body]
fn hex_encode(data: &[u8]) -> (text: String)
    ensures
        text@ == spec_hex_lower(data@),
{
    hex::encode(data)
}

/// The one-character string of a hex digit.
fn hex_digit_str(d: u8) -> (s: &'static str)
    requires
        d < 16,
    ensures
        s@ == seq![hex_char(d as nat)],
{
    proof {
        reveal_strlit("0");
        reveal_strlit("1");
        reveal_strlit("2");
        reveal_strlit("3");
        reveal_strlit("4");
        reveal_strlit("5");
        reveal_strlit("6");
        reveal_strlit("7");
        reveal_strlit("8");
        reveal_strlit("9");
        reveal_strlit("a");
        reveal_strlit("b");
        reveal_strlit("c");
        reveal_strlit("d");
        reveal_strlit("e");
        reveal_strlit("f");
    }
    match d {
        0 => "0",
        1 => "1",
        2 => "2",
        3 => "3",
        4 => "4",
        5 => "5",
        6 => "6",
        7 => "7",
        8 => "8",
        9 => "9",
        10 => "a",
        11 => "b",
        12 => "c",
        13 => "d",
        14 => "e",
        _ => "f",
    }
}

/// An unsigned 256-bit quantity as two 128-bit halves.
#[derive(Clone, Copy, Debug)]
pub struct U256Parts {
    pub high: u128,
    pub low: u128,
}

pub open spec fn two_pow_128() -> int {
    0x1_0000_0000_0000_0000_0000_0000_0000_0000int
}

impl U256Parts {
    pub open spec fn value(self) -> nat {
        (self.high as int * two_pow_128() + self.low as int) as nat
    }

    /// The quantity `v`.
    pub fn from_u128(v: u128) -> (r: U256Parts)
        ensures
            r.value() == v,
    {
        U256Parts { high: 0, low: v }
    }

    /// `self > other`.
    pub fn gt(&self, other: &U256Parts) -> (r: bool)
        ensures
            r == (self.value() > other.value()),
    {
        self.high > other.high || (self.high == other.high && self.low > other.low)
    }

    /// `self - other`, or `None` below zero.
    pub fn checked_sub(&self, other: &U256Parts) -> (r: Option<U256Parts>)
        ensures
            r is Some <==> self.value() >= other.value(),
            r matches Some(d) ==> d.value() == self.value() - other.value(),
    {
        if self.high > other.high || (self.high == other.high && self.low >= other.low) {
            if self.low >= other.low {
                Some(U256Parts { high: self.high - other.high, low: self.low - other.low })
            } else {
                let low: u128 = (u128::MAX - other.low) + self.low + 1;
                Some(U256Parts { high: self.high - other.high - 1, low })
            }
        } else {
            None
        }
    }

    /// The quantity divided by 16, and the remainder.
    fn div16(&self) -> (r: (U256Parts, u8))
        ensures
            r.0.value() == self.value() / 16,
            r.1 as nat == self.value() % 16,
    {
        let digit: u8 = (self.low % 16) as u8;
        let carry: u128 = self.high % 16;
        let low: u128 = self.low / 16 + carry * 0x1000_0000_0000_0000_0000_0000_0000_0000;
        let q = U256Parts { high: self.high / 16, low };
        proof {
            let h = self.high as int;
            let l = self.low as int;
            let p = two_pow_128();
            vstd::arithmetic::div_mod::lemma_fundamental_div_mod(h, 16);
            vstd::arithmetic::div_mod::lemma_fundamental_div_mod(l, 16);
            vstd::arithmetic::div_mod::lemma_mod_pos_bound(h, 16);
            vstd::arithmetic::div_mod::lemma_mod_pos_bound(l, 16);
            let v = h * p + l;
            let qv = (h / 16) * p + (h % 16) * (p / 16) + l / 16;
            assert(p == 16 * (p / 16));
            assert(v == 16 * qv + l % 16) by (nonlinear_arith)
                requires
                    h == 16 * (h / 16) + h % 16,
                    l == 16 * (l / 16) + l % 16,
                    p == 16 * (p / 16),
                    v == h * p + l,
                    qv == (h / 16) * p + (h % 16) * (p / 16) + l / 16;
            vstd::arithmetic::div_mod::lemma_fundamental_div_mod_converse(v, 16, qv, l % 16);
        }
        (q, digit)
    }
}

/// The hex digits of `v`, without leading zeros.
pub fn to_hex_string(v: U256Parts) -> (text: String)
    ensures
        text@ == hex_digits(v.value()),
    decreases v.value(),
{
    let (q, digit) = v.div16();
    if v.high == 0 && v.low < 16 {
        let mut text = String::new();
        text.append(hex_digit_str(digit));
        proof {
            vstd::arithmetic::div_mod::lemma_small_mod(v.value(), 16);
        }
        text
    } else {
        let mut text = to_hex_string(q);
        text.append(hex_digit_str(digit));
        text
    }
}

/// `text` left-padded with '0' to `width` characters.
pub fn zero_pad(text: &String, width: usize) -> (padded: String)
    ensures
        padded@ == zero_padded(text@, width as nat),
{
    let len: usize = text.unicode_len();
    let mut padded = String::new();
    if len < width {
        let mut i: usize = 0;
        while i < width - len
            invariant
                len == text@.len(),
                len < width,
                i <= width - len,
                padded@ == Seq::new(i as nat, |j: int| '0'),
            decreases width - len - i,
        {
            proof { reveal_strlit("0"); }
            padded.append("0");
            i = i + 1;
            assert(padded@ =~= Seq::new(i as nat, |j: int| '0'));
        }
    }
    padded.append(text.as_str());
    assert(padded@ =~= zero_padded(text@, width as nat));
    padded
}

/// The address in short, as it displays: `0x`, its first two bytes in hex,
/// an ellipsis, its last two bytes in hex.
pub fn address_display(addr: &[u8; 20]) -> (text: String)
    ensures
        text@ == spec_address_display(addr@),
{
    let head: [u8; 2] = [addr[0], addr[1]];
    let tail: [u8; 2] = [addr[18], addr[19]];
    assert(head@ =~= addr@.subrange(0, 2));
    assert(tail@ =~= addr@.subrange(18, 20));
    let mut text = String::new();
    proof {
        reveal_strlit("0x");
        reveal_strlit("…");
    }
    text.append("0x");
    let first = hex_encode(head.as_slice());
    text.append(first.as_str());
    text.append("…");
    let last = hex_encode(tail.as_slice());
    text.append(last.as_str());
    text
}

} // verus!
