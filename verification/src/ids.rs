//! Entity identifiers: the plain 128-bit value form of a UUID, with its
//! canonical hyphenated text rendering.

use vstd::prelude::*;
use crate::text::string_from_chars;

verus! {

/// A 128-bit entity identifier; the plain-value form of a version-4 UUID.
#[derive(Debug, Clone, Copy, PartialEq, Eq, Hash, Structural)]
pub struct EntityId {
    pub value: u128,
}

/// Relies on `uuid::Uuid::new_v4` and `uuid::Uuid::as_u128`: a fresh random
/// version-4 UUID, returned as its 128-bit big-endian value. The result is
/// random, so nothing is promised of it.
#[verifier::external_body]
fn random_u128() -> u128 {
    uuid::Uuid::new_v4().as_u128()
}

/// One lowercase hexadecimal digit.
pub open spec fn hex_char(d: int) -> char
    recommends
        0 <= d < 16,
{
    if d == 0 {
        '0'
    } else if d == 1 {
        '1'
    } else if d == 2 {
        '2'
    } else if d == 3 {
        '3'
    } else if d == 4 {
        '4'
    } else if d == 5 {
        '5'
    } else if d == 6 {
        '6'
    } else if d == 7 {
        '7'
    } else if d == 8 {
        '8'
    } else if d == 9 {
        '9'
    } else if d == 10 {
        'a'
    } else if d == 11 {
        'b'
    } else if d == 12 {
        'c'
    } else if d == 13 {
        'd'
    } else if d == 14 {
        'e'
    } else {
        'f'
    }
}

/// The last `digits` hexadecimal digits of `v`, most significant first.
pub open spec fn hex_seq(v: int, digits: nat) -> Seq<char>
    decreases digits,
{
    if digits == 0 {
        Seq::empty()
    } else {
        hex_seq(v / 16, (digits - 1) as nat).push(hex_char(v % 16))
    }
}

/// The canonical hyphenated text of a 128-bit identifier: 32 lowercase
/// hexadecimal digits in groups of 8, 4, 4, 4 and 12.
pub open spec fn uuid_text(v: u128) -> Seq<char> {
    let h = hex_seq(v as int, 32);
    h.subrange(0, 8) + seq!['-'] + h.subrange(8, 12) + seq!['-'] + h.subrange(12, 16)
        + seq!['-'] + h.subrange(16, 20) + seq!['-'] + h.subrange(20, 32)
}

fn hex_char_exec(d: u128) -> (c: char)
    requires
        d < 16,
    ensures
        c == hex_char(d as int),
{
    if d == 0 {
        '0'
    } else if d == 1 {
        '1'
    } else if d == 2 {
        '2'
    } else if d == 3 {
        '3'
    } else if d == 4 {
        '4'
    } else if d == 5 {
        '5'
    } else if d == 6 {
        '6'
    } else if d == 7 {
        '7'
    } else if d == 8 {
        '8'
    } else if d == 9 {
        '9'
    } else if d == 10 {
        'a'
    } else if d == 11 {
        'b'
    } else if d == 12 {
        'c'
    } else if d == 13 {
        'd'
    } else if d == 14 {
        'e'
    } else {
        'f'
    }
}

fn hex_digits(v: u128, digits: u32) -> (r: Vec<char>)
    ensures
        r@ == hex_seq(v as int, digits as nat),
    decreases digits,
{
    if digits == 0 {
        Vec::new()
    } else {
        let mut r = hex_digits(v / 16, digits - 1);
        r.push(hex_char_exec(v % 16));
        r
    }
}

fn push_range(out: &mut Vec<char>, h: &Vec<char>, from: usize, to: usize)
    requires
        from <= to <= h@.len(),
        old(out)@.len() + (to - from) <= usize::MAX,
    ensures
        final(out)@ == old(out)@ + h@.subrange(from as int, to as int),
{
    let mut k: usize = from;
    while k < to
        invariant
            from <= k <= to <= h@.len(),
            out@.len() == old(out)@.len() + (k - from),
            out@ == old(out)@ + h@.subrange(from as int, k as int),
        decreases to - k,
    {
        out.push(h[k]);
        proof {
            assert(out@ =~= old(out)@ + h@.subrange(from as int, k + 1 as int));
        }
        k += 1;
    }
}

impl EntityId {
    /// A fresh random identifier.
    pub fn fresh() -> EntityId {
        EntityId { value: random_u128() }
    }

    /// The hyphenated lowercase-hex text of this identifier.
    pub fn to_text(&self) -> (r: String)
        ensures
            r@ == uuid_text(self.value),
    {
        let h = hex_digits(self.value, 32);
        proof {
            assert(h@.len() == 32) by {
                lemma_hex_seq_len(self.value as int, 32);
            }
        }
        let mut out: Vec<char> = Vec::new();
        push_range(&mut out, &h, 0, 8);
        out.push('-');
        push_range(&mut out, &h, 8, 12);
        out.push('-');
        push_range(&mut out, &h, 12, 16);
        out.push('-');
        push_range(&mut out, &h, 16, 20);
        out.push('-');
        push_range(&mut out, &h, 20, 32);
        proof {
            assert(out@ =~= uuid_text(self.value));
        }
        string_from_chars(&out)
    }
}

/// `hex_seq` yields exactly as many characters as digits were asked for.
pub proof fn lemma_hex_seq_len(v: int, digits: nat)
    ensures
        hex_seq(v, digits).len() == digits,
    decreases digits,
{
    if digits > 0 {
        lemma_hex_seq_len(v / 16, (digits - 1) as nat);
    }
}

} // verus!
