//! Lowercase hexadecimal text, the alphabet of every token segment.
use vstd::prelude::*;

verus! {

/// The ASCII byte of the lowercase hexadecimal digit for `v` (`0 <= v < 16`).
pub open spec fn hex_digit(v: int) -> u8 {
    if v < 10 {
        (48 + v) as u8
    } else {
        (87 + v) as u8
    }
}

/// The value of `c` read as a lowercase hexadecimal digit, if it is one.
pub open spec fn hex_value(c: u8) -> Option<int> {
    if 48 <= c <= 57 {
        Some(c - 48)
    } else if 97 <= c <= 102 {
        Some(c - 87)
    } else {
        None
    }
}

/// Two lowercase digits per byte, most significant digit first.
pub open spec fn hex_encode(b: Seq<u8>) -> Seq<u8> {
    Seq::new(
        (2 * b.len()) as nat,
        |i: int|
            if i % 2 == 0 {
                hex_digit(b[i / 2] as int / 16)
            } else {
                hex_digit(b[i / 2] as int % 16)
            },
    )
}

/// An even number of lowercase hexadecimal digits.
pub open spec fn is_hex_text(h: Seq<u8>) -> bool {
    &&& h.len() % 2 == 0
    &&& forall|i: int| 0 <= i < h.len() ==> #[trigger] hex_value(h[i]) is Some
}

/// The bytes that `h` spells, or `None` where it is not hexadecimal text.
pub open spec fn hex_decode(h: Seq<u8>) -> Option<Seq<u8>> {
    if is_hex_text(h) {
        Some(
            Seq::new(
                (h.len() / 2) as nat,
                |i: int| (hex_value(h[2 * i])->0 * 16 + hex_value(h[2 * i + 1])->0) as u8,
            ),
        )
    } else {
        None
    }
}

pub proof fn lemma_hex_digit_value(v: int)
    requires
        0 <= v < 16,
    ensures
        hex_value(hex_digit(v)) == Some(v),
{
}

/// Decoding undoes encoding.
pub proof fn lemma_hex_round_trip(b: Seq<u8>)
    ensures
        hex_decode(hex_encode(b)) == Some(b),
{
    let h = hex_encode(b);
    assert forall|i: int| 0 <= i < h.len() implies #[trigger] hex_value(h[i]) is Some by {
        lemma_hex_digit_value(b[i / 2] as int / 16);
        lemma_hex_digit_value(b[i / 2] as int % 16);
    }
    assert forall|i: int| 0 <= i < b.len() implies (hex_value(h[2 * i])->0 * 16 + hex_value(
        h[2 * i + 1],
    )->0) as u8 == b[i] by {
        assert((2 * i) % 2 == 0 && (2 * i) / 2 == i);
        assert((2 * i + 1) % 2 == 1 && (2 * i + 1) / 2 == i);
        lemma_hex_digit_value(b[i] as int / 16);
        lemma_hex_digit_value(b[i] as int % 16);
    }
    assert(hex_decode(h)->0 =~= b);
}

/// Two different digits never stand for the same value.
pub proof fn lemma_hex_value_injective(c: u8, d: u8)
    requires
        hex_value(c) is Some,
        hex_value(c) == hex_value(d),
    ensures
        c == d,
{
}

/// Changing one digit of hexadecimal text changes the bytes it spells.
pub proof fn lemma_hex_decode_update(h: Seq<u8>, j: int, c: u8)
    requires
        hex_decode(h) is Some,
        hex_decode(h.update(j, c)) is Some,
        0 <= j < h.len(),
        c != h[j],
    ensures
        hex_decode(h.update(j, c)) != hex_decode(h),
{
    let g = h.update(j, c);
    let k = j / 2;
    assert(0 <= k < h.len() / 2);
    assert(hex_value(h[j]) is Some);
    assert(hex_value(g[j]) is Some);
    if hex_value(g[j]) == hex_value(h[j]) {
        lemma_hex_value_injective(g[j], h[j]);
    }
    let a = hex_decode(h)->0;
    let b = hex_decode(g)->0;
    assert(hex_value(h[2 * k]) is Some && hex_value(h[2 * k + 1]) is Some);
    assert(hex_value(g[2 * k]) is Some && hex_value(g[2 * k + 1]) is Some);
    assert(a[k] != b[k]);
}

/// The lowercase digit for `v`.
fn digit_of(v: u8) -> (c: u8)
    requires
        v < 16,
    ensures
        c == hex_digit(v as int),
{
    if v < 10 {
        48 + v
    } else {
        87 + v
    }
}

/// The value of the digit `c`, if it is a lowercase hexadecimal digit.
fn value_of(c: u8) -> (r: Option<u8>)
    ensures
        match hex_value(c) {
            Some(v) => r == Some(v as u8),
            None => r is None,
        },
{
    if 48 <= c && c <= 57 {
        Some(c - 48)
    } else if 97 <= c && c <= 102 {
        Some(c - 87)
    } else {
        None
    }
}

/// Spells `b` in lowercase hexadecimal.
pub fn encode_hex(b: &[u8]) -> (r: Vec<u8>)
    ensures
        r@ == hex_encode(b@),
{
    let mut r: Vec<u8> = Vec::new();
    let mut i: usize = 0;
    while i < b.len()
        invariant
            i <= b@.len(),
            r@.len() == 2 * i,
            forall|k: int| 0 <= k < 2 * i ==> r@[k] == #[trigger] hex_encode(b@)[k],
        decreases b@.len() - i,
    {
        let x = b[i];
        r.push(digit_of(x / 16));
        r.push(digit_of(x % 16));
        proof {
            assert((2 * i as int) % 2 == 0 && (2 * i as int) / 2 == i);
            assert((2 * i as int + 1) % 2 == 1 && (2 * i as int + 1) / 2 == i);
        }
        i += 1;
    }
    assert(r@ =~= hex_encode(b@));
    r
}

/// Reads lowercase hexadecimal text back into bytes.
pub fn decode_hex(h: &[u8]) -> (r: Option<Vec<u8>>)
    ensures
        match hex_decode(h@) {
            Some(s) => r is Some && r->0@ == s,
            None => r is None,
        },
{
    if h.len() % 2 != 0 {
        return None;
    }
    let n: usize = h.len() / 2;
    let mut out: Vec<u8> = Vec::new();
    let mut i: usize = 0;
    while i < n
        invariant
            n == h@.len() / 2,
            h@.len() == h.len(),
            h@.len() % 2 == 0,
            i <= n,
            out@.len() == i,
            forall|k: int| 0 <= k < 2 * i ==> #[trigger] hex_value(h@[k]) is Some,
            forall|k: int|
                0 <= k < i ==> #[trigger] out@[k] == (hex_value(h@[2 * k])->0 * 16 + hex_value(
                    h@[2 * k + 1],
                )->0) as u8,
        decreases n - i,
    {
        assert(2 * i + 1 < h.len());
        let hi = value_of(h[2 * i]);
        let lo = value_of(h[2 * i + 1]);
        match (hi, lo) {
            (Some(a), Some(b)) => {
                out.push(a * 16 + b);
            },
            _ => {
                proof {
                    assert(!is_hex_text(h@)) by {
                        assert(hex_value(h@[2 * i as int]) is None || hex_value(
                            h@[2 * i as int + 1],
                        ) is None);
                    }
                }
                return None;
            },
        }
        i += 1;
    }
    assert(is_hex_text(h@)) by {
        assert forall|k: int| 0 <= k < h@.len() implies #[trigger] hex_value(h@[k]) is Some by {
            assert(k < 2 * i);
        }
    }
    assert(out@ =~= hex_decode(h@)->0);
    Some(out)
}

} // verus!
