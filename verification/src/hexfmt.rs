//! Lowercase hexadecimal formatting, as the seed-derivation chain feeds it
//! back into the digest: a byte string rendered as two digits per byte, and
//! an index rendered zero-padded to at least four digits.

use vstd::prelude::*;

verus! {

/// ASCII code of the lowercase hexadecimal digit of `n`, for `0 <= n < 16`.
pub open spec fn hex_digit(n: int) -> u8 {
    if n < 10 {
        (48 + n) as u8
    } else {
        (87 + n) as u8
    }
}

/// The lowercase hexadecimal rendering of a byte string: two digits per byte,
/// high digit first.
pub open spec fn hex_ascii(data: Seq<u8>) -> Seq<u8> {
    Seq::new(
        data.len() * 2,
        |i: int|
            if i % 2 == 0 {
                hex_digit((data[i / 2] / 16) as int)
            } else {
                hex_digit((data[i / 2] % 16) as int)
            },
    )
}

/// The minimal lowercase hexadecimal rendering of `n`, high digit first.
pub open spec fn hex_rep(n: nat) -> Seq<u8>
    decreases n,
{
    if n < 16 {
        seq![hex_digit(n as int)]
    } else {
        hex_rep(n / 16).push(hex_digit((n % 16) as int))
    }
}

/// The rendering of `n` zero-padded on the left to at least four digits.
pub open spec fn hex4_ascii(n: nat) -> Seq<u8> {
    if hex_rep(n).len() >= 4 {
        hex_rep(n)
    } else {
        Seq::new((4 - hex_rep(n).len()) as nat, |i: int| 48u8) + hex_rep(n)
    }
}

/// Renders a byte string as lowercase hexadecimal.
pub fn hex_encode(data: &Vec<u8>) -> (r: Vec<u8>)
    ensures
        r@ == hex_ascii(data@),
{
    let mut r: Vec<u8> = Vec::new();
    let mut i: usize = 0;
    while i < data.len()
        invariant
            i <= data.len(),
            r.len() == 2 * i,
            forall|k: int| 0 <= k < 2 * i ==> #[trigger] r@[k] == hex_ascii(data@)[k],
        decreases data.len() - i,
    {
        let b = data[i];
        let hi: u8 = b / 16;
        let lo: u8 = b % 16;
        let dh: u8 = if hi < 10 {
            48 + hi
        } else {
            87 + hi
        };
        let dl: u8 = if lo < 10 {
            48 + lo
        } else {
            87 + lo
        };
        proof {
            assert(dh == hex_digit((data@[i as int] / 16) as int));
            assert(dl == hex_digit((data@[i as int] % 16) as int));
        }
        r.push(dh);
        r.push(dl);
        i = i + 1;
    }
    proof {
        assert(r@ =~= hex_ascii(data@));
    }
    r
}

/// The digits of `tmp` read back to front.
spec fn rev_seq(tmp: Seq<u8>) -> Seq<u8> {
    Seq::new(tmp.len(), |i: int| tmp[tmp.len() - 1 - i])
}

/// Renders `n` as lowercase hexadecimal, zero-padded on the left to at least
/// four digits.
pub fn hex4(n: usize) -> (r: Vec<u8>)
    ensures
        r@ == hex4_ascii(n as nat),
{
    let mut tmp: Vec<u8> = Vec::new();
    let mut m: usize = n;
    while m >= 16
        invariant
            hex_rep(n as nat) == hex_rep(m as nat) + rev_seq(tmp@),
        decreases m,
    {
        let d: u8 = (m % 16) as u8;
        let dc: u8 = if d < 10 {
            48 + d
        } else {
            87 + d
        };
        proof {
            assert(dc == hex_digit((m as nat % 16) as int));
            assert(hex_rep(m as nat) == hex_rep(m as nat / 16).push(
                hex_digit((m as nat % 16) as int),
            ));
        }
        tmp.push(dc);
        m = m / 16;
        proof {
            assert(rev_seq(tmp@) =~= seq![tmp@[tmp@.len() - 1]] + rev_seq(
                tmp@.subrange(0, tmp@.len() - 1),
            ));
            assert(tmp@.subrange(0, tmp@.len() - 1) =~= tmp@.drop_last());
            assert(hex_rep(m as nat).push(dc) + rev_seq(tmp@.drop_last()) =~= hex_rep(m as nat)
                + rev_seq(tmp@));
        }
    }
    let d: u8 = (m % 16) as u8;
    let dc: u8 = if d < 10 {
        48 + d
    } else {
        87 + d
    };
    proof {
        assert(hex_rep(m as nat) == seq![hex_digit(m as int)]);
        assert(dc == hex_digit(m as int));
    }
    // Digits high-first are dc followed by tmp back to front; the count is
    // tmp.len() + 1, padded with ASCII zeros up to four.
    let mut r: Vec<u8> = Vec::new();
    let mut pad: usize = 0;
    if tmp.len() < 3 {
        pad = 3 - tmp.len();
    }
    let mut p: usize = 0;
    while p < pad
        invariant
            p <= pad,
            r.len() == p,
            forall|k: int| 0 <= k < p ==> #[trigger] r@[k] == 48u8,
        decreases pad - p,
    {
        r.push(48);
        p = p + 1;
    }
    r.push(dc);
    let mut j: usize = 0;
    while j < tmp.len()
        invariant
            j <= tmp.len(),
            pad <= 3,
            r.len() == pad + 1 + j,
            forall|k: int| 0 <= k < pad ==> #[trigger] r@[k] == 48u8,
            r@[pad as int] == dc,
            forall|k: int|
                0 <= k < j ==> #[trigger] r@[pad + 1 + k] == tmp@[tmp@.len() - 1 - k],
        decreases tmp.len() - j,
    {
        r.push(tmp[tmp.len() - 1 - j]);
        j = j + 1;
    }
    proof {
        let digits = hex_rep(n as nat);
        assert(digits == hex_rep(m as nat) + rev_seq(tmp@));
        assert(digits.len() == 1 + tmp@.len());
        assert(r@.len() == pad + digits.len());
        assert(r@.len() == hex4_ascii(n as nat).len());
        assert forall|k: int| 0 <= k < r@.len() implies r@[k] == hex4_ascii(n as nat)[k] by {
            if k < pad {
                assert(r@[k] == 48u8);
            } else if k == pad {
                assert(digits[0] == hex_digit(m as int));
            } else {
                let q = k - pad - 1;
                assert(r@[pad + 1 + q] == tmp@[tmp@.len() - 1 - q]);
                assert(digits[q + 1] == rev_seq(tmp@)[q]);
            }
        }
        assert(r@ =~= hex4_ascii(n as nat));
    }
    r
}

} // verus!
