//! The binary image encoding: a `P6` header (magic, decimal dimensions, the
//! maximum channel value 255) followed by three raw bytes per pixel,
//! row-major, top row first.

use vstd::prelude::*;

verus! {

/// The decimal digits of a nonnegative integer, most significant first.
pub open spec fn dec_spec(n: int) -> Seq<u8>
    recommends
        n >= 0,
    decreases n,
{
    if n < 10 {
        seq![(48 + n) as u8]
    } else {
        dec_spec(n / 10).push((48 + n % 10) as u8)
    }
}

/// The header of a `width` by `height` image: `P6`, a newline, the decimal
/// width, a space, the decimal height, a newline, `255`, a newline.
pub open spec fn ppm_header_spec(width: int, height: int) -> Seq<u8> {
    seq![80u8, 54u8, 10u8] + dec_spec(width) + seq![32u8] + dec_spec(height) + seq![
        10u8,
        50u8,
        53u8,
        53u8,
        10u8,
    ]
}

/// The decimal digits of a count, most significant first.
pub fn dec_bytes(n: usize) -> (r: Vec<u8>)
    ensures
        r@ == dec_spec(n as int),
    decreases n,
{
    if n < 10 {
        let mut r: Vec<u8> = Vec::new();
        r.push(48 + (n as u8));
        proof {
            assert(r@ =~= dec_spec(n as int));
        }
        r
    } else {
        let mut r = dec_bytes(n / 10);
        r.push(48 + ((n % 10) as u8));
        proof {
            assert(r@ =~= dec_spec(n as int));
        }
        r
    }
}

/// The header bytes of a `width` by `height` image.
pub fn ppm_header(width: usize, height: usize) -> (r: Vec<u8>)
    ensures
        r@ == ppm_header_spec(width as int, height as int),
{
    let mut r: Vec<u8> = Vec::new();
    r.push(80);
    r.push(54);
    r.push(10);
    let w = dec_bytes(width);
    let mut i: usize = 0;
    while i < w.len()
        invariant
            i <= w@.len(),
            r@ == seq![80u8, 54u8, 10u8] + w@.subrange(0, i as int),
        decreases w@.len() - i,
    {
        r.push(w[i]);
        proof {
            assert(r@ =~= seq![80u8, 54u8, 10u8] + w@.subrange(0, i + 1));
        }
        i = i + 1;
    }
    proof {
        assert(w@.subrange(0, w@.len() as int) =~= w@);
    }
    r.push(32);
    let h = dec_bytes(height);
    let ghost mid = seq![80u8, 54u8, 10u8] + w@ + seq![32u8];
    proof {
        assert(r@ =~= mid);
    }
    let mut j: usize = 0;
    while j < h.len()
        invariant
            j <= h@.len(),
            mid == seq![80u8, 54u8, 10u8] + w@ + seq![32u8],
            h@ == dec_spec(height as int),
            r@ == mid + h@.subrange(0, j as int),
        decreases h@.len() - j,
    {
        r.push(h[j]);
        proof {
            assert(r@ =~= mid + h@.subrange(0, j + 1));
        }
        j = j + 1;
    }
    proof {
        assert(h@.subrange(0, h@.len() as int) =~= h@);
    }
    r.push(10);
    r.push(50);
    r.push(53);
    r.push(53);
    r.push(10);
    proof {
        assert(r@ =~= ppm_header_spec(width as int, height as int));
    }
    r
}

/// The full byte stream of a `width` by `height` image: the header followed
/// by exactly `3 * width * height` pixel bytes.
pub fn ppm_bytes(width: usize, height: usize, pixels: &Vec<u8>) -> (r: Vec<u8>)
    requires
        pixels@.len() == 3 * width * height,
    ensures
        r@ == ppm_header_spec(width as int, height as int) + pixels@,
        r@.len() == ppm_header_spec(width as int, height as int).len() + 3 * width * height,
{
    let mut r = ppm_header(width, height);
    let ghost head = r@;
    let n = pixels.len();
    let mut i: usize = 0;
    while i < n
        invariant
            i <= n,
            n == pixels@.len(),
            r@ == head + pixels@.subrange(0, i as int),
        decreases n - i,
    {
        r.push(pixels[i]);
        proof {
            assert(r@ =~= head + pixels@.subrange(0, i + 1));
        }
        i = i + 1;
    }
    proof {
        assert(pixels@.subrange(0, n as int) =~= pixels@);
        assert(r@ =~= head + pixels@);
    }
    r
}

} // verus!
