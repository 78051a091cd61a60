use vstd::prelude::*;

verus! {

/// The ASCII decimal digits of `n`, most significant first, without leading zeros.
pub open spec fn decimal(n: nat) -> Seq<u8>
    decreases n,
{
    if n < 10 {
        seq![(48 + n) as u8]
    } else {
        decimal(n / 10).push((48 + n % 10) as u8)
    }
}

/// The header of a binary full-colour bitmap: `"P6\n{width} {height}\n255\n"`.
pub open spec fn ppm_header(width: nat, height: nat) -> Seq<u8> {
    seq![80u8, 54u8, 10u8] + decimal(width) + seq![32u8] + decimal(height) + seq![
        10u8,
        50u8,
        53u8,
        53u8,
        10u8,
    ]
}

/// Appends the decimal digits of `n` to `out`.
pub fn push_decimal(out: &mut Vec<u8>, n: u32)
    ensures
        final(out)@ == old(out)@ + decimal(n as nat),
    decreases n,
{
    if n >= 10 {
        push_decimal(out, n / 10);
    }
    out.push(48 + (n % 10) as u8);
    proof {
        if n >= 10 {
            assert(decimal(n as nat) == decimal((n / 10) as nat).push((48 + n % 10) as u8));
        }
    }
}

/// Serialises a frame of `width` by `height` pixels, three bytes (red, green, blue) each in
/// row-major order, as a binary full-colour bitmap: the text header, then the bytes as they
/// are. `None` when `pixels` does not hold exactly `3 * width * height` bytes.
pub fn encode_ppm(width: u32, height: u32, pixels: &Vec<u8>) -> (r: Option<Vec<u8>>)
    ensures
        r is Some <==> pixels@.len() == 3 * (width as int * height as int),
        r matches Some(bytes) ==> bytes@ == ppm_header(width as nat, height as nat) + pixels@,
{
    proof {
        assert((width as int) * (height as int) <= 0xffff_ffff * 0xffff_ffff) by (nonlinear_arith)
            requires
                width <= 0xffff_ffff,
                height <= 0xffff_ffff,
        ;
    }
    let expected: u128 = 3 * ((width as u128) * (height as u128));
    if pixels.len() as u128 != expected {
        return None;
    }
    let mut out: Vec<u8> = Vec::new();
    out.push(80);
    out.push(54);
    out.push(10);
    push_decimal(&mut out, width);
    out.push(32);
    push_decimal(&mut out, height);
    out.push(10);
    out.push(50);
    out.push(53);
    out.push(53);
    out.push(10);
    let ghost head = out@;
    assert(head == ppm_header(width as nat, height as nat));
    let mut i: usize = 0;
    while i < pixels.len()
        invariant
            i <= pixels@.len(),
            out@ == head + pixels@.take(i as int),
        decreases pixels@.len() - i,
    {
        out.push(pixels[i]);
        i = i + 1;
        assert(pixels@.take(i as int) == pixels@.take(i - 1).push(pixels@[i - 1]));
    }
    assert(pixels@.take(pixels@.len() as int) == pixels@);
    Some(out)
}

} // verus!
