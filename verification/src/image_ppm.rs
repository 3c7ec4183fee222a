use vstd::prelude::*;

verus! {

/// One binary PPM pixel: red, green, blue, one byte each.
#[derive(Debug, Clone, Copy, Default)]
pub struct PPMPixel {
    pub rgb: [u8; 3],
}

/// An 8-bit-per-channel image laid out row-major, ready to be written as a
/// binary (`P6`) PPM file.
#[derive(Debug, Clone)]
pub struct ImagePPM {
    pub data: Vec<PPMPixel>,
    pub width: u32,
    pub height: u32,
}

impl ImagePPM {
    /// The image holds exactly one pixel per coordinate of its resolution.
    pub open spec fn wf(self) -> bool {
        self.data@.len() == self.width as nat * self.height as nat
    }

    pub fn new(width: u32, height: u32) -> (r: Self)
        requires
            width as nat * height as nat <= u32::MAX,
        ensures
            r.wf(),
            r.width == width,
            r.height == height,
            forall|i: int|
                0 <= i < r.data@.len() ==> r.data@[i].rgb@ =~= seq![0u8, 0u8, 0u8],
    {
        let n: u32 = width * height;
        let mut data: Vec<PPMPixel> = Vec::new();
        let mut i: u32 = 0;
        while i < n
            invariant
                i <= n,
                data@.len() == i as nat,
                forall|j: int| 0 <= j < i as int ==> data@[j].rgb@ =~= seq![0u8, 0u8, 0u8],
            decreases n - i,
        {
            data.push(PPMPixel { rgb: [0, 0, 0] });
            i = i + 1;
        }
        Self { data, width, height }
    }

    /// The whole file image of this picture in the binary PPM format: the
    /// header followed by three bytes per pixel, row-major. Writing the
    /// result to disk verbatim is all that is left to the caller.
    pub fn to_bytes(&self) -> (r: Vec<u8>)
        ensures
            r@ == header_bytes(self.width, self.height) + pixel_bytes(self.data@),
    {
        let mut out: Vec<u8> = Vec::new();
        out.push(80);
        out.push(54);
        out.push(10);
        push_decimal(&mut out, self.width);
        out.push(32);
        push_decimal(&mut out, self.height);
        out.push(10);
        out.push(50);
        out.push(53);
        out.push(53);
        out.push(10);
        assert(out@ =~= header_bytes(self.width, self.height));
        let ghost header = out@;
        let mut i: usize = 0;
        while i < self.data.len()
            invariant
                i <= self.data@.len(),
                out@ == header + pixel_bytes(self.data@.subrange(0, i as int)),
                header == header_bytes(self.width, self.height),
            decreases self.data@.len() - i,
        {
            let p = self.data[i];
            out.push(p.rgb[0]);
            out.push(p.rgb[1]);
            out.push(p.rgb[2]);
            proof {
                let s = self.data@;
                let prefix = s.subrange(0, i as int + 1);
                assert(prefix.drop_last() =~= s.subrange(0, i as int));
                assert(prefix.last() == s[i as int]);
                assert(s[i as int].rgb@ =~= seq![p.rgb[0], p.rgb[1], p.rgb[2]]);
                assert(out@ =~= header + pixel_bytes(prefix));
            }
            i = i + 1;
        }
        proof {
            assert(self.data@.subrange(0, self.data@.len() as int) =~= self.data@);
        }
        out
    }
}

/// Decimal digits of `n` as ASCII bytes, most significant first, with no
/// leading zeros (a lone zero for `n == 0`).
pub open spec fn dec_rep(n: nat) -> Seq<u8>
    decreases n,
{
    if n < 10 {
        seq![(48 + n) as u8]
    } else {
        dec_rep(n / 10).push((48 + n % 10) as u8)
    }
}

/// The binary PPM header: the magic `P6`, the resolution in decimal, and
/// the maximum channel value 255, separated as the format prescribes.
pub open spec fn header_bytes(width: u32, height: u32) -> Seq<u8> {
    seq![80u8, 54u8, 10u8] + dec_rep(width as nat) + seq![32u8] + dec_rep(height as nat)
        + seq![10u8, 50u8, 53u8, 53u8, 10u8]
}

/// The pixel payload: red, green and blue of every pixel in order.
pub open spec fn pixel_bytes(s: Seq<PPMPixel>) -> Seq<u8>
    decreases s.len(),
{
    if s.len() == 0 {
        Seq::empty()
    } else {
        pixel_bytes(s.drop_last()) + s.last().rgb@
    }
}

/// Appends the decimal digits of `n` to `out`.
fn push_decimal(out: &mut Vec<u8>, n: u32)
    ensures
        final(out)@ == old(out)@ + dec_rep(n as nat),
    decreases n,
{
    if n >= 10 {
        push_decimal(out, n / 10);
    }
    out.push(48 + (n % 10) as u8);
    assert(out@ =~= old(out)@ + dec_rep(n as nat));
}

} // verus!
