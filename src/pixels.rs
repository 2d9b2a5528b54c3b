//! Raw RGBA pixel buffers.
use vstd::prelude::*;

verus! {

/// A flat run of 8-bit RGBA samples, row by row, with its dimensions.
#[derive(Debug)]
pub struct PixelBuffer {
    pub width: usize,
    pub height: usize,
    pub data: Vec<u8>,
}

impl PixelBuffer {
    /// Four samples per pixel, no more and no fewer.
    pub open spec fn wf(&self) -> bool {
        self.data@.len() == self.width * self.height * 4
    }
}

/// The RGB samples of an RGBA run: the alpha sample of each pixel left out.
pub open spec fn rgb_of(rgba: Seq<u8>) -> Seq<u8> {
    Seq::new((rgba.len() / 4 * 3) as nat, |j: int| rgba[(j / 3) * 4 + j % 3])
}

/// Drops the alpha sample of every pixel of `rgba`.
pub fn strip_alpha(rgba: &Vec<u8>) -> (r: Vec<u8>)
    requires
        rgba@.len() % 4 == 0,
    ensures
        r@ == rgb_of(rgba@),
{
    let len = rgba.len();
    let n = len / 4;
    let mut r: Vec<u8> = Vec::new();
    let mut i: usize = 0;
    while i < n
        invariant
            len == rgba@.len(),
            n == len / 4,
            rgba@.len() % 4 == 0,
            i <= n,
            r@.len() == 3 * i,
            forall|j: int| 0 <= j < 3 * i ==> #[trigger] r@[j] == rgba@[(j / 3) * 4 + j % 3],
        decreases n - i,
    {
        let base = 4 * i;
        r.push(rgba[base]);
        r.push(rgba[base + 1]);
        r.push(rgba[base + 2]);
        proof {
            assert forall|j: int| 0 <= j < 3 * (i + 1) implies #[trigger] r@[j] == rgba@[(j / 3) * 4 + j % 3] by {
                if j >= 3 * i {
                    assert(j / 3 == i as int);
                }
            }
        }
        i = i + 1;
    }
    assert(r@ =~= rgb_of(rgba@));
    r
}

} // verus!
