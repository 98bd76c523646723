use vstd::prelude::*;

verus! {

/// Import helpers for glTF content: the pixel and index conversions the
/// loader applies to what the glTF reader hands it.
pub struct GltfLoader;

/// Pixel layouts a glTF image can arrive in, as far as the loader tells them apart.
#[derive(Debug, Clone, Copy, PartialEq, Eq, Structural)]
pub enum ImagePixels {
    Rgb8,
    Rgba8,
    /// Any layout the engine does not upload.
    Unsupported,
}

/// `pixels` with an opaque alpha byte appended to each complete RGB triple;
/// a trailing partial triple is dropped.
pub open spec fn rgba_of_rgb(pixels: Seq<u8>) -> Seq<u8> {
    Seq::new(
        4 * (pixels.len() / 3),
        |n: int| if n % 4 == 3 { 255u8 } else { pixels[3 * (n / 4) + n % 4] },
    )
}

/// `indices` with the last two corners of every complete triangle swapped;
/// a trailing partial triangle is kept as it is.
pub open spec fn flipped_winding(indices: Seq<u32>) -> Seq<u32> {
    Seq::new(
        indices.len(),
        |n: int|
            if n >= 3 * (indices.len() / 3) {
                indices[n]
            } else if n % 3 == 1 {
                indices[n + 1]
            } else if n % 3 == 2 {
                indices[n - 1]
            } else {
                indices[n]
            },
    )
}

impl GltfLoader {
    /// Expand tightly packed 8-bit RGB pixels to RGBA with full alpha.
    pub fn rgb_to_rgba(pixels: &[u8]) -> (r: Vec<u8>)
        requires
            pixels@.len() <= usize::MAX / 2,
        ensures
            r@ == rgba_of_rgb(pixels@),
    {
        let mut rgba: Vec<u8> = Vec::new();
        let count = pixels.len() / 3;
        let mut i: usize = 0;
        while i < count
            invariant
                count == pixels@.len() / 3,
                i <= count,
                pixels@.len() <= usize::MAX / 2,
                rgba@ =~= rgba_of_rgb(pixels@).take(4 * i as int),
            decreases count - i,
        {
            let ghost before = rgba@;
            rgba.push(pixels[3 * i]);
            rgba.push(pixels[3 * i + 1]);
            rgba.push(pixels[3 * i + 2]);
            rgba.push(255u8);
            proof {
                let target = rgba_of_rgb(pixels@);
                assert forall|n: int| 4 * i <= n < 4 * i + 4 implies #[trigger] target[n] == rgba@[n] by {
                    vstd::arithmetic::div_mod::lemma_fundamental_div_mod_converse(n, 4, i as int, n - 4 * i);
                }
                assert(rgba@ =~= target.take(4 * (i + 1)));
            }
            i = i + 1;
        }
        proof {
            assert(rgba_of_rgb(pixels@).take(4 * count as int) =~= rgba_of_rgb(pixels@));
        }
        rgba
    }

    /// Reverse the winding of every complete triangle (used when a node's
    /// transform mirrors geometry).
    pub fn flip_winding(indices: &mut Vec<u32>)
        ensures
            final(indices)@ == flipped_winding(old(indices)@),
    {
        let ghost original = indices@;
        let triangles = indices.len() / 3;
        assert(3 * triangles <= original.len()) by {
            vstd::arithmetic::div_mod::lemma_fundamental_div_mod(original.len() as int, 3);
        }
        let mut t: usize = 0;
        while t < triangles
            invariant
                triangles == original.len() / 3,
                3 * triangles <= original.len(),
                original.len() <= usize::MAX,
                t <= triangles,
                indices@.len() == original.len(),
                forall|n: int| 0 <= n < 3 * t ==> #[trigger] indices@[n] == flipped_winding(original)[n],
                forall|n: int| 3 * t <= n < original.len() ==> #[trigger] indices@[n] == original[n],
            decreases triangles - t,
        {
            let a = indices[3 * t + 1];
            let b = indices[3 * t + 2];
            indices.set(3 * t + 1, b);
            indices.set(3 * t + 2, a);
            proof {
                assert forall|n: int| 3 * t <= n < 3 * t + 3 implies #[trigger] indices@[n] == flipped_winding(original)[n] by {
                    vstd::arithmetic::div_mod::lemma_fundamental_div_mod_converse(n, 3, t as int, n - 3 * t);
                }
            }
            t = t + 1;
        }
        proof {
            assert forall|n: int| 0 <= n < original.len() implies #[trigger] indices@[n] == flipped_winding(original)[n] by {
                if n >= 3 * t {
                    assert(n >= 3 * (original.len() / 3));
                }
            }
            assert(indices@ =~= flipped_winding(original));
        }
    }

    /// Index list `0, 1, .., count - 1`, used when a primitive has no indices.
    pub fn sequential_indices(count: u32) -> (r: Vec<u32>)
        ensures
            r@.len() == count,
            forall|n: int| 0 <= n < count ==> #[trigger] r@[n] == n,
    {
        let mut out: Vec<u32> = Vec::new();
        let mut i: u32 = 0;
        while i < count
            invariant
                i <= count,
                out@.len() == i,
                forall|n: int| 0 <= n < i ==> #[trigger] out@[n] == n,
            decreases count - i,
        {
            out.push(i);
            i = i + 1;
        }
        out
    }

    /// Whether a glTF image of this layout is uploaded, and whether its pixels
    /// first need the RGB to RGBA expansion: `Some(true)` expand, `Some(false)`
    /// upload as is, `None` skip.
    pub fn rgba_conversion(layout: ImagePixels) -> (r: Option<bool>)
        ensures
            r == match layout {
                ImagePixels::Rgb8 => Some(true),
                ImagePixels::Rgba8 => Some(false),
                ImagePixels::Unsupported => None::<bool>,
            },
    {
        match layout {
            ImagePixels::Rgb8 => Some(true),
            ImagePixels::Rgba8 => Some(false),
            ImagePixels::Unsupported => None,
        }
    }
}

} // verus!
