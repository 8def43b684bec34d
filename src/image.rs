use vstd::prelude::*;

verus! {

/// Byte `c` of pixel `i` of a buffer of four-byte pixels.
pub open spec fn channel(s: Seq<u8>, i: int, c: int) -> u8 {
    s[4 * i + c]
}

/// What egui's `ColorImage::from_rgba_unmultiplied` makes of unmultiplied
/// RGBA bytes: the same pixels with their colour premultiplied by alpha, as
/// RGBA bytes.
pub uninterp spec fn premultiplied_rgba(rgba: Seq<u8>) -> Seq<u8>;

/// Relies on egui's `ColorImage::from_rgba_unmultiplied` (which asserts that
/// the size matches the bytes): each pixel keeps its alpha; an opaque pixel
/// keeps its colour; a fully transparent one becomes all zero.
#[verifier::external_body]
fn premultiply_rgba(width: usize, height: usize, rgba: &[u8]) -> (r: Vec<u8>)
    requires
        width * height * 4 == rgba@.len(),
    ensures
        r@ == premultiplied_rgba(rgba@),
        r@.len() == rgba@.len(),
        forall|i: int|
            0 <= i < rgba@.len() / 4 ==> #[trigger] channel(r@, i, 3) == channel(rgba@, i, 3),
        forall|i: int|
            0 <= i < rgba@.len() / 4 && #[trigger] channel(rgba@, i, 3) == 255 ==> channel(r@, i, 0)
                == channel(rgba@, i, 0) && channel(r@, i, 1) == channel(rgba@, i, 1) && channel(
                r@,
                i,
                2,
            ) == channel(rgba@, i, 2),
        forall|i: int|
            0 <= i < rgba@.len() / 4 && #[trigger] channel(rgba@, i, 3) == 0 ==> channel(r@, i, 0)
                == 0 && channel(r@, i, 1) == 0 && channel(r@, i, 2) == 0,
{
    let image = egui::ColorImage::from_rgba_unmultiplied([width, height], rgba);
    image.pixels.iter().flat_map(|c| c.to_array()).collect()
}

/// What egui's premultiplication fixes of `out`, made from the unmultiplied
/// bytes `rgba`: one byte for each, every pixel keeps its alpha, an opaque
/// pixel keeps its colour and a fully transparent one is all zero.
pub open spec fn premultiplied_keeps(rgba: Seq<u8>, out: Seq<u8>) -> bool {
    &&& out.len() == rgba.len()
    &&& forall|i: int|
        0 <= i < rgba.len() / 4 ==> #[trigger] channel(out, i, 3) == channel(rgba, i, 3)
    &&& forall|i: int|
        0 <= i < rgba.len() / 4 && #[trigger] channel(rgba, i, 3) == 255 ==> channel(out, i, 0)
            == channel(rgba, i, 0) && channel(out, i, 1) == channel(rgba, i, 1) && channel(
            out,
            i,
            2,
        ) == channel(rgba, i, 2)
    &&& forall|i: int|
        0 <= i < rgba.len() / 4 && #[trigger] channel(rgba, i, 3) == 0 ==> channel(out, i, 0)
            == 0 && channel(out, i, 1) == 0 && channel(out, i, 2) == 0
}

/// The same facts for an image made from four-byte colours: four bytes per
/// colour, each keeping its alpha, opaque colours unchanged and fully
/// transparent ones all zero.
pub open spec fn premultiplied_colors_keep(colors: Seq<[u8; 4]>, out: Seq<u8>) -> bool {
    &&& out.len() == 4 * colors.len()
    &&& forall|i: int| 0 <= i < colors.len() ==> #[trigger] channel(out, i, 3) == colors[i]@[3]
    &&& forall|i: int|
        0 <= i < colors.len() && #[trigger] colors[i]@[3] == 255 ==> channel(out, i, 0)
            == colors[i]@[0] && channel(out, i, 1) == colors[i]@[1] && channel(out, i, 2)
            == colors[i]@[2]
    &&& forall|i: int|
        0 <= i < colors.len() && #[trigger] colors[i]@[3] == 0 ==> channel(out, i, 0) == 0
            && channel(out, i, 1) == 0 && channel(out, i, 2) == 0
}

/// The bytes of colour `i` are the colour's own.
proof fn lemma_color_bytes_channel(colors: Seq<[u8; 4]>, i: int, c: int)
    requires
        0 <= i < colors.len(),
        0 <= c < 4,
    ensures
        channel(spec_color_bytes(colors), i, c) == colors[i]@[c],
{
    assert((4 * i + c) / 4 == i);
    assert((4 * i + c) % 4 == c);
}

/// Why pixel data could not become an image.
#[derive(Clone, Copy, Debug, PartialEq, Eq, Structural)]
pub enum ImageError {
    /// The byte count is not four per pixel of the given size.
    SizeMismatch,
    /// A dimension is negative.
    NegativeSize,
}

/// An image ready for upload: its size and its pixels as premultiplied RGBA
/// bytes, row by row.
pub struct RgbaImage {
    pub width: usize,
    pub height: usize,
    pub pixels: Vec<u8>,
}

/// The bytes of a sequence of four-byte colours, one after another.
pub open spec fn spec_color_bytes(colors: Seq<[u8; 4]>) -> Seq<u8> {
    Seq::new(4 * colors.len(), |k: int| colors[k / 4]@[k % 4])
}

/// Lays four-byte colours out as one byte buffer.
pub fn color32_bytes(colors: &[[u8; 4]]) -> (r: Vec<u8>)
    ensures
        r@ == spec_color_bytes(colors@),
{
    let mut out: Vec<u8> = Vec::new();
    let mut i: usize = 0;
    while i < colors.len()
        invariant
            i <= colors@.len(),
            out@.len() == 4 * i,
            forall|j: int, c: int|
                0 <= j < i && 0 <= c < 4 ==> #[trigger] channel(out@, j, c) == colors@[j]@[c],
        decreases colors@.len() - i,
    {
        let ghost before = out@;
        let px = colors[i];
        out.push(px[0]);
        out.push(px[1]);
        out.push(px[2]);
        out.push(px[3]);
        assert forall|j: int, c: int| 0 <= j <= i && 0 <= c < 4 implies #[trigger] channel(
            out@,
            j,
            c,
        ) == colors@[j]@[c] by {
            if j < i {
                assert(channel(before, j, c) == colors@[j]@[c]);
            }
        }
        i = i + 1;
    }
    assert forall|k: int| 0 <= k < out@.len() implies out@[k] == spec_color_bytes(colors@)[k] by {
        assert(channel(out@, k / 4, k % 4) == colors@[k / 4]@[k % 4]);
    }
    assert(out@ =~= spec_color_bytes(colors@));
    out
}

impl RgbaImage {
    /// The size as width, height.
    pub fn size(&self) -> (r: [usize; 2])
        ensures
            r@ == seq![self.width, self.height],
    {
        [self.width, self.height]
    }

    /// An image of `width` by `height` pixels from unmultiplied RGBA bytes;
    /// fails unless there are exactly four bytes per pixel.
    pub fn from_rgba_unmultiplied(
        width: usize,
        height: usize,
        rgba: &[u8],
    ) -> (r: Result<RgbaImage, ImageError>)
        ensures
            r is Ok <==> width * height * 4 == rgba@.len(),
            r is Err ==> r->Err_0 == ImageError::SizeMismatch,
            r is Ok ==> r->Ok_0.width == width && r->Ok_0.height == height && r->Ok_0.pixels@
                == premultiplied_rgba(rgba@),
            r is Ok ==> premultiplied_keeps(rgba@, r->Ok_0.pixels@),
    {
        let len = rgba.len();
        let mut matches = false;
        if let Some(n) = width.checked_mul(height) {
            if let Some(m) = n.checked_mul(4) {
                matches = m == len;
            } else {
                assert(width * height * 4 > usize::MAX);
            }
        } else {
            assert(width * height * 4 > usize::MAX) by (nonlinear_arith)
                requires
                    width * height > usize::MAX,
            ;
        }
        assert(matches == (width * height * 4 == rgba@.len()));
        if matches {
            Ok(RgbaImage { width, height, pixels: premultiply_rgba(width, height, rgba) })
        } else {
            Err(ImageError::SizeMismatch)
        }
    }

    /// An image from the toolkit's decoded RGBA data, whose dimensions come
    /// as signed numbers.
    pub fn from_toolkit_rgba(
        width: i32,
        height: i32,
        rgba: &[u8],
    ) -> (r: Result<RgbaImage, ImageError>)
        ensures
            (width < 0 || height < 0) ==> r == Err::<RgbaImage, ImageError>(
                ImageError::NegativeSize,
            ),
            (width >= 0 && height >= 0) ==> (r is Ok <==> width * height * 4 == rgba@.len()),
            (width >= 0 && height >= 0 && r is Err) ==> r->Err_0 == ImageError::SizeMismatch,
            r is Ok ==> r->Ok_0.width == width && r->Ok_0.height == height && r->Ok_0.pixels@
                == premultiplied_rgba(rgba@),
            r is Ok ==> premultiplied_keeps(rgba@, r->Ok_0.pixels@),
    {
        if width < 0 || height < 0 {
            return Err(ImageError::NegativeSize);
        }
        RgbaImage::from_rgba_unmultiplied(width as usize, height as usize, rgba)
    }

    /// An image from four-byte colours, each taken as unmultiplied RGBA.
    pub fn from_color32_slice(
        width: usize,
        height: usize,
        colors: &[[u8; 4]],
    ) -> (r: Result<RgbaImage, ImageError>)
        ensures
            r is Ok <==> width * height == colors@.len(),
            r is Err ==> r->Err_0 == ImageError::SizeMismatch,
            r is Ok ==> r->Ok_0.width == width && r->Ok_0.height == height && r->Ok_0.pixels@
                == premultiplied_rgba(spec_color_bytes(colors@)),
            r is Ok ==> premultiplied_colors_keep(colors@, r->Ok_0.pixels@),
    {
        let bytes = color32_bytes(colors);
        let r = RgbaImage::from_rgba_unmultiplied(width, height, bytes.as_slice());
        proof {
            let b = spec_color_bytes(colors@);
            assert(b.len() / 4 == colors@.len());
            if r is Ok {
                let out = r->Ok_0.pixels@;
                assert forall|i: int| 0 <= i < colors@.len() implies #[trigger] channel(out, i, 3)
                    == colors@[i]@[3] by {
                    lemma_color_bytes_channel(colors@, i, 3);
                    assert(channel(out, i, 3) == channel(b, i, 3));
                }
                assert forall|i: int| 0 <= i < colors@.len() && #[trigger] colors@[i]@[3] == 255
                    implies channel(out, i, 0) == colors@[i]@[0] && channel(out, i, 1)
                    == colors@[i]@[1] && channel(out, i, 2) == colors@[i]@[2] by {
                    lemma_color_bytes_channel(colors@, i, 0);
                    lemma_color_bytes_channel(colors@, i, 1);
                    lemma_color_bytes_channel(colors@, i, 2);
                    lemma_color_bytes_channel(colors@, i, 3);
                    assert(channel(b, i, 3) == 255);
                }
                assert forall|i: int| 0 <= i < colors@.len() && #[trigger] colors@[i]@[3] == 0
                    implies channel(out, i, 0) == 0 && channel(out, i, 1) == 0 && channel(out, i, 2)
                    == 0 by {
                    lemma_color_bytes_channel(colors@, i, 3);
                    assert(channel(b, i, 3) == 0);
                }
            }
        }
        r
    }

    /// An image from four-byte colours, each taken as unmultiplied RGBA.
    pub fn from_vec_color32(
        width: usize,
        height: usize,
        colors: Vec<[u8; 4]>,
    ) -> (r: Result<RgbaImage, ImageError>)
        ensures
            r is Ok <==> width * height == colors@.len(),
            r is Err ==> r->Err_0 == ImageError::SizeMismatch,
            r is Ok ==> r->Ok_0.width == width && r->Ok_0.height == height && r->Ok_0.pixels@
                == premultiplied_rgba(spec_color_bytes(colors@)),
            r is Ok ==> premultiplied_colors_keep(colors@, r->Ok_0.pixels@),
    {
        RgbaImage::from_color32_slice(width, height, colors.as_slice())
    }
}

} // verus!
