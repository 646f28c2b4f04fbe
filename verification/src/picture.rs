//! RGBA pictures: the frames that the camera delivers and the images
//! composed from them.

use vstd::prelude::*;
use crate::imaging::{
    buffer_len, crop_pixels, cropped, encode_png, flip_pixels, mirrored, overlaid, overlay_pixels,
    overlay_settles, png_encoding, resize_pixels, row_fits,
};

verus! {

/// What a picture is: its size in pixels and its bytes, four a pixel (red,
/// green, blue, alpha), rows from the top.
pub ghost struct Raster {
    pub width: nat,
    pub height: nat,
    pub pixels: Seq<u8>,
}

impl Raster {
    /// The buffer has exactly the bytes of its pixels, and a row of them
    /// has a length that `usize` holds, also where there is no row.
    pub open spec fn wf(self) -> bool {
        &&& self.width <= u32::MAX
        &&& self.height <= u32::MAX
        &&& self.pixels.len() == buffer_len(self.width, self.height)
        &&& row_fits(self.width)
    }

    /// Whether a picture of this size can be resampled to `width` by
    /// `height`: a row of the new width, the picture of the new size, and
    /// the wider one that resampling passes through, must fit in memory's
    /// address range.
    pub open spec fn scalable_to(self, width: nat, height: nat) -> bool {
        &&& row_fits(width)
        &&& 16 * self.width * height <= isize::MAX
        &&& 4 * width * height <= isize::MAX
    }

    /// The window of this picture of the given size at (`left`, `top`).
    pub open spec fn window(self, left: nat, top: nat, width: nat, height: nat) -> Raster {
        Raster {
            width,
            height,
            pixels: cropped(self.pixels, self.width, left, top, width, height),
        }
    }

    /// This picture with `top` blended onto it at (`x`, `y`).
    pub open spec fn under(self, top: Raster, x: int, y: int) -> Raster {
        Raster {
            width: self.width,
            height: self.height,
            pixels: overlaid(
                self.pixels,
                self.width,
                self.height,
                top.pixels,
                top.width,
                top.height,
                x,
                y,
            ),
        }
    }

    /// Whether `result` agrees with this picture under `top` at (`x`, `y`)
    /// in everything that blending settles without arithmetic on colours:
    /// pixels not under `top` stay, opaque pixels of `top` replace what is
    /// under them, fully transparent ones leave it.
    pub open spec fn settled_under(self, top: Raster, x: int, y: int, result: Raster) -> bool {
        forall|k: int|
            0 <= k < self.pixels.len() ==> #[trigger] overlay_settles(
                self.pixels,
                self.width,
                top.pixels,
                top.width,
                top.height,
                x,
                y,
                result.pixels,
                k,
            )
    }

    /// This picture mirrored left to right.
    pub open spec fn flipped(self) -> Raster {
        Raster { width: self.width, height: self.height, pixels: mirrored(self.pixels, self.width) }
    }

    /// This picture with the pixels outside its rounded corners made
    /// fully transparent. Colours stay.
    pub open spec fn rounded(self, radius: nat) -> Raster {
        Raster {
            width: self.width,
            height: self.height,
            pixels: Seq::new(
                self.pixels.len(),
                |k: int| rounded_byte(self.pixels, self.width, self.height, radius, k),
            ),
        }
    }
}

/// The window that spans a whole picture is the picture.
pub proof fn lemma_whole_window_is_picture(picture: Raster)
    requires
        picture.wf(),
    ensures
        picture.window(0, 0, picture.width, picture.height) == picture,
{
    let whole = picture.window(0, 0, picture.width, picture.height);
    assert forall|k: int| 0 <= k < picture.pixels.len() implies whole.pixels[k]
        == picture.pixels[k] by {
        let p = k / 4;
        let w = picture.width as int;
        assert(w > 0) by (nonlinear_arith)
            requires
                0 <= k < 4 * w * picture.height,
                0 <= w,
        ;
        assert(p == (p / w) * w + p % w) by (nonlinear_arith)
            requires
                w > 0,
        ;
    }
    assert(whole.pixels =~= picture.pixels);
}

/// The distance of a position from the nearer end of a row or column of
/// `length` pixels.
pub open spec fn from_edge(position: int, length: int) -> int {
    if position < length - 1 - position {
        position
    } else {
        length - 1 - position
    }
}

/// Whether the pixel (`x`, `y`) of a `width` by `height` picture lies
/// outside the corners rounded with `radius`: it is nearer than `radius`
/// to two edges, and its centre is farther than `radius` from the centre of
/// that corner's circle. Distances are doubled to stay in whole numbers.
pub open spec fn corner_cut(x: int, y: int, width: int, height: int, radius: int) -> bool {
    let dx = 2 * (radius - from_edge(x, width)) - 1;
    let dy = 2 * (radius - from_edge(y, height)) - 1;
    dx > 0 && dy > 0 && dx * dx + dy * dy > (2 * radius) * (2 * radius)
}

/// The byte at index `k` after rounding: the alpha byte of a pixel that is
/// cut becomes zero, every other byte stays.
pub open spec fn rounded_byte(pixels: Seq<u8>, width: nat, height: nat, radius: nat, k: int) -> u8 {
    if k % 4 == 3 && corner_cut(
        (k / 4) % (width as int),
        (k / 4) / (width as int),
        width as int,
        height as int,
        radius as int,
    ) {
        0
    } else {
        pixels[k]
    }
}

/// The distance of a position from the nearer end.
fn edge_distance(position: u32, length: u32) -> (d: u32)
    requires
        position < length,
    ensures
        d == from_edge(position as int, length as int),
{
    let other = length - 1 - position;
    if position < other {
        position
    } else {
        other
    }
}

/// Decides whether a pixel is cut by the rounding.
fn is_cut(x: u32, y: u32, width: u32, height: u32, radius: u32) -> (b: bool)
    requires
        x < width,
        y < height,
    ensures
        b == corner_cut(x as int, y as int, width as int, height as int, radius as int),
{
    let nx = edge_distance(x, width);
    let ny = edge_distance(y, height);
    if radius <= nx || radius <= ny {
        return false;
    }
    let dx: u128 = 2 * ((radius - nx) as u128) - 1;
    let dy: u128 = 2 * ((radius - ny) as u128) - 1;
    let across: u128 = 2 * (radius as u128);
    assert(dx * dx <= 0x2_0000_0000 * 0x2_0000_0000 && dy * dy <= 0x2_0000_0000 * 0x2_0000_0000
        && across * across <= 0x2_0000_0000 * 0x2_0000_0000) by (nonlinear_arith)
        requires
            dx <= 0x2_0000_0000,
            dy <= 0x2_0000_0000,
            across <= 0x2_0000_0000,
    ;
    dx * dx + dy * dy > across * across
}

/// The number of pixels of a `width` by `height` picture.
fn area(width: u32, height: u32) -> (a: u64)
    ensures
        a == width * height,
        4 * a == buffer_len(width as nat, height as nat),
        16 * a == 16 * width * height,
{
    assert(width * height <= 0xffff_ffff * 0xffff_ffff) by (nonlinear_arith)
        requires
            width <= 0xffff_ffff,
            height <= 0xffff_ffff,
    ;
    assert(4 * (width * height) == 4 * width * height) by (nonlinear_arith);
    assert(16 * (width * height) == 16 * width * height) by (nonlinear_arith);
    (width as u64) * (height as u64)
}

/// The pixel with index `p` of a picture lies inside it.
proof fn lemma_pixel_position(p: int, width: int, height: int)
    requires
        0 <= p,
        0 < width,
        0 <= height,
        4 * p < 4 * width * height,
    ensures
        0 <= p % width < width,
        0 <= p / width < height,
        0 <= from_edge(p % width, width),
        0 <= from_edge(p / width, height),
{
    assert(0 <= p % width < width && 0 <= p / width && p == width * (p / width) + p % width)
        by (nonlinear_arith)
        requires
            0 <= p,
            0 < width,
    ;
    assert(p / width < height) by (nonlinear_arith)
        requires
            p == width * (p / width) + p % width,
            0 <= p % width,
            4 * p < 4 * width * height,
            0 < width,
    ;
}

/// Tells whether a row of `width` pixels has a length that `usize` holds.
fn row_holds(width: u32) -> (b: bool)
    ensures
        b == row_fits(width as nat),
{
    4 * (width as u128) <= usize::MAX as u128
}

/// An RGBA picture whose buffer always matches its size.
#[derive(Debug, PartialEq, Eq)]
pub struct Picture {
    width: u32,
    height: u32,
    pixels: Vec<u8>,
}

impl View for Picture {
    type V = Raster;

    closed spec fn view(&self) -> Raster {
        Raster { width: self.width as nat, height: self.height as nat, pixels: self.pixels@ }
    }
}

impl Picture {
    #[verifier::type_invariant]
    closed spec fn buffer_matches(self) -> bool {
        &&& self.pixels@.len() == buffer_len(self.width as nat, self.height as nat)
        &&& row_fits(self.width as nat)
    }

    /// Takes a buffer as a picture if it holds exactly `width` by `height`
    /// pixels and a row of that width has a length that `usize` holds. The
    /// second matters only for a picture without rows, on a machine whose
    /// `usize` is as narrow as the width.
    pub fn from_raw(width: u32, height: u32, pixels: Vec<u8>) -> (r: Option<Picture>)
        ensures
            r is Some <==> pixels@.len() == buffer_len(width as nat, height as nat) && row_fits(
                width as nat,
            ),
            r is Some ==> r->0@ == (Raster {
                width: width as nat,
                height: height as nat,
                pixels: pixels@,
            }),
    {
        let needed: u128 = 4 * (area(width, height) as u128);
        if pixels.len() as u128 == needed && row_holds(width) {
            Some(Picture { width, height, pixels })
        } else {
            None
        }
    }

    pub fn width(&self) -> (w: u32)
        ensures
            w == self@.width,
            self@.wf(),
    {
        proof {
            use_type_invariant(self);
        }
        self.width
    }

    pub fn height(&self) -> (h: u32)
        ensures
            h == self@.height,
            self@.wf(),
    {
        proof {
            use_type_invariant(self);
        }
        self.height
    }

    /// The bytes of the picture.
    pub fn as_raw(&self) -> (bytes: &Vec<u8>)
        ensures
            bytes@ == self@.pixels,
            self@.wf(),
    {
        proof {
            use_type_invariant(self);
        }
        &self.pixels
    }

    /// Gives the buffer back.
    pub fn into_raw(self) -> (bytes: Vec<u8>)
        ensures
            bytes@ == self@.pixels,
            self@.wf(),
    {
        proof {
            use_type_invariant(&self);
        }
        self.pixels
    }

    /// A copy of the picture.
    pub fn duplicate(&self) -> (r: Picture)
        ensures
            r@ == self@,
    {
        proof {
            use_type_invariant(self);
        }
        Picture { width: self.width, height: self.height, pixels: self.pixels.clone() }
    }

    /// The window of the given size at (`left`, `top`), or `None` where the
    /// window does not lie inside the picture.
    pub fn crop(&self, left: u32, top: u32, width: u32, height: u32) -> (r: Option<Picture>)
        ensures
            r is Some <==> left + width <= self@.width && top + height <= self@.height,
            r is Some ==> r->0@ == self@.window(
                left as nat,
                top as nat,
                width as nat,
                height as nat,
            ),
    {
        proof {
            use_type_invariant(self);
        }
        if left as u64 + width as u64 <= self.width as u64 && top as u64 + height as u64
            <= self.height as u64 {
            let pixels = crop_pixels(
                &self.pixels,
                self.width,
                self.height,
                left,
                top,
                width,
                height,
            );
            Some(Picture { width, height, pixels })
        } else {
            None
        }
    }

    /// The picture resampled to `width` by `height` with a Lanczos filter,
    /// or `None` where the target is too large for memory's address range.
    /// A target of the picture's own size gives a copy; for any other, what
    /// the resampled pixels are is left to the filter.
    pub fn scale(&self, width: u32, height: u32) -> (r: Option<Picture>)
        ensures
            r is Some <==> self@.scalable_to(width as nat, height as nat),
            r is Some ==> r->0@.width == width && r->0@.height == height && r->0@.wf(),
            r is Some && width == self@.width && height == self@.height ==> r->0@ == self@,
    {
        proof {
            use_type_invariant(self);
        }
        let limit: u128 = isize::MAX as u128;
        let sampled: u128 = 16 * (area(self.width, height) as u128);
        let target: u128 = 4 * (area(width, height) as u128);
        if !row_holds(width) || sampled > limit || target > limit {
            return None;
        }
        let pixels = resize_pixels(&self.pixels, self.width, self.height, width, height);
        Some(Picture { width, height, pixels })
    }

    /// Blends `top` onto this picture with its top left corner at (`x`,
    /// `y`); what falls outside is clipped. The size stays, and so does
    /// every pixel that `top` does not cover.
    pub fn overlay(self, top: &Picture, x: i64, y: i64) -> (r: Picture)
        ensures
            r@ == self@.under(top@, x as int, y as int),
            self@.settled_under(top@, x as int, y as int, r@),
            r@.wf(),
    {
        proof {
            use_type_invariant(&self);
            use_type_invariant(top);
        }
        let width = self.width;
        let height = self.height;
        let pixels = overlay_pixels(
            self.pixels,
            width,
            height,
            &top.pixels,
            top.width,
            top.height,
            x,
            y,
        );
        Picture { width, height, pixels }
    }

    /// Mirrors the picture left to right.
    pub fn flip_horizontal(self) -> (r: Picture)
        ensures
            r@ == self@.flipped(),
            r@.wf(),
    {
        proof {
            use_type_invariant(&self);
        }
        let width = self.width;
        let height = self.height;
        let pixels = flip_pixels(self.pixels, width, height);
        Picture { width, height, pixels }
    }

    /// Makes the pixels outside the corners rounded with `radius` fully
    /// transparent.
    pub fn round_corners(self, radius: u32) -> (r: Picture)
        ensures
            r@ == self@.rounded(radius as nat),
            r@.wf(),
    {
        proof {
            use_type_invariant(&self);
        }
        let width = self.width;
        let height = self.height;
        let ghost before = self.pixels@;
        let mut pixels = self.pixels;
        if width == 0 {
            assert(buffer_len(0, height as nat) == 0) by (nonlinear_arith);
            assert(pixels@ =~= self@.rounded(radius as nat).pixels);
            return Picture { width, height, pixels };
        }
        assert(before.len() == 4 * (width * height)) by (nonlinear_arith)
            requires
                before.len() == buffer_len(width as nat, height as nat),
        ;
        let count: usize = pixels.len() / 4;
        let mut p: usize = 0;
        while p < count
            invariant
                p <= count,
                width > 0,
                count * 4 == before.len(),
                before.len() <= usize::MAX,
                before.len() == buffer_len(width as nat, height as nat),
                pixels@.len() == before.len(),
                forall|k: int|
                    0 <= k < before.len() ==> #[trigger] pixels@[k] == if k / 4 < p {
                        rounded_byte(before, width as nat, height as nat, radius as nat, k)
                    } else {
                        before[k]
                    },
            decreases count - p,
        {
            proof {
                lemma_pixel_position(p as int, width as int, height as int);
            }
            let x: u32 = (p % (width as usize)) as u32;
            let y: u32 = (p / (width as usize)) as u32;
            if is_cut(x, y, width, height, radius) {
                pixels.set(4 * p + 3, 0);
            }
            p = p + 1;
        }
        assert(pixels@ =~= self@.rounded(radius as nat).pixels);
        Picture { width, height, pixels }
    }

    /// The picture as a PNG file, or `None` where the encoder fails.
    pub fn to_png(&self) -> (r: Option<Vec<u8>>)
        ensures
            r is Some <==> png_encoding(self@.pixels, self@.width, self@.height) is Some,
            r is Some ==> r->0@ == png_encoding(self@.pixels, self@.width, self@.height)->0,
    {
        proof {
            use_type_invariant(self);
        }
        encode_png(&self.pixels, self.width, self.height)
    }
}

} // verus!
