//! Pixel work done by the `image` crate, on raw RGBA buffers (four bytes a
//! pixel, rows from the top). Nothing in this file is proved: each function
//! states what the library assumes of the call it makes.

use vstd::prelude::*;

verus! {

/// The number of bytes of a `width` by `height` RGBA buffer.
pub open spec fn buffer_len(width: nat, height: nat) -> nat {
    4 * width * height
}

/// Whether one row of `width` pixels has a length in bytes that `usize`
/// holds. The `image` crate computes that length before any other, also
/// for a picture without rows.
pub open spec fn row_fits(width: nat) -> bool {
    4 * width <= usize::MAX
}

/// The byte at index `k` of the `w`-wide window of `pixels` (rows `width`
/// wide) whose top left pixel is at (`left`, `top`).
pub open spec fn window_byte(pixels: Seq<u8>, width: nat, left: nat, top: nat, w: nat, k: int) -> u8 {
    pixels[4 * ((top + (k / 4) / (w as int)) * width + left + (k / 4) % (w as int)) + k % 4]
}

/// The `w` by `h` window of `pixels` whose top left pixel is at (`left`, `top`).
pub open spec fn cropped(pixels: Seq<u8>, width: nat, left: nat, top: nat, w: nat, h: nat) -> Seq<
    u8,
> {
    Seq::new(buffer_len(w, h), |k: int| window_byte(pixels, width, left, top, w, k))
}

/// The byte at index `k` of `pixels` with every row reversed pixel by pixel.
pub open spec fn mirrored_byte(pixels: Seq<u8>, width: nat, k: int) -> u8 {
    pixels[4 * (((k / 4) / (width as int)) * width + (width - 1 - (k / 4) % (width as int))) + k
        % 4]
}

/// `pixels` with every row reversed pixel by pixel.
pub open spec fn mirrored(pixels: Seq<u8>, width: nat) -> Seq<u8> {
    Seq::new(pixels.len(), |k: int| mirrored_byte(pixels, width, k))
}

/// What `imageops::overlay` leaves in the bottom buffer after blending the
/// top image onto it with the top's left upper corner at (`x`, `y`).
pub uninterp spec fn overlaid(
    bottom: Seq<u8>,
    bottom_width: nat,
    bottom_height: nat,
    top: Seq<u8>,
    top_width: nat,
    top_height: nat,
    x: int,
    y: int,
) -> Seq<u8>;

/// Whether the pixel (`bx`, `by`) of the bottom image lies under the top
/// image, whose top left corner is at (`x`, `y`).
pub open spec fn under_top(x: int, y: int, top_width: nat, top_height: nat, bx: int, by: int) -> bool {
    x <= bx < x + top_width && y <= by < y + top_height
}

/// What `imageops::overlay` settles of byte `k` of the bottom buffer
/// without any arithmetic on colours. A pixel that does not lie under the
/// top image stays. One that does becomes the top's pixel where that is
/// opaque, and stays where that is fully transparent.
pub open spec fn overlay_settles(
    bottom: Seq<u8>,
    bottom_width: nat,
    top: Seq<u8>,
    top_width: nat,
    top_height: nat,
    x: int,
    y: int,
    result: Seq<u8>,
    k: int,
) -> bool {
    let bx = (k / 4) % (bottom_width as int);
    let by = (k / 4) / (bottom_width as int);
    let over = 4 * ((by - y) * top_width + (bx - x));
    if !under_top(x, y, top_width, top_height, bx, by) {
        result[k] == bottom[k]
    } else if top[over + 3] == 255 {
        result[k] == top[over + k % 4]
    } else if top[over + 3] == 0 {
        result[k] == bottom[k]
    } else {
        true
    }
}

/// The PNG file that `PngEncoder::write_image` writes for an RGBA image, or
/// `None` where it reports an error.
pub uninterp spec fn png_encoding(pixels: Seq<u8>, width: nat, height: nat) -> Option<Seq<u8>>;

/// Calls `imageops::crop_imm` and copies the view out with `to_image`.
/// Assumed: pixel (i, j) of the result is pixel (`left` + i, `top` + j) of
/// the source, for a window that lies inside the source. The requirements
/// are those under which the crate takes the buffer as an image.
#[verifier::external_body]
pub(crate) fn crop_pixels(
    pixels: &Vec<u8>,
    width: u32,
    height: u32,
    left: u32,
    top: u32,
    w: u32,
    h: u32,
) -> (r: Vec<u8>)
    requires
        pixels@.len() == buffer_len(width as nat, height as nat),
        row_fits(width as nat),
        left + w <= width,
        top + h <= height,
    ensures
        r@ == cropped(pixels@, width as nat, left as nat, top as nat, w as nat, h as nat),
{
    let source = image::RgbaImage::from_raw(width, height, pixels.clone()).unwrap();
    image::imageops::crop_imm(&source, left, top, w, h).to_image().into_raw()
}

/// Calls `imageops::resize` with the Lanczos3 filter. Assumed: the result
/// has the asked dimensions, and is a copy of the source where those are
/// the source's own. Otherwise its pixels come from floating-point
/// sampling and are not stated. The requirements keep the rows of both
/// pictures and both buffers that the call allocates within what a
/// vector can hold; a source without pixels is sampled like any other,
/// and nothing is read from it.
#[verifier::external_body]
pub(crate) fn resize_pixels(
    pixels: &Vec<u8>,
    width: u32,
    height: u32,
    new_width: u32,
    new_height: u32,
) -> (r: Vec<u8>)
    requires
        pixels@.len() == buffer_len(width as nat, height as nat),
        row_fits(width as nat),
        row_fits(new_width as nat),
        16 * width * new_height <= isize::MAX,
        4 * new_width * new_height <= isize::MAX,
    ensures
        r@.len() == buffer_len(new_width as nat, new_height as nat),
        new_width == width && new_height == height ==> r@ == pixels@,
{
    let source = image::ImageBuffer::<image::Rgba<u8>, &[u8]>::from_raw(width, height, &pixels[..])
        .unwrap();
    image::imageops::resize(&source, new_width, new_height, image::imageops::FilterType::Lanczos3)
        .into_raw()
}

/// Calls `imageops::overlay`. Assumed: the bottom buffer keeps its length,
/// and its new content is a function of both images and the position. Of
/// that content three things are assumed, which the call settles by
/// comparing whole numbers: what is not under the top image stays, an
/// opaque pixel of the top replaces what is under it, and a fully
/// transparent one leaves it. The requirements are those under which the
/// crate takes both buffers as images.
#[verifier::external_body]
pub(crate) fn overlay_pixels(
    bottom: Vec<u8>,
    bottom_width: u32,
    bottom_height: u32,
    top: &Vec<u8>,
    top_width: u32,
    top_height: u32,
    x: i64,
    y: i64,
) -> (r: Vec<u8>)
    requires
        bottom@.len() == buffer_len(bottom_width as nat, bottom_height as nat),
        top@.len() == buffer_len(top_width as nat, top_height as nat),
        row_fits(bottom_width as nat),
        row_fits(top_width as nat),
    ensures
        r@.len() == bottom@.len(),
        forall|k: int|
            0 <= k < bottom@.len() ==> #[trigger] overlay_settles(
                bottom@,
                bottom_width as nat,
                top@,
                top_width as nat,
                top_height as nat,
                x as int,
                y as int,
                r@,
                k,
            ),
        r@ == overlaid(
            bottom@,
            bottom_width as nat,
            bottom_height as nat,
            top@,
            top_width as nat,
            top_height as nat,
            x as int,
            y as int,
        ),
{
    let mut canvas = image::RgbaImage::from_raw(bottom_width, bottom_height, bottom).unwrap();
    let layer = image::ImageBuffer::<image::Rgba<u8>, &[u8]>::from_raw(
        top_width,
        top_height,
        &top[..],
    ).unwrap();
    image::imageops::overlay(&mut canvas, &layer, x, y);
    canvas.into_raw()
}

/// Calls `imageops::flip_horizontal_in_place`. Assumed: every row comes
/// back reversed pixel by pixel. The requirements are those under which
/// the crate takes the buffer as an image.
#[verifier::external_body]
pub(crate) fn flip_pixels(pixels: Vec<u8>, width: u32, height: u32) -> (r: Vec<u8>)
    requires
        pixels@.len() == buffer_len(width as nat, height as nat),
        row_fits(width as nat),
    ensures
        r@ == mirrored(pixels@, width as nat),
{
    let mut picture = image::RgbaImage::from_raw(width, height, pixels).unwrap();
    image::imageops::flip_horizontal_in_place(&mut picture);
    picture.into_raw()
}

/// Calls `PngEncoder::write_image` for an RGBA image, into a fresh vector.
/// Assumed: the outcome is a function of the image alone, `None` standing
/// for any error of the encoder.
#[verifier::external_body]
pub(crate) fn encode_png(pixels: &Vec<u8>, width: u32, height: u32) -> (r: Option<Vec<u8>>)
    requires
        pixels@.len() == buffer_len(width as nat, height as nat),
        row_fits(width as nat),
    ensures
        r is Some <==> png_encoding(pixels@, width as nat, height as nat) is Some,
        r is Some ==> r->0@ == png_encoding(pixels@, width as nat, height as nat)->0,
{
    let mut encoded: Vec<u8> = Vec::new();
    let encoder = image::codecs::png::PngEncoder::new(&mut encoded);
    match image::ImageEncoder::write_image(encoder, pixels, width, height, image::ColorType::Rgba8) {
        Ok(()) => Some(encoded),
        Err(_) => None,
    }
}

} // verus!
