//! Composes the captured shots onto the template's background.

use vstd::prelude::*;
use crate::config::{Frame, Template};
use crate::imaging::{overlay_settles, under_top};
use crate::picture::{lemma_whole_window_is_picture, Picture, Raster};

verus! {

/// A window of a picture: its top left corner and its size.
#[derive(Clone, Copy, Debug, PartialEq, Eq, Structural)]
pub struct Region {
    pub left: u32,
    pub top: u32,
    pub width: u32,
    pub height: u32,
}

/// The centred window of a `frame_width` by `frame_height` picture that has
/// the aspect ratio of a `target_width` by `target_height` rectangle: the
/// longer dimension is trimmed by the same amount on both sides, the other
/// is kept whole. Ratios are compared exactly, by cross multiplication.
pub open spec fn centered_crop(
    frame_width: u32,
    frame_height: u32,
    target_width: u32,
    target_height: u32,
) -> Region {
    if target_width * frame_height < frame_width * target_height {
        let width = (frame_height * target_width) / (target_height as int);
        Region {
            left: ((frame_width - width) / 2) as u32,
            top: 0,
            width: width as u32,
            height: frame_height,
        }
    } else if target_width * frame_height > frame_width * target_height {
        let height = (frame_width * target_height) / (target_width as int);
        Region {
            left: 0,
            top: ((frame_height - height) / 2) as u32,
            width: frame_width,
            height: height as u32,
        }
    } else {
        Region { left: 0, top: 0, width: frame_width, height: frame_height }
    }
}

/// The trimmed dimension never grows: the quotient of the cross product
/// stays below the dimension it replaces.
proof fn lemma_trimmed_fits(kept: int, wanted: int, against: int, whole: int)
    requires
        0 <= kept,
        0 <= wanted,
        0 < against,
        0 <= whole,
        wanted * kept < whole * against,
    ensures
        0 <= (kept * wanted) / against <= whole,
        ((kept * wanted) / against) * against <= kept * wanted,
        kept * wanted < ((kept * wanted) / against + 1) * against,
{
    let product = kept * wanted;
    assert(product == wanted * kept) by (nonlinear_arith)
        requires
            product == kept * wanted,
    ;
    assert(0 <= product) by (nonlinear_arith)
        requires
            product == kept * wanted,
            0 <= kept,
            0 <= wanted,
    ;
    let q = product / against;
    assert(q * against <= product && product < (q + 1) * against && 0 <= q) by (nonlinear_arith)
        requires
            q == product / against,
            0 < against,
            0 <= product,
    ;
    assert(q <= whole) by (nonlinear_arith)
        requires
            q * against <= product,
            product < whole * against,
            0 < against,
    ;
}

/// Computes the centred window of a frame for a target rectangle.
pub fn crop_region(frame_width: u32, frame_height: u32, target_width: u32, target_height: u32) -> (r:
    Region)
    ensures
        r == centered_crop(frame_width, frame_height, target_width, target_height),
        r.left + r.width <= frame_width,
        r.top + r.height <= frame_height,
{
    assert(target_width * frame_height <= 0xffff_ffff * 0xffff_ffff && frame_width * target_height
        <= 0xffff_ffff * 0xffff_ffff && frame_height * target_width == target_width * frame_height)
        by (nonlinear_arith)
        requires
            target_width <= 0xffff_ffff,
            frame_height <= 0xffff_ffff,
            frame_width <= 0xffff_ffff,
            target_height <= 0xffff_ffff,
    ;
    let across: u64 = (target_width as u64) * (frame_height as u64);
    let along: u64 = (frame_width as u64) * (target_height as u64);
    if across < along {
        proof {
            assert(target_height > 0) by (nonlinear_arith)
                requires
                    0 <= across < frame_width * target_height,
            ;
            lemma_trimmed_fits(
                frame_height as int,
                target_width as int,
                target_height as int,
                frame_width as int,
            );
        }
        let width: u64 = across / (target_height as u64);
        let left: u64 = (frame_width as u64 - width) / 2;
        Region { left: left as u32, top: 0, width: width as u32, height: frame_height }
    } else if across > along {
        proof {
            assert(target_width > 0) by (nonlinear_arith)
                requires
                    0 <= along < target_width * frame_height,
            ;
            assert(frame_width * target_height == target_height * frame_width)
                by (nonlinear_arith);
            lemma_trimmed_fits(
                frame_width as int,
                target_height as int,
                target_width as int,
                frame_height as int,
            );
        }
        let height: u64 = along / (target_width as u64);
        let top: u64 = (frame_height as u64 - height) / 2;
        Region { left: 0, top: top as u32, width: frame_width, height: height as u32 }
    } else {
        Region { left: 0, top: 0, width: frame_width, height: frame_height }
    }
}

/// A frame whose aspect ratio is already that of its rectangle is kept
/// whole: the window starts at the corner and spans the frame.
pub proof fn lemma_matching_ratio_keeps_frame(
    frame_width: u32,
    frame_height: u32,
    target_width: u32,
    target_height: u32,
)
    requires
        target_width * frame_height == frame_width * target_height,
    ensures
        centered_crop(frame_width, frame_height, target_width, target_height) == (Region {
            left: 0,
            top: 0,
            width: frame_width,
            height: frame_height,
        }),
{
}

/// The window is centred, lies inside the frame, keeps one dimension whole
/// and has the rectangle's aspect ratio as nearly as whole pixels allow:
/// one pixel more in the trimmed dimension would pass it.
pub proof fn lemma_crop_is_centered(
    frame_width: u32,
    frame_height: u32,
    target_width: u32,
    target_height: u32,
)
    ensures
        ({
            let r = centered_crop(frame_width, frame_height, target_width, target_height);
            &&& r.left + r.width <= frame_width
            &&& r.top + r.height <= frame_height
            &&& r.width == frame_width || r.height == frame_height
            &&& r.left == (frame_width - r.width) / 2
            &&& r.top == (frame_height - r.height) / 2
            &&& target_width * frame_height < frame_width * target_height ==> r.width
                * target_height <= r.height * target_width < (r.width + 1) * target_height
            &&& target_width * frame_height > frame_width * target_height ==> r.height
                * target_width <= r.width * target_height < (r.height + 1) * target_width
        }),
{
    if target_width * frame_height < frame_width * target_height {
        assert(target_height > 0) by (nonlinear_arith)
            requires
                0 <= target_width * frame_height < frame_width * target_height,
        ;
        lemma_trimmed_fits(
            frame_height as int,
            target_width as int,
            target_height as int,
            frame_width as int,
        );
    } else if target_width * frame_height > frame_width * target_height {
        assert(target_width > 0) by (nonlinear_arith)
            requires
                0 <= frame_width * target_height < target_width * frame_height,
        ;
        assert(frame_width * target_height == target_height * frame_width) by (nonlinear_arith);
        lemma_trimmed_fits(
            frame_width as int,
            target_height as int,
            target_width as int,
            frame_height as int,
        );
    }
}

/// Why a composition was refused.
#[derive(Clone, Copy, Debug, PartialEq, Eq, Structural)]
pub enum CompositionError {
    /// More shots were handed in than the template places.
    TooManyFrames { captured: usize, expected: usize },
    /// The shot at `index` cannot be resampled to its rectangle: the
    /// rectangle is too large for memory.
    FrameUnscalable { index: usize },
}

/// The pictures of `frames`, each as what it is.
pub open spec fn rasters(frames: Seq<Picture>) -> Seq<Raster> {
    Seq::new(frames.len(), |i: int| frames[i]@)
}

/// The centred window of `shot` for the rectangle `slot`.
pub open spec fn shot_window(shot: Raster, slot: Frame) -> Raster {
    let region = centered_crop(shot.width as u32, shot.height as u32, slot.width, slot.height);
    shot.window(region.left as nat, region.top as nat, region.width as nat, region.height as nat)
}

/// Whether `shot` can be brought to the size of `slot`.
pub open spec fn shot_fits(shot: Raster, slot: Frame) -> bool {
    shot_window(shot, slot).scalable_to(slot.width as nat, slot.height as nat)
}

/// Whether `layer` is a picture of exactly the size of `slot`.
pub open spec fn layer_fits(layer: Raster, slot: Frame) -> bool {
    layer.wf() && layer.width == slot.width && layer.height == slot.height
}

/// Whether `layer` is what `shot` becomes for the rectangle `slot`: a
/// picture of the rectangle's size, and the centred window of the shot
/// itself where that window has the rectangle's size already, so that
/// nothing is resampled.
pub open spec fn layer_of(shot: Raster, slot: Frame, layer: Raster) -> bool {
    &&& layer_fits(layer, slot)
    &&& shot_window(shot, slot).width == slot.width && shot_window(shot, slot).height
        == slot.height ==> layer == shot_window(shot, slot)
}

/// Whether `layers` holds, for each of the first `n` rectangles, what the
/// shot of the same index becomes for it.
pub open spec fn layers_of(
    shots: Seq<Raster>,
    slots: Seq<Frame>,
    layers: Seq<Raster>,
    n: nat,
) -> bool {
    layers.len() == n && forall|i: int|
        0 <= i < n ==> layer_of(shots[i], slots[i], #[trigger] layers[i])
}

/// The background with the first `n` layers blended onto it in order, each
/// at the corner of its rectangle.
pub open spec fn layered(background: Raster, layers: Seq<Raster>, slots: Seq<Frame>, n: nat) -> Raster
    decreases n,
{
    if n == 0 {
        background
    } else {
        layered(background, layers, slots, (n - 1) as nat).under(
            layers[n - 1],
            slots[n - 1].x as int,
            slots[n - 1].y as int,
        )
    }
}

/// Whether the pixel that byte `k` of a `width` wide picture belongs to
/// lies in the rectangle `slot`.
pub open spec fn in_frame(slot: Frame, width: nat, k: int) -> bool {
    under_top(
        slot.x as int,
        slot.y as int,
        slot.width as nat,
        slot.height as nat,
        (k / 4) % (width as int),
        (k / 4) / (width as int),
    )
}

/// Whether the pixel of byte `k` lies outside each of the first `n`
/// rectangles.
pub open spec fn outside_frames(slots: Seq<Frame>, n: nat, width: nat, k: int) -> bool {
    forall|i: int| 0 <= i < n ==> !in_frame(#[trigger] slots[i], width, k)
}

/// Whether the pixel of byte `k` lies in rectangle `j` and in none of the
/// later ones among the first `n`: what is blended there last is layer `j`.
pub open spec fn on_top(slots: Seq<Frame>, n: nat, j: int, width: nat, k: int) -> bool {
    &&& in_frame(slots[j], width, k)
    &&& forall|i: int| j < i < n ==> !in_frame(#[trigger] slots[i], width, k)
}

/// The index, in a layer that fills `slot`, of the first byte of the pixel
/// that comes to lie over the pixel of byte `k`.
pub open spec fn layer_index(slot: Frame, width: nat, k: int) -> int {
    4 * (((k / 4) / (width as int) - slot.y) * slot.width + ((k / 4) % (width as int) - slot.x))
}

/// Whether `result` shows every opaque pixel of the first `n` layers that
/// no later layer covers: layer `j` in rectangle `j`, later over earlier.
pub open spec fn opaque_layers_show(
    slots: Seq<Frame>,
    layers: Seq<Raster>,
    n: nat,
    width: nat,
    result: Seq<u8>,
) -> bool {
    forall|j: int, k: int|
        0 <= j < n && 0 <= k < result.len() && #[trigger] on_top(slots, n, j, width, k)
            && layers[j].pixels[layer_index(slots[j], width, k) + 3] == 255 ==> result[k]
            == layers[j].pixels[layer_index(slots[j], width, k) + k % 4]
}

/// The index of the first of the first `n` shots that cannot be brought to
/// the size of its rectangle, if there is one.
pub open spec fn first_unscalable(shots: Seq<Raster>, slots: Seq<Frame>, n: nat) -> Option<nat>
    decreases n,
{
    if n == 0 {
        None
    } else {
        match first_unscalable(shots, slots, (n - 1) as nat) {
            Some(i) => Some(i),
            None => if shot_fits(shots[n - 1], slots[n - 1]) {
                None
            } else {
                Some((n - 1) as nat)
            },
        }
    }
}

/// Where each of the first `n` shots can be brought to the size of its
/// rectangle, none of them is refused.
pub proof fn lemma_fitting_shots_are_accepted(shots: Seq<Raster>, slots: Seq<Frame>, n: nat)
    requires
        forall|i: int| 0 <= i < n ==> shot_fits(#[trigger] shots[i], slots[i]),
    ensures
        first_unscalable(shots, slots, n) is None,
    decreases n,
{
    if n > 0 {
        lemma_fitting_shots_are_accepted(shots, slots, (n - 1) as nat);
    }
}

/// A shot and a rectangle of ordinary size, no side above 8192 pixels,
/// always fit in memory's address range, on every machine. A shot without
/// pixels is no exception.
pub proof fn lemma_ordinary_sizes_fit(shot: Raster, slot: Frame)
    requires
        shot.wf(),
        shot.width <= 8192,
        slot.width <= 8192,
        slot.height <= 8192,
    ensures
        shot_fits(shot, slot),
{
    lemma_crop_is_centered(shot.width as u32, shot.height as u32, slot.width, slot.height);
    let window = shot_window(shot, slot);
    assert(16 * window.width * slot.height <= 16 * 8192 * 8192 && 4 * slot.width * slot.height <= 4
        * 8192 * 8192) by (nonlinear_arith)
        requires
            0 <= window.width <= 8192,
            0 <= slot.width <= 8192,
            0 <= slot.height <= 8192,
    ;
}

/// Blending leaves the size of the background as it was, however many
/// layers are put on it.
pub proof fn lemma_layered_keeps_size(
    background: Raster,
    layers: Seq<Raster>,
    slots: Seq<Frame>,
    n: nat,
)
    ensures
        layered(background, layers, slots, n).width == background.width,
        layered(background, layers, slots, n).height == background.height,
    decreases n,
{
    if n > 0 {
        lemma_layered_keeps_size(background, layers, slots, (n - 1) as nat);
    }
}

/// Only the first `n` layers matter to the first `n` steps.
proof fn lemma_layered_ignores_later(
    background: Raster,
    layers: Seq<Raster>,
    more: Raster,
    slots: Seq<Frame>,
    n: nat,
)
    requires
        n <= layers.len(),
    ensures
        layered(background, layers.push(more), slots, n) == layered(background, layers, slots, n),
    decreases n,
{
    if n > 0 {
        lemma_layered_ignores_later(background, layers, more, slots, (n - 1) as nat);
    }
}

/// Crops `shot` to the aspect ratio of `slot` around its centre and
/// resamples the window to the size of `slot`. `None` where the window
/// cannot be resampled, because the rectangle is too large for memory. A
/// window that has the size of `slot` already is the layer as it is, and
/// so is a shot of that size: it is neither cropped nor resampled.
pub fn prepare_shot(shot: &Picture, slot: &Frame) -> (r: Option<Picture>)
    ensures
        r is Some <==> shot_fits(shot@, *slot),
        r is Some ==> layer_of(shot@, *slot, r->0@),
        r is Some && shot@.width == slot.width && shot@.height == slot.height ==> r->0@ == shot@,
{
    let region = crop_region(shot.width(), shot.height(), slot.width, slot.height);
    proof {
        if shot@.width == slot.width && shot@.height == slot.height {
            assert(slot.width * shot@.height == shot@.width * slot.height) by (nonlinear_arith)
                requires
                    shot@.width == slot.width,
                    shot@.height == slot.height,
            ;
            lemma_whole_window_is_picture(shot@);
        }
    }
    match shot.crop(region.left, region.top, region.width, region.height) {
        Some(window) => window.scale(slot.width, slot.height),
        None => None,
    }
}

/// Composes the shots onto the background: shot `i` is cropped around its
/// centre to the aspect ratio of the template's rectangle `i`, resampled to
/// the rectangle's size and blended onto the background at the rectangle's
/// corner, in the order of capture.
///
/// More shots than rectangles are refused, and so is a shot whose
/// rectangle is too large for memory; the first such shot is named.
/// Otherwise the result is the background under one layer per shot, layer
/// `i` being what shot `i` becomes for rectangle `i`. It has the
/// background's size, outside the rectangles it is the background, and
/// every opaque pixel of a layer shows unless a later layer covers it.
pub fn image_strip_renderer(
    background: Picture,
    captured_frames: &Vec<Picture>,
    template: &Template,
) -> (r: Result<Picture, CompositionError>)
    ensures
        captured_frames@.len() > template.frames@.len() ==> r == Err::<Picture, CompositionError>(
            CompositionError::TooManyFrames {
                captured: captured_frames.len(),
                expected: template.frames.len(),
            },
        ),
        captured_frames@.len() <= template.frames@.len() ==> match first_unscalable(
            rasters(captured_frames@),
            template.frames@,
            captured_frames@.len(),
        ) {
            Some(index) => r == Err::<Picture, CompositionError>(
                CompositionError::FrameUnscalable { index: index as usize },
            ),
            None => r is Ok && exists|layers: Seq<Raster>|
                layers_of(
                    rasters(captured_frames@),
                    template.frames@,
                    layers,
                    captured_frames@.len(),
                ) && r->Ok_0@ == layered(
                    background@,
                    layers,
                    template.frames@,
                    captured_frames@.len(),
                ) && opaque_layers_show(
                    template.frames@,
                    layers,
                    captured_frames@.len(),
                    background@.width,
                    r->Ok_0@.pixels,
                ),
        },
        r is Ok ==> r->Ok_0@.width == background@.width && r->Ok_0@.height == background@.height,
        r is Ok ==> forall|k: int|
            0 <= k < background@.pixels.len() && outside_frames(
                template.frames@,
                captured_frames@.len(),
                background@.width,
                k,
            ) ==> #[trigger] r->Ok_0@.pixels[k] == background@.pixels[k],
        r is Ok && background@.width == template.width && background@.height == template.height
            ==> r->Ok_0@.width == template.width && r->Ok_0@.height == template.height,
{
    let count = captured_frames.len();
    if count > template.frames.len() {
        return Err(
            CompositionError::TooManyFrames { captured: count, expected: template.frames.len() },
        );
    }
    let ghost start = background@;
    let ghost shots = rasters(captured_frames@);
    let ghost slots = template.frames@;
    let ghost mut layers: Seq<Raster> = Seq::empty();
    let mut canvas = background;
    let _ = canvas.width();
    let mut i: usize = 0;
    while i < count
        invariant
            i <= count,
            count == captured_frames@.len(),
            count <= template.frames@.len(),
            shots == rasters(captured_frames@),
            slots == template.frames@,
            layers_of(shots, slots, layers, i as nat),
            first_unscalable(shots, slots, i as nat) is None,
            canvas@ == layered(start, layers, slots, i as nat),
            start.wf(),
            canvas@.wf(),
            canvas@.width == start.width,
            canvas@.height == start.height,
            forall|k: int|
                0 <= k < start.pixels.len() && outside_frames(slots, i as nat, start.width, k)
                    ==> #[trigger] canvas@.pixels[k] == start.pixels[k],
            opaque_layers_show(slots, layers, i as nat, start.width, canvas@.pixels),
        decreases count - i,
    {
        let slot = template.frames[i];
        match prepare_shot(&captured_frames[i], &slot) {
            Some(layer) => {
                let ghost below = canvas@;
                canvas = canvas.overlay(&layer, slot.x, slot.y);
                proof {
                    assert forall|k: int|
                        0 <= k < start.pixels.len() && outside_frames(
                            slots,
                            (i + 1) as nat,
                            start.width,
                            k,
                        ) implies #[trigger] canvas@.pixels[k] == start.pixels[k] by {
                        assert(slots[i as int] == slot);
                        assert(outside_frames(slots, i as nat, start.width, k));
                        assert(overlay_settles(
                            below.pixels,
                            below.width,
                            layer@.pixels,
                            layer@.width,
                            layer@.height,
                            slot.x as int,
                            slot.y as int,
                            canvas@.pixels,
                            k,
                        ));
                    }
                    let grown = layers.push(layer@);
                    assert forall|j: int, k: int|
                        0 <= j < i + 1 && 0 <= k < canvas@.pixels.len() && #[trigger] on_top(
                            slots,
                            (i + 1) as nat,
                            j,
                            start.width,
                            k,
                        ) && grown[j].pixels[layer_index(slots[j], start.width, k) + 3]
                            == 255 implies canvas@.pixels[k] == grown[j].pixels[layer_index(
                            slots[j],
                            start.width,
                            k,
                        ) + k % 4] by {
                        assert(slots[i as int] == slot);
                        assert(overlay_settles(
                            below.pixels,
                            below.width,
                            layer@.pixels,
                            layer@.width,
                            layer@.height,
                            slot.x as int,
                            slot.y as int,
                            canvas@.pixels,
                            k,
                        ));
                        if j < i {
                            assert(!in_frame(slots[i as int], start.width, k));
                            assert(on_top(slots, i as nat, j, start.width, k));
                            assert(grown[j] == layers[j]);
                        } else {
                            assert(grown[j] == layer@);
                        }
                    }
                    lemma_layered_ignores_later(start, layers, layer@, slots, i as nat);
                    layers = grown;
                }
            },
            None => {
                proof {
                    lemma_first_unscalable_stays(shots, slots, (i + 1) as nat, count as nat);
                }
                return Err(CompositionError::FrameUnscalable { index: i });
            },
        }
        i = i + 1;
    }
    proof {
        lemma_layered_keeps_size(start, layers, slots, count as nat);
    }
    Ok(canvas)
}

/// Once a shot that cannot be resampled is found, looking further does not
/// change which one is first.
proof fn lemma_first_unscalable_stays(shots: Seq<Raster>, slots: Seq<Frame>, n: nat, m: nat)
    requires
        n <= m,
        first_unscalable(shots, slots, n) is Some,
    ensures
        first_unscalable(shots, slots, m) == first_unscalable(shots, slots, n),
    decreases m,
{
    if n < m {
        lemma_first_unscalable_stays(shots, slots, n, (m - 1) as nat);
    }
}

} // verus!
