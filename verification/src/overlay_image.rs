use vstd::prelude::*;

use image::{AnimationDecoder, ImageError, ImageReader};
use std::io::Cursor;

verus! {

#[verifier::external_type_specification]
#[verifier::external_body]
pub struct ExImageError(image::ImageError);

/// Why an overlay image could not be prepared.
#[derive(Debug, Clone, Copy, PartialEq, Eq, Structural)]
pub enum OverlayError {
    /// The bytes are not an image that could be decoded.
    Decode,
}

/// The container format detected in image bytes, as far as overlays care.
#[derive(Debug, Clone, Copy, PartialEq, Eq, Structural)]
pub enum ImageKind {
    Gif,
    WebP,
    Other,
}

/// One decoded animation frame as the decoder hands it out: RGBA pixels, size and the
/// delay as a fraction of milliseconds.
pub struct RawFrame {
    pub rgba: Vec<u8>,
    pub width: u32,
    pub height: u32,
    pub delay_numer: u32,
    pub delay_denom: u32,
}

/// One animation frame ready to show: RGBA pixels, size and delay in milliseconds.
pub struct RgbaFrame {
    pub rgba: Vec<u8>,
    pub width: u32,
    pub height: u32,
    pub delay_ms: u64,
}

impl RawFrame {
    pub open spec fn view_tuple(&self) -> (Seq<u8>, u32, u32, u32, u32) {
        (self.rgba@, self.width, self.height, self.delay_numer, self.delay_denom)
    }
}

impl RgbaFrame {
    pub open spec fn view_tuple(&self) -> (Seq<u8>, u32, u32, u64) {
        (self.rgba@, self.width, self.height, self.delay_ms)
    }
}

pub open spec fn raw_frame_views(v: Seq<Option<RawFrame>>) -> Seq<Option<(Seq<u8>, u32, u32, u32, u32)>> {
    v.map_values(
        |f: Option<RawFrame>|
            match f {
                Some(x) => Some(x.view_tuple()),
                None => None,
            },
    )
}

pub open spec fn rgba_frame_views(v: Seq<RgbaFrame>) -> Seq<(Seq<u8>, u32, u32, u64)> {
    v.map_values(|f: RgbaFrame| f.view_tuple())
}

/// The format that `ImageReader::with_guessed_format` detects in `data` (`None` when the
/// reader fails).
pub uninterp spec fn guessed_image_kind(data: Seq<u8>) -> Option<ImageKind>;

/// What `ImageReader` decodes from `data`, converted to RGBA: pixels, width, height.
pub uninterp spec fn decoded_rgba(data: Seq<u8>) -> Option<(Seq<u8>, u32, u32)>;

/// The frames that the GIF decoder yields for `data` before its first error (each one
/// `Some`), or `None` when the decoder cannot be created.
pub uninterp spec fn decoded_gif_frames(data: Seq<u8>) -> Option<Seq<Option<(Seq<u8>, u32, u32, u32, u32)>>>;

/// The frames that the WebP decoder yields for `data`, as for GIF.
pub uninterp spec fn decoded_webp_frames(data: Seq<u8>) -> Option<Seq<Option<(Seq<u8>, u32, u32, u32, u32)>>>;

/// `ImageReader::new(..).with_guessed_format()` then `format()`: GIF and WebP are told
/// apart, every other or unknown format is `Other`. The detection is left to the name.
#[verifier::external_body]
fn guess_image_kind(data: &[u8]) -> (r: Result<ImageKind, ImageError>)
    ensures
        r is Err <==> guessed_image_kind(data@) is None,
        r matches Ok(k) ==> guessed_image_kind(data@) == Some(k),
{
    match ImageReader::new(Cursor::new(data)).with_guessed_format()?.format() {
        Some(image::ImageFormat::Gif) => Ok(ImageKind::Gif),
        Some(image::ImageFormat::WebP) => Ok(ImageKind::WebP),
        _ => Ok(ImageKind::Other),
    }
}

/// `ImageReader` with a guessed format, `decode`, then `into_rgba8`: the pixels and the
/// size. What the decoders compute is left to the name `decoded_rgba`.
#[verifier::external_body]
fn decode_rgba(data: &[u8]) -> (r: Result<(Vec<u8>, u32, u32), ImageError>)
    ensures
        r is Err <==> decoded_rgba(data@) is None,
        r matches Ok(v) ==> decoded_rgba(data@) == Some((v.0@, v.1, v.2)),
{
    let img = ImageReader::new(Cursor::new(data)).with_guessed_format()?.decode()?.into_rgba8();
    let (w, h) = img.dimensions();
    Ok((img.into_raw(), w, h))
}

/// `GifDecoder::new` then `into_frames`, each frame as pixels, size and delay. The frames
/// end at the first error. The iterator takes only an I/O end of file as its end, while
/// gif 0.14 reports a truncated file as its own `DecodingError::UnexpectedEof`; after that
/// every further call fails the same way, so an iterator that skipped errors would never
/// end. A frame refused for another reason also ends the frames here.
#[verifier::external_body]
fn gif_frames(data: &[u8]) -> (r: Result<Vec<Option<RawFrame>>, ImageError>)
    ensures
        r is Err <==> decoded_gif_frames(data@) is None,
        r matches Ok(v) ==> decoded_gif_frames(data@) == Some(raw_frame_views(v@)),
{
    let decoder = image::codecs::gif::GifDecoder::new(Cursor::new(data))?;
    Ok(decoder.into_frames().map_while(|f| f.ok()).map(|frame| Some({
        let (delay_numer, delay_denom) = frame.delay().numer_denom_ms();
        let (width, height) = frame.buffer().dimensions();
        RawFrame { rgba: frame.into_buffer().into_raw(), width, height, delay_numer, delay_denom }
    })).collect())
}

/// `WebPDecoder::new` then `into_frames`, each frame as pixels, size and delay.
#[verifier::external_body]
fn webp_frames(data: &[u8]) -> (r: Result<Vec<Option<RawFrame>>, ImageError>)
    ensures
        r is Err <==> decoded_webp_frames(data@) is None,
        r matches Ok(v) ==> decoded_webp_frames(data@) == Some(raw_frame_views(v@)),
{
    let decoder = image::codecs::webp::WebPDecoder::new(Cursor::new(data))?;
    Ok(decoder.into_frames().map(|f| f.ok().map(|frame| {
        let (delay_numer, delay_denom) = frame.delay().numer_denom_ms();
        let (width, height) = frame.buffer().dimensions();
        RawFrame { rgba: frame.into_buffer().into_raw(), width, height, delay_numer, delay_denom }
    })).collect())
}

/// The still image in `data`, as RGBA pixels with its width and height.
pub fn decode_rgba_from_bytes(data: &[u8]) -> (r: Result<(Vec<u8>, u32, u32), OverlayError>)
    ensures
        r is Err <==> decoded_rgba(data@) is None,
        r matches Ok(v) ==> decoded_rgba(data@) == Some((v.0@, v.1, v.2)),
{
    match decode_rgba(data) {
        Ok(v) => Ok(v),
        Err(_) => Err(OverlayError::Decode),
    }
}

/// How long a frame stays: its delay in whole milliseconds (a zero denominator counts
/// as one), at least 10.
pub open spec fn frame_delay_ms(numer: u32, denom: u32) -> u64 {
    let d: u64 = if denom == 0 { 1 } else { denom as u64 };
    let q: u64 = (numer as u64) / d;
    if q < 10 {
        10
    } else {
        q
    }
}

/// The frames that decoded, in order, with their delays in milliseconds.
pub open spec fn frames_from(raw: Seq<Option<(Seq<u8>, u32, u32, u32, u32)>>) -> Seq<(Seq<u8>, u32, u32, u64)>
    decreases raw.len(),
{
    if raw.len() == 0 {
        seq![]
    } else {
        let earlier = frames_from(raw.drop_last());
        match raw.last() {
            Some(f) => earlier.push((f.0, f.1, f.2, frame_delay_ms(f.3, f.4))),
            None => earlier,
        }
    }
}

/// The frames of an animation that decoded, with their delays in milliseconds.
pub fn frames_from_decoded(raw: Vec<Option<RawFrame>>) -> (r: Vec<RgbaFrame>)
    ensures
        rgba_frame_views(r@) == frames_from(raw_frame_views(raw@)),
{
    let ghost views = raw_frame_views(raw@);
    let mut out: Vec<RgbaFrame> = Vec::new();
    let mut rest = raw;
    let ghost original = rest@;
    // Take the frames from the back so that each can be moved out; then restore order.
    let mut reversed: Vec<RgbaFrame> = Vec::new();
    assert(views.take(rest@.len() as int) =~= views);
    assert(rgba_frame_views(reversed@).reverse() =~= Seq::<(Seq<u8>, u32, u32, u64)>::empty());
    assert(frames_from(views) + Seq::<(Seq<u8>, u32, u32, u64)>::empty() =~= frames_from(views));
    while rest.len() > 0
        invariant
            views == raw_frame_views(original),
            rest@ == original.take(rest@.len() as int),
            rest@.len() <= original.len(),
            frames_from(views) == frames_from(views.take(rest@.len() as int)) + rgba_frame_views(reversed@).reverse(),
        decreases rest.len(),
    {
        let n = rest.len();
        assert(views.take(n as int).drop_last() =~= views.take(n - 1));
        assert(views.take(n as int).last() == raw_frame_views(original)[n - 1]);
        let f = rest.pop().unwrap();
        assert(f == original[n - 1]);
        assert(rest@ =~= original.take(n - 1));
        match f {
            Some(frame) => {
                let d: u64 = if frame.delay_denom == 0 { 1 } else { frame.delay_denom as u64 };
                let q: u64 = (frame.delay_numer as u64) / d;
                let delay_ms = if q < 10 { 10 } else { q };
                let g = RgbaFrame { rgba: frame.rgba, width: frame.width, height: frame.height, delay_ms };
                let ghost before = rgba_frame_views(reversed@);
                reversed.push(g);
                assert(rgba_frame_views(reversed@) =~= before.push(g.view_tuple()));
                assert(before.push(g.view_tuple()).reverse() =~= seq![g.view_tuple()] + before.reverse());
            },
            None => {},
        }
    }
    assert(views.take(0) =~= Seq::<Option<(Seq<u8>, u32, u32, u32, u32)>>::empty());
    while reversed.len() > 0
        invariant
            frames_from(views) == rgba_frame_views(out@) + rgba_frame_views(reversed@).reverse(),
        decreases reversed.len(),
    {
        let ghost rv = rgba_frame_views(reversed@);
        let ghost ov = rgba_frame_views(out@);
        let g = reversed.pop().unwrap();
        assert(rgba_frame_views(reversed@) =~= rv.drop_last());
        assert(rv.reverse() =~= seq![rv.last()] + rv.drop_last().reverse());
        out.push(g);
        assert(rgba_frame_views(out@) =~= ov.push(g.view_tuple()));
    }
    assert(rgba_frame_views(reversed@).reverse() =~= Seq::<(Seq<u8>, u32, u32, u64)>::empty());
    assert(rgba_frame_views(out@) + Seq::<(Seq<u8>, u32, u32, u64)>::empty() =~= rgba_frame_views(out@));
    out
}

/// The frames an overlay animates: those of a GIF or WebP animation, or the still image
/// as one frame of 100 ms.
pub open spec fn spec_animation_frames(data: Seq<u8>) -> Option<Seq<(Seq<u8>, u32, u32, u64)>> {
    match guessed_image_kind(data) {
        None => None,
        Some(ImageKind::Gif) => match decoded_gif_frames(data) {
            None => None,
            Some(raw) => Some(frames_from(raw)),
        },
        Some(ImageKind::WebP) => match decoded_webp_frames(data) {
            None => None,
            Some(raw) => Some(frames_from(raw)),
        },
        Some(ImageKind::Other) => match decoded_rgba(data) {
            None => None,
            Some(img) => Some(seq![(img.0, img.1, img.2, 100u64)]),
        },
    }
}

/// The frames that decoded, in order, as the decoder gave them.
pub open spec fn decoded_frames(
    raw: Seq<Option<(Seq<u8>, u32, u32, u32, u32)>>,
) -> Seq<(Seq<u8>, u32, u32, u32, u32)>
    decreases raw.len(),
{
    if raw.len() == 0 {
        seq![]
    } else {
        let earlier = decoded_frames(raw.drop_last());
        match raw.last() {
            Some(f) => earlier.push(f),
            None => earlier,
        }
    }
}

/// A decoded frame ready to show: its pixels and size, with its delay in milliseconds.
pub open spec fn shown_frame(f: (Seq<u8>, u32, u32, u32, u32)) -> (Seq<u8>, u32, u32, u64) {
    (f.0, f.1, f.2, frame_delay_ms(f.3, f.4))
}

/// A frame stays for its delay in whole milliseconds (its numerator over its denominator,
/// rounded down, a zero denominator counting as one), but never less than 10 ms.
pub proof fn lemma_frame_delay(numer: u32, denom: u32)
    ensures
        frame_delay_ms(numer, denom) >= 10,
        denom > 0 && numer / denom >= 10 ==> frame_delay_ms(numer, denom) == numer / denom,
        denom == 0 && numer >= 10 ==> frame_delay_ms(numer, denom) == numer,
        (if denom == 0 { numer < 10 } else { numer / denom < 10 }) ==> frame_delay_ms(numer, denom) == 10,
{
}

proof fn lemma_frames_from_decoded(raw: Seq<Option<(Seq<u8>, u32, u32, u32, u32)>>)
    ensures
        frames_from(raw).len() == decoded_frames(raw).len(),
        forall|k: int| 0 <= k < frames_from(raw).len() ==> #[trigger] frames_from(raw)[k] == shown_frame(
            decoded_frames(raw)[k],
        ),
    decreases raw.len(),
{
    if raw.len() > 0 {
        lemma_frames_from_decoded(raw.drop_last());
    }
}

/// The frames an overlay animates follow the detected format: for a GIF or WebP image,
/// one frame for each frame its animation decoder decodes, in order, with that frame's
/// pixels, size and delay (in whole milliseconds, at least 10); for any other image, the
/// still image as one frame of 100 ms; and nothing when the format or the decoding fails.
pub proof fn lemma_animation_frames_by_format(data: Seq<u8>)
    ensures
        guessed_image_kind(data) is None ==> spec_animation_frames(data) is None,
        guessed_image_kind(data) == Some(ImageKind::Gif) ==> (spec_animation_frames(data) is None
            <==> decoded_gif_frames(data) is None),
        guessed_image_kind(data) == Some(ImageKind::WebP) ==> (spec_animation_frames(data) is None
            <==> decoded_webp_frames(data) is None),
        guessed_image_kind(data) == Some(ImageKind::Other) ==> (spec_animation_frames(data) is None
            <==> decoded_rgba(data) is None),
        guessed_image_kind(data) == Some(ImageKind::Gif) && decoded_gif_frames(data) is Some ==> ({
            let frames = spec_animation_frames(data)->0;
            let decoded = decoded_frames(decoded_gif_frames(data)->0);
            &&& frames.len() == decoded.len()
            &&& forall|k: int| 0 <= k < frames.len() ==> #[trigger] frames[k] == shown_frame(decoded[k])
        }),
        guessed_image_kind(data) == Some(ImageKind::WebP) && decoded_webp_frames(data) is Some ==> ({
            let frames = spec_animation_frames(data)->0;
            let decoded = decoded_frames(decoded_webp_frames(data)->0);
            &&& frames.len() == decoded.len()
            &&& forall|k: int| 0 <= k < frames.len() ==> #[trigger] frames[k] == shown_frame(decoded[k])
        }),
        guessed_image_kind(data) == Some(ImageKind::Other) && decoded_rgba(data) is Some ==> ({
            let img = decoded_rgba(data)->0;
            spec_animation_frames(data) == Some(seq![(img.0, img.1, img.2, 100u64)])
        }),
{
    match decoded_gif_frames(data) {
        Some(raw) => lemma_frames_from_decoded(raw),
        None => {},
    }
    match decoded_webp_frames(data) {
        Some(raw) => lemma_frames_from_decoded(raw),
        None => {},
    }
}

/// The frames of the animated overlay image `data`.
pub fn decode_animation_frames(data: &[u8]) -> (r: Result<Vec<RgbaFrame>, OverlayError>)
    ensures
        r is Err <==> spec_animation_frames(data@) is None,
        r matches Ok(v) ==> spec_animation_frames(data@) == Some(rgba_frame_views(v@)),
{
    let kind = match guess_image_kind(data) {
        Ok(k) => k,
        Err(_) => return Err(OverlayError::Decode),
    };
    match kind {
        ImageKind::Gif => match gif_frames(data) {
            Ok(raw) => Ok(frames_from_decoded(raw)),
            Err(_) => Err(OverlayError::Decode),
        },
        ImageKind::WebP => match webp_frames(data) {
            Ok(raw) => Ok(frames_from_decoded(raw)),
            Err(_) => Err(OverlayError::Decode),
        },
        ImageKind::Other => match decode_rgba(data) {
            Ok((rgba, width, height)) => {
                let frames = vec![RgbaFrame { rgba, width, height, delay_ms: 100 }];
                assert(rgba_frame_views(frames@) =~= seq![(rgba@, width, height, 100u64)]);
                Ok(frames)
            },
            Err(_) => Err(OverlayError::Decode),
        },
    }
}

} // verus!

verus! {

/// A colour channel multiplied by the pixel's alpha, rounding down.
pub open spec fn premultiply(c: u8, a: u8) -> u8 {
    ((c as nat * a as nat) / 255) as u8
}

/// The premultiplied BGRA form of the RGBA pixel at `j`.
pub open spec fn bgra_pixel(rgba: Seq<u8>, j: int) -> Seq<u8> {
    let r = rgba[4 * j];
    let g = rgba[4 * j + 1];
    let b = rgba[4 * j + 2];
    let a = rgba[4 * j + 3];
    seq![premultiply(b, a), premultiply(g, a), premultiply(r, a), a]
}

/// The first `n` pixels of `rgba` in premultiplied BGRA.
pub open spec fn bgra_pixels(rgba: Seq<u8>, n: nat) -> Seq<u8>
    decreases n,
{
    if n == 0 {
        seq![]
    } else {
        bgra_pixels(rgba, (n - 1) as nat) + bgra_pixel(rgba, n - 1)
    }
}

/// The complete pixels of `rgba` in premultiplied BGRA (trailing bytes that do not make a
/// whole pixel are dropped).
pub open spec fn premul_bgra(rgba: Seq<u8>) -> Seq<u8> {
    bgra_pixels(rgba, rgba.len() / 4)
}

/// RGBA pixels converted to the premultiplied BGRA that layered windows expect.
pub fn rgba_to_premul_bgra(rgba: &[u8]) -> (r: Vec<u8>)
    ensures
        r@ == premul_bgra(rgba@),
{
    let len = rgba.len();
    let n = len / 4;
    let mut out: Vec<u8> = Vec::new();
    let mut j: usize = 0;
    while j < n
        invariant
            len == rgba@.len(),
            n == rgba@.len() / 4,
            j <= n,
            out@ == bgra_pixels(rgba@, j as nat),
        decreases n - j,
    {
        assert(4 * j + 3 < rgba@.len());
        let r = rgba[4 * j] as u32;
        let g = rgba[4 * j + 1] as u32;
        let b = rgba[4 * j + 2] as u32;
        let a = rgba[4 * j + 3] as u32;
        assert(b * a / 255 <= 255) by (nonlinear_arith)
            requires
                b <= 255,
                a <= 255,
        ;
        assert(g * a / 255 <= 255) by (nonlinear_arith)
            requires
                g <= 255,
                a <= 255,
        ;
        assert(r * a / 255 <= 255) by (nonlinear_arith)
            requires
                r <= 255,
                a <= 255,
        ;
        out.push((b * a / 255) as u8);
        out.push((g * a / 255) as u8);
        out.push((r * a / 255) as u8);
        out.push(a as u8);
        assert(out@ =~= bgra_pixels(rgba@, (j + 1) as nat));
        j += 1;
    }
    out
}

/// Premultiplying keeps every pixel's alpha and never makes a colour channel exceed it.
pub proof fn lemma_premul_bgra(rgba: Seq<u8>, j: int)
    requires
        0 <= j < rgba.len() / 4,
    ensures
        premul_bgra(rgba).len() == 4 * (rgba.len() / 4),
        premul_bgra(rgba)[4 * j + 3] == rgba[4 * j + 3],
        premul_bgra(rgba)[4 * j] <= rgba[4 * j + 3],
        premul_bgra(rgba)[4 * j + 1] <= rgba[4 * j + 3],
        premul_bgra(rgba)[4 * j + 2] <= rgba[4 * j + 3],
{
    lemma_bgra_pixels(rgba, (rgba.len() / 4) as nat, j);
}

proof fn lemma_premultiply_le(c: u8, a: u8)
    ensures
        premultiply(c, a) <= a,
{
    assert((c as nat * a as nat) / 255 <= a as nat) by (nonlinear_arith)
        requires
            c <= 255,
    ;
}

proof fn lemma_bgra_pixels(rgba: Seq<u8>, n: nat, j: int)
    requires
        0 <= j < n,
        n <= rgba.len() / 4,
    ensures
        bgra_pixels(rgba, n).len() == 4 * n,
        bgra_pixels(rgba, n)[4 * j + 3] == rgba[4 * j + 3],
        bgra_pixels(rgba, n)[4 * j] <= rgba[4 * j + 3],
        bgra_pixels(rgba, n)[4 * j + 1] <= rgba[4 * j + 3],
        bgra_pixels(rgba, n)[4 * j + 2] <= rgba[4 * j + 3],
    decreases n,
{
    lemma_bgra_pixels_len(rgba, n);
    if j < n - 1 {
        lemma_bgra_pixels(rgba, (n - 1) as nat, j);
        lemma_bgra_pixels_len(rgba, (n - 1) as nat);
    } else {
        lemma_bgra_pixels_len(rgba, (n - 1) as nat);
        let a = rgba[4 * j + 3];
        lemma_premultiply_le(rgba[4 * j + 2], a);
        lemma_premultiply_le(rgba[4 * j + 1], a);
        lemma_premultiply_le(rgba[4 * j], a);
    }
}

proof fn lemma_bgra_pixels_len(rgba: Seq<u8>, n: nat)
    ensures
        bgra_pixels(rgba, n).len() == 4 * n,
    decreases n,
{
    if n > 0 {
        lemma_bgra_pixels_len(rgba, (n - 1) as nat);
    }
}

} // verus!
