//! Frames, capture regions and the pixel conversions applied to raw buffers.

use vstd::prelude::*;
use crate::wire::{image_len, PixelFormat};

verus! {

/// One captured or reassembled image: its dimensions and its pixel bytes.
#[derive(Debug)]
pub struct Frame {
    /// Width in pixels.
    pub w: u32,
    /// Height in pixels.
    pub h: u32,
    /// Pixel bytes, row after row.
    pub data: Vec<u8>,
}

/// What a [`Frame`] is, with its bytes as a sequence.
pub struct FrameView {
    pub w: u32,
    pub h: u32,
    pub data: Seq<u8>,
}

impl View for Frame {
    type V = FrameView;

    open spec fn view(&self) -> FrameView {
        FrameView { w: self.w, h: self.h, data: self.data@ }
    }
}

impl FrameView {
    /// The buffer holds exactly the pixels of the stated dimensions in `format`.
    pub open spec fn fits(self, format: PixelFormat) -> bool {
        self.data.len() == image_len(self.w, self.h, format)
    }
}

impl Frame {
    /// A frame of the given dimensions over `data`.
    pub fn new(w: u32, h: u32, data: Vec<u8>) -> (f: Self)
        ensures
            f@ == (FrameView { w, h, data: data@ }),
    {
        Self { w, h, data }
    }
}

impl Clone for Frame {
    fn clone(&self) -> (f: Self)
        ensures
            f@ == self@,
    {
        Frame { w: self.w, h: self.h, data: self.data.clone() }
    }
}

impl Default for Frame {
    fn default() -> (f: Self)
        ensures
            f@ == (FrameView { w: 0, h: 0, data: Seq::empty() }),
    {
        Frame { w: 0, h: 0, data: Vec::new() }
    }
}

/// A rectangle of the screen, in the coordinates of the frame source.
#[derive(Debug, Clone, Copy, PartialEq, Eq, Structural)]
pub struct Area {
    /// Column of the left edge.
    pub x: u32,
    /// Row of the top edge.
    pub y: u32,
    /// Width in pixels.
    pub width: u32,
    /// Height in pixels.
    pub height: u32,
}

impl Area {
    /// The rectangle with its top left corner at (`x`, `y`).
    pub fn new(x: u32, y: u32, width: u32, height: u32) -> (a: Self)
        ensures
            a == (Area { x, y, width, height }),
    {
        Self { x, y, width, height }
    }

    /// The part of this rectangle that lies inside an image `w` by `h`: the
    /// corner is pulled back to the image's edge first, then the extent is cut
    /// to what is left.
    pub open spec fn clamped(self, w: u32, h: u32) -> Area {
        let x = if self.x < w { self.x } else { w };
        let y = if self.y < h { self.y } else { h };
        Area {
            x,
            y,
            width: if self.width < w - x { self.width } else { (w - x) as u32 },
            height: if self.height < h - y { self.height } else { (h - y) as u32 },
        }
    }

    /// This rectangle lies inside an image `w` by `h`.
    pub open spec fn within(self, w: u32, h: u32) -> bool {
        self.x + self.width <= w && self.y + self.height <= h
    }
}

impl Default for Area {
    fn default() -> (a: Self)
        ensures
            a == (Area { x: 0, y: 0, width: 0, height: 0 }),
    {
        Area { x: 0, y: 0, width: 0, height: 0 }
    }
}

/// A frame on its way from the receiving worker to the display.
#[derive(Debug)]
pub struct ChannelFrame {
    /// Width in pixels.
    pub w: u32,
    /// Height in pixels.
    pub h: u32,
    /// Pixel bytes, row after row.
    pub data: Vec<u8>,
}

impl View for ChannelFrame {
    type V = FrameView;

    open spec fn view(&self) -> FrameView {
        FrameView { w: self.w, h: self.h, data: self.data@ }
    }
}

impl ChannelFrame {
    /// A frame of the given dimensions over `data`.
    pub fn new(w: u32, h: u32, data: Vec<u8>) -> (f: Self)
        ensures
            f@ == (FrameView { w, h, data: data@ }),
    {
        Self { w, h, data }
    }
}

/// The three-byte pixels that [`from_bgra_to_rgb`] makes of four-byte ones:
/// pixel `p` of the result holds bytes 2, 1 and 0 of pixel `p` of the source.
/// Bytes after the last whole pixel of the source are left out.
pub open spec fn bgra_to_rgb(src: Seq<u8>) -> Seq<u8> {
    Seq::new(((src.len() / 4) * 3) as nat, |i: int| src[(i / 3) * 4 + (2 - i % 3)])
}

/// Drops the alpha channel of a blue-green-red-alpha buffer and puts the colour
/// channels in red-green-blue order.
pub fn from_bgra_to_rgb(frame_data: Vec<u8>) -> (data: Vec<u8>)
    ensures
        data@ == bgra_to_rgb(frame_data@),
        data@.len() == (frame_data@.len() / 4) * 3,
{
    let len: usize = frame_data.len();
    let pixels: usize = len / 4;
    let mut data: Vec<u8> = Vec::new();
    let mut p: usize = 0;
    while p < pixels
        invariant
            p <= pixels,
            len == frame_data@.len(),
            pixels == len / 4,
            data@.len() == p * 3,
            forall|i: int| 0 <= i < data@.len() ==> data@[i] == frame_data@[(i / 3) * 4 + (2 - i % 3)],
        decreases pixels - p,
    {
        let at: usize = p * 4;
        data.push(frame_data[at + 2]);
        data.push(frame_data[at + 1]);
        data.push(frame_data[at]);
        p = p + 1;
    }
    data
}

/// Number of pixels in an image `width` by `height`.
pub fn pixel_count(width: u32, height: u32) -> (n: u64)
    ensures
        n == (width as nat) * (height as nat),
{
    assert((width as nat) * (height as nat) <= 0xffff_ffff * 0xffff_ffff) by (nonlinear_arith)
        requires
            width <= 0xffff_ffff,
            height <= 0xffff_ffff,
    ;
    (width as u64) * (height as u64)
}

/// Whether `len` bytes are exactly the four-byte pixels of an image `width` by
/// `height`.
pub fn holds_rgba(len: usize, width: u32, height: u32) -> (ok: bool)
    ensures
        ok == (len == image_len(width, height, PixelFormat::Rgba)),
{
    let pixels: u64 = pixel_count(width, height);
    len % 4 == 0 && (len / 4) as u64 == pixels
}

/// The bytes of the window `area` cut from a buffer of four-byte pixels laid out
/// in rows of `stride` pixels: row after row of the window, each pixel with its
/// four bytes in their order.
pub open spec fn window_rgba(src: Seq<u8>, stride: u32, area: Area) -> Seq<u8> {
    Seq::new(
        ((area.width as nat) * (area.height as nat) * 4) as nat,
        |i: int|
            {
                let row = i / (4 * area.width);
                let col = (i / 4) % (area.width as int);
                src[((area.y + row) * stride + area.x + col) * 4 + i % 4]
            },
    )
}

/// What [`u8x4_crop`] returns for a frame and a region.
pub open spec fn cropped(frame: FrameView, area: Area) -> FrameView {
    if frame.data.len() == (area.width as nat) * (area.height as nat) * 4 {
        frame
    } else {
        FrameView {
            w: area.width,
            h: area.height,
            data: window_rgba(frame.data, frame.w, area.clamped(frame.w, frame.h)),
        }
    }
}

/// `image::RgbaImage::from_raw` over `data`, then `image::imageops::crop` and
/// `to_image` on the view it gives. `from_raw` refuses a buffer shorter than
/// `w * h * 4` bytes and accepts any other; `crop` pulls the window back inside
/// the image; `to_image` copies the window's pixels, row after row, into a
/// buffer of its own.
#[verifier::external_body]
fn crop_rgba(w: u32, h: u32, data: Vec<u8>, x: u32, y: u32, width: u32, height: u32) -> (out:
    Option<Vec<u8>>)
    ensures
        out is Some <==> data@.len() >= image_len(w, h, PixelFormat::Rgba),
        out matches Some(bytes) ==> bytes@ == window_rgba(
            data@,
            w,
            (Area { x, y, width, height }).clamped(w, h),
        ),
{
    let mut rgba = image::RgbaImage::from_raw(w, h, data)?;
    Some(image::imageops::crop(&mut rgba, x, y, width, height).to_image().to_vec())
}

/// Cuts the region `area` out of a frame of four-byte pixels.
///
/// A frame whose buffer already has exactly the size of the region is taken to
/// be cropped and comes back as it is. Otherwise the result carries the
/// region's dimensions and the pixels of the part of the region that lies
/// inside the frame.
pub fn u8x4_crop(frame: Frame, area: &Area) -> (out: Frame)
    requires
        frame@.data.len() == (area.width as nat) * (area.height as nat) * 4
            || frame@.data.len() >= image_len(frame.w, frame.h, PixelFormat::Rgba),
    ensures
        out@ == cropped(frame@, *area),
{
    if holds_rgba(frame.data.len(), area.width, area.height) {
        return frame;
    }
    let w: u32 = frame.w;
    let h: u32 = frame.h;
    match crop_rgba(w, h, frame.data, area.x, area.y, area.width, area.height) {
        Some(bytes) => Frame::new(area.width, area.height, bytes),
        None => vstd::pervasive::unreached(),
    }
}

/// A region that lies inside the image is its own clamped form.
pub proof fn lemma_clamped_within(area: Area, w: u32, h: u32)
    requires
        area.within(w, h),
    ensures
        area.clamped(w, h) == area,
{
}

/// Cropping a frame whose buffer matches its dimensions to a region that lies
/// inside it gives a frame whose buffer matches its dimensions again.
pub proof fn lemma_crop_within_fits(frame: FrameView, area: Area)
    requires
        frame.fits(PixelFormat::Rgba),
        area.within(frame.w, frame.h),
    ensures
        cropped(frame, area).fits(PixelFormat::Rgba),
{
    lemma_clamped_within(area, frame.w, frame.h);
}

/// What [`swap_red_blue`] makes of a buffer: bytes 0 and 2 of every whole
/// four-byte pixel trade places, and nothing else moves.
pub open spec fn red_blue_swapped(src: Seq<u8>) -> Seq<u8> {
    Seq::new(
        src.len(),
        |i: int|
            if i / 4 < src.len() / 4 {
                if i % 4 == 0 {
                    src[i + 2]
                } else if i % 4 == 2 {
                    src[i - 2]
                } else {
                    src[i]
                }
            } else {
                src[i]
            },
    )
}

/// Exchanges the red and blue channel of every four-byte pixel.
pub fn swap_red_blue(pixels: Vec<u8>) -> (out: Vec<u8>)
    ensures
        out@ == red_blue_swapped(pixels@),
{
    let mut out: Vec<u8> = pixels;
    let len: usize = out.len();
    let whole: usize = len / 4;
    let mut p: usize = 0;
    while p < whole
        invariant
            p <= whole,
            len == pixels@.len(),
            whole == len / 4,
            out@.len() == len,
            forall|i: int| 0 <= i < 4 * p ==> out@[i] == red_blue_swapped(pixels@)[i],
            forall|i: int| 4 * p <= i < len ==> out@[i] == pixels@[i],
        decreases whole - p,
    {
        let at: usize = p * 4;
        let first: u8 = out[at];
        let third: u8 = out[at + 2];
        out.set(at, third);
        out.set(at + 2, first);
        p = p + 1;
    }
    out
}

/// What [`bgra_rows_to_rgba`] makes of a buffer of `h` rows that holds `w`
/// pixels at the start of each row: pixel after pixel, its bytes 2, 1 and 0
/// followed by an alpha of 255. Each row of the buffer is `buffer.len() / h`
/// bytes long, so bytes between the end of the pixels and the end of the row
/// are skipped.
pub open spec fn rows_to_rgba(buffer: Seq<u8>, w: nat, h: nat) -> Seq<u8> {
    Seq::new(
        w * h * 4,
        |i: int|
            {
                let at = (buffer.len() / h) * (i / 4 / (w as int)) + 4 * ((i / 4) % (w as int));
                if i % 4 == 3 {
                    255u8
                } else {
                    buffer[at + 2 - i % 4]
                }
            },
    )
}

/// There is at least one row, the result fits in memory, and the colour bytes
/// of every pixel that [`bgra_rows_to_rgba`] reads lie inside the buffer.
pub open spec fn rows_in_bounds(buffer: Seq<u8>, w: nat, h: nat) -> bool {
    &&& h > 0
    &&& w * h * 4 <= usize::MAX
    &&& w > 0 ==> (buffer.len() / h) * (h - 1) + 4 * w <= buffer.len() + 1
}

/// Whether [`bgra_rows_to_rgba`] may be called on these arguments.
pub fn rows_fit(buffer: &[u8], w: usize, h: usize) -> (ok: bool)
    ensures
        ok == rows_in_bounds(buffer@, w as nat, h as nat),
{
    if h == 0 {
        return false;
    }
    let total: Option<usize> = match w.checked_mul(h) {
        Some(pixels) => pixels.checked_mul(4),
        None => None,
    };
    if total.is_none() {
        assert(w * h * 4 > usize::MAX) by (nonlinear_arith)
            requires
                w * h > usize::MAX || (w * h) * 4 > usize::MAX,
        ;
        return false;
    }
    assert((w * h) * 4 == w * h * 4) by (nonlinear_arith);
    if w == 0 {
        return true;
    }
    let len: usize = buffer.len();
    let stride: usize = len / h;
    assert(stride * (h - 1) <= len) by (nonlinear_arith)
        requires
            stride == len / h,
            h > 0,
            len >= 0,
    ;
    assert(4 * w <= w * h * 4) by (nonlinear_arith)
        requires
            h >= 1,
            w >= 0,
    ;
    let before: usize = stride * (h - 1);
    4 * w - 1 <= len - before
}

/// Turns captured rows of blue-green-red-alpha pixels into an opaque
/// red-green-blue-alpha image without row padding.
pub fn bgra_rows_to_rgba(buffer: &[u8], w: usize, h: usize) -> (out: Vec<u8>)
    requires
        rows_in_bounds(buffer@, w as nat, h as nat),
    ensures
        out@ == rows_to_rgba(buffer@, w as nat, h as nat),
{
    let len: usize = buffer.len();
    let stride: usize = len / h;
    let mut out: Vec<u8> = Vec::new();
    let mut y: usize = 0;
    while y < h
        invariant
            y <= h,
            h > 0,
            len == buffer@.len(),
            stride == len / h,
            w > 0 ==> stride * (h - 1) + 4 * w <= len + 1,
            out@.len() == w * y * 4,
            forall|i: int| 0 <= i < out@.len() ==> out@[i] == rows_to_rgba(buffer@, w as nat, h as nat)[i],
        decreases h - y,
    {
        let mut x: usize = 0;
        while x < w
            invariant
                x <= w,
                y < h,
                len == buffer@.len(),
                stride == len / h,
                w > 0 ==> stride * (h - 1) + 4 * w <= len + 1,
                out@.len() == (w * y + x) * 4,
                forall|i: int| 0 <= i < out@.len() ==> out@[i] == rows_to_rgba(buffer@, w as nat, h as nat)[i],
            decreases w - x,
        {
            assert(stride * y <= stride * (h - 1)) by (nonlinear_arith)
                requires
                    y <= h - 1,
                    stride >= 0,
            ;
            let at: usize = stride * y + 4 * x;
            proof {
                let px: int = w * y + x;
                assert(px / (w as int) == y && px % (w as int) == x) by (nonlinear_arith)
                    requires
                        px == w * y + x,
                        0 <= x < w,
                        0 <= y,
                ;
                assert(w * y + x < w * h) by (nonlinear_arith)
                    requires
                        0 <= x < w,
                        0 <= y < h,
                ;
            }
            out.push(buffer[at + 2]);
            out.push(buffer[at + 1]);
            out.push(buffer[at]);
            out.push(255u8);
            x = x + 1;
        }
        assert((w * y + w) * 4 == w * (y + 1) * 4) by (nonlinear_arith);
        y = y + 1;
    }
    out
}

} // verus!
