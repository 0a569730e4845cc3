//! Captured frames and their reduction to the cheapest faithful PNG form.
//!
//! A capture is always RGBA. Before encoding, the pixels are scanned once:
//! an image whose alpha channel is fully opaque, whose channels agree, and
//! whose values never leave {0, 255} can be written as one-bit grayscale;
//! otherwise the scan picks the smallest of grayscale, grayscale-alpha, RGB
//! and RGBA that loses nothing. The reductions are computed here; the PNG
//! container itself is produced by the png crate behind a trusted wrapper.

use vstd::prelude::*;

verus! {

/// Failure to produce the PNG container.
#[derive(Clone, Copy, Debug, PartialEq, Eq, Structural)]
pub enum ImageError {
    PngEncode,
}

/// The PNG color types the reduction can choose, tagged with the color-type
/// codes the PNG format assigns them.
#[derive(Clone, Copy, Debug, PartialEq, Eq, Structural)]
pub enum ColorMode {
    Grayscale,
    GrayscaleAlpha,
    Rgb,
    Rgba,
}

impl ColorMode {
    /// The PNG color-type code.
    pub open spec fn spec_tag(self) -> u32 {
        match self {
            ColorMode::Grayscale => 0,
            ColorMode::GrayscaleAlpha => 4,
            ColorMode::Rgb => 2,
            ColorMode::Rgba => 6,
        }
    }

    pub fn tag(self) -> (r: u32)
        ensures
            r == self.spec_tag(),
    {
        match self {
            ColorMode::Grayscale => 0,
            ColorMode::GrayscaleAlpha => 4,
            ColorMode::Rgb => 2,
            ColorMode::Rgba => 6,
        }
    }

    /// Bytes per pixel once reduced to this mode.
    pub open spec fn spec_channels(self) -> int {
        match self {
            ColorMode::Grayscale => 1,
            ColorMode::GrayscaleAlpha => 2,
            ColorMode::Rgb => 3,
            ColorMode::Rgba => 4,
        }
    }

    pub fn channels(self) -> (r: usize)
        ensures
            r == self.spec_channels(),
    {
        match self {
            ColorMode::Grayscale => 1,
            ColorMode::GrayscaleAlpha => 2,
            ColorMode::Rgb => 3,
            ColorMode::Rgba => 4,
        }
    }
}

/// Some pixel is not fully opaque.
pub open spec fn spec_has_alpha(d: Seq<u8>) -> bool {
    exists|p: int| 0 <= p && 4 * p + 3 < d.len() && #[trigger] d[4 * p + 3] != 255
}

/// Some pixel's channels disagree.
pub open spec fn spec_has_color(d: Seq<u8>) -> bool {
    exists|p: int|
        0 <= p && 4 * p + 3 < d.len() && (#[trigger] d[4 * p] != d[4 * p + 1] || d[4 * p] != d[4
            * p + 2])
}

/// Some channel value lies strictly between black and white.
pub open spec fn spec_continuous(d: Seq<u8>) -> bool {
    exists|p: int, c: int|
        0 <= p && 0 <= c < 4 && 4 * p + 3 < d.len() && 0 < #[trigger] d[4 * p + c] < 255
}

/// The mode the scan selects: color decides between the gray and RGB
/// families, alpha whether the alpha channel is kept.
pub open spec fn spec_color_mode(color: bool, alpha: bool) -> ColorMode {
    if color {
        if alpha {
            ColorMode::Rgba
        } else {
            ColorMode::Rgb
        }
    } else {
        if alpha {
            ColorMode::GrayscaleAlpha
        } else {
            ColorMode::Grayscale
        }
    }
}

/// One pass over the pixels: whether any pixel is transparent, whether any
/// is colored, and whether any channel is neither black nor white.
pub fn analyze(data: &Vec<u8>) -> (r: (bool, bool, bool))
    requires
        data.len() % 4 == 0,
    ensures
        r.0 == spec_has_alpha(data@),
        r.1 == spec_has_color(data@),
        r.2 == spec_continuous(data@),
{
    let pixels = data.len() / 4;
    let mut alpha = false;
    let mut color = false;
    let mut continuous = false;

    let mut p: usize = 0;
    while p < pixels
        invariant
            p <= pixels,
            pixels == data.len() / 4,
            data.len() % 4 == 0,
            alpha == exists|q: int| 0 <= q < p && #[trigger] data@[4 * q + 3] != 255,
            color == exists|q: int|
                0 <= q < p && (#[trigger] data@[4 * q] != data@[4 * q + 1] || data@[4 * q]
                    != data@[4 * q + 2]),
            continuous == exists|q: int, c: int|
                0 <= q < p && 0 <= c < 4 && 0 < #[trigger] data@[4 * q + c] < 255,
        decreases pixels - p,
    {
        proof {
            assert(4 * p + 3 < data.len());
        }
        let r = data[4 * p];
        let g = data[4 * p + 1];
        let b = data[4 * p + 2];
        let a = data[4 * p + 3];

        if a != 255 {
            alpha = true;
        }
        if r != g || r != b {
            color = true;
        }
        if (r > 0 && r < 255) || (g > 0 && g < 255) || (b > 0 && b < 255) || (a > 0 && a < 255) {
            continuous = true;
            proof {
                if 0 < data@[4 * p as int] < 255 {
                    assert(exists|q: int, c: int|
                        0 <= q < p + 1 && 0 <= c < 4 && 0 < #[trigger] data@[4 * q + c] < 255)
                        by {
                        assert(0 < data@[4 * (p as int) + 0] < 255);
                    }
                } else if 0 < data@[4 * p as int + 1] < 255 {
                    assert(exists|q: int, c: int|
                        0 <= q < p + 1 && 0 <= c < 4 && 0 < #[trigger] data@[4 * q + c] < 255)
                        by {
                        assert(0 < data@[4 * (p as int) + 1] < 255);
                    }
                } else if 0 < data@[4 * p as int + 2] < 255 {
                    assert(exists|q: int, c: int|
                        0 <= q < p + 1 && 0 <= c < 4 && 0 < #[trigger] data@[4 * q + c] < 255)
                        by {
                        assert(0 < data@[4 * (p as int) + 2] < 255);
                    }
                } else {
                    assert(exists|q: int, c: int|
                        0 <= q < p + 1 && 0 <= c < 4 && 0 < #[trigger] data@[4 * q + c] < 255)
                        by {
                        assert(0 < data@[4 * (p as int) + 3] < 255);
                    }
                }
            }
        }
        p += 1;
    }

    proof {
        assert(data.len() == 4 * pixels) by (nonlinear_arith)
            requires
                pixels == data.len() / 4,
                data.len() % 4 == 0,
        ;
        if spec_has_alpha(data@) {
            let q = choose|q: int|
                0 <= q && 4 * q + 3 < data.len() && #[trigger] data@[4 * q + 3] != 255;
            assert(0 <= q < pixels && data@[4 * q + 3] != 255);
        }
        if alpha {
            let q = choose|q: int| 0 <= q < pixels && #[trigger] data@[4 * q + 3] != 255;
            assert(4 * q + 3 < data.len() && data@[4 * q + 3] != 255);
        }
        if spec_has_color(data@) {
            let q = choose|q: int|
                0 <= q && 4 * q + 3 < data.len() && (#[trigger] data@[4 * q] != data@[4 * q + 1]
                    || data@[4 * q] != data@[4 * q + 2]);
            assert(0 <= q < pixels && (data@[4 * q] != data@[4 * q + 1] || data@[4 * q]
                != data@[4 * q + 2]));
        }
        if color {
            let q = choose|q: int|
                0 <= q < pixels && (#[trigger] data@[4 * q] != data@[4 * q + 1] || data@[4 * q]
                    != data@[4 * q + 2]);
            assert(4 * q + 3 < data.len() && (data@[4 * q] != data@[4 * q + 1] || data@[4 * q]
                != data@[4 * q + 2]));
        }
        if spec_continuous(data@) {
            let (q, c) = choose|q: int, c: int|
                0 <= q && 0 <= c < 4 && 4 * q + 3 < data.len() && 0 < #[trigger] data@[4 * q + c]
                    < 255;
            assert(0 <= q < pixels && 0 <= c < 4 && 0 < data@[4 * q + c] < 255);
        }
        if continuous {
            let (q, c) = choose|q: int, c: int|
                0 <= q < pixels && 0 <= c < 4 && 0 < #[trigger] data@[4 * q + c] < 255;
            assert(0 <= q && 0 <= c < 4 && 4 * q + 3 < data.len() && 0 < data@[4 * q + c] < 255);
        }
    }

    (alpha, color, continuous)
}

/// Byte `c` of pixel `p` once reduced to `mode`: gray modes keep the red
/// channel as luminance, alpha modes keep the alpha channel last.
pub open spec fn spec_reduced_byte(mode: ColorMode, d: Seq<u8>, p: int, c: int) -> u8 {
    match mode {
        ColorMode::Grayscale => d[4 * p],
        ColorMode::GrayscaleAlpha => if c == 0 {
            d[4 * p]
        } else {
            d[4 * p + 3]
        },
        ColorMode::Rgb => d[4 * p + c],
        ColorMode::Rgba => d[4 * p + c],
    }
}

/// The whole reduced payload.
pub open spec fn spec_reduced(d: Seq<u8>, mode: ColorMode) -> Seq<u8> {
    let ch = mode.spec_channels();
    Seq::new((d.len() / 4 * ch) as nat, |i: int| spec_reduced_byte(mode, d, i / ch, i % ch))
}

/// Drop the channels `mode` does not keep, pixel by pixel.
pub fn reduce(data: &Vec<u8>, mode: ColorMode) -> (out: Vec<u8>)
    requires
        data.len() % 4 == 0,
    ensures
        out@ == spec_reduced(data@, mode),
{
    let pixels = data.len() / 4;
    let ch = mode.channels();
    let ghost chi = mode.spec_channels();
    let mut out: Vec<u8> = Vec::new();

    let mut p: usize = 0;
    while p < pixels
        invariant
            p <= pixels,
            pixels == data.len() / 4,
            data.len() % 4 == 0,
            ch == chi,
            chi == mode.spec_channels(),
            1 <= chi <= 4,
            out.len() == p * chi,
            forall|i: int|
                0 <= i < out.len() ==> out@[i] == spec_reduced_byte(mode, data@, i / chi, i % chi),
        decreases pixels - p,
    {
        proof {
            assert(4 * p + 3 < data.len());
            assert(p * chi + chi <= pixels * chi && (p + 1) * chi == p * chi + chi && pixels * chi
                <= data.len()) by (nonlinear_arith)
                requires
                    0 <= p < pixels,
                    1 <= chi <= 4,
                    pixels == data.len() / 4,
                    data.len() % 4 == 0,
            ;
        }
        let ghost before = out@;
        match mode {
            ColorMode::Grayscale => {
                out.push(data[4 * p]);
                proof {
                    assert(out@.len() == before.len() + chi);
                }
            },
            ColorMode::GrayscaleAlpha => {
                out.push(data[4 * p]);
                out.push(data[4 * p + 3]);
                proof {
                    assert(out@.len() == before.len() + chi);
                }
            },
            ColorMode::Rgb => {
                out.push(data[4 * p]);
                out.push(data[4 * p + 1]);
                out.push(data[4 * p + 2]);
                proof {
                    assert(out@.len() == before.len() + chi);
                }
            },
            ColorMode::Rgba => {
                out.push(data[4 * p]);
                out.push(data[4 * p + 1]);
                out.push(data[4 * p + 2]);
                out.push(data[4 * p + 3]);
                proof {
                    assert(out@.len() == before.len() + chi);
                }
            },
        }
        proof {
            assert(before.len() == p * chi);
            assert(out@.len() == before.len() + chi);
            assert forall|i: int| 0 <= i < out@.len() implies out@[i] == spec_reduced_byte(
                mode,
                data@,
                i / chi,
                i % chi,
            ) by {
                if i < before.len() {
                    assert(out@[i] == before[i]);
                } else {
                    assert(i / chi == p as int && i % chi == i - p * chi) by (nonlinear_arith)
                        requires
                            p * chi <= i < p * chi + chi,
                            1 <= chi <= 4,
                    ;
                }
            }
        }
        p += 1;
    }

    proof {
        assert(pixels * chi == data.len() / 4 * chi);
        assert(out@ =~= spec_reduced(data@, mode));
    }
    out
}

/// Bytes per packed one-bit row.
pub open spec fn spec_bilevel_stride(width: int) -> int {
    (width + 7) / 8
}

/// The low `j` pixel bits of the packed byte covering pixels
/// `8 * bx .. 8 * bx + 8` of row `y`: most significant bit first, a bit set
/// exactly when its pixel exists and its red channel is white.
pub open spec fn spec_bilevel_bits(d: Seq<u8>, width: int, y: int, bx: int, j: int) -> u8
    decreases j,
{
    if j <= 0 {
        0
    } else {
        spec_bilevel_bits(d, width, y, bx, j - 1) | (if 8 * bx + (j - 1) < width && d[4 * (y
            * width + 8 * bx + (j - 1))] == 255 {
            (1u8 << (7 - (j - 1)) as u8)
        } else {
            0
        })
    }
}

/// The whole packed one-bit payload.
pub open spec fn spec_bilevel(d: Seq<u8>, width: int, height: int) -> Seq<u8> {
    let stride = spec_bilevel_stride(width);
    Seq::new(
        (stride * height) as nat,
        |i: int| spec_bilevel_bits(d, width, i / stride, i % stride, 8),
    )
}

/// Pack a black-and-white image into one bit per pixel, rows padded to whole
/// bytes: a set bit is a white pixel.
pub fn pack_bilevel(data: &Vec<u8>, width: u32, height: u32) -> (out: Vec<u8>)
    requires
        data.len() == 4 * width * height,
        width + 7 <= usize::MAX,
    ensures
        out@ == spec_bilevel(data@, width as int, height as int),
{
    let w = width as usize;
    let h = height as usize;
    let stride = (w + 7) / 8;
    let ghost st = spec_bilevel_stride(width as int);

    let mut out: Vec<u8> = Vec::new();
    let mut y: usize = 0;
    while y < h
        invariant
            y <= h,
            w == width,
            h == height,
            stride == st,
            st == spec_bilevel_stride(w as int),
            data.len() == 4 * width * height,
            out.len() == y * st,
            forall|i: int|
                0 <= i < out.len() ==> out@[i] == spec_bilevel_bits(
                    data@,
                    w as int,
                    i / st,
                    i % st,
                    8,
                ),
        decreases h - y,
    {
        let mut bx: usize = 0;
        while bx < stride
            invariant
                bx <= stride,
                y < h,
                w == width,
                h == height,
                stride == st,
                st == spec_bilevel_stride(w as int),
                data.len() == 4 * width * height,
                out.len() == y * st + bx,
                forall|i: int|
                    0 <= i < out.len() ==> out@[i] == spec_bilevel_bits(
                        data@,
                        w as int,
                        i / st,
                        i % st,
                        8,
                    ),
            decreases stride - bx,
        {
            let mut byte: u8 = 0;
            let mut j: usize = 0;
            while j < 8
                invariant
                    j <= 8,
                    y < h,
                    bx < stride,
                    w == width,
                    h == height,
                    stride == st,
                    st == spec_bilevel_stride(w as int),
                    data.len() == 4 * width * height,
                    byte == spec_bilevel_bits(data@, w as int, y as int, bx as int, j as int),
                decreases 8 - j,
            {
                proof {
                    assert(8 * bx + j < 8 * st && 8 * st <= w + 7) by (nonlinear_arith)
                        requires
                            0 <= bx < st,
                            0 <= j < 8,
                            st == (w + 7) / 8,
                    ;
                }
                let x = 8 * bx + j;
                let ghost mask: u8 = if 8 * (bx as int) + j < w && data@[4 * ((y as int) * w
                    + 8 * (bx as int) + j)] == 255 {
                    (1u8 << (7 - (j as int)) as u8)
                } else {
                    0
                };
                proof {
                    assert(spec_bilevel_bits(data@, w as int, y as int, bx as int, j + 1)
                        == spec_bilevel_bits(data@, w as int, y as int, bx as int, j as int)
                        | mask);
                }
                if x < w {
                    proof {
                        assert(4 * (y * w + x) + 3 < data.len()) by (nonlinear_arith)
                            requires
                                0 <= y < h,
                                0 <= x < w,
                                data.len() == 4 * w * h,
                        ;
                    }
                    if data[4 * (y * w + x)] == 255 {
                        byte = byte | (1u8 << (7 - j) as u8);
                    } else {
                        proof {
                            assert(byte | 0 == byte) by (bit_vector);
                        }
                    }
                } else {
                    proof {
                        assert(byte | 0 == byte) by (bit_vector);
                    }
                }
                j += 1;
            }
            let ghost before = out@;
            out.push(byte);
            proof {
                assert forall|i: int| 0 <= i < out@.len() implies out@[i] == spec_bilevel_bits(
                    data@,
                    w as int,
                    i / st,
                    i % st,
                    8,
                ) by {
                    if i < before.len() {
                        assert(out@[i] == before[i]);
                    } else {
                        assert(i == y * st + bx);
                        assert(i / st == y as int && i % st == bx as int) by (nonlinear_arith)
                            requires
                                i == y * st + bx,
                                0 <= bx < st,
                                0 <= y,
                                st >= 1,
                        ;
                    }
                }
            }
            bx += 1;
        }
        proof {
            assert((y + 1) * st == y * st + st) by (nonlinear_arith);
        }
        y += 1;
    }

    proof {
        assert(h * st == st * (height as int)) by (nonlinear_arith)
            requires
                h == height,
        ;
        assert(out@ =~= spec_bilevel(data@, width as int, height as int));
    }
    out
}

/// An image may be written as one-bit grayscale exactly when nothing in it
/// needs more: every channel is black or white and every pixel opaque.
pub open spec fn spec_bilevel_eligible(d: Seq<u8>) -> bool {
    !spec_continuous(d) && !spec_has_alpha(d)
}

/// What the PNG encoder returns for a given payload.
pub uninterp spec fn png_bytes_of(
    width: u32,
    height: u32,
    color_tag: u32,
    depth_tag: u32,
    data: Seq<u8>,
) -> Seq<u8>;

#[verifier::external_type_specification]
#[verifier::external_body]
pub struct ExEncodingError(png::EncodingError);

/// Relies on png's Encoder, write_header, write_image_data and finish: with
/// the compression level fixed, the bytes produced are a function of the
/// dimensions, color-type code, bit depth and payload alone.
#[verifier::external_body]
fn png_encode(width: u32, height: u32, color_tag: u32, depth_tag: u32, data: &Vec<u8>) -> (r:
    Result<Vec<u8>, png::EncodingError>)
    ensures
        r matches Ok(v) ==> v@ == png_bytes_of(width, height, color_tag, depth_tag, data@),
{
    let mut out = Vec::new();
    let mut encoder = png::Encoder::new(&mut out, width, height);
    encoder.set_color(match color_tag {
        0 => png::ColorType::Grayscale,
        2 => png::ColorType::Rgb,
        4 => png::ColorType::GrayscaleAlpha,
        _ => png::ColorType::Rgba,
    });
    encoder.set_depth(if depth_tag == 1 { png::BitDepth::One } else { png::BitDepth::Eight });
    encoder.set_compression(png::Compression::High);
    let mut writer = encoder.write_header()?;
    writer.write_image_data(data)?;
    writer.finish()?;
    Ok(out)
}

/// A tightly packed RGBA image, top row first.
#[derive(Debug)]
pub struct Image {
    data: Vec<u8>,
    height: u32,
    width: u32,
}

impl Default for Image {
    fn default() -> (r: Self)
        ensures
            r.spec_data().len() == 0,
            r.spec_width() == 0,
            r.spec_height() == 0,
    {
        Image { data: Vec::new(), height: 0, width: 0 }
    }
}

impl Image {
    pub closed spec fn spec_data(self) -> Seq<u8> {
        self.data@
    }

    pub closed spec fn spec_width(self) -> u32 {
        self.width
    }

    pub closed spec fn spec_height(self) -> u32 {
        self.height
    }

    /// The buffer holds exactly one RGBA quadruple per pixel.
    pub open spec fn wf(self) -> bool {
        self.spec_data().len() == 4 * self.spec_width() * self.spec_height()
    }

    pub fn width(&self) -> (r: u32)
        ensures
            r == self.spec_width(),
    {
        self.width
    }

    pub fn height(&self) -> (r: u32)
        ensures
            r == self.spec_height(),
    {
        self.height
    }

    pub fn data(&self) -> (r: &Vec<u8>)
        ensures
            r@ == self.spec_data(),
    {
        &self.data
    }

    /// Borrow the pixel buffer for writing; the dimensions are unchanged and
    /// the buffer becomes whatever the caller leaves behind.
    pub fn data_mut(&mut self) -> (r: &mut Vec<u8>)
        ensures
            r@ == old(self).spec_data(),
            final(self).spec_data() == final(r)@,
            final(self).spec_width() == old(self).spec_width(),
            final(self).spec_height() == old(self).spec_height(),
    {
        &mut self.data
    }

    /// Give the image the new dimensions, keeping what fits of the old
    /// contents and zero-filling the rest.
    pub fn resize(&mut self, width: u32, height: u32)
        requires
            4 * width * height <= usize::MAX,
        ensures
            final(self).spec_width() == width,
            final(self).spec_height() == height,
            final(self).wf(),
            final(self).spec_data().len() == 4 * width * height,
            forall|i: int|
                0 <= i < final(self).spec_data().len() ==> final(self).spec_data()[i] == (if i
                    < old(self).spec_data().len() {
                    old(self).spec_data()[i]
                } else {
                    0u8
                }),
    {
        self.height = height;
        self.width = width;
        proof {
            assert((width as int) * (height as int) * 4 == 4 * width * height)
                by (nonlinear_arith);
        }
        let target = width as usize * height as usize * 4;
        if self.data.len() > target {
            self.data.truncate(target);
        } else {
            while self.data.len() < target
                invariant
                    self.data.len() <= target,
                    old(self).spec_data().len() <= self.data.len(),
                    self.width == width,
                    self.height == height,
                    target == 4 * width * height,
                    forall|i: int|
                        0 <= i < self.data.len() ==> self.data@[i] == (if i < old(
                            self,
                        ).spec_data().len() {
                            old(self).spec_data()[i]
                        } else {
                            0u8
                        }),
                decreases target - self.data.len(),
            {
                self.data.push(0);
            }
        }
    }

    /// Reduce the pixels to the cheapest faithful PNG form and encode them:
    /// one-bit grayscale when the image is black-and-white and opaque,
    /// otherwise eight-bit channels in the smallest lossless color type.
    /// The payload handed to the encoder is fixed here; only the encoder
    /// itself decides whether a container comes back.
    pub fn encode(&self) -> (r: Result<Vec<u8>, ImageError>)
        requires
            self.wf(),
            self.spec_width() + 7 <= usize::MAX,
            // A black-and-white opaque image with disagreeing channels is
            // malformed for the one-bit form and is not encoded.
            spec_bilevel_eligible(self.spec_data()) ==> !spec_has_color(self.spec_data()),
        ensures
            ({
                let d = self.spec_data();
                let mode = spec_color_mode(spec_has_color(d), spec_has_alpha(d));
                if spec_bilevel_eligible(d) {
                    r matches Ok(v) ==> v@ == png_bytes_of(
                        self.spec_width(),
                        self.spec_height(),
                        0,
                        1,
                        spec_bilevel(d, self.spec_width() as int, self.spec_height() as int),
                    )
                } else {
                    r matches Ok(v) ==> v@ == png_bytes_of(
                        self.spec_width(),
                        self.spec_height(),
                        mode.spec_tag(),
                        8,
                        spec_reduced(d, mode),
                    )
                }
            }),
            r is Err ==> r == Result::<Vec<u8>, ImageError>::Err(ImageError::PngEncode),
    {
        proof {
            let n = (self.width as int) * (self.height as int);
            assert(self.data@.len() == 4 * n && (4 * n) % 4 == 0) by (nonlinear_arith)
                requires
                    self.data@.len() == 4 * self.width * self.height,
                    n == (self.width as int) * (self.height as int),
            ;
        }
        let (alpha, color, continuous) = analyze(&self.data);

        let mode = if color {
            if alpha {
                ColorMode::Rgba
            } else {
                ColorMode::Rgb
            }
        } else {
            if alpha {
                ColorMode::GrayscaleAlpha
            } else {
                ColorMode::Grayscale
            }
        };

        let result = if !continuous && !alpha {
            let packed = pack_bilevel(&self.data, self.width, self.height);
            png_encode(self.width, self.height, mode.tag(), 1, &packed)
        } else {
            let reduced = reduce(&self.data, mode);
            png_encode(self.width, self.height, mode.tag(), 8, &reduced)
        };

        match result {
            Ok(bytes) => Ok(bytes),
            Err(_) => Err(ImageError::PngEncode),
        }
    }
}

} // verus!
