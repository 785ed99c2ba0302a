//! Decoded texture images on the host side.
//!
//! The byte-level decoding of a compressed image is the image library's
//! work, behind a trusted wrapper; everything after it is verified here:
//! the vertical flip into the target coordinate convention, the grouping of
//! the byte stream into RGBA texels, and the power-of-two advisory on the
//! dimensions.

use vstd::prelude::*;

verus! {

/// One texel: four eight-bit channels.
#[derive(Copy, Clone, Eq, PartialEq, Structural, Debug)]
pub struct Rgba {
    r: u8,
    g: u8,
    b: u8,
    a: u8,
}

impl Rgba {
    /// The texel with the given channels.
    pub closed spec fn from_channels(r: u8, g: u8, b: u8, a: u8) -> Rgba {
        Rgba { r, g, b, a }
    }

    pub closed spec fn red(self) -> u8 {
        self.r
    }

    pub closed spec fn green(self) -> u8 {
        self.g
    }

    pub closed spec fn blue(self) -> u8 {
        self.b
    }

    pub closed spec fn alpha(self) -> u8 {
        self.a
    }

    pub fn new(r: u8, g: u8, b: u8, a: u8) -> (c: Rgba)
        ensures
            c == Rgba::from_channels(r, g, b, a),
            c.red() == r && c.green() == g && c.blue() == b && c.alpha() == a,
    {
        Rgba { r, g, b, a }
    }
}

impl Default for Rgba {
    /// Opaque black.
    fn default() -> (c: Rgba)
        ensures
            c == Rgba::from_channels(0, 0, 0, 255),
    {
        Rgba::new(0, 0, 0, 255)
    }
}

/// A decoded, host-side 2D image: one `Rgba` per texel, rows already in the
/// target coordinate convention.
#[derive(Debug)]
pub struct TexImage2D {
    pub width: u32,
    pub height: u32,
    pub depth: u32,
    pub data: Vec<Rgba>,
}

impl TexImage2D {
    /// Four channels per texel, one texel per grid cell.
    pub open spec fn wf(&self) -> bool {
        &&& self.depth == 4
        &&& self.data@.len() == self.width * self.height
    }

    /// A blank image of the given dimensions, every texel opaque black.
    pub fn new(width: u32, height: u32) -> (r: TexImage2D)
        requires
            width * height <= usize::MAX,
        ensures
            r.wf(),
            r.width == width,
            r.height == height,
            r.depth == 4,
            forall|i: int|
                0 <= i < r.data@.len() ==> r.data@[i] == Rgba::from_channels(0, 0, 0, 255),
    {
        let n: usize = (width as usize) * (height as usize);
        let mut data: Vec<Rgba> = Vec::new();
        let mut i: usize = 0;
        while i < n
            invariant
                0 <= i <= n,
                data@.len() == i,
                forall|j: int| 0 <= j < i ==> data@[j] == Rgba::from_channels(0, 0, 0, 255),
            decreases n - i,
        {
            data.push(Rgba::new(0, 0, 0, 255));
            i = i + 1;
        }
        TexImage2D { width, height, depth: 4, data }
    }

    /// The texels flattened back to bytes, channel order kept.
    pub fn to_bytes(&self) -> (r: Vec<u8>)
        ensures
            r@.len() == 4 * self.data@.len(),
            forall|i: int|
                0 <= i < self.data@.len() ==> {
                    &&& r@[4 * i] == (#[trigger] self.data@[i]).red()
                    &&& r@[4 * i + 1] == self.data@[i].green()
                    &&& r@[4 * i + 2] == self.data@[i].blue()
                    &&& r@[4 * i + 3] == self.data@[i].alpha()
                },
    {
        let n = self.data.len();
        let mut r: Vec<u8> = Vec::new();
        let mut i: usize = 0;
        while i < n
            invariant
                n == self.data@.len(),
                0 <= i <= n,
                r@.len() == 4 * i,
                forall|j: int|
                    0 <= j < i ==> {
                        &&& r@[4 * j] == (#[trigger] self.data@[j]).red()
                        &&& r@[4 * j + 1] == self.data@[j].green()
                        &&& r@[4 * j + 2] == self.data@[j].blue()
                        &&& r@[4 * j + 3] == self.data@[j].alpha()
                    },
            decreases n - i,
        {
            let c = self.data[i];
            r.push(c.get_red());
            r.push(c.get_green());
            r.push(c.get_blue());
            r.push(c.get_alpha());
            i = i + 1;
        }
        r
    }
}

impl Rgba {
    pub fn get_red(&self) -> (v: u8)
        ensures
            v == self.red(),
    {
        self.r
    }

    pub fn get_green(&self) -> (v: u8)
        ensures
            v == self.green(),
    {
        self.g
    }

    pub fn get_blue(&self) -> (v: u8)
        ensures
            v == self.blue(),
    {
        self.b
    }

    pub fn get_alpha(&self) -> (v: u8)
        ensures
            v == self.alpha(),
    {
        self.a
    }
}

/// Group a four-channel byte stream into texels, in order.
pub fn rgba_from_bytes(bytes: &[u8]) -> (r: Vec<Rgba>)
    requires
        bytes@.len() % 4 == 0,
    ensures
        r@.len() == bytes@.len() / 4,
        forall|i: int|
            0 <= i < r@.len() ==> #[trigger] r@[i] == Rgba::from_channels(
                bytes@[4 * i],
                bytes@[4 * i + 1],
                bytes@[4 * i + 2],
                bytes@[4 * i + 3],
            ),
{
    let n = bytes.len() / 4;
    let mut r: Vec<Rgba> = Vec::new();
    let mut i: usize = 0;
    while i < n
        invariant
            bytes@.len() == 4 * n,
            bytes@.len() <= usize::MAX,
            0 <= i <= n,
            r@.len() == i,
            forall|j: int|
                0 <= j < i ==> #[trigger] r@[j] == Rgba::from_channels(
                    bytes@[4 * j],
                    bytes@[4 * j + 1],
                    bytes@[4 * j + 2],
                    bytes@[4 * j + 3],
                ),
        decreases n - i,
    {
        let c = Rgba::new(bytes[4 * i], bytes[4 * i + 1], bytes[4 * i + 2], bytes[4 * i + 3]);
        r.push(c);
        i = i + 1;
    }
    r
}

/// Reverse the row order of a tightly packed four-channel image, so that a
/// bottom-up decode matches a top-down coordinate convention.
pub fn flip_vertical(data: &[u8], width: usize, height: usize) -> (r: Vec<u8>)
    requires
        data@.len() == 4 * width * height,
        4 * width <= usize::MAX,
    ensures
        r@.len() == data@.len(),
        forall|row: int, col: int|
            0 <= row < height && 0 <= col < 4 * width ==> #[trigger] r@[row * (4 * width) + col]
                == data@[(height - 1 - row) * (4 * width) + col],
{
    let total: usize = data.len();
    let w: usize = 4 * width;
    let mut r: Vec<u8> = Vec::new();
    let mut row: usize = 0;
    while row < height
        invariant
            data@.len() == 4 * width * height,
            data@.len() <= usize::MAX,
            w == 4 * width,
            0 <= row <= height,
            r@.len() == row * w,
            forall|rr: int, col: int|
                0 <= rr < row && 0 <= col < w ==> #[trigger] r@[rr * w + col] == data@[(height - 1
                    - rr) * w + col],
        decreases height - row,
    {
        proof {
            assert((height - 1 - row) * w + w <= 4 * width * height) by (nonlinear_arith)
                requires
                    0 <= row < height,
                    w == 4 * width,
            ;
            assert(row * w + w <= height * w) by (nonlinear_arith)
                requires
                    0 <= row < height,
            ;
            assert(height * w == 4 * width * height) by (nonlinear_arith)
                requires
                    w == 4 * width,
            ;
        }
        let src_row = height - 1 - row;
        let base: usize = src_row * w;
        let mut col: usize = 0;
        while col < w
            invariant
                data@.len() == 4 * width * height,
                data@.len() <= usize::MAX,
                w == 4 * width,
                0 <= row < height,
                src_row == height - 1 - row,
                base == src_row * w,
                base + w <= data@.len(),
                row * w + w <= data@.len(),
                0 <= col <= w,
                r@.len() == row * w + col,
                forall|rr: int, cc: int|
                    0 <= rr < row && 0 <= cc < w ==> #[trigger] r@[rr * w + cc] == data@[(height - 1
                        - rr) * w + cc],
                forall|cc: int|
                    0 <= cc < col ==> #[trigger] r@[row * w + cc] == data@[(height - 1 - row) * w
                        + cc],
            decreases w - col,
        {
            r.push(data[base + col]);
            proof {
                i_stays_in_place(r@.len() - 1, row as int, w as int, col as int);
            }
            col = col + 1;
        }
        proof {
            assert((row + 1) * w == row * w + w) by (nonlinear_arith);
        }
        row = row + 1;
    }
    proof {
        assert(height * w == 4 * width * height) by (nonlinear_arith)
            requires
                w == 4 * width,
        ;
    }
    r
}

/// Pushing at the end of a row keeps earlier rows' cells where they were.
proof fn i_stays_in_place(len: int, row: int, w: int, col: int)
    requires
        len == row * w + col,
        0 <= col < w,
        0 <= row,
    ensures
        forall|rr: int, cc: int|
            0 <= rr < row && 0 <= cc < w ==> #[trigger] (rr * w + cc) < len,
        row * w + col == len,
{
    assert forall|rr: int, cc: int| 0 <= rr < row && 0 <= cc < w implies #[trigger] (rr * w + cc)
        < len by {
        assert(rr * w + cc < row * w + col) by (nonlinear_arith)
            requires
                0 <= rr < row,
                0 <= cc < w,
                0 <= col,
        ;
    }
}

/// Whether a dimension is a power of two.
pub open spec fn is_pow2(n: nat) -> bool
    decreases n,
{
    if n == 0 {
        false
    } else if n == 1 {
        true
    } else if n % 2 == 1 {
        false
    } else {
        is_pow2(n / 2)
    }
}

/// Power-of-two test for a texture dimension.
pub fn power_of_two(n: u32) -> (r: bool)
    ensures
        r == is_pow2(n as nat),
{
    if n == 0 {
        return false;
    }
    let mut m = n;
    while m > 1 && m % 2 == 0
        invariant
            m >= 1,
            is_pow2(n as nat) == is_pow2(m as nat),
        decreases m,
    {
        m = m / 2;
    }
    m == 1
}

/// What the image library's eight-bit decode yields for a given byte
/// buffer: the dimensions and the four-channel texel bytes, bottom row
/// first, or nothing where the buffer does not decode to an eight-bit
/// image. Decoding depends on the buffer contents alone.
pub uninterp spec fn decoded_rgba(buffer: Seq<u8>) -> Option<(nat, nat, Seq<u8>)>;

/// How one decode attempt ended.
enum DecodeOutcome {
    /// Width, height, and four bytes per texel.
    Rgba8(u32, u32, Vec<u8>),
    /// The buffer decodes, but to a floating-point image.
    NotEightBit,
    /// The buffer does not decode at all.
    Failed,
}

/// Relies on stb_image::image::load_from_memory_with_depth with a forced
/// depth of four: an eight-bit decode hands back width, height and a buffer
/// of exactly width*height*4 bytes, and the result is a function of the
/// input bytes alone.
#[verifier::external_body]
fn stb_decode_rgba(buffer: &[u8]) -> (r: DecodeOutcome)
    ensures
        (r matches DecodeOutcome::Rgba8(w, h, data) ==> decoded_rgba(buffer@) == Some(
            ((w as nat), (h as nat), data@),
        ) && data@.len() == 4 * (w as nat) * (h as nat)),
        (r matches DecodeOutcome::Rgba8(w, h, data) <==> decoded_rgba(buffer@) is Some),
{
    match stb_image::image::load_from_memory_with_depth(buffer, 4, false) {
        stb_image::image::LoadResult::ImageU8(image) => DecodeOutcome::Rgba8(
            image.width as u32,
            image.height as u32,
            image.data,
        ),
        stb_image::image::LoadResult::ImageF32(_) => DecodeOutcome::NotEightBit,
        stb_image::image::LoadResult::Error(_) => DecodeOutcome::Failed,
    }
}

/// Decode a compressed texture image from a memory buffer, flip it
/// vertically into the target coordinate convention, and group it into
/// texels. The result also says whether the dimensions missed the
/// power-of-two advisory, which is a warning and never an error.
pub fn load_from_memory(buffer: &[u8]) -> (r: Result<(TexImage2D, bool), String>)
    ensures
        r is Ok <==> decoded_rgba(buffer@) is Some,
        r matches Ok((img, warn)) ==> {
            let (w, h, data) = decoded_rgba(buffer@).unwrap();
            &&& img.wf()
            &&& img.width == w
            &&& img.height == h
            &&& img.depth == 4
            &&& warn == !(is_pow2(w) && is_pow2(h))
            &&& forall|row: int, px: int|
                0 <= row < h && 0 <= px < w ==> #[trigger] img.data@[row * w + px]
                    == Rgba::from_channels(
                    data[(h - 1 - row) * (4 * w) + 4 * px],
                    data[(h - 1 - row) * (4 * w) + 4 * px + 1],
                    data[(h - 1 - row) * (4 * w) + 4 * px + 2],
                    data[(h - 1 - row) * (4 * w) + 4 * px + 3],
                )
        },
{
    let outcome = stb_decode_rgba(buffer);
    let (width, height, bytes) = match outcome {
        DecodeOutcome::Rgba8(w, h, data) => (w, h, data),
        DecodeOutcome::NotEightBit => {
            return Err(
                "ERROR: Tried to load an image as byte vectors, got f32 image instead.".to_owned(),
            );
        },
        DecodeOutcome::Failed => {
            return Err("ERROR: could not load image buffer.".to_owned());
        },
    };
    let warn = !(power_of_two(width) && power_of_two(height));
    if width == 0 || height == 0 {
        let img = TexImage2D { width, height, depth: 4, data: Vec::new() };
        return Ok((img, warn));
    }
    let total: usize = bytes.len();
    proof {
        assert(4 * (width as nat) * (height as nat) == 4 * ((width as nat) * (height as nat)))
            by (nonlinear_arith);
        assert(4 * (width as int) <= total) by (nonlinear_arith)
            requires
                total == 4 * (width as int) * (height as int),
                width >= 0,
                height >= 1,
        ;
    }
    let flipped = flip_vertical(bytes.as_slice(), width as usize, height as usize);
    let data = rgba_from_bytes(flipped.as_slice());
    let img = TexImage2D { width, height, depth: 4, data };
    proof {
        let (w, h, src) = decoded_rgba(buffer@).unwrap();
        assert(img.data@.len() == (4 * w * h) / 4 == w * h) by (nonlinear_arith)
            requires
                img.data@.len() == flipped@.len() / 4,
                flipped@.len() == 4 * w * h,
        ;
        assert forall|row: int, px: int| 0 <= row < h && 0 <= px < w implies #[trigger] img.data@[
            row * w + px] == Rgba::from_channels(
            src[(h - 1 - row) * (4 * w) + 4 * px],
            src[(h - 1 - row) * (4 * w) + 4 * px + 1],
            src[(h - 1 - row) * (4 * w) + 4 * px + 2],
            src[(h - 1 - row) * (4 * w) + 4 * px + 3],
        ) by {
            let i = row * w + px;
            assert(0 <= i < w * h && 4 * i + 3 < 4 * w * h && 4 * i == row * (4 * w) + 4 * px && 4
                * i + 1 == row * (4 * w) + (4 * px + 1) && 4 * i + 2 == row * (4 * w) + (4 * px + 2)
                && 4 * i + 3 == row * (4 * w) + (4 * px + 3)) by (nonlinear_arith)
                requires
                    i == row * w + px,
                    0 <= row < h,
                    0 <= px < w,
            ;
            assert(flipped@[row * (4 * w) + 4 * px] == src[(h - 1 - row) * (4 * w) + 4 * px]);
            assert(flipped@[row * (4 * w) + (4 * px + 1)] == src[(h - 1 - row) * (4 * w) + (4 * px
                + 1)]);
            assert(flipped@[row * (4 * w) + (4 * px + 2)] == src[(h - 1 - row) * (4 * w) + (4 * px
                + 2)]);
            assert(flipped@[row * (4 * w) + (4 * px + 3)] == src[(h - 1 - row) * (4 * w) + (4 * px
                + 3)]);
        }
    }
    Ok((img, warn))
}

} // verus!
