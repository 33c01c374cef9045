use vstd::prelude::*;

verus! {

/// Bytes per pixel of the RGB images the ray tracer samples.
pub const BYTES_PER_PIXEL: usize = 3;

/// A decoded image reduced to 8-bit RGB: `width * height` pixels, row by row,
/// three bytes each.
#[derive(Clone, Debug)]
pub struct DynImage {
    width: u32,
    height: u32,
    pixels: Vec<u8>,
}

impl DynImage {
    /// Every pixel has its three bytes.
    pub closed spec fn wf(&self) -> bool {
        self.pixels@.len() == self.width * self.height * 3
    }

    pub closed spec fn spec_width(&self) -> u32 {
        self.width
    }

    pub closed spec fn spec_height(&self) -> u32 {
        self.height
    }

    pub closed spec fn spec_pixels(&self) -> Seq<u8> {
        self.pixels@
    }

    /// An RGB image from its size and bytes; `None` when the byte count does
    /// not match `width * height * 3`.
    pub fn from_rgb8(width: u32, height: u32, pixels: Vec<u8>) -> (r: Option<DynImage>)
        ensures
            r is Some <==> pixels@.len() == width * height * 3,
            r matches Some(img) ==> img.wf() && img.spec_width() == width && img.spec_height()
                == height && img.spec_pixels() == pixels@,
    {
        let w = width as u64;
        let h = height as u64;
        proof {
            assert(w * h <= u32::MAX * u32::MAX) by (nonlinear_arith)
                requires
                    w <= u32::MAX,
                    h <= u32::MAX,
            ;
        }
        let wh = w * h;
        let len = pixels.len();
        if len % 3 != 0 {
            return None;
        }
        if (len / 3) as u64 == wh {
            Some(DynImage { width, height, pixels })
        } else {
            None
        }
    }

    pub fn width(&self) -> (w: u32)
        ensures
            w == self.spec_width(),
    {
        self.width
    }

    pub fn height(&self) -> (h: u32)
        ensures
            h == self.spec_height(),
    {
        self.height
    }

    pub fn pixels(&self) -> (p: &Vec<u8>)
        ensures
            p@ == self.spec_pixels(),
    {
        &self.pixels
    }
}

/// The three bytes of pixel `(x, y)` of a `width`-wide RGB buffer.
pub open spec fn rgb_at(pixels: Seq<u8>, width: int, x: int, y: int) -> Seq<u8> {
    pixels.subrange((y * width + x) * 3, (y * width + x) * 3 + 3)
}

/// Pixels are stored row by row: the pixel right of `(x, y)` starts three
/// bytes later and the one below it starts `3 * width` bytes later, and
/// pixel `(x, y)` covers bytes `3 * (x + width * y)` to three past that.
pub proof fn law_rgb_row_major(pixels: Seq<u8>, width: int, x: int, y: int)
    ensures
        rgb_at(pixels, width, x, y) == pixels.subrange(3 * x + 3 * width * y, 3 * x + 3 * width * y
            + 3),
        rgb_at(pixels, width, x + 1, y) == pixels.subrange(3 * x + 3 * width * y + 3, 3 * x + 3
            * width * y + 6),
        rgb_at(pixels, width, x, y + 1) == pixels.subrange(
            3 * x + 3 * width * y + 3 * width,
            3 * x + 3 * width * y + 3 * width + 3,
        ),
{
    assert((y * width + x) * 3 == 3 * x + 3 * width * y) by (nonlinear_arith);
    assert((y * width + x + 1) * 3 == 3 * x + 3 * width * y + 3) by (nonlinear_arith);
    assert(((y + 1) * width + x) * 3 == 3 * x + 3 * width * y + 3 * width) by (nonlinear_arith);
}

/// `x` limited to `low..high`, with values at or past `high` mapped to `high - 1`.
pub open spec fn clamp_spec(x: int, low: int, high: int) -> int {
    if x < low {
        low
    } else if x < high {
        x
    } else {
        high - 1
    }
}

/// For a non-empty extent, clamping always lands inside it, and leaves
/// in-range coordinates unchanged: `pixel_data` always reads a real pixel.
pub proof fn law_clamp_in_range(x: int, high: int)
    requires
        high > 0,
        x >= 0,
    ensures
        0 <= clamp_spec(x, 0, high) < high,
        x < high ==> clamp_spec(x, 0, high) == x,
{
}

/// A coordinate at or past the upper edge lands on the last column or row,
/// one below the lower edge lands on the lower edge, and one in range stays:
/// clamping never wraps round.
pub proof fn law_clamp_edges(x: int, low: int, high: int)
    requires
        low < high,
    ensures
        x >= high ==> clamp_spec(x, low, high) == high - 1,
        x < low ==> clamp_spec(x, low, high) == low,
        low <= x < high ==> clamp_spec(x, low, high) == x,
        low <= clamp_spec(x, low, high) < high,
        x <= clamp_spec(x, low, high) || clamp_spec(x, low, high) == high - 1,
{
}

/// An RGB image that the ray tracer samples texels from.
#[derive(Clone, Debug)]
pub struct Image {
    image: DynImage,
    image_width: usize,
    image_height: usize,
}

impl Image {
    /// The sizes recorded next to the image are the image's own.
    pub closed spec fn wf(&self) -> bool {
        &&& self.image.wf()
        &&& self.image_width == self.image.width
        &&& self.image_height == self.image.height
    }

    pub closed spec fn spec_width(&self) -> nat {
        self.image.width as nat
    }

    pub closed spec fn spec_height(&self) -> nat {
        self.image.height as nat
    }

    pub closed spec fn spec_pixels(&self) -> Seq<u8> {
        self.image.pixels@
    }

    /// Wraps a decoded image, recording its size.
    pub fn new_with_dyn_img(dyn_img: DynImage) -> (r: Image)
        requires
            dyn_img.wf(),
        ensures
            r.wf(),
            r.spec_width() == dyn_img.spec_width(),
            r.spec_height() == dyn_img.spec_height(),
            r.spec_pixels() == dyn_img.spec_pixels(),
    {
        let width = dyn_img.width as usize;
        let height = dyn_img.height as usize;
        Image { image: dyn_img, image_width: width, image_height: height }
    }

    pub fn width(&self) -> (w: usize)
        ensures
            w == self.spec_width(),
    {
        self.image.width as usize
    }

    pub fn height(&self) -> (h: usize)
        ensures
            h == self.spec_height(),
    {
        self.image.height as usize
    }

    /// The RGB value of the pixel at `(x, y)`, with coordinates past the
    /// right or bottom edge moved onto the last column or row.
    pub fn pixel_data(&self, x: usize, y: usize) -> (rgb: [u8; 3])
        requires
            self.wf(),
            self.spec_width() > 0,
            self.spec_height() > 0,
        ensures
            rgb@ == rgb_at(
                self.spec_pixels(),
                self.spec_width() as int,
                clamp_spec(x as int, 0, self.spec_width() as int),
                clamp_spec(y as int, 0, self.spec_height() as int),
            ),
    {
        let x = Self::clamp(x, 0, self.image_width);
        let y = Self::clamp(y, 0, self.image_height);
        let w = self.image_width;
        let h = self.image_height;
        proof {
            assert(self.image.pixels@.len() == self.image.pixels.len());
            assert(y * w + x < w * h) by (nonlinear_arith)
                requires
                    x < w,
                    y < h,
            ;
            assert((y * w + x) * 3 + 3 <= w * h * 3) by (nonlinear_arith)
                requires
                    y * w + x < w * h,
            ;
        }
        let base = (y * w + x) * 3;
        let p = &self.image.pixels;
        let rgb = [p[base], p[base + 1], p[base + 2]];
        proof {
            assert(rgb@ =~= rgb_at(self.spec_pixels(), w as int, x as int, y as int));
        }
        rgb
    }

    fn clamp(x: usize, low: usize, high: usize) -> (r: usize)
        requires
            low < high || x < low,
        ensures
            r == clamp_spec(x as int, low as int, high as int),
    {
        if x < low {
            return low;
        }
        if x < high {
            return x;
        }
        high - 1
    }
}

impl Default for Image {
    fn default() -> (r: Image)
        ensures
            r.wf(),
            r.spec_width() == 0,
            r.spec_height() == 0,
    {
        Image {
            image: DynImage { width: 0, height: 0, pixels: Vec::new() },
            image_width: 0,
            image_height: 0,
        }
    }
}

/// Where a texture file of the given name is looked up.
pub fn texture_path(image_filename: &str) -> (path: String)
    ensures
        path@ == seq!['r', 'e', 's', '/', 't', 'e', 'x', 't', 'u', 'r', 'e', '/'] + image_filename@,
{
    let dir = String::from_str("res/texture/");
    proof {
        reveal_strlit("res/texture/");
    }
    dir.concat(image_filename)
}

} // verus!
