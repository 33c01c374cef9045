use vstd::prelude::*;

verus! {

/// Pixel layouts that glTF images decode to.
#[derive(Clone, Copy, Debug, PartialEq, Eq, Structural)]
pub enum PixelFormat {
    R8,
    R8G8,
    R8G8B8,
    R8G8B8A8,
    R16,
    R16G16,
    R16G16B16,
    R16G16B16A16,
    R32G32B32FLOAT,
    R32G32B32A32FLOAT,
}

/// Decoded glTF image: `width * height` pixels of `format`, row by row.
pub struct GltfImage {
    pub pixels: Vec<u8>,
    pub format: PixelFormat,
    pub width: u32,
    pub height: u32,
}

/// Formats with one byte per channel, the only ones that can be expanded to RGBA8.
pub open spec fn is_byte_format(format: PixelFormat) -> bool {
    match format {
        PixelFormat::R8 | PixelFormat::R8G8 | PixelFormat::R8G8B8 | PixelFormat::R8G8B8A8 => true,
        _ => false,
    }
}

/// Bytes per pixel of a byte format.
pub open spec fn byte_channels(format: PixelFormat) -> nat {
    match format {
        PixelFormat::R8 => 1,
        PixelFormat::R8G8 => 2,
        PixelFormat::R8G8B8 => 3,
        _ => 4,
    }
}

/// The RGBA8 value of pixel `index`: a single channel is spread over red, green
/// and blue with an opaque alpha; two channels are grey and alpha; three are
/// RGB with an opaque alpha; four are copied.
pub open spec fn rgba_of(pixels: Seq<u8>, format: PixelFormat, index: int) -> Seq<u8> {
    match format {
        PixelFormat::R8 => seq![pixels[index], pixels[index], pixels[index], 255u8],
        PixelFormat::R8G8 => seq![
            pixels[index * 2],
            pixels[index * 2],
            pixels[index * 2],
            pixels[index * 2 + 1],
        ],
        PixelFormat::R8G8B8 => seq![
            pixels[index * 3],
            pixels[index * 3 + 1],
            pixels[index * 3 + 2],
            255u8,
        ],
        _ => seq![
            pixels[index * 4],
            pixels[index * 4 + 1],
            pixels[index * 4 + 2],
            pixels[index * 4 + 3],
        ],
    }
}

/// The first `n` pixels expanded to RGBA8, one after another.
pub open spec fn rgba_pixels(pixels: Seq<u8>, format: PixelFormat, n: nat) -> Seq<u8>
    decreases n,
{
    if n == 0 {
        Seq::empty()
    } else {
        rgba_pixels(pixels, format, (n - 1) as nat) + rgba_of(pixels, format, n - 1)
    }
}

/// Expands pixel `index` of a byte-format image to RGBA8.
pub fn next_rgba(pixels: &[u8], format: PixelFormat, index: usize) -> (rgba: [u8; 4])
    requires
        is_byte_format(format),
        (index + 1) * byte_channels(format) <= pixels.len(),
    ensures
        rgba@ == rgba_of(pixels@, format, index as int),
{
    proof {
        let c = byte_channels(format);
        assert((index + 1) * c == index * c + c) by (nonlinear_arith);
    }
    match format {
        PixelFormat::R8 => [pixels[index], pixels[index], pixels[index], 255u8],
        PixelFormat::R8G8 => [
            pixels[index * 2],
            pixels[index * 2],
            pixels[index * 2],
            pixels[index * 2 + 1],
        ],
        PixelFormat::R8G8B8 => [
            pixels[index * 3],
            pixels[index * 3 + 1],
            pixels[index * 3 + 2],
            255u8,
        ],
        _ => [
            pixels[index * 4],
            pixels[index * 4 + 1],
            pixels[index * 4 + 2],
            pixels[index * 4 + 3],
        ],
    }
}

proof fn lemma_rgba_pixels_len(pixels: Seq<u8>, format: PixelFormat, n: nat)
    ensures
        rgba_pixels(pixels, format, n).len() == 4 * n,
    decreases n,
{
    if n > 0 {
        lemma_rgba_pixels_len(pixels, format, (n - 1) as nat);
    }
}

/// Expands every pixel of a byte-format image to RGBA8.
pub fn get_rgba_pixels(image: &GltfImage) -> (buffer: Vec<u8>)
    requires
        image.width * image.height <= u32::MAX,
        image.width * image.height * 4 <= usize::MAX,
        image.width * image.height > 0 ==> is_byte_format(image.format),
        image.width * image.height * byte_channels(image.format) <= image.pixels@.len(),
    ensures
        buffer@ == rgba_pixels(image.pixels@, image.format, (image.width * image.height) as nat),
        buffer@.len() == 4 * (image.width * image.height),
{
    let mut buffer: Vec<u8> = Vec::new();
    let size: u32 = image.width * image.height;
    let mut index: u32 = 0;
    while index < size
        invariant
            size == image.width * image.height,
            index <= size,
            size > 0 ==> is_byte_format(image.format),
            size * byte_channels(image.format) <= image.pixels@.len(),
            buffer@ == rgba_pixels(image.pixels@, image.format, index as nat),
        decreases size - index,
    {
        proof {
            assert((index + 1) * byte_channels(image.format) <= size * byte_channels(image.format))
                by (nonlinear_arith)
                requires
                    index + 1 <= size,
            ;
        }
        let rgba = next_rgba(image.pixels.as_slice(), image.format, index as usize);
        let ghost before = buffer@;
        buffer.push(rgba[0]);
        buffer.push(rgba[1]);
        buffer.push(rgba[2]);
        buffer.push(rgba[3]);
        proof {
            assert(buffer@ =~= before + rgba@);
        }
        index = index + 1;
    }
    proof {
        lemma_rgba_pixels_len(image.pixels@, image.format, size as nat);
    }
    buffer
}

/// Pixel `k` of the expansion occupies bytes `4k..4k + 4` and holds the RGBA
/// value of source pixel `k`.
pub proof fn law_rgba_pixel_layout(pixels: Seq<u8>, format: PixelFormat, n: nat, k: int)
    requires
        0 <= k < n,
    ensures
        rgba_pixels(pixels, format, n).len() == 4 * n,
        rgba_pixels(pixels, format, n).subrange(4 * k, 4 * k + 4) == rgba_of(pixels, format, k),
    decreases n,
{
    lemma_rgba_pixels_len(pixels, format, n);
    lemma_rgba_pixels_len(pixels, format, (n - 1) as nat);
    let prev = rgba_pixels(pixels, format, (n - 1) as nat);
    assert(rgba_pixels(pixels, format, n) == prev + rgba_of(pixels, format, n - 1));
    if k < n - 1 {
        law_rgba_pixel_layout(pixels, format, (n - 1) as nat, k);
        assert(rgba_pixels(pixels, format, n).subrange(4 * k, 4 * k + 4) =~= prev.subrange(
            4 * k,
            4 * k + 4,
        ));
    } else {
        assert(rgba_pixels(pixels, format, n).subrange(4 * k, 4 * k + 4) =~= rgba_of(
            pixels,
            format,
            k,
        ));
    }
}

/// The four RGBA bytes of a pixel, by format: a single channel is repeated
/// into red, green and blue under an opaque alpha of 255; two channels give a
/// grey from the first and alpha from the second; three channels are copied
/// under an alpha of 255; four are copied as they are.
pub proof fn law_rgba_channels(p: Seq<u8>, i: int)
    ensures
        rgba_of(p, PixelFormat::R8, i) =~= seq![p[i], p[i], p[i], 255u8],
        rgba_of(p, PixelFormat::R8G8, i) =~= seq![p[2 * i], p[2 * i], p[2 * i], p[2 * i + 1]],
        rgba_of(p, PixelFormat::R8G8B8, i) =~= seq![p[3 * i], p[3 * i + 1], p[3 * i + 2], 255u8],
        rgba_of(p, PixelFormat::R8G8B8A8, i) =~= p.subrange(4 * i, 4 * i + 4) || !(0 <= 4 * i
            && 4 * i + 4 <= p.len()),
        byte_channels(PixelFormat::R8) == 1 && byte_channels(PixelFormat::R8G8) == 2
            && byte_channels(PixelFormat::R8G8B8) == 3 && byte_channels(PixelFormat::R8G8B8A8)
            == 4,
        is_byte_format(PixelFormat::R8) && is_byte_format(PixelFormat::R8G8) && is_byte_format(
            PixelFormat::R8G8B8,
        ) && is_byte_format(PixelFormat::R8G8B8A8),
        !is_byte_format(PixelFormat::R16) && !is_byte_format(PixelFormat::R16G16)
            && !is_byte_format(PixelFormat::R16G16B16) && !is_byte_format(
            PixelFormat::R16G16B16A16,
        ) && !is_byte_format(PixelFormat::R32G32B32FLOAT) && !is_byte_format(
            PixelFormat::R32G32B32A32FLOAT,
        ),
{
    if 0 <= 4 * i && 4 * i + 4 <= p.len() {
        assert(rgba_of(p, PixelFormat::R8G8B8A8, i) =~= p.subrange(4 * i, 4 * i + 4));
    }
}

/// Expanding an RGBA8 image copies its bytes unchanged.
pub proof fn law_rgba8_is_copied(pixels: Seq<u8>, n: nat)
    requires
        4 * n <= pixels.len(),
    ensures
        rgba_pixels(pixels, PixelFormat::R8G8B8A8, n) == pixels.take(4 * n as int),
    decreases n,
{
    if n > 0 {
        law_rgba8_is_copied(pixels, (n - 1) as nat);
        assert(rgba_pixels(pixels, PixelFormat::R8G8B8A8, n) =~= pixels.take(4 * n as int));
    } else {
        assert(rgba_pixels(pixels, PixelFormat::R8G8B8A8, n) =~= pixels.take(4 * n as int));
    }
}

/// Every one of the four colour references of a material names an sRGB
/// image: base colour, diffuse, specular-glossiness and emissive each count,
/// and nothing else does.
pub proof fn law_color_references_are_srgb(m: MaterialColorSources, i: int)
    requires
        0 <= i <= usize::MAX,
    ensures
        m.base_color == Some(i as usize) ==> uses_as_color(m, i),
        m.diffuse == Some(i as usize) ==> uses_as_color(m, i),
        m.specular_glossiness == Some(i as usize) ==> uses_as_color(m, i),
        m.emissive == Some(i as usize) ==> uses_as_color(m, i),
        uses_as_color(m, i) ==> (m.base_color == Some(i as usize) || m.diffuse == Some(
            i as usize,
        ) || m.specular_glossiness == Some(i as usize) || m.emissive == Some(i as usize)),
{
}

/// Source-image indices of the colour textures of one material: these images
/// hold sRGB data.
#[derive(Clone, Copy, Debug, PartialEq, Eq, Structural)]
pub struct MaterialColorSources {
    pub base_color: Option<usize>,
    pub diffuse: Option<usize>,
    pub specular_glossiness: Option<usize>,
    pub emissive: Option<usize>,
}

/// Whether a material names image `image` as one of its colour textures.
pub open spec fn uses_as_color(m: MaterialColorSources, image: int) -> bool {
    ||| m.base_color == Some(image as usize)
    ||| m.diffuse == Some(image as usize)
    ||| m.specular_glossiness == Some(image as usize)
    ||| m.emissive == Some(image as usize)
}

fn mark(flags: &mut Vec<bool>, source: Option<usize>)
    ensures
        final(flags)@.len() == old(flags)@.len(),
        forall|i: int|
            0 <= i < final(flags)@.len() ==> #[trigger] final(flags)@[i] == (old(flags)@[i]
                || source == Some(i as usize)),
{
    match source {
        Some(i) => {
            if i < flags.len() {
                flags.set(i, true);
            }
        },
        None => {},
    }
}

/// For each of the `image_count` images, whether some material uses it as a
/// colour texture, so that it is uploaded in an sRGB format.
pub fn srgb_image_flags(materials: &Vec<MaterialColorSources>, image_count: usize) -> (flags: Vec<
    bool,
>)
    ensures
        flags@.len() == image_count,
        forall|i: int|
            0 <= i < image_count ==> #[trigger] flags@[i] == exists|m: int|
                0 <= m < materials@.len() && uses_as_color(materials@[m], i),
        forall|m: int, i: int|
            #![trigger flags@[i], materials@[m]]
            0 <= m < materials@.len() && 0 <= i < image_count && (materials@[m].base_color == Some(
                i as usize,
            ) || materials@[m].diffuse == Some(i as usize) || materials@[m].specular_glossiness
                == Some(i as usize) || materials@[m].emissive == Some(i as usize)) ==> flags@[i],
        forall|i: int|
            0 <= i < image_count && #[trigger] flags@[i] ==> exists|m: int|
                0 <= m < materials@.len() && (materials@[m].base_color == Some(i as usize)
                    || materials@[m].diffuse == Some(i as usize)
                    || materials@[m].specular_glossiness == Some(i as usize)
                    || materials@[m].emissive == Some(i as usize)),
{
    let mut flags: Vec<bool> = Vec::new();
    let mut k: usize = 0;
    while k < image_count
        invariant
            k <= image_count,
            flags@.len() == k,
            forall|i: int| 0 <= i < k ==> !#[trigger] flags@[i],
        decreases image_count - k,
    {
        flags.push(false);
        k = k + 1;
    }
    let mut m: usize = 0;
    while m < materials.len()
        invariant
            m <= materials@.len(),
            flags@.len() == image_count,
            forall|i: int|
                0 <= i < image_count ==> #[trigger] flags@[i] == exists|j: int|
                    0 <= j < m && uses_as_color(materials@[j], i),
        decreases materials@.len() - m,
    {
        let mat = materials[m];
        let ghost before = flags@;
        mark(&mut flags, mat.base_color);
        mark(&mut flags, mat.diffuse);
        mark(&mut flags, mat.specular_glossiness);
        mark(&mut flags, mat.emissive);
        proof {
            assert forall|i: int| 0 <= i < image_count implies #[trigger] flags@[i] == exists|j: int|
                0 <= j < m + 1 && uses_as_color(materials@[j], i) by {
                if flags@[i] {
                    if !before[i] {
                        assert(uses_as_color(materials@[m as int], i));
                    } else {
                        let j = choose|j: int| 0 <= j < m && uses_as_color(materials@[j], i);
                        assert(0 <= j < m + 1 && uses_as_color(materials@[j], i));
                    }
                } else {
                    assert(!uses_as_color(materials@[m as int], i));
                    assert forall|j: int| 0 <= j < m + 1 implies !uses_as_color(materials@[j], i) by {
                        if j < m {
                        }
                    }
                }
            }
        }
        m = m + 1;
    }
    flags
}

} // verus!
