use vstd::prelude::*;
use crate::image::DynImage;

verus! {

/// Encoded image formats that glTF models may embed.
#[derive(Clone, Copy, Debug, PartialEq, Eq, Structural)]
pub enum ImageMime {
    Jpeg,
    Png,
}

/// Why an embedded model image could not be turned into pixels.
#[derive(Clone, Copy, Debug, PartialEq, Eq, Structural)]
pub enum ImageSourceError {
    /// A data URI without a `,` before its payload.
    MissingPayload,
    /// The payload of a data URI is not valid base64.
    InvalidBase64,
    /// Neither the model nor the data URI names a media type.
    MissingMimeType,
    /// A media type other than JPEG or PNG.
    UnsupportedMimeType,
    /// The buffer view lies outside its buffer.
    ViewOutOfBounds,
    /// The bytes do not decode as an image of the named format.
    DecodeFailed,
}

/// What `base64::decode` returns for the bytes of `input`: the decoded bytes,
/// or `None` for input that is not valid standard base64.
pub uninterp spec fn spec_base64_decode(input: Seq<char>) -> Option<Seq<u8>>;

/// What `image::load_from_memory_with_format` followed by an 8-bit RGB
/// conversion gives for `data` read as `format`: width, height and RGB bytes,
/// or `None` when decoding fails.
pub uninterp spec fn spec_decode_rgb8(data: Seq<u8>, format: ImageMime) -> Option<(u32, u32, Seq<u8>)>;

/// Calls `base64::decode` (standard alphabet, padded). The result is exactly
/// the named result for the input; the decoding rules are not restated.
#[verifier::external_body]
fn base64_decode(input: &str) -> (r: Option<Vec<u8>>)
    ensures
        match r {
            Some(v) => spec_base64_decode(input@) == Some(v@),
            None => spec_base64_decode(input@) is None,
        },
{
    #[allow(deprecated)]
    let decoded = base64::decode(input);
    decoded.ok()
}

/// Calls `image::load_from_memory_with_format` and converts the decoded image
/// with `DynamicImage::to_rgb8`. The result is the named result for the data
/// and format; as the `image` source shows, the RGB buffer that `to_rgb8`
/// allocates holds three bytes for each of `width * height` pixels.
#[verifier::external_body]
fn decode_rgb8(data: &[u8], format: ImageMime) -> (r: Option<(u32, u32, Vec<u8>)>)
    ensures
        match r {
            Some((w, h, p)) => spec_decode_rgb8(data@, format) == Some((w, h, p@)) && p@.len()
                == w * h * 3,
            None => spec_decode_rgb8(data@, format) is None,
        },
{
    let fmt = match format {
        ImageMime::Jpeg => image::ImageFormat::Jpeg,
        ImageMime::Png => image::ImageFormat::Png,
    };
    match image::load_from_memory_with_format(data, fmt) {
        Ok(img) => {
            let rgb = img.to_rgb8();
            Some((rgb.width(), rgb.height(), rgb.into_raw()))
        },
        Err(_) => None,
    }
}

/// `i` is the position of the first `c` in `s`.
pub open spec fn is_first(s: Seq<char>, c: char, i: int) -> bool {
    &&& 0 <= i < s.len()
    &&& s[i] == c
    &&& forall|j: int| 0 <= j < i ==> s[j] != c
}

/// The part of `s` before its first `c`, or all of `s` when there is none:
/// the first field of `s.split(c)`.
pub open spec fn before(s: Seq<char>, c: char) -> Seq<char> {
    if s.contains(c) {
        s.take(choose|i: int| is_first(s, c, i))
    } else {
        s
    }
}

/// The part of `s` after its first `c`, if `s` holds a `c`.
pub open spec fn after(s: Seq<char>, c: char) -> Option<Seq<char>> {
    if s.contains(c) {
        Some(s.skip((choose|i: int| is_first(s, c, i)) + 1))
    } else {
        None
    }
}

/// The second field of `s.split(c)`, if there is one.
pub open spec fn second_field(s: Seq<char>, c: char) -> Option<Seq<char>> {
    match after(s, c) {
        Some(rest) => Some(before(rest, c)),
        None => None,
    }
}

/// The payload of a data URI: the second `,`-separated field.
pub open spec fn data_uri_payload_spec(uri: Seq<char>) -> Option<Seq<char>> {
    second_field(uri, ',')
}

/// The media type of a data URI: in the part before the first `,`, the
/// second `:`-separated field, cut at its first `;`.
pub open spec fn data_uri_mime_spec(uri: Seq<char>) -> Option<Seq<char>> {
    match second_field(before(uri, ','), ':') {
        Some(m) => Some(before(m, ';')),
        None => None,
    }
}

/// The format named by a media type.
pub open spec fn image_mime_spec(mime: Seq<char>) -> Option<ImageMime> {
    if mime == "image/jpeg"@ {
        Some(ImageMime::Jpeg)
    } else if mime == "image/png"@ {
        Some(ImageMime::Png)
    } else {
        None
    }
}

/// The media types `image/jpeg` and `image/png` name JPEG and PNG, and no
/// other text names a format.
pub proof fn law_image_mime_names(mime: Seq<char>)
    ensures
        image_mime_spec(seq!['i', 'm', 'a', 'g', 'e', '/', 'j', 'p', 'e', 'g']) == Some(
            ImageMime::Jpeg,
        ),
        image_mime_spec(seq!['i', 'm', 'a', 'g', 'e', '/', 'p', 'n', 'g']) == Some(ImageMime::Png),
        image_mime_spec(mime) is Some ==> mime == seq![
            'i',
            'm',
            'a',
            'g',
            'e',
            '/',
            'j',
            'p',
            'e',
            'g',
        ] || mime == seq!['i', 'm', 'a', 'g', 'e', '/', 'p', 'n', 'g'],
{
    reveal_strlit("image/jpeg");
    reveal_strlit("image/png");
    assert("image/jpeg"@ =~= seq!['i', 'm', 'a', 'g', 'e', '/', 'j', 'p', 'e', 'g']);
    assert("image/png"@ =~= seq!['i', 'm', 'a', 'g', 'e', '/', 'p', 'n', 'g']);
}

proof fn lemma_first_unique(s: Seq<char>, c: char, i: int)
    requires
        is_first(s, c, i),
    ensures
        s.contains(c),
        (choose|k: int| is_first(s, c, k)) == i,
{
    assert(s[i] == c);
    let k = choose|k: int| is_first(s, c, k);
    assert(is_first(s, c, k));
    if k < i {
        assert(s[k] == c);
    } else if k > i {
        assert(s[i] != c);
    }
}

/// Splitting `a + [c] + b` at its first `c`, when `a` holds no `c`, gives
/// back `a` and `b`.
proof fn lemma_split_joined(a: Seq<char>, c: char, b: Seq<char>)
    requires
        !a.contains(c),
    ensures
        before(a + seq![c] + b, c) == a,
        after(a + seq![c] + b, c) == Some(b),
{
    let s = a + seq![c] + b;
    assert(s[a.len() as int] == c);
    assert forall|j: int| 0 <= j < a.len() implies s[j] != c by {
        assert(s[j] == a[j]);
        if a[j] == c {
            assert(a.contains(c));
        }
    }
    assert(is_first(s, c, a.len() as int));
    lemma_first_unique(s, c, a.len() as int);
    assert(s.take(a.len() as int) =~= a);
    assert(s.skip(a.len() as int + 1) =~= b);
}

/// Splitting at the first `c`: the part before holds no `c`, and when `s`
/// holds a `c` it is the part before, that `c`, and the part after, in that
/// order; otherwise the part before is all of `s` and there is no part after.
pub proof fn law_split_at_first(s: Seq<char>, c: char)
    ensures
        !before(s, c).contains(c),
        s.contains(c) ==> after(s, c) is Some && s == before(s, c) + seq![c] + after(s, c)->0,
        !s.contains(c) ==> before(s, c) == s && after(s, c) is None,
{
    if s.contains(c) {
        let k = choose|i: int| 0 <= i < s.len() && s[i] == c;
        assert(exists|i: int| is_first(s, c, i)) by {
            lemma_first_exists(s, c, k);
        }
        let i = choose|i: int| is_first(s, c, i);
        assert(is_first(s, c, i));
        assert(s =~= s.take(i) + seq![c] + s.skip(i + 1));
        if before(s, c).contains(c) {
            let j = choose|j: int| 0 <= j < before(s, c).len() && before(s, c)[j] == c;
            assert(s[j] == c);
        }
    }
}

/// A position holding `c` gives a first position of `c`.
proof fn lemma_first_exists(s: Seq<char>, c: char, k: int)
    requires
        0 <= k < s.len(),
        s[k] == c,
    ensures
        exists|i: int| is_first(s, c, i),
    decreases k,
{
    if exists|j: int| 0 <= j < k && s[j] == c {
        let j = choose|j: int| 0 <= j < k && s[j] == c;
        lemma_first_exists(s, c, j);
    } else {
        assert(is_first(s, c, k));
    }
}

/// With a header free of commas, the payload is what follows the header's
/// comma up to the next comma, however many commas the rest holds.
pub proof fn law_data_uri_payload_stops_at_next_comma(header: Seq<char>, rest: Seq<char>)
    requires
        !header.contains(','),
    ensures
        data_uri_payload_spec(header + seq![','] + rest) == Some(before(rest, ',')),
{
    lemma_split_joined(header, ',', rest);
}

/// The payload of a data URI written as `header,payload`, with no comma in
/// either part, is `payload`.
pub proof fn law_data_uri_payload_roundtrip(header: Seq<char>, payload: Seq<char>)
    requires
        !header.contains(','),
        !payload.contains(','),
    ensures
        data_uri_payload_spec(header + seq![','] + payload) == Some(payload),
{
    lemma_split_joined(header, ',', payload);
}

/// The media type of a data URI written as `data:<mime>;base64,<payload>` is
/// `mime`, as long as `mime` holds none of `,`, `:` and `;`.
pub proof fn law_data_uri_mime_roundtrip(mime: Seq<char>, payload: Seq<char>)
    requires
        !mime.contains(','),
        !mime.contains(':'),
        !mime.contains(';'),
    ensures
        data_uri_mime_spec(
            seq!['d', 'a', 't', 'a', ':'] + mime + seq![';', 'b', 'a', 's', 'e', '6', '4', ',']
                + payload,
        ) == Some(mime),
{
    let scheme = seq!['d', 'a', 't', 'a'];
    let tag = seq!['b', 'a', 's', 'e', '6', '4'];
    let header = scheme + seq![':'] + (mime + seq![';'] + tag);
    let uri = seq!['d', 'a', 't', 'a', ':'] + mime + seq![';', 'b', 'a', 's', 'e', '6', '4', ',']
        + payload;
    assert(uri =~= header + seq![','] + payload);
    assert(!header.contains(',')) by {
        if header.contains(',') {
            let j = choose|j: int| 0 <= j < header.len() && header[j] == ',';
            if 5 <= j < 5 + mime.len() {
                assert(mime[j - 5] == ',');
            }
        }
    }
    lemma_split_joined(header, ',', payload);
    assert(!scheme.contains(':')) by {
        if scheme.contains(':') {
            let j = choose|j: int| 0 <= j < scheme.len() && scheme[j] == ':';
        }
    }
    lemma_split_joined(scheme, ':', mime + seq![';'] + tag);
    let rest = mime + seq![';'] + tag;
    assert(!rest.contains(':')) by {
        if rest.contains(':') {
            let j = choose|j: int| 0 <= j < rest.len() && rest[j] == ':';
            if j < mime.len() {
                assert(mime[j] == ':');
            }
        }
    }
    assert(before(rest, ':') == rest);
    lemma_split_joined(mime, ';', tag);
}

/// Position of the first `c` in `s`.
fn find_char(s: &str, c: char) -> (r: Option<usize>)
    ensures
        match r {
            Some(i) => is_first(s@, c, i as int),
            None => !s@.contains(c),
        },
{
    let n = s.unicode_len();
    let mut i: usize = 0;
    while i < n
        invariant
            n == s@.len(),
            i <= n,
            forall|j: int| 0 <= j < i ==> s@[j] != c,
        decreases n - i,
    {
        if s.get_char(i) == c {
            return Some(i);
        }
        i = i + 1;
    }
    None
}

/// The part of `s` before its first `c`.
fn before_char<'a>(s: &'a str, c: char) -> (r: &'a str)
    ensures
        r@ == before(s@, c),
{
    match find_char(s, c) {
        Some(i) => {
            proof {
                lemma_first_unique(s@, c, i as int);
            }
            s.substring_char(0, i)
        },
        None => s,
    }
}

/// The part of `s` after its first `c`, if there is a `c`.
fn after_char<'a>(s: &'a str, c: char) -> (r: Option<&'a str>)
    ensures
        match r {
            Some(rest) => after(s@, c) == Some(rest@),
            None => after(s@, c) is None,
        },
{
    match find_char(s, c) {
        Some(i) => {
            proof {
                lemma_first_unique(s@, c, i as int);
            }
            let n = s.unicode_len();
            Some(s.substring_char(i + 1, n))
        },
        None => None,
    }
}

/// Whether two strings hold the same characters.
fn same_text(a: &str, b: &str) -> (r: bool)
    ensures
        r == (a@ == b@),
{
    let n = a.unicode_len();
    if n != b.unicode_len() {
        return false;
    }
    let mut i: usize = 0;
    while i < n
        invariant
            n == a@.len(),
            n == b@.len(),
            i <= n,
            forall|j: int| 0 <= j < i ==> a@[j] == b@[j],
        decreases n - i,
    {
        if a.get_char(i) != b.get_char(i) {
            return false;
        }
        i = i + 1;
    }
    proof {
        assert(a@ =~= b@);
    }
    true
}

/// Whether `uri` is a data URI, i.e. starts with `data:`.
pub fn is_data_uri(uri: &str) -> (r: bool)
    ensures
        r == (uri@.len() >= 5 && uri@.take(5) == seq!['d', 'a', 't', 'a', ':']),
{
    let n = uri.unicode_len();
    if n < 5 {
        return false;
    }
    let r = uri.get_char(0) == 'd' && uri.get_char(1) == 'a' && uri.get_char(2) == 't'
        && uri.get_char(3) == 'a' && uri.get_char(4) == ':';
    proof {
        if r {
            assert(uri@.take(5) =~= seq!['d', 'a', 't', 'a', ':']);
        } else if uri@.take(5) == seq!['d', 'a', 't', 'a', ':'] {
            assert(uri@.take(5)[0] == 'd');
            assert(uri@.take(5)[1] == 'a');
            assert(uri@.take(5)[2] == 't');
            assert(uri@.take(5)[3] == 'a');
            assert(uri@.take(5)[4] == ':');
        }
    }
    r
}

/// The base64 payload of a data URI: what follows its first `,`, up to a
/// second `,` if there is one.
pub fn data_uri_payload(uri: &str) -> (r: Option<String>)
    ensures
        match r {
            Some(p) => data_uri_payload_spec(uri@) == Some(p@),
            None => data_uri_payload_spec(uri@) is None,
        },
{
    match after_char(uri, ',') {
        Some(rest) => Some(String::from_str(before_char(rest, ','))),
        None => None,
    }
}

/// The media type written in a data URI header (`data:<type>;base64,...`).
pub fn data_uri_mime_type(uri: &str) -> (r: Option<String>)
    ensures
        match r {
            Some(m) => data_uri_mime_spec(uri@) == Some(m@),
            None => data_uri_mime_spec(uri@) is None,
        },
{
    let header = before_char(uri, ',');
    match after_char(header, ':') {
        Some(rest) => {
            let field = before_char(rest, ':');
            Some(String::from_str(before_char(field, ';')))
        },
        None => None,
    }
}

/// The encoded format named by a media type: JPEG or PNG.
pub fn image_mime(mime: &str) -> (r: Option<ImageMime>)
    ensures
        r == image_mime_spec(mime@),
{
    if same_text(mime, "image/jpeg") {
        Some(ImageMime::Jpeg)
    } else if same_text(mime, "image/png") {
        Some(ImageMime::Png)
    } else {
        None
    }
}

/// What decoding `data` as `format` yields as a library image.
pub open spec fn decoded_image_ok(data: Seq<u8>, format: ImageMime, img: DynImage) -> bool {
    &&& img.wf()
    &&& spec_decode_rgb8(data, format) == Some(
        (img.spec_width(), img.spec_height(), img.spec_pixels()),
    )
}

/// Decodes `data` as `format` into an RGB image.
pub fn decode_image(data: &[u8], format: ImageMime) -> (r: Result<DynImage, ImageSourceError>)
    ensures
        match r {
            Ok(img) => decoded_image_ok(data@, format, img),
            Err(e) => e == ImageSourceError::DecodeFailed && spec_decode_rgb8(data@, format) is None,
        },
{
    match decode_rgb8(data, format) {
        Some((w, h, p)) => match DynImage::from_rgb8(w, h, p) {
            Some(img) => Ok(img),
            None => Err(ImageSourceError::DecodeFailed),
        },
        None => Err(ImageSourceError::DecodeFailed),
    }
}

/// The outcome of loading an image embedded as a data URI, step by step: the
/// payload must exist and be valid base64, the media type is the model's one
/// or else the URI's own, it must be JPEG or PNG, and the bytes must decode.
pub open spec fn data_uri_image_outcome(
    uri: Seq<char>,
    mime_type: Option<Seq<char>>,
    r: Result<DynImage, ImageSourceError>,
) -> bool {
    match data_uri_payload_spec(uri) {
        None => r == Err::<DynImage, ImageSourceError>(ImageSourceError::MissingPayload),
        Some(payload) => match spec_base64_decode(payload) {
            None => r == Err::<DynImage, ImageSourceError>(ImageSourceError::InvalidBase64),
            Some(bytes) => {
                let mime = match mime_type {
                    Some(m) => Some(m),
                    None => data_uri_mime_spec(uri),
                };
                match mime {
                    None => r == Err::<DynImage, ImageSourceError>(
                        ImageSourceError::MissingMimeType,
                    ),
                    Some(m) => match image_mime_spec(m) {
                        None => r == Err::<DynImage, ImageSourceError>(
                            ImageSourceError::UnsupportedMimeType,
                        ),
                        Some(format) => match r {
                            Ok(img) => decoded_image_ok(bytes, format, img),
                            Err(e) => e == ImageSourceError::DecodeFailed && spec_decode_rgb8(
                                bytes,
                                format,
                            ) is None,
                        },
                    },
                }
            },
        },
    }
}

/// Loads an image embedded in a glTF model as a base64 data URI. `mime_type`
/// is the media type the model declares; without one, the URI's own is used.
pub fn decode_data_uri_image(uri: &str, mime_type: Option<&str>) -> (r: Result<
    DynImage,
    ImageSourceError,
>)
    ensures
        data_uri_image_outcome(
            uri@,
            match mime_type {
                Some(m) => Some(m@),
                None => None,
            },
            r,
        ),
{
    let payload = match data_uri_payload(uri) {
        Some(p) => p,
        None => return Err(ImageSourceError::MissingPayload),
    };
    let bytes = match base64_decode(payload.as_str()) {
        Some(b) => b,
        None => return Err(ImageSourceError::InvalidBase64),
    };
    let header_mime: Option<String> = match mime_type {
        Some(_) => None,
        None => data_uri_mime_type(uri),
    };
    let mime: &str = match mime_type {
        Some(m) => m,
        None => match &header_mime {
            Some(m) => m.as_str(),
            None => return Err(ImageSourceError::MissingMimeType),
        },
    };
    let format = match image_mime(mime) {
        Some(f) => f,
        None => return Err(ImageSourceError::UnsupportedMimeType),
    };
    decode_image(bytes.as_slice(), format)
}

/// Loads an image stored in a buffer view: `length` bytes from `offset` of
/// `buffer`, encoded as `mime_type`.
pub fn decode_view_image(buffer: &[u8], offset: usize, length: usize, mime_type: &str) -> (r: Result<
    DynImage,
    ImageSourceError,
>)
    ensures
        offset + length > buffer@.len() ==> r == Err::<DynImage, ImageSourceError>(
            ImageSourceError::ViewOutOfBounds,
        ),
        offset + length <= buffer@.len() ==> match image_mime_spec(mime_type@) {
            None => r == Err::<DynImage, ImageSourceError>(ImageSourceError::UnsupportedMimeType),
            Some(format) => match r {
                Ok(img) => decoded_image_ok(
                    buffer@.subrange(offset as int, offset + length),
                    format,
                    img,
                ),
                Err(e) => e == ImageSourceError::DecodeFailed && spec_decode_rgb8(
                    buffer@.subrange(offset as int, offset + length),
                    format,
                ) is None,
            },
        },
{
    if length > buffer.len() || offset > buffer.len() - length {
        return Err(ImageSourceError::ViewOutOfBounds);
    }
    let end = offset + length;
    let format = match image_mime(mime_type) {
        Some(f) => f,
        None => return Err(ImageSourceError::UnsupportedMimeType),
    };
    let data = slice_range(buffer, offset, end);
    decode_image(data, format)
}

/// The bytes `from..to` of `s`.
fn slice_range(s: &[u8], from: usize, to: usize) -> (r: &[u8])
    requires
        from <= to <= s@.len(),
    ensures
        r@ == s@.subrange(from as int, to as int),
{
    let (head, _) = s.split_at(to);
    let (_, mid) = head.split_at(from);
    mid
}

} // verus!
