//! JPEG decoding, scaling and encoding through the `image` crate.
//!
//! Each image value remembers, as ghost state, the bytes it was decoded from
//! and the size it was scaled to. Only the functions of this module build
//! such values, so what they remember is always where the pixels came from.
use vstd::prelude::*;

verus! {

#[verifier::external_type_specification]
#[verifier::external_body]
pub struct ExDynamicImage(image::DynamicImage);

/// Whether `bytes` decode as a JPEG image.
pub uninterp spec fn decodes_as_jpeg(bytes: Seq<u8>) -> bool;

/// Whether the image that `raw` decodes to, scaled to fit within `side` by
/// `side` pixels, can be encoded as JPEG. That depends on the scaled size and
/// the colour type alone, which the bytes and the side fix.
pub uninterp spec fn thumbnail_encodes(raw: Seq<u8>, side: u32) -> bool;

/// Whether `bytes` start with the JPEG start-of-image marker.
pub open spec fn starts_as_jpeg(bytes: Seq<u8>) -> bool {
    bytes.len() >= 2 && bytes[0] == 0xFFu8 && bytes[1] == 0xD8u8
}

/// An image decoded from JPEG bytes.
pub struct Decoded {
    image: image::DynamicImage,
    source: Ghost<Seq<u8>>,
}

impl Decoded {
    /// The bytes the image was decoded from.
    pub closed spec fn source(&self) -> Seq<u8> {
        self.source@
    }
}

/// A decoded image scaled to fit within a square.
pub struct Scaled {
    image: image::DynamicImage,
    source: Ghost<Seq<u8>>,
    side: Ghost<u32>,
}

impl Scaled {
    /// The bytes the image was decoded from.
    pub closed spec fn source(&self) -> Seq<u8> {
        self.source@
    }

    /// The side of the square the image was scaled to fit, in pixels.
    pub closed spec fn side(&self) -> u32 {
        self.side@
    }
}

/// Relies on `image::load_from_memory_with_format` with `ImageFormat::Jpeg`:
/// decodes the bytes as a JPEG image, and whether that succeeds depends on the bytes alone.
#[verifier::external_body]
pub(crate) fn decode_jpeg(bytes: &[u8]) -> (r: Option<Decoded>)
    ensures
        r.is_some() == decodes_as_jpeg(bytes@),
        r matches Some(d) ==> d.source() == bytes@,
{
    match image::load_from_memory_with_format(bytes, image::ImageFormat::Jpeg) {
        Ok(image) => Some(Decoded { image, source: Ghost(bytes@) }),
        Err(_) => None,
    }
}

/// Relies on `image::DynamicImage::resize` with the Lanczos filter: a new image
/// that keeps the aspect ratio and fits within `side` by `side` pixels.
#[verifier::external_body]
pub(crate) fn fit_within(d: &Decoded, side: u32) -> (r: Scaled)
    ensures
        r.source() == d.source(),
        r.side() == side,
{
    let image = d.image.resize(side, side, image::imageops::FilterType::Lanczos3);
    Scaled { image, source: Ghost(d.source@), side: Ghost(side) }
}

/// Relies on `image::DynamicImage::write_to` with `ImageFormat::Jpeg`: the
/// image encoded as JPEG into a fresh buffer, or `None` when encoding fails.
/// Whether it fails depends on the image's size and colour type; the encoder
/// writes the start-of-image marker first.
#[verifier::external_body]
pub(crate) fn encode_jpeg(s: &Scaled) -> (r: Option<Vec<u8>>)
    ensures
        r.is_some() == thumbnail_encodes(s.source(), s.side()),
        r matches Some(v) ==> starts_as_jpeg(v@),
{
    let mut out = std::io::Cursor::new(Vec::new());
    match s.image.write_to(&mut out, image::ImageFormat::Jpeg) {
        Ok(()) => Some(out.into_inner()),
        Err(_) => None,
    }
}

} // verus!
