//! The decode engine: bytes in, decoded text or a typed failure out.
//!
//! The byte buffer is parsed as a raster image, converted to a luminance
//! plane, and searched for QR candidate grids; only the first candidate is
//! decoded, with no fallback to later ones. Every failure becomes a message
//! the controller can display. The image parsing and the grid search and
//! decode are calls into the `image` and `rqrr` crates behind trusted
//! wrappers; both are deterministic functions of the byte buffer, so their
//! outcomes are named by uninterpreted spec functions and the decisions
//! around them are verified.

use vstd::prelude::*;
use vstd::string::StringExecFns;

use crate::text::lemma_concat_has_prefix;
use crate::text::spec_has_prefix;

verus! {

/// Holds the gray image produced by `image::DynamicImage::to_luma8`. The
/// buffer type `image::ImageBuffer` carries a trait bound that cannot be
/// declared here, so the whole holder is opaque.
#[verifier::external_body]
pub struct GrayPlane {
    img: image::ImageBuffer<image::Luma<u8>, Vec<u8>>,
}

/// Whether `image::load_from_memory` accepts the buffer as an image; on
/// rejection, the display text of its error.
pub uninterp spec fn image_parse(bytes: Seq<u8>) -> Result<(), Seq<char>>;

/// How many candidate grids `rqrr`'s detection finds in the luminance plane
/// of the image decoded from the buffer.
pub uninterp spec fn qr_grid_count(bytes: Seq<u8>) -> nat;

/// The outcome of `rqrr`'s `Grid::decode` on candidate grid `i` of the
/// buffer's image: the decoded text, or the debug text of the decode error.
pub uninterp spec fn qr_grid_decode(bytes: Seq<u8>, i: int) -> Result<Seq<char>, Seq<char>>;

/// A luminance plane, keeping the byte buffer it was decoded from.
pub struct LumaPlane {
    img: GrayPlane,
    src: Vec<u8>,
}

impl LumaPlane {
    /// The byte buffer this plane was decoded from.
    pub closed spec fn origin(&self) -> Seq<u8> {
        self.src@
    }
}

/// Relies on `image::load_from_memory` for which buffers parse as an image
/// and for the display text of its error, and on
/// `image::DynamicImage::to_luma8` for the conversion to a luminance plane.
/// Both depend on the buffer alone.
#[verifier::external_body]
fn load_luma(bytes: &[u8]) -> (r: Result<LumaPlane, String>)
    ensures
        r is Ok <==> image_parse(bytes@) is Ok,
        r is Ok ==> r->Ok_0.origin() == bytes@,
        r is Err ==> r->Err_0@ == image_parse(bytes@)->Err_0,
{
    match image::load_from_memory(bytes) {
        Ok(img) => Ok(LumaPlane { img: GrayPlane { img: img.to_luma8() }, src: bytes.to_vec() }),
        Err(e) => Err(format!("{}", e)),
    }
}

/// Relies on `rqrr::PreparedImage::prepare` and
/// `rqrr::PreparedImage::detect_grids`: detection is a deterministic function
/// of the luminance plane, so of the plane's originating bytes.
#[verifier::external_body]
fn grid_count(plane: &LumaPlane) -> (n: usize)
    ensures
        n as nat == qr_grid_count(plane.origin()),
{
    let mut prepared = rqrr::PreparedImage::prepare(plane.img.img.clone());
    prepared.detect_grids().len()
}

/// Relies on `rqrr::PreparedImage::prepare`, `rqrr::PreparedImage::
/// detect_grids` and `rqrr::Grid::decode`: detection is deterministic, so
/// grid `i` and its decode outcome depend on the originating bytes alone;
/// the error case carries the debug text of `rqrr`'s error.
#[verifier::external_body]
fn decode_grid_at(plane: &LumaPlane, i: usize) -> (r: Result<String, String>)
    requires
        (i as nat) < qr_grid_count(plane.origin()),
    ensures
        r is Ok <==> qr_grid_decode(plane.origin(), i as int) is Ok,
        r is Ok ==> r->Ok_0@ == qr_grid_decode(plane.origin(), i as int)->Ok_0,
        r is Err ==> r->Err_0@ == qr_grid_decode(plane.origin(), i as int)->Err_0,
{
    let mut prepared = rqrr::PreparedImage::prepare(plane.img.img.clone());
    let grids = prepared.detect_grids();
    match grids[i].decode() {
        Ok((_meta, content)) => Ok(content),
        Err(e) => Err(format!("{:?}", e)),
    }
}

/// What decoding a byte buffer yields: the text of the first candidate grid,
/// or the failure message that is displayed.
pub open spec fn decode_spec(bytes: Seq<u8>) -> Result<Seq<char>, Seq<char>> {
    if image_parse(bytes) is Err {
        Err("Failed to load image: "@ + image_parse(bytes)->Err_0)
    } else if qr_grid_count(bytes) == 0 {
        Err("No QR code found in image"@)
    } else if qr_grid_decode(bytes, 0) is Ok {
        Ok(qr_grid_decode(bytes, 0)->Ok_0)
    } else {
        Err("Failed to decode QR: "@ + qr_grid_decode(bytes, 0)->Err_0)
    }
}

/// The failure taxonomy, written out: a buffer that does not parse as an
/// image always fails with the `Failed to load image: ` prefix; a parsed
/// image with no candidate grid fails with exactly `No QR code found in
/// image`; and when the first candidate grid does not decode, the result is a
/// failure with the `Failed to decode QR: ` prefix — even if a later grid
/// would have decoded, since no grid but the first is ever consulted.
pub proof fn lemma_decode_failure_taxonomy(bytes: Seq<u8>)
    ensures
        image_parse(bytes) is Err ==> decode_spec(bytes) is Err && spec_has_prefix(
            decode_spec(bytes)->Err_0,
            "Failed to load image: "@,
        ),
        image_parse(bytes) is Ok && qr_grid_count(bytes) == 0 ==> decode_spec(bytes) == Err::<
            Seq<char>,
            Seq<char>,
        >("No QR code found in image"@),
        image_parse(bytes) is Ok && qr_grid_count(bytes) > 0 && qr_grid_decode(bytes, 0) is Err
            ==> decode_spec(bytes) is Err && spec_has_prefix(
            decode_spec(bytes)->Err_0,
            "Failed to decode QR: "@,
        ),
{
    if image_parse(bytes) is Err {
        lemma_concat_has_prefix("Failed to load image: "@, image_parse(bytes)->Err_0);
    }
    if image_parse(bytes) is Ok && qr_grid_count(bytes) > 0 && qr_grid_decode(bytes, 0) is Err {
        lemma_concat_has_prefix("Failed to decode QR: "@, qr_grid_decode(bytes, 0)->Err_0);
    }
}

/// Success comes exactly from the first candidate grid: the buffer decodes if
/// and only if it parses as an image, at least one grid is found, and grid
/// zero decodes; the text shown is grid zero's text.
pub proof fn lemma_success_is_first_grid(bytes: Seq<u8>)
    ensures
        decode_spec(bytes) is Ok <==> image_parse(bytes) is Ok && qr_grid_count(bytes) > 0
            && qr_grid_decode(bytes, 0) is Ok,
        decode_spec(bytes) is Ok ==> decode_spec(bytes)->Ok_0 == qr_grid_decode(bytes, 0)->Ok_0,
{
}

/// Decodes the first QR symbol of the image in `bytes`.
///
/// Fails with `Failed to load image: …` when the buffer is no image, with
/// `No QR code found in image` when no candidate grid is located, and with
/// `Failed to decode QR: …` when the first candidate grid does not decode —
/// later grids are never tried.
pub fn decode_qr(bytes: &[u8]) -> (r: Result<String, String>)
    ensures
        r is Ok <==> decode_spec(bytes@) is Ok,
        r is Ok ==> r->Ok_0@ == decode_spec(bytes@)->Ok_0,
        r is Err ==> r->Err_0@ == decode_spec(bytes@)->Err_0,
{
    let plane = match load_luma(bytes) {
        Ok(p) => p,
        Err(detail) => {
            return Err(String::from_str("Failed to load image: ").concat(detail.as_str()));
        },
    };
    let n = grid_count(&plane);
    if n == 0 {
        return Err(String::from_str("No QR code found in image"));
    }
    match decode_grid_at(&plane, 0) {
        Ok(text) => Ok(text),
        Err(detail) => Err(String::from_str("Failed to decode QR: ").concat(detail.as_str())),
    }
}

} // verus!
