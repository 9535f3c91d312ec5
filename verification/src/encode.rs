//! Turning converted icon bytes into an embeddable PNG data URL.

use base64::Engine;
use vstd::prelude::*;

use crate::icon::IconError;

verus! {

/// What the standard, padded base64 alphabet encodes `bytes` to.
/// The rendering is a function of the bytes alone; its exact text is
/// left to the encoder.
pub uninterp spec fn base64_of(bytes: Seq<u8>) -> Seq<char>;

/// The media-type prefix of an encoded icon.
pub open spec fn data_url_prefix() -> Seq<char> {
    "data:image/png;base64,"@
}

/// The data URL an icon's PNG bytes are returned as.
pub open spec fn data_url_of(bytes: Seq<u8>) -> Seq<char> {
    data_url_prefix() + base64_of(bytes)
}

/// Inputs long enough to overflow the encoder's output length are kept
/// out of the encoder; converted icons are far below this.
pub open spec fn fits_encoder(len: nat) -> bool {
    len <= 0x4000_0000_0000_0000
}

/// Relies on base64's `Engine::encode` with the `STANDARD` engine:
/// padded standard-alphabet base64, four output characters for every
/// three input bytes, rounded up; it panics only when that output
/// length overflows `usize`, which the precondition rules out.
#[verifier::external_body]
fn base64_standard(bytes: &[u8]) -> (r: String)
    requires
        fits_encoder(bytes@.len()),
    ensures
        r@ == base64_of(bytes@),
        r@.len() == 4 * ((bytes@.len() + 2) / 3),
{
    base64::engine::general_purpose::STANDARD.encode(bytes)
}

/// Wraps PNG bytes as a `data:image/png;base64,` URL. The result is
/// the prefix followed by the base64 rendering of exactly `png`, so
/// it is never shorter than the prefix and grows with the image.
pub fn make_data_url(png: &Vec<u8>) -> (r: String)
    requires
        fits_encoder(png@.len()),
    ensures
        r@ == data_url_of(png@),
        r@.len() == 22 + 4 * ((png@.len() + 2) / 3),
{
    let mut out = "data:image/png;base64,".to_owned();
    let payload = base64_standard(png.as_slice());
    out.append(payload.as_str());
    proof {
        reveal_strlit("data:image/png;base64,");
    }
    out
}

/// Maps the read-back of the converted icon to the pipeline's outcome:
/// the data URL of the bytes that were read, or a conversion failure
/// when the converted file could not be read back.
pub fn encode_icon(png: Option<Vec<u8>>) -> (r: Result<String, IconError>)
    requires
        png matches Some(b) ==> fits_encoder(b@.len()),
    ensures
        (png matches Some(b) ==> r matches Ok(u) && u@ == data_url_of(b@)),
        (png is None ==> (r matches Err(e) && e matches IconError::ConversionFailed { detail }
            && detail@ == "converted icon could not be read back"@)),
{
    match png {
        Some(bytes) => Ok(make_data_url(&bytes)),
        None => Err(
            IconError::ConversionFailed {
                detail: "converted icon could not be read back".to_owned(),
            },
        ),
    }
}

/// Every data URL this pipeline can return begins with the PNG
/// media-type prefix, whatever the image bytes were.
pub proof fn lemma_data_url_prefix(bytes: Seq<u8>)
    ensures
        data_url_of(bytes).len() >= 22,
        data_url_of(bytes).take(22) == data_url_prefix(),
{
    reveal_strlit("data:image/png;base64,");
    assert(data_url_of(bytes).take(22) =~= data_url_prefix());
}

} // verus!
