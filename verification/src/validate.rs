//! Validation of an uploaded payload: presence, decoding, size and format.

use crate::codec::{decode_standard, standard_decoding};
use crate::format::{is_supported_image_format, supported_image};
use crate::size::{format_mebibytes, mebibytes_text, MAX_IMAGE_BYTES};
use vstd::prelude::*;
use vstd::string::StringExecFns;

verus! {

/// Why an upload was turned away.
#[derive(Debug)]
pub enum Rejection {
    /// The image field was absent or empty.
    NoImage,
    /// The image field was not base64; the decoder's description is kept.
    Undecodable(String),
    /// The decoded image is larger than the ceiling; its size in bytes is kept.
    TooLarge(usize),
    /// The decoded bytes are none of JPEG, PNG and WebP.
    UnsupportedFormat,
}

/// The mathematical value of a [`Rejection`].
pub enum RejectionView {
    NoImage,
    Undecodable(Seq<char>),
    TooLarge(nat),
    UnsupportedFormat,
}

impl View for Rejection {
    type V = RejectionView;

    open spec fn view(&self) -> RejectionView {
        match self {
            Rejection::NoImage => RejectionView::NoImage,
            Rejection::Undecodable(detail) => RejectionView::Undecodable(detail@),
            Rejection::TooLarge(size) => RejectionView::TooLarge(*size as nat),
            Rejection::UnsupportedFormat => RejectionView::UnsupportedFormat,
        }
    }
}

/// The verdict on a decoding outcome: a failed decoding is rejected with the
/// decoder's description, an image above the ceiling with its size, and one
/// of an unknown format as unsupported; anything else passes unchanged.
pub open spec fn decoded_verdict(decoded: Result<Seq<u8>, Seq<char>>) -> Result<
    Seq<u8>,
    RejectionView,
> {
    match decoded {
        Err(detail) => Err(RejectionView::Undecodable(detail)),
        Ok(bytes) => if bytes.len() > MAX_IMAGE_BYTES {
            Err(RejectionView::TooLarge(bytes.len()))
        } else if !supported_image(bytes) {
            Err(RejectionView::UnsupportedFormat)
        } else {
            Ok(bytes)
        },
    }
}

/// The verdict on the image field of a request: absent or empty is rejected
/// first, then the text is decoded and the outcome judged.
pub open spec fn upload_verdict(image: Option<Seq<char>>) -> Result<Seq<u8>, RejectionView> {
    match image {
        None => Err(RejectionView::NoImage),
        Some(text) => if text.len() == 0 {
            Err(RejectionView::NoImage)
        } else {
            decoded_verdict(standard_decoding(text))
        },
    }
}

/// What the caller is told about a rejection.
pub open spec fn rejection_message(rejection: RejectionView) -> Seq<char> {
    match rejection {
        RejectionView::NoImage => "No image data provided"@,
        RejectionView::Undecodable(detail) => "Failed to decode image: "@ + detail,
        RejectionView::TooLarge(size) => "File too large: "@ + mebibytes_text(size)
            + "MB. Maximum size is 10MB."@,
        RejectionView::UnsupportedFormat =>
            "Unsupported image format. Please upload JPEG, PNG, or WebP images."@,
    }
}

/// The two outcomes of validation as mathematical values.
pub open spec fn verdict_view(verdict: Result<Vec<u8>, Rejection>) -> Result<
    Seq<u8>,
    RejectionView,
> {
    match verdict {
        Ok(bytes) => Ok(bytes@),
        Err(rejection) => Err(rejection@),
    }
}

impl Rejection {
    /// The message that reports this rejection to the caller.
    pub fn message(&self) -> (text: String)
        ensures
            text@ == rejection_message(self@),
    {
        match self {
            Rejection::NoImage => String::from_str("No image data provided"),
            Rejection::Undecodable(detail) => {
                let mut text = String::from_str("Failed to decode image: ");
                text.append(detail.as_str());
                text
            },
            Rejection::TooLarge(size) => {
                let mut text = String::from_str("File too large: ");
                let shown = format_mebibytes(*size);
                text.append(shown.as_str());
                text.append("MB. Maximum size is 10MB.");
                text
            },
            Rejection::UnsupportedFormat => String::from_str(
                "Unsupported image format. Please upload JPEG, PNG, or WebP images.",
            ),
        }
    }
}

/// Judges the outcome of decoding the image field: the size ceiling first,
/// then the format.
pub fn check_decoded(decoded: Result<Vec<u8>, String>) -> (verdict: Result<Vec<u8>, Rejection>)
    ensures
        verdict_view(verdict) == decoded_verdict(
            match decoded {
                Ok(bytes) => Ok(bytes@),
                Err(detail) => Err(detail@),
            },
        ),
{
    match decoded {
        Err(detail) => Err(Rejection::Undecodable(detail)),
        Ok(bytes) => {
            if bytes.len() > MAX_IMAGE_BYTES {
                Err(Rejection::TooLarge(bytes.len()))
            } else if !is_supported_image_format(bytes.as_slice()) {
                Err(Rejection::UnsupportedFormat)
            } else {
                Ok(bytes)
            }
        },
    }
}

/// Validates the image field of a request and hands back the decoded image,
/// or the reason it is turned away.
pub fn validate_upload(image: Option<&str>) -> (verdict: Result<Vec<u8>, Rejection>)
    ensures
        verdict_view(verdict) == upload_verdict(
            match image {
                Some(text) => Some(text@),
                None => None,
            },
        ),
{
    match image {
        None => Err(Rejection::NoImage),
        Some(text) => {
            if text.is_empty() {
                Err(Rejection::NoImage)
            } else {
                check_decoded(decode_standard(text))
            }
        },
    }
}

/// Text that decodes to a supported image of at most ten mebibytes is
/// accepted, and the decoded bytes come through unchanged.
pub proof fn lemma_valid_upload_passes(text: Seq<char>, bytes: Seq<u8>)
    requires
        text.len() > 0,
        standard_decoding(text) == Ok::<Seq<u8>, Seq<char>>(bytes),
        bytes.len() <= MAX_IMAGE_BYTES,
        supported_image(bytes),
    ensures
        upload_verdict(Some(text)) == Ok::<Seq<u8>, RejectionView>(bytes),
{
}

/// Text that decodes to more than ten mebibytes is rejected, and the
/// rejection carries the decoded size, which is the size the message shows.
pub proof fn lemma_oversize_rejected(text: Seq<char>, bytes: Seq<u8>)
    requires
        text.len() > 0,
        standard_decoding(text) == Ok::<Seq<u8>, Seq<char>>(bytes),
        bytes.len() > MAX_IMAGE_BYTES,
    ensures
        upload_verdict(Some(text)) == Err::<Seq<u8>, RejectionView>(
            RejectionView::TooLarge(bytes.len()),
        ),
        rejection_message(RejectionView::TooLarge(bytes.len())) == "File too large: "@
            + mebibytes_text(bytes.len()) + "MB. Maximum size is 10MB."@,
{
}

/// Text that is not base64 is rejected with the decoder's description, so no
/// image ever comes of it.
pub proof fn lemma_undecodable_rejected(text: Seq<char>, detail: Seq<char>)
    requires
        text.len() > 0,
        standard_decoding(text) == Err::<Seq<u8>, Seq<char>>(detail),
    ensures
        upload_verdict(Some(text)) == Err::<Seq<u8>, RejectionView>(
            RejectionView::Undecodable(detail),
        ),
{
}

} // verus!
