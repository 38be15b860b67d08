//! Classification of a byte buffer by its leading magic bytes.

use vstd::prelude::*;

verus! {

/// Buffers shorter than this are never accepted, whatever they hold.
pub const MIN_IMAGE_LEN: usize = 12;

/// The three bytes every JPEG stream starts with.
pub open spec fn jpeg_magic() -> Seq<u8> {
    seq![0xFFu8, 0xD8u8, 0xFFu8]
}

/// The eight-byte PNG signature.
pub open spec fn png_magic() -> Seq<u8> {
    seq![0x89u8, 0x50u8, 0x4Eu8, 0x47u8, 0x0Du8, 0x0Au8, 0x1Au8, 0x0Au8]
}

/// ASCII `RIFF`, the container tag at the start of a WebP file.
pub open spec fn riff_tag() -> Seq<u8> {
    seq![0x52u8, 0x49u8, 0x46u8, 0x46u8]
}

/// ASCII `WEBP`, found at offset 8 of a WebP file.
pub open spec fn webp_tag() -> Seq<u8> {
    seq![0x57u8, 0x45u8, 0x42u8, 0x50u8]
}

/// `pattern` occurs in `s` starting at index `at`.
pub open spec fn occurs_at(s: Seq<u8>, at: int, pattern: Seq<u8>) -> bool {
    &&& 0 <= at
    &&& at + pattern.len() <= s.len()
    &&& forall|i: int| 0 <= i < pattern.len() ==> s[at + i] == #[trigger] pattern[i]
}

/// The buffer starts with the JPEG magic bytes.
pub open spec fn looks_like_jpeg(s: Seq<u8>) -> bool {
    occurs_at(s, 0, jpeg_magic())
}

/// The buffer starts with the PNG signature.
pub open spec fn looks_like_png(s: Seq<u8>) -> bool {
    occurs_at(s, 0, png_magic())
}

/// The buffer starts with `RIFF` and carries `WEBP` at offset 8. The four
/// bytes of the chunk size in between are not looked at.
pub open spec fn looks_like_webp(s: Seq<u8>) -> bool {
    occurs_at(s, 0, riff_tag()) && occurs_at(s, 8, webp_tag())
}

/// A buffer is a supported image when it is at least [`MIN_IMAGE_LEN`] bytes
/// long and carries one of the three signatures.
pub open spec fn supported_image(s: Seq<u8>) -> bool {
    s.len() >= MIN_IMAGE_LEN && (looks_like_jpeg(s) || looks_like_png(s) || looks_like_webp(s))
}

/// Tells whether `bytes` is a JPEG, PNG or WebP image, judging by its magic
/// bytes alone.
pub fn is_supported_image_format(bytes: &[u8]) -> (supported: bool)
    ensures
        supported == supported_image(bytes@),
{
    if bytes.len() < MIN_IMAGE_LEN {
        return false;
    }
    let jpeg = bytes[0] == 0xFF && bytes[1] == 0xD8 && bytes[2] == 0xFF;
    let png = bytes[0] == 0x89 && bytes[1] == 0x50 && bytes[2] == 0x4E && bytes[3] == 0x47
        && bytes[4] == 0x0D && bytes[5] == 0x0A && bytes[6] == 0x1A && bytes[7] == 0x0A;
    let webp = bytes[0] == 0x52 && bytes[1] == 0x49 && bytes[2] == 0x46 && bytes[3] == 0x46
        && bytes[8] == 0x57 && bytes[9] == 0x45 && bytes[10] == 0x42 && bytes[11] == 0x50;
    proof {
        lemma_jpeg_by_bytes(bytes@);
        lemma_png_by_bytes(bytes@);
        lemma_webp_by_bytes(bytes@);
    }
    jpeg || png || webp
}

proof fn lemma_jpeg_by_bytes(s: Seq<u8>)
    requires
        s.len() >= 3,
    ensures
        looks_like_jpeg(s) <==> (s[0] == 0xFF && s[1] == 0xD8 && s[2] == 0xFF),
{
    let p = jpeg_magic();
    assert(p.len() == 3 && p[0] == 0xFF && p[1] == 0xD8 && p[2] == 0xFF);
}

proof fn lemma_png_by_bytes(s: Seq<u8>)
    requires
        s.len() >= 8,
    ensures
        looks_like_png(s) <==> (s[0] == 0x89 && s[1] == 0x50 && s[2] == 0x4E && s[3] == 0x47
            && s[4] == 0x0D && s[5] == 0x0A && s[6] == 0x1A && s[7] == 0x0A),
{
    let p = png_magic();
    assert(p.len() == 8 && p[0] == 0x89 && p[1] == 0x50 && p[2] == 0x4E && p[3] == 0x47
        && p[4] == 0x0D && p[5] == 0x0A && p[6] == 0x1A && p[7] == 0x0A);
}

proof fn lemma_webp_by_bytes(s: Seq<u8>)
    requires
        s.len() >= 12,
    ensures
        looks_like_webp(s) <==> (s[0] == 0x52 && s[1] == 0x49 && s[2] == 0x46 && s[3] == 0x46
            && s[8] == 0x57 && s[9] == 0x45 && s[10] == 0x42 && s[11] == 0x50),
{
    let r = riff_tag();
    let w = webp_tag();
    assert(r.len() == 4 && r[0] == 0x52 && r[1] == 0x49 && r[2] == 0x46 && r[3] == 0x46);
    assert(w.len() == 4 && w[0] == 0x57 && w[1] == 0x45 && w[2] == 0x42 && w[3] == 0x50);
    if looks_like_webp(s) {
        assert(s[8 + 0int] == w[0] && s[8 + 1int] == w[1] && s[8 + 2int] == w[2] && s[8 + 3int] == w[3]);
    }
}

/// A buffer of fewer than twelve bytes is never a supported image, not even
/// when it starts with a complete signature.
pub proof fn lemma_short_buffer_unsupported(s: Seq<u8>)
    requires
        s.len() < MIN_IMAGE_LEN,
    ensures
        !supported_image(s),
{
}

/// A buffer of at least twelve bytes that begins with the JPEG magic bytes,
/// with the PNG signature, or with `RIFF`, any four bytes and `WEBP`, is a
/// supported image, whatever follows.
pub proof fn lemma_signature_supported(s: Seq<u8>)
    requires
        s.len() >= MIN_IMAGE_LEN,
        s.subrange(0, 3) == jpeg_magic() || s.subrange(0, 8) == png_magic() || (s.subrange(0, 4)
            == riff_tag() && s.subrange(8, 12) == webp_tag()),
    ensures
        supported_image(s),
{
    if s.subrange(0, 3) == jpeg_magic() {
        lemma_subrange_occurs(s, 0, jpeg_magic());
    } else if s.subrange(0, 8) == png_magic() {
        lemma_subrange_occurs(s, 0, png_magic());
    } else {
        lemma_subrange_occurs(s, 0, riff_tag());
        lemma_subrange_occurs(s, 8, webp_tag());
    }
}

proof fn lemma_subrange_occurs(s: Seq<u8>, at: int, pattern: Seq<u8>)
    requires
        0 <= at,
        at + pattern.len() <= s.len(),
        s.subrange(at, at + pattern.len()) == pattern,
    ensures
        occurs_at(s, at, pattern),
{
    assert forall|i: int| 0 <= i < pattern.len() implies s[at + i] == #[trigger] pattern[i] by {
        assert(s.subrange(at, at + pattern.len())[i] == s[at + i]);
    }
}

} // verus!
