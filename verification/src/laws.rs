//! Laws of the admission pipeline, stated over its specifications and
//! proved once and for all. Where a law claims that a rejection happens
//! *before* a collaborator runs, the proof makes no use of that
//! collaborator's named result, so the claim holds whatever the
//! collaborator would have returned.

use vstd::prelude::*;
use vstd::utf8::encode_utf8;
use crate::codec::{image_decode_spec, GridView};
use crate::consts::{MAX_BASE64_SIZE, MAX_CONTENT_LENGTH, MAX_FILE_SIZE, MAX_IMAGE_DIMENSION};
use crate::errors::QrError;
use crate::pipeline::{
    admit_body_spec, decode_admit_spec, decode_bytes_spec, generate_png_spec, DecodeActionSpec,
};
use crate::strings::{replace_http_spec, starts_with_spec, upgrade_scheme_spec};
use crate::urlcheck::{host_allowed, url_parse_spec, UrlParts};

verus! {

/// Content over the content-length ceiling makes the generate flow fail as
/// too long. The encoder's named result is never consulted, so the
/// rejection happens before the encoder would run.
pub proof fn lemma_long_content_rejected(content: Seq<char>)
    requires
        encode_utf8(content).len() > MAX_CONTENT_LENGTH,
    ensures
        generate_png_spec(content) == Err::<Seq<u8>, QrError>(QrError::ContentTooLong),
{
}

/// The scheme upgrade is idempotent: an upgraded string no longer begins
/// with the insecure marker, so upgrading it again changes nothing.
pub proof fn lemma_upgrade_idempotent(s: Seq<char>)
    ensures
        upgrade_scheme_spec(upgrade_scheme_spec(s)) == upgrade_scheme_spec(s),
{
    reveal_strlit("http://");
    reveal_strlit("https://");
    if starts_with_spec(s, "http://"@) {
        let up = replace_http_spec(s);
        assert(s.len() >= 7);
        assert(s.subrange(0, 7) == "http://"@);
        assert(up == "https://"@ + replace_http_spec(s.subrange(7, s.len() as int)));
        assert(up[4] == 's');
        if starts_with_spec(up, "http://"@) {
            assert(up.subrange(0, 7)[4] == up[4]);
            assert(false);
        }
    }
}

/// An insecure-scheme decode input is treated exactly as its upgraded
/// secure form: the same admission outcome, so the same allow-list checks
/// apply and there is no bypass by downgrading the scheme.
pub proof fn lemma_decode_insecure_as_secure(s: Seq<char>)
    ensures
        decode_admit_spec(s) == decode_admit_spec(upgrade_scheme_spec(s)),
{
    lemma_upgrade_idempotent(s);
}

/// A remote reference whose host is not on the allow-list is rejected as a
/// disallowed domain, and admission yields no fetch action, so no network
/// fetch can occur.
pub proof fn lemma_disallowed_host_no_fetch(s: Seq<char>, p: UrlParts, h: Seq<char>)
    requires
        starts_with_spec(upgrade_scheme_spec(s), "http"@),
        url_parse_spec(upgrade_scheme_spec(s)) == Some(p),
        p.scheme == "https"@,
        p.host == Some(h),
        !host_allowed(h),
    ensures
        decode_admit_spec(s) == Err::<DecodeActionSpec, QrError>(QrError::DomainNotAllowed),
{
}

/// An inline payload whose encoded string is over the inline-size ceiling
/// is rejected as too large. The base64 decoder's named result is never
/// consulted, so the rejection happens before any decoding attempt.
pub proof fn lemma_oversized_inline_rejected(s: Seq<char>)
    requires
        !starts_with_spec(upgrade_scheme_spec(s), "http"@),
        encode_utf8(upgrade_scheme_spec(s)).len() > MAX_BASE64_SIZE,
    ensures
        decode_admit_spec(s) == Err::<DecodeActionSpec, QrError>(QrError::Base64TooLarge),
{
}

/// A fetched body over the file-size ceiling is rejected by the
/// authoritative re-check, which consults no header at all: a
/// content-length header that under-reported the true size changes
/// nothing.
pub proof fn lemma_oversized_body_rejected(bytes: Seq<u8>)
    requires
        bytes.len() > MAX_FILE_SIZE,
    ensures
        admit_body_spec(bytes) == Err::<Seq<u8>, QrError>(QrError::InvalidFileSize),
{
}

/// An image whose decoded pixel dimensions exceed the maximum is rejected
/// as too large after the codec decode. The scanner's named result is
/// never consulted, so the rejection happens before any optical-code
/// scanning, however small the file was.
pub proof fn lemma_huge_dimensions_rejected(bytes: Seq<u8>, g: GridView)
    requires
        image_decode_spec(bytes) == Some(g),
        g.width > MAX_IMAGE_DIMENSION || g.height > MAX_IMAGE_DIMENSION,
    ensures
        decode_bytes_spec(bytes) == Err::<Seq<char>, QrError>(QrError::ImageTooLarge),
{
}

} // verus!
