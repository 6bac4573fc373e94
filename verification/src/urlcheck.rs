//! URL admission: a remote reference is fetched only when its scheme is the
//! secure one, its host is an allow-listed domain or a subdomain of one, and
//! its path ends in a recognized image extension. All checks are pure
//! predicates over the parsed parts; no network access happens before they
//! pass, and the first failing check wins.

use vstd::prelude::*;
use crate::errors::QrError;
use crate::strings::{ends_with_spec, ends_with_str, lower_of, str_eq, to_lowercase_str};

verus! {

/// The three parts of a parsed URL that admission reads.
pub struct UrlParts {
    pub scheme: Seq<char>,
    pub host: Option<Seq<char>>,
    pub path: Seq<char>,
}

/// Scheme, host and path of a parsed URL, as plain strings.
pub struct ParsedUrl {
    pub scheme: String,
    pub host: Option<String>,
    pub path: String,
}

impl View for ParsedUrl {
    type V = UrlParts;

    open spec fn view(&self) -> UrlParts {
        UrlParts {
            scheme: self.scheme@,
            host: match self.host {
                Some(h) => Some(h@),
                None => None,
            },
            path: self.path@,
        }
    }
}

/// Scheme, host and path that URL parsing yields, or `None` when the string
/// is not a URL; they depend on the input string alone.
pub uninterp spec fn url_parse_spec(s: Seq<char>) -> Option<UrlParts>;

/// Relies on url::Url::parse and its scheme/host_str/path accessors: whether
/// a string parses, and the normalized scheme, host and path, depend on the
/// string alone.
#[verifier::external_body]
pub(crate) fn parse_url(s: &str) -> (r: Option<ParsedUrl>)
    ensures
        match r {
            Some(p) => url_parse_spec(s@) == Some(p@),
            None => url_parse_spec(s@) is None,
        },
{
    match url::Url::parse(s) {
        Ok(u) => {
            let host = u.host_str().map(|h| h.to_string());
            Some(ParsedUrl { scheme: u.scheme().to_string(), host, path: u.path().to_string() })
        },
        Err(_) => None,
    }
}

/// The host equals an allow-listed domain or ends in `"." + domain`.
pub open spec fn host_allowed(h: Seq<char>) -> bool {
    ||| h == "catbox.moe"@
    ||| ends_with_spec(h, ".catbox.moe"@)
    ||| h == "files.catbox.moe"@
    ||| ends_with_spec(h, ".files.catbox.moe"@)
}

/// The lower-cased path ends in a recognized image-file extension.
pub open spec fn ext_allowed(lp: Seq<char>) -> bool {
    ||| ends_with_spec(lp, ".png"@)
    ||| ends_with_spec(lp, ".jpg"@)
    ||| ends_with_spec(lp, ".jpeg"@)
    ||| ends_with_spec(lp, ".gif"@)
    ||| ends_with_spec(lp, ".webp"@)
}

/// Admission of parsed URL parts: secure scheme, then host presence, then
/// allow-list membership, then extension; the first failing check wins.
pub open spec fn validate_parts_spec(p: UrlParts) -> Result<(), QrError> {
    if p.scheme != "https"@ {
        Err(QrError::HttpsRequired)
    } else {
        match p.host {
            None => Err(QrError::InvalidDomain),
            Some(h) => if !host_allowed(h) {
                Err(QrError::DomainNotAllowed)
            } else if !ext_allowed(lower_of(p.path)) {
                Err(QrError::MustBeImageFile)
            } else {
                Ok(())
            },
        }
    }
}

/// Admission of a URL string: parse failure first, then the part checks.
pub open spec fn validate_url_spec(s: Seq<char>) -> Result<(), QrError> {
    match url_parse_spec(s) {
        None => Err(QrError::InvalidUrl),
        Some(p) => validate_parts_spec(p),
    }
}

/// Admit or reject the parsed parts of a URL, first failing check first.
pub fn validate_parts(p: &ParsedUrl) -> (r: Result<(), QrError>)
    ensures
        r == validate_parts_spec(p@),
{
    if !str_eq(p.scheme.as_str(), "https") {
        return Err(QrError::HttpsRequired);
    }
    let host = match &p.host {
        None => {
            return Err(QrError::InvalidDomain);
        },
        Some(h) => h,
    };
    let host_ok = str_eq(host.as_str(), "catbox.moe") || ends_with_str(
        host.as_str(),
        ".catbox.moe",
    ) || str_eq(host.as_str(), "files.catbox.moe") || ends_with_str(
        host.as_str(),
        ".files.catbox.moe",
    );
    if !host_ok {
        return Err(QrError::DomainNotAllowed);
    }
    let lower = to_lowercase_str(p.path.as_str());
    let ext_ok = ends_with_str(lower.as_str(), ".png") || ends_with_str(lower.as_str(), ".jpg")
        || ends_with_str(lower.as_str(), ".jpeg") || ends_with_str(lower.as_str(), ".gif")
        || ends_with_str(lower.as_str(), ".webp");
    if !ext_ok {
        return Err(QrError::MustBeImageFile);
    }
    Ok(())
}

/// Admit or reject a URL string before any fetch: parse, then check scheme,
/// host allow-list and image extension in order.
pub fn validate_url(url: &str) -> (r: Result<(), QrError>)
    ensures
        r == validate_url_spec(url@),
{
    match parse_url(url) {
        None => Err(QrError::InvalidUrl),
        Some(p) => validate_parts(&p),
    }
}

} // verus!
