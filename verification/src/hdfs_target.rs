//! The HDFS endpoint and file path named by a URL such as
//! `hdfs://namenode:9000/dir/file`: the client connects to
//! `<scheme>://<host>` and works on the URL's path.

use vstd::prelude::*;

verus! {

#[verifier::external_type_specification]
#[verifier::external_body]
pub struct ExUrlParseError(url::ParseError);

/// The parts of a parsed URL that the benchmarks use.
#[derive(Debug, PartialEq, Eq)]
pub struct UrlParts {
    /// The scheme, lower-cased, without `:`.
    pub scheme: String,
    /// The host as the URL displays it (an IPv6 address in brackets), if any.
    pub host: Option<String>,
    /// The path, percent-encoded, starting with `/` for URLs that have a host.
    pub path: String,
}

pub open spec fn opt_text(t: Option<String>) -> Option<Seq<char>> {
    match t {
        Some(s) => Some(s@),
        None => None,
    }
}

/// The view of the parts: scheme, host, path.
pub open spec fn url_parts_view(p: UrlParts) -> (Seq<char>, Option<Seq<char>>, Seq<char>) {
    (p.scheme@, opt_text(p.host), p.path@)
}

/// The view of a parse outcome: the view of the parts, or the error.
pub open spec fn url_outcome_view(r: Result<UrlParts, url::ParseError>) -> Result<(Seq<char>, Option<Seq<char>>, Seq<char>), url::ParseError> {
    match r {
        Ok(p) => Ok(url_parts_view(p)),
        Err(e) => Err(e),
    }
}

/// What `url::Url::parse` makes of `input`: the error it reports where it
/// refuses the text, and otherwise the scheme, the displayed host and the
/// path of the URL.
pub uninterp spec fn parsed_url_parts(input: Seq<char>) -> Result<(Seq<char>, Option<Seq<char>>, Seq<char>), url::ParseError>;

/// Calls `url::Url::parse` and, on success, `Url::scheme`, `Url::host` (shown
/// with its `Display`) and `Url::path`. The contract claims only that the
/// outcome, parts or error, is a function of the input text, named
/// `parsed_url_parts`; the WHATWG parsing rules behind it are not stated.
#[verifier::external_body]
fn parse_url_parts(input: &str) -> (r: Result<UrlParts, url::ParseError>)
    ensures
        parsed_url_parts(input@) == url_outcome_view(r),
{
    match url::Url::parse(input) {
        Ok(u) => Ok(
            UrlParts {
                scheme: u.scheme().to_string(),
                host: u.host().map(|h| h.to_string()),
                path: u.path().to_string(),
            },
        ),
        Err(e) => Err(e),
    }
}

/// Where an HDFS client connects and what file it works on.
#[derive(Debug, PartialEq, Eq)]
pub struct HdfsTarget {
    /// `<scheme>://<host>`, the address the client is built for.
    pub header: String,
    /// The file path inside the file system.
    pub path: String,
}

/// Why a URL names no HDFS target.
#[derive(Debug)]
pub enum HdfsTargetError {
    /// The text is not a URL.
    InvalidUrl(url::ParseError),
    /// The URL has no host.
    MissingHost,
}

/// The address of the target: the scheme, `://`, and the host.
pub open spec fn header_spec(scheme: Seq<char>, host: Seq<char>) -> Seq<char> {
    scheme + "://"@ + host
}

/// The address reads back into its parts, whatever characters the host
/// holds: the scheme, then the three characters `://`, then the host exactly
/// as displayed, with nothing added or left out.
pub proof fn lemma_header_reads_back(scheme: Seq<char>, host: Seq<char>)
    ensures
        header_spec(scheme, host).len() == scheme.len() + 3 + host.len(),
        header_spec(scheme, host).take(scheme.len() as int) == scheme,
        header_spec(scheme, host).subrange(scheme.len() as int, (scheme.len() + 3) as int) == seq![
            ':',
            '/',
            '/',
        ],
        header_spec(scheme, host).skip((scheme.len() + 3) as int) == host,
{
    reveal_strlit("://");
    let h = header_spec(scheme, host);
    assert(h.take(scheme.len() as int) =~= scheme);
    assert(h.subrange(scheme.len() as int, (scheme.len() + 3) as int) =~= seq![':', '/', '/']);
    assert(h.skip((scheme.len() + 3) as int) =~= host);
}

/// The target of a parsed URL that has a host.
pub fn target_from_parts(parts: UrlParts) -> (r: HdfsTarget)
    requires
        parts.host is Some,
    ensures
        r.header@ == header_spec(parts.scheme@, parts.host.unwrap()@),
        r.path@ == parts.path@,
{
    let UrlParts { scheme, host, path } = parts;
    let mut header = scheme;
    header.append("://");
    match host {
        Some(h) => header.append(h.as_str()),
        None => {},
    }
    HdfsTarget { header, path }
}

/// The target that the URL `file_path` names: an error where the text is not
/// a URL or the URL has no host.
pub fn hdfs_target(file_path: &str) -> (r: Result<HdfsTarget, HdfsTargetError>)
    ensures
        match parsed_url_parts(file_path@) {
            Err(e) => r == Err::<HdfsTarget, HdfsTargetError>(HdfsTargetError::InvalidUrl(e)),
            Ok((scheme, host, path)) => match host {
                None => r matches Err(HdfsTargetError::MissingHost),
                Some(h) => r matches Ok(t) && t.header@ == header_spec(scheme, h) && t.path@
                    == path,
            },
        },
{
    match parse_url_parts(file_path) {
        Err(e) => Err(HdfsTargetError::InvalidUrl(e)),
        Ok(parts) => {
            if parts.host.is_some() {
                Ok(target_from_parts(parts))
            } else {
                Err(HdfsTargetError::MissingHost)
            }
        },
    }
}

} // verus!
