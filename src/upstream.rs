//! Upstream URLs and the place of each mirror on disk.
use vstd::prelude::*;

use crate::error::{FError, FResult};
use crate::text::concat_str;

verus! {

/// What `url::Url::parse` makes of a string: `None` where it is not a URL, else
/// the URL's serialisation, its domain (if its host is a domain) and its path.
pub uninterp spec fn parsed_url(s: Seq<char>) -> Option<(Seq<char>, Option<Seq<char>>, Seq<char>)>;

/// The view of an optional string.
pub open spec fn opt_view(o: Option<String>) -> Option<Seq<char>> {
    match o {
        Some(s) => Some(s@),
        None => None,
    }
}

/// A parsed upstream URL, held as the plain values the library reads.
#[derive(Debug, Clone)]
pub struct UpstreamUrl {
    /// The URL's serialisation.
    pub text: String,
    /// The domain of its host, if the host is a domain.
    pub domain: Option<String>,
    /// Its path.
    pub path: String,
}

impl View for UpstreamUrl {
    type V = (Seq<char>, Option<Seq<char>>, Seq<char>);

    open spec fn view(&self) -> Self::V {
        (self.text@, opt_view(self.domain), self.path@)
    }
}

/// Relies on `url::Url::parse`, and on `Url::as_str`, `Url::domain` and
/// `Url::path` of what it returns: the result depends on the string alone.
#[verifier::external_body]
fn parse_url(s: &str) -> (r: Result<UpstreamUrl, url::ParseError>)
    ensures
        r is Ok <==> parsed_url(s@) is Some,
        r is Ok ==> parsed_url(s@) == Some(r->Ok_0@),
{
    url::Url::parse(s).map(
        |u|
            UpstreamUrl {
                text: u.as_str().to_owned(),
                domain: u.domain().map(|d| d.to_owned()),
                path: u.path().to_owned(),
            },
    )
}

impl UpstreamUrl {
    /// Parses an upstream URL; fails with `NotAUrl` where `s` is not a URL.
    pub fn parse(s: &str) -> (r: FResult<UpstreamUrl>)
        ensures
            r is Ok <==> parsed_url(s@) is Some,
            r is Ok ==> parsed_url(s@) == Some(r->Ok_0@),
            r is Err ==> r->Err_0 is NotAUrl,
    {
        match parse_url(s) {
            Ok(u) => Ok(u),
            Err(e) => Err(FError::NotAUrl(e)),
        }
    }
}

/// `seg` placed under the directory `base`, one separator between them.
pub open spec fn join_path(base: Seq<char>, seg: Seq<char>) -> Seq<char> {
    if base.len() == 0 {
        seg
    } else if base.last() == '/' {
        base + seg
    } else {
        base + seq!['/'] + seg
    }
}

/// A URL path without its leading separator.
pub open spec fn strip_root(p: Seq<char>) -> Seq<char> {
    if p.len() > 0 && p[0] == '/' {
        p.subrange(1, p.len() as int)
    } else {
        p
    }
}

/// The directory of a mirror: `base`, then the domain, then the URL path
/// without its leading separator.
pub open spec fn mirror_path_of(base: Seq<char>, domain: Seq<char>, path: Seq<char>) -> Seq<char> {
    join_path(join_path(base, domain), strip_root(path))
}

/// The directory of the mirror of the upstream string `s` under `base`: `None`
/// where `s` is not a URL or its host is no domain.
pub open spec fn upstream_mirror_path(base: Seq<char>, s: Seq<char>) -> Option<Seq<char>> {
    match parsed_url(s) {
        Some((_, Some(domain), path)) => Some(mirror_path_of(base, domain, path)),
        _ => None,
    }
}

/// `seg` placed under the directory `base`.
pub fn join(base: &str, seg: &str) -> (r: String)
    ensures
        r@ == join_path(base@, seg@),
{
    let n = base.unicode_len();
    if n == 0 {
        seg.to_owned()
    } else if base.get_char(n - 1) == '/' {
        concat_str(base, seg)
    } else {
        let sep = "/";
        proof {
            reveal_strlit("/");
        }
        assert(sep@ =~= seq!['/']);
        let with_sep = concat_str(base, sep);
        concat_str(with_sep.as_str(), seg)
    }
}

/// The directory of the mirror of `upstream` under `base`; fails with
/// `NoDirInvalidUpstreamUrl` where the URL has no domain.
pub fn mirror_path(base: &str, upstream: &UpstreamUrl) -> (r: FResult<String>)
    ensures
        r is Ok <==> upstream.domain is Some,
        r is Ok ==> r->Ok_0@ == mirror_path_of(base@, upstream.domain->Some_0@, upstream.path@),
        r is Err ==> (match r->Err_0 {
            FError::NoDirInvalidUpstreamUrl(t) => t@ == upstream.text@,
            _ => false,
        }),
{
    match &upstream.domain {
        None => Err(FError::NoDirInvalidUpstreamUrl(upstream.text.clone())),
        Some(domain) => {
            let under_domain = join(base, domain.as_str());
            let p = upstream.path.as_str();
            let n = p.unicode_len();
            if n > 0 && p.get_char(0) == '/' {
                let rest = p.substring_char(1, n);
                Ok(join(under_domain.as_str(), rest))
            } else {
                Ok(join(under_domain.as_str(), p))
            }
        },
    }
}

/// The directory of the mirror of the upstream string `upstream` under `base`.
/// Fails with `NotAUrl` where `upstream` is not a URL, and with
/// `NoDirInvalidUpstreamUrl` where its host is not a domain.
pub fn resolve_mirror_path(base: &str, upstream: &str) -> (r: FResult<String>)
    ensures
        r is Ok <==> upstream_mirror_path(base@, upstream@) is Some,
        r is Ok ==> r->Ok_0@ == upstream_mirror_path(base@, upstream@)->Some_0,
        r is Err ==> (parsed_url(upstream@) is None <==> r->Err_0 is NotAUrl),
        r is Err ==> (parsed_url(upstream@) is Some <==> r->Err_0 is NoDirInvalidUpstreamUrl),
{
    let u = UpstreamUrl::parse(upstream)?;
    mirror_path(base, &u)
}

/// A mirror's directory is a function of the base and of the upstream URL's
/// domain and path: two upstream strings that agree on those, the same string
/// twice among them, are placed in the same directory.
pub proof fn lemma_mirror_path_deterministic(base: Seq<char>, s1: Seq<char>, s2: Seq<char>)
    requires
        parsed_url(s1) is Some,
        parsed_url(s2) is Some,
        parsed_url(s1)->Some_0.1 is Some,
        parsed_url(s1)->Some_0.1 == parsed_url(s2)->Some_0.1,
        parsed_url(s1)->Some_0.2 == parsed_url(s2)->Some_0.2,
    ensures
        upstream_mirror_path(base, s1) is Some,
        upstream_mirror_path(base, s1) == upstream_mirror_path(base, s2),
{
}

} // verus!
