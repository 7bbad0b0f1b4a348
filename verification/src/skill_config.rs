//! Skill lists of team namespaces in their first format, which names skills without tags.
use vstd::prelude::*;

use crate::operator_config::{
    file_cut_fails, file_path, file_url_cut_fails, source_for_url, spec_url_scheme, url_scheme,
    DescriptionSource, LoaderError,
};
use crate::text::str_eq;

verus! {

/// A skill of a skill list, by name.
#[derive(Debug, Clone, PartialEq, Eq)]
pub struct Skill {
    pub name: String,
}

/// A skill list in a local file.
#[derive(Debug, Clone, PartialEq, Eq)]
pub struct LocalNamespace {
    pub path: String,
}

impl LocalNamespace {
    /// The skill list in the file at `path`.
    pub fn new(path: String) -> (n: LocalNamespace)
        ensures
            n.path == path,
    {
        LocalNamespace { path }
    }
}

/// A skill list fetched over HTTP, with a bearer token where one is given.
#[derive(Debug, Clone, PartialEq, Eq)]
pub struct RemoteNamespace {
    pub token: Option<String>,
    pub url: String,
}

impl RemoteNamespace {
    /// The skill list at `url`, fetched with `token`. The token of a team is held by the
    /// environment variable `TEAM_CONFIG_TOKEN`, which the caller reads.
    pub fn with_token(url: &str, token: Option<String>) -> (n: RemoteNamespace)
        ensures
            n.url@ == url@,
            n.token == token,
    {
        RemoteNamespace { token, url: url.to_owned() }
    }
}

/// Where the skill list at a URL is read from.
#[derive(Debug, Clone, PartialEq, Eq)]
pub enum NamespaceSource {
    Remote(String),
    Local(LocalNamespace),
}

/// Something that delivers a skill list. Fetching it is input and output, which callers of this
/// crate implement.
pub trait Namespace {
    /// The skills of the list, or why they could not be had.
    fn skills(&mut self) -> Result<Vec<Skill>, String>;
}

/// `r` is where the skill list at `raw_url` is read from: `http` and `https` URLs remotely,
/// `file` URLs from the file named by the text after their first seven bytes, `file://`.
pub open spec fn namespace_source_outcome(raw_url: Seq<char>, r: Result<NamespaceSource, LoaderError>) -> bool {
    match spec_url_scheme(raw_url) {
        None => r == Err::<NamespaceSource, LoaderError>(LoaderError::InvalidUrl),
        Some(s) => if s == "https"@ || s == "http"@ {
            r matches Ok(NamespaceSource::Remote(u)) && u@ == raw_url
        } else if s == "file"@ {
            r matches Ok(NamespaceSource::Local(l)) && l.path@ == file_path(raw_url)
        } else {
            r matches Err(LoaderError::UnsupportedScheme(x)) && x@ == s
        },
    }
}

/// Where the skill list at `raw_url` is read from. A `file` URL whose first seven bytes cannot
/// be cut off is left out.
pub fn namespace_from_url(raw_url: &str) -> (r: Result<NamespaceSource, LoaderError>)
    requires
        !file_cut_fails(raw_url@),
    ensures
        namespace_source_outcome(raw_url@, r),
{
    let scheme = url_scheme(raw_url);
    proof {
        reveal_strlit("file");
    }
    match source_for_url(raw_url, scheme, None) {
        Ok(DescriptionSource::Http { url, .. }) => Ok(NamespaceSource::Remote(url)),
        Ok(DescriptionSource::File { path }) => Ok(NamespaceSource::Local(LocalNamespace::new(path))),
        Err(e) => Err(e),
    }
}

/// Where the skill list at `raw_url` is read from, as [`namespace_from_url`] chooses it; `None`
/// where `raw_url` is a `file` URL whose first seven bytes cannot be cut off, which that
/// function leaves out.
pub fn try_namespace_from_url(raw_url: &str) -> (r: Option<Result<NamespaceSource, LoaderError>>)
    ensures
        r is None <==> file_cut_fails(raw_url@),
        r matches Some(x) ==> namespace_source_outcome(raw_url@, x),
{
    if file_url_cut_fails(raw_url) {
        None
    } else {
        Some(namespace_from_url(raw_url))
    }
}

} // verus!
