//! The operator configuration: which namespaces exist, where their skill lists come from, and
//! which registry holds their skills.
use vstd::prelude::*;

use crate::name_map::NameMap;
use crate::text::{chars_of, str_eq, string_of_range};

verus! {

/// Where the skills of a namespace are stored.
#[derive(Debug, Clone, PartialEq, Eq)]
pub enum Registry {
    File { path: String },
    Oci { registry: String, repository: String },
}

/// The configuration of one namespace.
#[derive(Debug, Clone, PartialEq, Eq)]
pub enum NamespaceConfig {
    /// A namespace owned by a team, which lists its skills in a file at `config_url`.
    TeamOwned {
        config_url: String,
        /// The environment variable that holds the token for fetching the skill list.
        config_access_token_env_var: Option<String>,
        registry: Registry,
    },
}

/// The namespaces of a configuration, by name.
pub type NamespaceConfigs = NameMap<NamespaceConfig>;

/// The namespace of a local installation: its skill list is the file `namespace.toml`, needs
/// no token, and its skills are in the directory `skills`.
pub open spec fn is_local_namespace(c: NamespaceConfig) -> bool {
    match c {
        NamespaceConfig::TeamOwned { config_url, config_access_token_env_var, registry } => {
            &&& config_url@ == "file://namespace.toml"@
            &&& config_access_token_env_var is None
            &&& match registry {
                Registry::File { path } => path@ == "skills"@,
                _ => false,
            }
        },
    }
}

/// The operator configuration: the configured namespaces.
#[derive(Debug, Clone, PartialEq, Eq)]
pub struct OperatorConfig {
    pub namespaces: NamespaceConfigs,
}

impl OperatorConfig {
    /// A configuration with no namespaces.
    pub fn empty() -> (c: OperatorConfig)
        ensures
            c.namespaces.well_formed(),
            c.namespaces.entries().len() == 0,
    {
        OperatorConfig { namespaces: NameMap::new() }
    }

    /// The configuration for running the engine locally: a single namespace `local` whose skill
    /// list is the file `namespace.toml` and whose skills are in the directory `skills`.
    pub fn local() -> (c: OperatorConfig)
        ensures
            c.namespaces.well_formed(),
            c.namespaces.names() == seq!["local"@],
            c.namespaces.lookup("local"@) matches Some(n) && is_local_namespace(n),
    {
        let mut namespaces = NameMap::new();
        let config = NamespaceConfig::TeamOwned {
            config_url: "file://namespace.toml".to_owned(),
            config_access_token_env_var: None,
            registry: Registry::File { path: "skills".to_owned() },
        };
        let ghost cv = config;
        namespaces.insert("local".to_owned(), config);
        proof {
            assert(namespaces.entries().len() == 1);
            assert(namespaces.names().contains("local"@));
            assert(namespaces.names() =~= seq!["local"@]);
        }
        OperatorConfig { namespaces }
    }
}

/// Where the skill list of a namespace is fetched from.
#[derive(Debug, Clone, PartialEq, Eq)]
pub enum DescriptionSource {
    /// Fetched over HTTP from `url`, with the token held by the environment variable
    /// `token_env_var`, if any.
    Http { url: String, token_env_var: Option<String> },
    /// Read from the file at `path`.
    File { path: String },
}

/// Why no source for a skill list could be chosen.
#[derive(Debug, Clone, PartialEq, Eq)]
pub enum LoaderError {
    /// The configured URL is not a URL.
    InvalidUrl,
    /// The URL has a scheme other than `http`, `https` and `file`.
    UnsupportedScheme(String),
}

/// The scheme of `url`, or `None` where `url` is not a URL.
pub uninterp spec fn spec_url_scheme(url: Seq<char>) -> Option<Seq<char>>;

/// Parses `url` with `url::Url::parse` and answers its scheme. The URL grammar is trusted; the
/// contract names the result.
#[verifier::external_body]
pub(crate) fn url_scheme(url: &str) -> (r: Option<String>)
    ensures
        spec_url_scheme(url@) == match r {
            Some(s) => Some(s@),
            None => None,
        },
{
    match url::Url::parse(url) {
        Ok(parsed) => Some(parsed.scheme().to_owned()),
        Err(_) => None,
    }
}

/// The number of bytes that `c` takes up in UTF-8.
pub open spec fn utf8_width(c: char) -> int {
    if (c as u32) < 0x80 {
        1
    } else if (c as u32) < 0x800 {
        2
    } else if (c as u32) < 0x10000 {
        3
    } else {
        4
    }
}

/// How many characters of `s` take up exactly its first `n` bytes in UTF-8; `None` where `s` is
/// shorter than `n` bytes or byte `n` falls inside a character.
pub open spec fn chars_in_bytes(s: Seq<char>, n: int) -> Option<int>
    decreases s.len(),
{
    if n == 0 {
        Some(0)
    } else if n < 0 || s.len() == 0 {
        None
    } else {
        match chars_in_bytes(s.drop_first(), n - utf8_width(s[0])) {
            Some(k) => Some(k + 1),
            None => None,
        }
    }
}

/// The UTF-8 text of `url` has at least seven bytes and its seventh byte ends a character, so
/// that the seven bytes of the `file://` prefix can be cut off.
pub open spec fn file_prefix_droppable(url: Seq<char>) -> bool {
    chars_in_bytes(url, 7) is Some
}

/// The text of a `file` URL after its first seven bytes.
pub open spec fn file_path(url: Seq<char>) -> Seq<char> {
    url.skip(chars_in_bytes(url, 7).unwrap())
}

/// How many of the characters from `cs[i]` on take up exactly their first `n` bytes in UTF-8.
fn chars_in_bytes_from(cs: &Vec<char>, i: usize, n: u32) -> (r: Option<usize>)
    requires
        i <= cs.len(),
        n <= 7,
    ensures
        match r {
            Some(k) => chars_in_bytes(cs@.skip(i as int), n as int) == Some(k as int) && k <= n && k
                <= cs.len() - i,
            None => chars_in_bytes(cs@.skip(i as int), n as int) is None,
        },
    decreases cs.len() - i,
{
    if n == 0 {
        return Some(0);
    }
    if i == cs.len() {
        assert(cs@.skip(i as int).len() == 0);
        return None;
    }
    let c = cs[i];
    let w: u32 = if (c as u32) < 0x80 {
        1
    } else if (c as u32) < 0x800 {
        2
    } else if (c as u32) < 0x10000 {
        3
    } else {
        4
    };
    assert(cs@.skip(i as int).drop_first() =~= cs@.skip(i + 1));
    assert(cs@.skip(i as int)[0] == c);
    assert(w == utf8_width(c));
    if w > n {
        assert(chars_in_bytes(cs@.skip(i + 1), n - w) is None);
        return None;
    }
    match chars_in_bytes_from(cs, i + 1, n - w) {
        Some(k) => Some(k + 1),
        None => None,
    }
}

/// `url` is a `file` URL whose first seven bytes cannot be cut off: it is shorter than seven
/// bytes, or its seventh byte falls inside a character. Cutting would panic on such a URL.
pub open spec fn file_cut_fails(url: Seq<char>) -> bool {
    spec_url_scheme(url) == Some("file"@) && !file_prefix_droppable(url)
}

/// Is `url`, with the scheme `scheme`, a `file` URL whose first seven bytes cannot be cut off?
fn cut_fails_for(url: &str, scheme: &Option<String>) -> (r: bool)
    ensures
        r == (scheme matches Some(s) && s@ == "file"@ && !file_prefix_droppable(url@)),
{
    match scheme {
        Some(s) => {
            if str_eq(s.as_str(), "file") {
                let cs = chars_of(url);
                assert(cs@.skip(0) =~= url@);
                chars_in_bytes_from(&cs, 0, 7).is_none()
            } else {
                false
            }
        },
        None => false,
    }
}

/// Is `url` a `file` URL whose first seven bytes cannot be cut off?
pub(crate) fn file_url_cut_fails(url: &str) -> (r: bool)
    ensures
        r == file_cut_fails(url@),
{
    let scheme = url_scheme(url);
    proof {
        reveal_strlit("file");
    }
    cut_fails_for(url, &scheme)
}

/// The source of a skill list at `url`, given the scheme of the URL. A `file` URL names the
/// file by the text after its first seven bytes, `file://`.
pub fn source_for_url(url: &str, scheme: Option<String>, token_env_var: Option<String>) -> (r: Result<
    DescriptionSource,
    LoaderError,
>)
    requires
        scheme matches Some(s) && s@ == "file"@ ==> file_prefix_droppable(url@),
    ensures
        match scheme {
            None => r == Err::<DescriptionSource, LoaderError>(LoaderError::InvalidUrl),
            Some(s) => if s@ == "https"@ || s@ == "http"@ {
                r matches Ok(DescriptionSource::Http { url: u, token_env_var: t }) && u@ == url@
                    && t == token_env_var
            } else if s@ == "file"@ {
                r matches Ok(DescriptionSource::File { path }) && path@ == file_path(url@)
            } else {
                r matches Err(LoaderError::UnsupportedScheme(x)) && x@ == s@
            },
        },
{
    match scheme {
        None => Err(LoaderError::InvalidUrl),
        Some(s) => {
            if str_eq(s.as_str(), "https") || str_eq(s.as_str(), "http") {
                Ok(DescriptionSource::Http { url: url.to_owned(), token_env_var })
            } else if str_eq(s.as_str(), "file") {
                let cs = chars_of(url);
                assert(cs@.skip(0) =~= url@);
                let k = match chars_in_bytes_from(&cs, 0, 7) {
                    Some(k) => k,
                    // The precondition rules this out.
                    None => 0,
                };
                let n = url.unicode_len();
                Ok(DescriptionSource::File { path: string_of_range(url, k, n) })
            } else {
                Err(LoaderError::UnsupportedScheme(s))
            }
        },
    }
}

impl NamespaceConfig {
    /// The URL of this namespace is a `file` URL whose first seven bytes cannot be cut off.
    pub open spec fn cut_fails(&self) -> bool {
        match self {
            NamespaceConfig::TeamOwned { config_url, .. } => file_cut_fails(config_url@),
        }
    }

    /// Is the URL of this namespace a `file` URL whose first seven bytes cannot be cut off?
    pub(crate) fn url_cut_fails(&self) -> (r: bool)
        ensures
            r == self.cut_fails(),
    {
        match self {
            NamespaceConfig::TeamOwned { config_url, .. } => file_url_cut_fails(config_url.as_str()),
        }
    }

    /// No source for the skill list of this namespace can be chosen: its URL is not a URL, or
    /// has a scheme other than `http`, `https` and `file`.
    pub open spec fn loader_fails(&self) -> bool {
        match self {
            NamespaceConfig::TeamOwned { config_url, .. } => match spec_url_scheme(config_url@) {
                None => true,
                Some(s) => !(s == "https"@ || s == "http"@ || s == "file"@),
            },
        }
    }

    /// `r` is where the skill list of this namespace is fetched from, as [`Self::loader`]
    /// chooses it.
    pub open spec fn loader_outcome(&self, r: Result<DescriptionSource, LoaderError>) -> bool {
        match self {
            NamespaceConfig::TeamOwned { config_url, config_access_token_env_var, .. } => match spec_url_scheme(
                config_url@,
            ) {
                None => r == Err::<DescriptionSource, LoaderError>(LoaderError::InvalidUrl),
                Some(s) => if s == "https"@ || s == "http"@ {
                    r matches Ok(DescriptionSource::Http { url: u, token_env_var: t }) && u@
                        == config_url@ && t == *config_access_token_env_var
                } else if s == "file"@ {
                    r matches Ok(DescriptionSource::File { path }) && path@ == file_path(config_url@)
                } else {
                    r matches Err(LoaderError::UnsupportedScheme(x)) && x@ == s
                },
            },
        }
    }

    /// Where the skill list of this namespace is fetched from.
    ///
    /// `http` and `https` URLs are fetched with the configured token; `file` URLs name a file
    /// by the text after their first seven bytes, `file://`. A `file` URL whose first seven
    /// bytes cannot be cut off is left out.
    pub fn loader(&self) -> (r: Result<DescriptionSource, LoaderError>)
        requires
            !self.cut_fails(),
        ensures
            self.loader_outcome(r),
    {
        match self {
            NamespaceConfig::TeamOwned { config_url, config_access_token_env_var, .. } => {
                let scheme = url_scheme(config_url.as_str());
                proof {
                    reveal_strlit("file");
                }
                source_for_url(config_url.as_str(), scheme, config_access_token_env_var.clone())
            },
        }
    }
}

} // verus!
