//! Namespaces group skills and tools; their names are kebab case.
use vstd::prelude::*;

use crate::text::chars_of;

verus! {

/// A character that may stand in a namespace name: a lower case ASCII letter, a digit or `-`.
pub open spec fn namespace_char(c: char) -> bool {
    ('a' <= c && c <= 'z') || ('0' <= c && c <= '9') || c == '-'
}

/// A namespace name: not empty, made of lower case ASCII letters, digits and `-`, and not
/// starting with `-`.
pub open spec fn valid_namespace(s: Seq<char>) -> bool {
    &&& s.len() > 0
    &&& s[0] != '-'
    &&& forall|i: int| 0 <= i < s.len() ==> namespace_char(#[trigger] s[i])
}

/// The name of a namespace.
#[derive(Debug, Clone, PartialEq, Eq, Hash)]
pub struct Namespace(String);

/// A name that is not a namespace name.
#[derive(Debug, Clone, PartialEq, Eq)]
pub struct InvalidNamespace(pub String);

impl Namespace {
    /// The name.
    pub closed spec fn name(&self) -> Seq<char> {
        self.0@
    }

    /// The namespace called `name`, where it is a namespace name.
    pub fn new(name: &str) -> (r: Result<Namespace, InvalidNamespace>)
        ensures
            r matches Ok(n) ==> valid_namespace(name@) && n.name() == name@,
            r matches Err(e) ==> !valid_namespace(name@) && e.0@ == name@,
    {
        let chars = chars_of(name);
        if chars.len() == 0 || chars[0] == '-' {
            return Err(InvalidNamespace(name.to_owned()));
        }
        let mut i: usize = 0;
        while i < chars.len()
            invariant
                chars@ == name@,
                i <= chars.len(),
                forall|k: int| 0 <= k < i ==> namespace_char(#[trigger] name@[k]),
            decreases chars.len() - i,
        {
            let c = chars[i];
            if !(('a' <= c && c <= 'z') || ('0' <= c && c <= '9') || c == '-') {
                assert(!namespace_char(name@[i as int]));
                return Err(InvalidNamespace(name.to_owned()));
            }
            i = i + 1;
        }
        Ok(Namespace(name.to_owned()))
    }

    /// The name of the namespace.
    pub fn as_str(&self) -> (s: &str)
        ensures
            s@ == self.name(),
    {
        self.0.as_str()
    }
}

/// The URL of an MCP server.
#[derive(Debug, Clone, PartialEq, Eq, Hash)]
pub struct McpServerUrl(pub String);

impl McpServerUrl {
    /// The server at `url`.
    pub fn new(url: String) -> (u: McpServerUrl)
        ensures
            u.0 == url,
    {
        McpServerUrl(url)
    }
}

/// An MCP server that is configured with a namespace. Per namespace configuration allows
/// different skills to have access to different tools.
#[derive(Debug, Clone, PartialEq, Eq, Hash)]
pub struct ConfiguredMcpServer {
    pub url: McpServerUrl,
    pub namespace: Namespace,
}

impl ConfiguredMcpServer {
    /// The server at `url`, for the namespace `namespace`.
    pub fn new(url: McpServerUrl, namespace: Namespace) -> (s: ConfiguredMcpServer)
        ensures
            s.url == url,
            s.namespace == namespace,
    {
        ConfiguredMcpServer { url, namespace }
    }
}

} // verus!
