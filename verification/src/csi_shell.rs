//! The versioned CSI over HTTP: what the shell answers to a request whose version it does not
//! understand, and the status codes of its errors.
use vstd::prelude::*;

verus! {

/// A version of the CSI, as major and minor number.
#[derive(Debug, Clone, Copy, PartialEq, Eq, Structural)]
pub struct SupportedVersion {
    pub major: u64,
    pub minor: u64,
}

impl SupportedVersion {
    /// The newest CSI version that this engine speaks.
    pub fn latest_supported_version() -> (v: SupportedVersion)
        ensures
            v == latest_version(),
    {
        SupportedVersion { major: 0, minor: 4 }
    }
}

/// The newest CSI version that this engine speaks.
pub open spec fn latest_version() -> SupportedVersion {
    SupportedVersion { major: 0, minor: 4 }
}

/// Errors the CSI shell answers with.
#[derive(Debug, Clone, PartialEq, Eq)]
pub enum CsiShellError {
    /// An error inside the engine, with its message.
    Internal(String),
    /// The named CSI function is not known to this engine.
    UnknownFunction(String),
    /// The requested version is newer than any this engine speaks.
    NotSupported,
    /// The requested version is older than any this engine still speaks.
    NoLongerSupported,
    /// The request carries no version, or one that is not a version.
    InvalidVersion,
}

/// The text the shell answers with for an error.
pub open spec fn spec_message(e: CsiShellError) -> Seq<char> {
    match e {
        CsiShellError::Internal(m) => m@,
        CsiShellError::UnknownFunction(f) => "The CSI function "@ + f@
            + " is not supported by this Kernel installation yet. Try updating your Kernel version or downgrading your SDK."@,
        CsiShellError::NotSupported => "The specified CSI version is not supported by this Kernel installation yet. Try updating your Kernel version or downgrading your SDK."@,
        CsiShellError::NoLongerSupported => "This CSI version is no longer supported by the Kernel. Try upgrading your SDK."@,
        CsiShellError::InvalidVersion => "A valid CSI version is required. Try upgrading your SDK."@,
    }
}

impl CsiShellError {
    /// The error for a request that names no known CSI function; where it names none at all,
    /// the answer speaks of the function "specified".
    pub fn unknown_function(function: Option<String>) -> (e: CsiShellError)
        ensures
            e matches CsiShellError::UnknownFunction(f) && f@ == (match function {
                Some(g) => g@,
                None => "specified"@,
            }),
    {
        match function {
            Some(f) => CsiShellError::UnknownFunction(f),
            None => CsiShellError::UnknownFunction(String::from_str("specified")),
        }
    }

    /// The text the shell answers with for this error.
    pub fn message(&self) -> (m: String)
        ensures
            m@ == spec_message(*self),
    {
        match self {
            CsiShellError::Internal(m) => m.clone(),
            CsiShellError::UnknownFunction(f) => {
                let mut m = String::from_str("The CSI function ");
                m.append(f.as_str());
                m.append(
                    " is not supported by this Kernel installation yet. Try updating your Kernel version or downgrading your SDK.",
                );
                m
            },
            CsiShellError::NotSupported => String::from_str(
                "The specified CSI version is not supported by this Kernel installation yet. Try updating your Kernel version or downgrading your SDK.",
            ),
            CsiShellError::NoLongerSupported => String::from_str(
                "This CSI version is no longer supported by the Kernel. Try upgrading your SDK.",
            ),
            CsiShellError::InvalidVersion => String::from_str(
                "A valid CSI version is required. Try upgrading your SDK.",
            ),
        }
    }

    /// The HTTP status code of the answer: 500 for internal errors, 400 for all others.
    pub fn status_code(&self) -> (code: u16)
        ensures
            code == (if self is Internal {
                500u16
            } else {
                400u16
            }),
    {
        match self {
            CsiShellError::Internal(_) => 500,
            _ => 400,
        }
    }
}

/// The comparators of a version requirement, each as its major and optional minor number, or
/// `None` where the text is no version requirement.
pub uninterp spec fn spec_parse_version_req(text: Seq<char>) -> Option<Seq<(u64, Option<u64>)>>;

/// Parses `text` as a semver version requirement (`semver::VersionReq::parse`) and keeps the
/// major and minor number of each comparator. The parse itself is trusted: the contract names its
/// result without stating the semver grammar.
#[verifier::external_body]
fn parse_version_req(text: &str) -> (r: Option<Vec<(u64, Option<u64>)>>)
    ensures
        spec_parse_version_req(text@) == match r {
            Some(v) => Some(v@),
            None => None,
        },
{
    match semver::VersionReq::parse(text) {
        Ok(req) => Some(req.comparators.iter().map(|c| (c.major, c.minor)).collect()),
        Err(_) => None,
    }
}

/// The error for a request in an unknown version, given the comparators of its version
/// requirement (`None` where there is no version or it does not parse).
///
/// A single comparator newer than the latest supported version means the version is not
/// supported yet; any other single comparator means it is no longer supported. The minor number
/// only counts where the major numbers agree.
pub open spec fn spec_classify_version(parsed: Option<Seq<(u64, Option<u64>)>>) -> CsiShellError {
    match parsed {
        Some(cs) => if cs.len() == 1 {
            let (major, minor) = cs[0];
            let latest = latest_version();
            if major > latest.major || (major == latest.major && (minor matches Some(m)
                && m > latest.minor)) {
                CsiShellError::NotSupported
            } else {
                CsiShellError::NoLongerSupported
            }
        } else {
            CsiShellError::InvalidVersion
        },
        None => CsiShellError::InvalidVersion,
    }
}

/// The error for a request in an unknown version, given the comparators of its version
/// requirement.
pub fn classify_version(parsed: Option<Vec<(u64, Option<u64>)>>) -> (e: CsiShellError)
    ensures
        e == spec_classify_version(
            match parsed {
                Some(v) => Some(v@),
                None => None,
            },
        ),
{
    match parsed {
        Some(cs) => {
            if cs.len() == 1 {
                let (major, minor) = cs[0];
                let latest = SupportedVersion::latest_supported_version();
                let newer_minor = match minor {
                    Some(m) => m > latest.minor,
                    None => false,
                };
                if major > latest.major || (major == latest.major && newer_minor) {
                    CsiShellError::NotSupported
                } else {
                    CsiShellError::NoLongerSupported
                }
            } else {
                CsiShellError::InvalidVersion
            }
        },
        None => CsiShellError::InvalidVersion,
    }
}

/// Gives access to the CSI that the shell serves.
pub trait CsiProvider {
    type Csi;

    fn csi(&self) -> &Self::Csi;
}

/// The CSI as state of the shell's request handlers.
pub struct CsiState<M>(pub M);

/// A request whose version the shell does not know.
#[derive(Debug, Clone, PartialEq, Eq)]
pub struct UnknownCsiRequest {
    pub version: Option<String>,
}

/// The error for a request in an unknown version.
pub open spec fn spec_unknown_request_error(version: Option<Seq<char>>) -> CsiShellError {
    match version {
        Some(v) => spec_classify_version(spec_parse_version_req(v)),
        None => CsiShellError::InvalidVersion,
    }
}

impl From<UnknownCsiRequest> for CsiShellError {
    fn from(e: UnknownCsiRequest) -> (r: CsiShellError) {
        match e.version {
            Some(v) => classify_version(parse_version_req(v.as_str())),
            None => CsiShellError::InvalidVersion,
        }
    }
}

impl vstd::std_specs::convert::FromSpecImpl<UnknownCsiRequest> for CsiShellError {
    open spec fn obeys_from_spec() -> bool {
        true
    }

    open spec fn from_spec(e: UnknownCsiRequest) -> CsiShellError {
        spec_unknown_request_error(
            match e.version {
                Some(v) => Some(v@),
                None => None,
            },
        )
    }
}

/// A request in a version the shell does not speak is the client's fault: whatever version it
/// names, or if it names none, the answer is never an internal error and its status code is 400.
pub proof fn law_unknown_version_is_client_error(version: Option<Seq<char>>)
    ensures
        !(spec_unknown_request_error(version) is Internal),
{
}

} // verus!
