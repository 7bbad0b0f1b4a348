//! The OCI registry that skills are pulled from: its coordinates and the references of skill
//! images in it. Pulling the images is input and output and happens outside this crate.
use vstd::prelude::*;

use crate::text::{chars_of, string_of_range};

verus! {

/// `s` without the slashes at its start.
pub open spec fn trim_start_slashes(s: Seq<char>) -> Seq<char>
    decreases s.len(),
{
    if s.len() > 0 && s[0] == '/' {
        trim_start_slashes(s.drop_first())
    } else {
        s
    }
}

/// `s` without the slashes at its end.
pub open spec fn trim_end_slashes(s: Seq<char>) -> Seq<char>
    decreases s.len(),
{
    if s.len() > 0 && s.last() == '/' {
        trim_end_slashes(s.drop_last())
    } else {
        s
    }
}

/// `s` without the slashes at its start and end.
pub open spec fn trim_slashes(s: Seq<char>) -> Seq<char> {
    trim_end_slashes(trim_start_slashes(s))
}

proof fn lemma_trim_start(s: Seq<char>, a: int)
    requires
        0 <= a <= s.len(),
        forall|i: int| 0 <= i < a ==> s[i] == '/',
        a == s.len() || s[a] != '/',
    ensures
        trim_start_slashes(s) == s.skip(a),
    decreases a,
{
    if a == 0 {
        assert(s.skip(0) =~= s);
    } else {
        let t = s.drop_first();
        lemma_trim_start(t, a - 1);
        assert(t.skip(a - 1) =~= s.skip(a));
    }
}

proof fn lemma_trim_end(s: Seq<char>, b: int)
    requires
        0 <= b <= s.len(),
        forall|i: int| b <= i < s.len() ==> s[i] == '/',
        b == 0 || s[b - 1] != '/',
    ensures
        trim_end_slashes(s) == s.take(b),
    decreases s.len() - b,
{
    if b == s.len() {
        assert(s.take(b) =~= s);
    } else {
        let t = s.drop_last();
        lemma_trim_end(t, b);
        assert(t.take(b) =~= s.take(b));
    }
}

proof fn lemma_trim_start_result(s: Seq<char>)
    ensures
        trim_start_slashes(s).len() == 0 || trim_start_slashes(s)[0] != '/',
    decreases s.len(),
{
    if s.len() > 0 && s[0] == '/' {
        lemma_trim_start_result(s.drop_first());
    }
}

proof fn lemma_trim_end_result(s: Seq<char>)
    ensures
        trim_end_slashes(s).len() == 0 || trim_end_slashes(s).last() != '/',
        trim_end_slashes(s).len() <= s.len(),
        s.len() > 0 && s[0] != '/' ==> trim_end_slashes(s).len() > 0 && trim_end_slashes(s)[0] == s[0],
    decreases s.len(),
{
    if s.len() > 0 && s.last() == '/' {
        let t = s.drop_last();
        lemma_trim_end_result(t);
    }
}

/// Trimming slashes a second time changes nothing: the trimmed text neither starts nor ends with
/// a slash.
pub proof fn law_trimming_slashes_is_idempotent(s: Seq<char>)
    ensures
        trim_slashes(trim_slashes(s)) == trim_slashes(s),
        trim_slashes(s).len() == 0 || (trim_slashes(s)[0] != '/' && trim_slashes(s).last() != '/'),
{
    let a = trim_start_slashes(s);
    lemma_trim_start_result(s);
    lemma_trim_end_result(a);
    let u = trim_end_slashes(a);
    assert(u == trim_slashes(s));
    lemma_trim_start_result(u);
    if u.len() > 0 {
        assert(u[0] != '/');
        assert(trim_start_slashes(u) == u);
        assert(trim_end_slashes(u) == u);
    } else {
        assert(trim_start_slashes(u) == u);
        assert(trim_end_slashes(u) == u);
    }
}

/// `s` without the slashes at its start and end.
pub fn trim_matches_slash(s: &str) -> (r: String)
    ensures
        r@ == trim_slashes(s@),
{
    let chars = chars_of(s);
    let n = chars.len();
    let mut a: usize = 0;
    while a < n && chars[a] == '/'
        invariant
            chars@ == s@,
            n == chars.len(),
            a <= n,
            forall|i: int| 0 <= i < a ==> chars@[i] == '/',
        decreases n - a,
    {
        a = a + 1;
    }
    let mut b: usize = n;
    while b > a && chars[b - 1] == '/'
        invariant
            chars@ == s@,
            n == chars.len(),
            a <= b <= n,
            forall|i: int| b <= i < n ==> chars@[i] == '/',
        decreases b,
    {
        b = b - 1;
    }
    proof {
        lemma_trim_start(s@, a as int);
        let t = s@.skip(a as int);
        assert forall|i: int| (b - a) <= i < t.len() implies t[i] == '/' by {
            assert(t[i] == s@[i + a]);
        }
        if b > a {
            assert(t[b - a - 1] == s@[b - 1]);
        }
        lemma_trim_end(t, b - a);
        assert(t.take(b - a) =~= s@.subrange(a as int, b as int));
    }
    string_of_range(s, a, b)
}

/// The reference of a skill image: registry, repository and tag.
#[derive(Debug, Clone, PartialEq, Eq)]
pub struct Reference {
    pub registry: String,
    pub repository: String,
    pub tag: String,
}

impl Reference {
    /// The repository of the image.
    pub fn repository(&self) -> (r: &str)
        ensures
            r@ == self.repository@,
    {
        self.repository.as_str()
    }
}

/// The coordinates of an OCI registry holding skills, and the credentials for it.
#[derive(Debug, Clone, PartialEq, Eq)]
pub struct OciRegistry {
    pub registry: String,
    /// The repository below which the skills are stored, without surrounding slashes.
    pub base_repository: Option<String>,
    pub username: String,
    pub password: String,
}

impl OciRegistry {
    /// The registry at `registry`; the base repository is kept without surrounding slashes.
    pub fn new(registry: String, base_repository: Option<String>, username: String, password: String) -> (r: OciRegistry)
        ensures
            r.registry == registry,
            r.username == username,
            r.password == password,
            match base_repository {
                Some(b) => r.base_repository matches Some(t) && t@ == trim_slashes(b@),
                None => r.base_repository is None,
            },
    {
        let base = match base_repository {
            Some(b) => Some(trim_matches_slash(b.as_str())),
            None => None,
        };
        OciRegistry { registry, base_repository: base, username, password }
    }

    /// The basic credentials for the registry.
    pub fn auth(&self) -> (r: (String, String))
        ensures
            r.0 == self.username,
            r.1 == self.password,
    {
        (self.username.clone(), self.password.clone())
    }

    /// The reference of the image of skill `name` with `tag`: below the base repository where
    /// there is a non-empty one, else at the top of the registry.
    pub fn reference(&self, name: &str, tag: &str) -> (r: Reference)
        ensures
            r.registry == self.registry,
            r.tag@ == tag@,
            match self.base_repository {
                Some(b) if b@.len() > 0 => r.repository@ == b@ + "/"@ + name@,
                _ => r.repository@ == name@,
            },
    {
        let repository = match &self.base_repository {
            Some(b) => {
                if b.as_str().unicode_len() > 0 {
                    let mut r = b.clone();
                    r.append("/");
                    r.append(name);
                    r
                } else {
                    name.to_owned()
                }
            },
            None => name.to_owned(),
        };
        Reference { registry: self.registry.clone(), repository, tag: tag.to_owned() }
    }
}

/// An error code of the OCI distribution specification.
#[derive(Debug, Clone, Copy, PartialEq, Eq, Structural)]
pub enum OciErrorCode {
    BlobUnknown,
    BlobUploadInvalid,
    BlobUploadUnknown,
    DigestInvalid,
    ManifestBlobUnknown,
    ManifestInvalid,
    ManifestUnknown,
    NameInvalid,
    NameUnknown,
    SizeInvalid,
    Unauthorized,
    Denied,
    Unsupported,
    TooManyRequests,
}

/// How a request to the registry failed.
#[derive(Debug, Clone, PartialEq, Eq)]
pub enum OciFailure {
    /// The registry answered with errors, with their codes.
    Registry { codes: Vec<OciErrorCode> },
    /// The manifest of the image was not found.
    ImageManifestNotFound,
    /// Any other failure.
    Other,
}

/// The failure says that the skill is not in the registry: the registry does not know the
/// manifest.
pub open spec fn spec_is_skill_not_found(f: OciFailure) -> bool {
    match f {
        OciFailure::Registry { codes } => exists|i: int|
            0 <= i < codes.len() && #[trigger] codes@[i] == OciErrorCode::ManifestUnknown,
        OciFailure::ImageManifestNotFound => true,
        OciFailure::Other => false,
    }
}

/// Does any of the codes say that the manifest is unknown?
fn has_manifest_unknown(codes: &Vec<OciErrorCode>) -> (r: bool)
    ensures
        r == exists|i: int| 0 <= i < codes.len() && #[trigger] codes@[i] == OciErrorCode::ManifestUnknown,
{
    let mut i: usize = 0;
    while i < codes.len()
        invariant
            i <= codes.len(),
            forall|k: int| 0 <= k < i ==> codes@[k] != OciErrorCode::ManifestUnknown,
        decreases codes.len() - i,
    {
        if codes[i] == OciErrorCode::ManifestUnknown {
            assert(codes@[i as int] == OciErrorCode::ManifestUnknown);
            return true;
        }
        i = i + 1;
    }
    false
}

/// Does the failure say that the skill is not in the registry?
pub fn is_skill_not_found(failure: &OciFailure) -> (r: bool)
    ensures
        r == spec_is_skill_not_found(*failure),
{
    match failure {
        OciFailure::Registry { codes } => has_manifest_unknown(codes),
        OciFailure::ImageManifestNotFound => true,
        OciFailure::Other => false,
    }
}

/// The errors of loading a skill from the registry.
#[derive(Debug, Clone, PartialEq, Eq)]
pub enum RegistryError {
    /// The image could not be pulled, with the failure as text.
    SkillRetrievalError(String),
    /// The digest of the image could not be fetched, with the failure as text.
    DigestRetrievalError(String),
    /// The image was pulled, but the registry knows no digest for it.
    DigestShouldExist { name: String, tag: String, registry: String },
}

/// The WebAssembly of a skill and the digest of its image.
#[derive(Debug, Clone, PartialEq, Eq)]
pub struct SkillImage {
    pub binary: Vec<u8>,
    pub digest: String,
}

/// What came of pulling the image of a skill.
#[derive(Debug, Clone, PartialEq, Eq)]
pub enum PullOutcome {
    /// The first layer of the image, and its digest where the registry reported one.
    Pulled { binary: Vec<u8>, digest: Option<String> },
    /// The pull failed, with the failure and its text.
    Failed { failure: OciFailure, text: String },
}

/// What came of fetching the digest of the manifest of an image.
#[derive(Debug, Clone, PartialEq, Eq)]
pub enum DigestOutcome {
    Found(String),
    Failed { failure: OciFailure, text: String },
}

/// The next step of loading a skill after its image was pulled.
#[derive(Debug, PartialEq, Eq)]
pub enum LoadStep {
    /// Loading is over: the image, no image where the skill is not in the registry, or an error.
    Done(Result<Option<SkillImage>, RegistryError>),
    /// The registry reported no digest: fetch it, and keep the binary.
    FetchDigest { binary: Vec<u8> },
}

/// What to do after pulling the image of a skill.
pub fn after_pull(outcome: PullOutcome) -> (step: LoadStep)
    ensures
        match outcome {
            PullOutcome::Pulled { binary, digest: Some(d) } => step == LoadStep::Done(
                Ok(Some(SkillImage { binary, digest: d })),
            ),
            PullOutcome::Pulled { binary, digest: None } => step == LoadStep::FetchDigest { binary },
            PullOutcome::Failed { failure, text } => if spec_is_skill_not_found(failure) {
                step == LoadStep::Done(Ok(None))
            } else {
                step == LoadStep::Done(Err(RegistryError::SkillRetrievalError(text)))
            },
        },
{
    match outcome {
        PullOutcome::Pulled { binary, digest } => match digest {
            Some(d) => LoadStep::Done(Ok(Some(SkillImage { binary, digest: d }))),
            None => LoadStep::FetchDigest { binary },
        },
        PullOutcome::Failed { failure, text } => {
            if is_skill_not_found(&failure) {
                LoadStep::Done(Ok(None))
            } else {
                LoadStep::Done(Err(RegistryError::SkillRetrievalError(text)))
            }
        },
    }
}

impl OciRegistry {
    /// The skill, after its digest was fetched separately: a digest the registry does not know
    /// is an error, as the image was just pulled.
    pub fn after_digest(&self, name: &str, tag: &str, binary: Vec<u8>, outcome: DigestOutcome) -> (r:
        Result<Option<SkillImage>, RegistryError>)
        ensures
            match outcome {
                DigestOutcome::Found(d) => r == Ok::<Option<SkillImage>, RegistryError>(
                    Some(SkillImage { binary, digest: d }),
                ),
                DigestOutcome::Failed { failure, text } => if spec_is_skill_not_found(failure) {
                    r matches Err(RegistryError::DigestShouldExist { name: n, tag: t, registry: g })
                        && n@ == name@ && t@ == tag@ && g == self.registry
                } else {
                    r == Err::<Option<SkillImage>, RegistryError>(RegistryError::DigestRetrievalError(text))
                },
            },
    {
        match outcome {
            DigestOutcome::Found(d) => Ok(Some(SkillImage { binary, digest: d })),
            DigestOutcome::Failed { failure, text } => {
                if is_skill_not_found(&failure) {
                    Err(
                        RegistryError::DigestShouldExist {
                            name: name.to_owned(),
                            tag: tag.to_owned(),
                            registry: self.registry.clone(),
                        },
                    )
                } else {
                    Err(RegistryError::DigestRetrievalError(text))
                }
            },
        }
    }
}

} // verus!

