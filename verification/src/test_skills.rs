//! The skills that tests run, and how each is built: where its WebAssembly file is cached, and the
//! command lines that build it. Running the commands and reading the files is left to the caller.
use vstd::prelude::*;

verus! {

/// The views of a sequence of strings.
pub open spec fn string_views(v: Seq<String>) -> Seq<Seq<char>> {
    v.map_values(|s: String| s@)
}

/// The version of the WIT world that a Python skill is built against.
#[derive(Debug, Clone, Copy, PartialEq, Eq, Structural)]
pub enum WitVersion {
    V0_2,
    V0_3,
}

/// The directory of the WIT files of a version, relative to the repository.
pub open spec fn spec_wit_path(v: WitVersion) -> Seq<char> {
    match v {
        WitVersion::V0_2 => "wit/skill@0.2"@,
        WitVersion::V0_3 => "wit/skill@0.3"@,
    }
}

impl WitVersion {
    /// The directory of the WIT files of this version, relative to the repository.
    pub fn path(&self) -> (p: &'static str)
        ensures
            p@ == spec_wit_path(*self),
    {
        match self {
            WitVersion::V0_2 => "wit/skill@0.2",
            WitVersion::V0_3 => "wit/skill@0.3",
        }
    }
}

/// How a test skill is built.
#[derive(Debug, Clone, PartialEq, Eq)]
pub enum SkillBuild {
    /// From the Rust crate `crates/{package}`.
    Rust { package: String },
    /// From the Python package `python-skills/{package}`, against a WIT world.
    Python { package: String, wit_version: WitVersion, world: String },
}

/// A skill for tests: the file it is cached in, relative to the repository, and how it is built
/// when that file is missing.
#[derive(Debug, Clone, PartialEq, Eq)]
pub struct TestSkill {
    pub path: String,
    pub build: SkillBuild,
}

/// The directory that built skills are cached in, relative to the repository.
pub open spec fn spec_cache_dir() -> Seq<char> {
    "skill_build_cache"@
}

/// The cache file of a Rust skill.
pub open spec fn spec_rust_skill_path(package: Seq<char>) -> Seq<char> {
    spec_cache_dir() + "/"@ + package + "-rs.wasm"@
}

/// The cache file of a Python skill.
pub open spec fn spec_python_skill_path(package: Seq<char>) -> Seq<char> {
    spec_cache_dir() + "/"@ + package + "-py.wasm"@
}

/// Whether `s` is the Rust skill of `package`.
pub open spec fn is_rust_skill(s: TestSkill, package: Seq<char>) -> bool {
    &&& s.path@ == spec_rust_skill_path(package)
    &&& s.build matches SkillBuild::Rust { package: p } && p@ == package
}

/// Whether `s` is the Python skill of `package`, built against `world` of `wit_version`.
pub open spec fn is_python_skill(
    s: TestSkill,
    package: Seq<char>,
    wit_version: WitVersion,
    world: Seq<char>,
) -> bool {
    &&& s.path@ == spec_python_skill_path(package)
    &&& s.build matches SkillBuild::Python { package: p, wit_version: v, world: w } && p@ == package
        && v == wit_version && w@ == world
}

/// The directory that built skills are cached in, relative to the repository.
pub fn skill_build_cache_dir() -> (d: &'static str)
    ensures
        d@ == spec_cache_dir(),
{
    "skill_build_cache"
}

/// The Rust skill of `crates/{package}`, cached in `skill_build_cache/{package}-rs.wasm`.
fn given_rust_skill(package: &str) -> (s: TestSkill)
    ensures
        is_rust_skill(s, package@),
{
    let mut path = String::from_str(skill_build_cache_dir());
    path.append("/");
    path.append(package);
    path.append("-rs.wasm");
    TestSkill { path, build: SkillBuild::Rust { package: String::from_str(package) } }
}

/// The Python skill of `python-skills/{package}`, cached in `skill_build_cache/{package}-py.wasm`.
fn given_python_skill(package: &str, wit_version: WitVersion, world: &str) -> (s: TestSkill)
    ensures
        is_python_skill(s, package@, wit_version, world@),
{
    let mut path = String::from_str(skill_build_cache_dir());
    path.append("/");
    path.append(package);
    path.append("-py.wasm");
    TestSkill {
        path,
        build: SkillBuild::Python {
            package: String::from_str(package),
            wit_version,
            world: String::from_str(world),
        },
    }
}

/// The skill that invokes a tool.
pub fn given_skill_tool_invocation() -> (s: TestSkill)
    ensures
        is_rust_skill(s, "tool-invocation"@),
{
    given_rust_skill("tool-invocation")
}

/// The skill that streams without end.
pub fn given_skill_infinite_streaming() -> (s: TestSkill)
    ensures
        is_rust_skill(s, "infinite-streaming"@),
{
    given_rust_skill("infinite-streaming")
}

/// The chat skill against version 0.4 of the WIT world.
pub fn given_rust_skill_chat_v0_4() -> (s: TestSkill)
    ensures
        is_rust_skill(s, "chat-v0_4"@),
{
    given_rust_skill("chat-v0_4")
}

/// The greeting skill against version 0.3 of the WIT world.
pub fn given_rust_skill_greet_v0_3() -> (s: TestSkill)
    ensures
        is_rust_skill(s, "greet-v0_3"@),
{
    given_rust_skill("greet-v0_3")
}

/// The skill that completes with echo.
pub fn given_rust_skill_complete_with_echo() -> (s: TestSkill)
    ensures
        is_rust_skill(s, "complete-with-echo"@),
{
    given_rust_skill("complete-with-echo")
}

/// The greeting skill against version 0.2 of the WIT world.
pub fn given_rust_skill_greet_v0_2() -> (s: TestSkill)
    ensures
        is_rust_skill(s, "greet-v0_2"@),
{
    given_rust_skill("greet-v0_2")
}

/// The skill that asks for an explanation.
pub fn given_rust_skill_explain() -> (s: TestSkill)
    ensures
        is_rust_skill(s, "explain"@),
{
    given_rust_skill("explain")
}

/// The skill that searches.
pub fn given_rust_skill_search() -> (s: TestSkill)
    ensures
        is_rust_skill(s, "search"@),
{
    given_rust_skill("search")
}

/// The skill that reads document metadata.
pub fn given_rust_skill_doc_metadata() -> (s: TestSkill)
    ensures
        is_rust_skill(s, "doc-metadata"@),
{
    given_rust_skill("doc-metadata")
}

/// The chat skill.
pub fn given_rust_skill_chat() -> (s: TestSkill)
    ensures
        is_rust_skill(s, "chat"@),
{
    given_rust_skill("chat")
}

/// The Python greeting skill against version 0.2 of the WIT world.
pub fn given_python_skill_greet_v0_2() -> (s: TestSkill)
    ensures
        is_python_skill(s, "greet-v0_2"@, WitVersion::V0_2, "skill"@),
{
    given_python_skill("greet-v0_2", WitVersion::V0_2, "skill")
}

/// The Python greeting skill against version 0.3 of the WIT world.
pub fn given_python_skill_greet_v0_3() -> (s: TestSkill)
    ensures
        is_python_skill(s, "greet-v0_3"@, WitVersion::V0_3, "skill"@),
{
    given_python_skill("greet-v0_3", WitVersion::V0_3, "skill")
}

/// The skill whose output is invalid.
pub fn given_invalid_output_skill() -> (s: TestSkill)
    ensures
        is_rust_skill(s, "invalid-output"@),
{
    given_rust_skill("invalid-output")
}

/// The skill that streams a completion.
pub fn given_complete_stream_skill() -> (s: TestSkill)
    ensures
        is_rust_skill(s, "complete-stream"@),
{
    given_rust_skill("complete-stream")
}

/// The skill that streams a chat.
pub fn given_chat_stream_skill() -> (s: TestSkill)
    ensures
        is_rust_skill(s, "chat-stream"@),
{
    given_rust_skill("chat-stream")
}

/// The skill that streams its output.
pub fn given_streaming_output_skill() -> (s: TestSkill)
    ensures
        is_rust_skill(s, "streaming-output"@),
{
    given_rust_skill("streaming-output")
}

/// The target that skills are compiled for.
pub fn wasi_target() -> (t: &'static str)
    ensures
        t@ == "wasm32-wasip2"@,
{
    "wasm32-wasip2"
}

/// What `change_case::snake_case` makes of a text.
pub uninterp spec fn spec_snake_case(input: Seq<char>) -> Seq<char>;

/// Converts `input` to snake case with `change_case::snake_case`. The contract names the result
/// without restating the crate's rules on words and separators.
#[verifier::external_body]
fn snake_case(input: &str) -> (r: String)
    ensures
        r@ == spec_snake_case(input@),
{
    change_case::snake_case(input)
}

/// The arguments of `cargo` that build the Rust skill of `package` for the WASI target in release
/// mode.
pub fn rust_build_args(package: &str) -> (args: Vec<String>)
    ensures
        string_views(args@) == seq![
            "build"@,
            "-p"@,
            package@,
            "--target"@,
            "wasm32-wasip2"@,
            "--release"@,
        ],
{
    let mut args: Vec<String> = Vec::new();
    args.push(String::from_str("build"));
    args.push(String::from_str("-p"));
    args.push(String::from_str(package));
    args.push(String::from_str("--target"));
    args.push(String::from_str(wasi_target()));
    args.push(String::from_str("--release"));
    assert(string_views(args@) =~= seq![
        "build"@,
        "-p"@,
        package@,
        "--target"@,
        "wasm32-wasip2"@,
        "--release"@,
    ]);
    args
}

/// Where cargo puts the WebAssembly file of the crate `crate_name`, relative to the repository:
/// under the release directory of the WASI target.
pub fn release_artifact_path(crate_name: &str) -> (p: String)
    ensures
        p@ == "target/"@ + "wasm32-wasip2"@ + "/release/"@ + crate_name@ + ".wasm"@,
{
    let mut p = String::from_str("target/");
    p.append(wasi_target());
    p.append("/release/");
    p.append(crate_name);
    p.append(".wasm");
    p
}

/// Where cargo puts the WebAssembly file of the Rust skill of `package`, relative to the
/// repository: its crate is named as the package in snake case.
pub fn rust_artifact_path(package: &str) -> (p: String)
    ensures
        p@ == "target/"@ + "wasm32-wasip2"@ + "/release/"@ + spec_snake_case(package@) + ".wasm"@,
{
    let crate_name = snake_case(package);
    release_artifact_path(crate_name.as_str())
}

/// The arguments that turn the Python skill of `package` into a component at `target_path`,
/// against `world` of the WIT files in `wit_dir`.
pub fn componentize_args(package: &str, wit_dir: &str, world: &str, target_path: &str) -> (args:
    Vec<String>)
    ensures
        string_views(args@) == seq![
            "componentize-py"@,
            "-d"@,
            wit_dir@,
            "-w"@,
            world@,
            "componentize"@,
            "python-skills."@ + package@ + ".app"@,
            "-o"@,
            target_path@,
        ],
{
    let mut module = String::from_str("python-skills.");
    module.append(package);
    module.append(".app");
    let mut args: Vec<String> = Vec::new();
    args.push(String::from_str("componentize-py"));
    args.push(String::from_str("-d"));
    args.push(String::from_str(wit_dir));
    args.push(String::from_str("-w"));
    args.push(String::from_str(world));
    args.push(String::from_str("componentize"));
    args.push(module);
    args.push(String::from_str("-o"));
    args.push(String::from_str(target_path));
    assert(string_views(args@) =~= seq![
        "componentize-py"@,
        "-d"@,
        wit_dir@,
        "-w"@,
        world@,
        "componentize"@,
        "python-skills."@ + package@ + ".app"@,
        "-o"@,
        target_path@,
    ]);
    args
}

/// The arguments of `wasm-tools` that strip the component at `path` in place.
pub fn strip_args(path: &str) -> (args: Vec<String>)
    ensures
        string_views(args@) == seq!["strip"@, path@, "-o"@, path@],
{
    let mut args: Vec<String> = Vec::new();
    args.push(String::from_str("strip"));
    args.push(String::from_str(path));
    args.push(String::from_str("-o"));
    args.push(String::from_str(path));
    assert(string_views(args@) =~= seq!["strip"@, path@, "-o"@, path@]);
    args
}

/// The arguments of `uv` that create a virtual environment at `venv_path`.
pub fn uv_venv_args(venv_path: &str) -> (args: Vec<String>)
    ensures
        string_views(args@) == seq!["venv"@, venv_path@],
{
    let mut args: Vec<String> = Vec::new();
    args.push(String::from_str("venv"));
    args.push(String::from_str(venv_path));
    assert(string_views(args@) =~= seq!["venv"@, venv_path@]);
    args
}

/// The arguments of `uv` that install `componentize-py` into the environment at `venv_path`.
pub fn uv_install_args(venv_path: &str) -> (args: Vec<String>)
    ensures
        string_views(args@) == seq![
            "pip"@,
            "install"@,
            "--python"@,
            venv_path@,
            "componentize-py==0.16.0"@,
        ],
{
    let mut args: Vec<String> = Vec::new();
    args.push(String::from_str("pip"));
    args.push(String::from_str("install"));
    args.push(String::from_str("--python"));
    args.push(String::from_str(venv_path));
    args.push(String::from_str("componentize-py==0.16.0"));
    assert(string_views(args@) =~= seq![
        "pip"@,
        "install"@,
        "--python"@,
        venv_path@,
        "componentize-py==0.16.0"@,
    ]);
    args
}

/// The arguments of `uv` that run `command` in the environment at `venv_path`.
pub fn uv_run_args(venv_path: &str, command: &Vec<String>) -> (args: Vec<String>)
    ensures
        string_views(args@) == seq!["run"@, "--python"@, venv_path@] + string_views(command@),
{
    let mut args: Vec<String> = Vec::new();
    args.push(String::from_str("run"));
    args.push(String::from_str("--python"));
    args.push(String::from_str(venv_path));
    let mut i: usize = 0;
    while i < command.len()
        invariant
            i <= command.len(),
            string_views(args@) == seq!["run"@, "--python"@, venv_path@] + string_views(
                command@.subrange(0, i as int),
            ),
        decreases command.len() - i,
    {
        let ghost before = args@;
        args.push(command[i].clone());
        proof {
            let head = seq!["run"@, "--python"@, venv_path@];
            assert(args@ == before.push(command@[i as int]));
            assert(string_views(args@) =~= string_views(before).push(command@[i as int]@));
            assert(string_views(command@.subrange(0, i + 1)) =~= string_views(
                command@.subrange(0, i as int),
            ).push(command@[i as int]@));
            assert(string_views(args@) =~= head + string_views(command@.subrange(0, i + 1)));
        }
        i = i + 1;
    }
    proof {
        assert(command@.subrange(0, command@.len() as int) =~= command@);
    }
    args
}

/// The outcome of a command: nothing where it succeeded, else `context` followed by the standard
/// error of the command.
pub fn error_on_status(context: &str, success: bool, standard_error: &str) -> (r: Result<(), String>)
    ensures
        success ==> r is Ok,
        !success ==> (r matches Err(m) && m@ == context@ + "\nStandard error:\n"@ + standard_error@),
{
    if success {
        Ok(())
    } else {
        let mut m = String::from_str(context);
        m.append("\nStandard error:\n");
        m.append(standard_error);
        Err(m)
    }
}

} // verus!

