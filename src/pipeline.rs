//! The decisions of one verification run, between the outside steps.
use vstd::prelude::*;
use vstd::string::StrSliceExecFns;
use vstd::string::StringExecFns;
use crate::nesting::{manifest_within_bounds, within_nesting_bounds};
use crate::params::VerifyParams;

verus! {

/// Why a verification run stopped.
#[derive(PartialEq, Eq, Structural, Clone, Copy, Debug)]
pub enum VerifyError {
    /// The sub-path climbs out of the repository.
    InvalidInput,
    /// The repository could not be cloned or the commit checked out.
    SourceUnavailable,
    /// The package manifest is missing or does not name a package.
    ManifestInvalid,
    /// The build image could not be made.
    BuildEnvironmentFailure,
    /// The build failed or left no artifact.
    BuildFailure,
    /// The deployed bytes could not be dumped.
    ChainUnavailable,
    /// An unexpected local failure.
    Internal,
}

/// The outside steps of a run, in the order a build takes them.
#[derive(PartialEq, Eq, Structural, Clone, Copy, Debug)]
pub enum Stage {
    Clone,
    Checkout,
    ReadManifest,
    BuildImage,
    RunBuild,
    ReadArtifact,
    DumpChain,
}

/// Which on-chain dump to take: an account's raw data, or a program's image.
#[derive(PartialEq, Eq, Structural, Clone, Copy, Debug)]
pub enum DumpType {
    Buffer,
    Program,
}

pub open spec fn stage_error(stage: Stage) -> VerifyError {
    match stage {
        Stage::Clone | Stage::Checkout => VerifyError::SourceUnavailable,
        Stage::ReadManifest => VerifyError::ManifestInvalid,
        Stage::BuildImage => VerifyError::BuildEnvironmentFailure,
        Stage::RunBuild | Stage::ReadArtifact => VerifyError::BuildFailure,
        Stage::DumpChain => VerifyError::ChainUnavailable,
    }
}

/// The error that a failure of the given step is reported as.
pub fn failure_of(stage: Stage) -> (r: VerifyError)
    ensures
        r == stage_error(stage),
{
    match stage {
        Stage::Clone | Stage::Checkout => VerifyError::SourceUnavailable,
        Stage::ReadManifest => VerifyError::ManifestInvalid,
        Stage::BuildImage => VerifyError::BuildEnvironmentFailure,
        Stage::RunBuild | Stage::ReadArtifact => VerifyError::BuildFailure,
        Stage::DumpChain => VerifyError::ChainUnavailable,
    }
}

/// Whether the path has a `..` segment, a step up to the parent directory.
pub open spec fn has_parent_ref(s: Seq<char>) -> bool {
    exists|i: int| 0 <= i && i + 1 < s.len() && #[trigger] parent_at(s, i)
}

/// A segment that is exactly `..` starts at position `i`.
pub open spec fn parent_at(s: Seq<char>, i: int) -> bool {
    &&& s[i] == '.'
    &&& s[i + 1] == '.'
    &&& (i == 0 || s[i - 1] == '/')
    &&& (i + 2 == s.len() || s[i + 2] == '/')
}

pub fn contains_parent_ref(s: &str) -> (r: bool)
    ensures
        r == has_parent_ref(s@),
{
    let n = s.unicode_len();
    let mut i: usize = 0;
    while i < n && i + 1 < n
        invariant
            n == s@.len(),
            i <= n,
            forall|j: int| 0 <= j < i && j + 1 < n ==> !#[trigger] parent_at(s@, j),
        decreases n - i,
    {
        if s.get_char(i) == '.' && s.get_char(i + 1) == '.' && (i == 0 || s.get_char(i - 1)
            == '/') && (i + 2 == n || s.get_char(i + 2) == '/') {
            assert(parent_at(s@, i as int));
            return true;
        }
        i = i + 1;
    }
    false
}

/// Rejects an identity whose sub-path could reach outside the cloned repository.
/// Nothing is touched before this check.
pub fn check_sub_path(params: &VerifyParams) -> (r: Result<(), VerifyError>)
    ensures
        r is Err <==> has_parent_ref(params.path@),
        r is Err ==> r == Err::<(), VerifyError>(VerifyError::InvalidInput),
{
    if contains_parent_ref(params.path.as_str()) {
        Err(VerifyError::InvalidInput)
    } else {
        Ok(())
    }
}

/// The package name with hyphens turned into underscores, as the toolchain names files.
pub open spec fn underscored(name: Seq<char>) -> Seq<char> {
    Seq::new(name.len(), |i: int| if name[i] == '-' { '_' } else { name[i] })
}

/// The file that a build of the named package leaves in its output directory.
pub open spec fn artifact_file(name: Seq<char>) -> Seq<char> {
    underscored(name) + seq!['.', 's', 'o']
}

pub fn artifact_file_name(package_name: &str) -> (r: String)
    ensures
        r@ == artifact_file(package_name@),
{
    let n = package_name.unicode_len();
    let mut r = String::new();
    let mut i: usize = 0;
    while i < n
        invariant
            n == package_name@.len(),
            i <= n,
            r@ =~= underscored(package_name@).subrange(0, i as int),
        decreases n - i,
    {
        if package_name.get_char(i) == '-' {
            proof {
                reveal_strlit("_");
            }
            r.append("_");
        } else {
            let c = package_name.substring_char(i, i + 1);
            r.append(c);
        }
        i = i + 1;
    }
    proof {
        reveal_strlit(".so");
    }
    r.append(".so");
    r
}

/// What `toml` finds in a manifest's text under `package.name`, when the text
/// parses and that entry is a string.
pub uninterp spec fn toml_package_name(text: Seq<char>) -> Option<Seq<char>>;

/// Relies on `toml::from_str` into a `toml::Value`, read with `Value::get` and
/// `Value::as_str`: the result depends on the text alone. The parser recurses
/// once per nested array or inline table and once per segment of a dotted key
/// or header, so both are bounded (see `nesting`).
#[verifier::external_body]
fn manifest_package_name(text: &str) -> (r: Option<String>)
    requires
        manifest_within_bounds(text@),
    ensures
        match r {
            Some(name) => toml_package_name(text@) == Some(name@),
            None => toml_package_name(text@) is None,
        },
{
    let value: toml::Value = toml::from_str(text).ok()?;
    value.get("package")?.get("name")?.as_str().map(|n| n.to_string())
}

/// The artifact file that a build of the manifest's package produces. A
/// manifest nested too deeply to parse safely is refused as malformed.
pub fn artifact_name_from_manifest(text: &str) -> (r: Result<String, VerifyError>)
    ensures
        !manifest_within_bounds(text@) ==> r == Err::<String, VerifyError>(
            VerifyError::ManifestInvalid,
        ),
        manifest_within_bounds(text@) ==> match toml_package_name(text@) {
            Some(name) => r is Ok && r->Ok_0@ == artifact_file(name),
            None => r == Err::<String, VerifyError>(VerifyError::ManifestInvalid),
        },
{
    if !within_nesting_bounds(text) {
        return Err(VerifyError::ManifestInvalid);
    }
    match manifest_package_name(text) {
        Some(name) => Ok(artifact_file_name(name.as_str())),
        None => Err(VerifyError::ManifestInvalid),
    }
}

/// The arguments of the chain command that dumps `addr` into the file `output`.
pub fn dump_args(addr: &String, typ: DumpType, output: &String) -> (r: Vec<String>)
    ensures
        typ == DumpType::Buffer ==> r@.len() == 4 && r@[0]@ == "account"@ && r@[1]@ == addr@
            && r@[2]@ == "--output-file"@ && r@[3]@ == output@,
        typ == DumpType::Program ==> r@.len() == 4 && r@[0]@ == "program"@ && r@[1]@ == "dump"@
            && r@[2]@ == addr@ && r@[3]@ == output@,
{
    let mut r: Vec<String> = Vec::new();
    match typ {
        DumpType::Buffer => {
            r.push(String::from_str("account"));
            r.push(addr.clone());
            r.push(String::from_str("--output-file"));
            r.push(output.clone());
        },
        DumpType::Program => {
            r.push(String::from_str("program"));
            r.push(String::from_str("dump"));
            r.push(addr.clone());
            r.push(output.clone());
        },
    }
    r
}

/// The arguments of the version-control command that clones `repo` into `dir`.
/// The `--` keeps a repository that starts with `-` from reading as an option.
pub fn clone_args(repo: &String, dir: &String) -> (r: Vec<String>)
    ensures
        r@.len() == 4,
        r@[0]@ == "clone"@,
        r@[1]@ == "--"@,
        r@[2]@ == repo@,
        r@[3]@ == dir@,
{
    let mut r: Vec<String> = Vec::new();
    r.push(String::from_str("clone"));
    r.push(String::from_str("--"));
    r.push(repo.clone());
    r.push(dir.clone());
    r
}

/// The arguments of the version-control command that checks out `commit`.
pub fn checkout_args(commit: &String) -> (r: Vec<String>)
    ensures
        r@.len() == 2,
        r@[0]@ == "checkout"@,
        r@[1]@ == commit@,
{
    let mut r: Vec<String> = Vec::new();
    r.push(String::from_str("checkout"));
    r.push(commit.clone());
    r
}

/// The arguments of the container command that builds the image from the
/// recipe on its standard input and prints only the image's identifier.
pub fn image_build_args() -> (r: Vec<String>)
    ensures
        r@.len() == 3,
        r@[0]@ == "build"@,
        r@[1]@ == "-q"@,
        r@[2]@ == "-"@,
{
    let mut r: Vec<String> = Vec::new();
    r.push(String::from_str("build"));
    r.push(String::from_str("-q"));
    r.push(String::from_str("-"));
    r
}

/// The arguments of the container run that builds the package at `sub_path` of
/// the clone in `scratch_dir`, inside the image `image`, with locked dependencies.
pub fn build_run_args(scratch_dir: &str, sub_path: &str, image: &str) -> (r: Vec<String>)
    ensures
        r@.len() == 11,
        r@[0]@ == "run"@,
        r@[1]@ == "--volume"@,
        r@[2]@ == scratch_dir@ + ":/build"@,
        r@[3]@ == "--workdir"@,
        r@[4]@ == "/build/"@ + sub_path@,
        r@[5]@ == "--rm"@,
        r@[6]@ == "--"@,
        r@[7]@ == image@,
        r@[8]@ == "sh"@,
        r@[9]@ == "-c"@,
        r@[10]@ == "cargo build-bpf -- --locked --frozen"@,
{
    let mut r: Vec<String> = Vec::new();
    r.push(String::from_str("run"));
    r.push(String::from_str("--volume"));
    let mut volume = String::from_str(scratch_dir);
    volume.append(":/build");
    r.push(volume);
    r.push(String::from_str("--workdir"));
    let mut workdir = String::from_str("/build/");
    workdir.append(sub_path);
    r.push(workdir);
    r.push(String::from_str("--rm"));
    r.push(String::from_str("--"));
    r.push(String::from_str(image));
    r.push(String::from_str("sh"));
    r.push(String::from_str("-c"));
    r.push(String::from_str("cargo build-bpf -- --locked --frozen"));
    r
}

/// What a run reports: the digest of the build and, where the deployed program
/// was dumped too, its digest and whether the two agree.
pub struct VerificationReport {
    pub hash: String,
    pub program_hash: Option<String>,
    pub matches: Option<bool>,
}

/// Reports a build digest alone.
pub fn build_report(hash: String) -> (r: VerificationReport)
    ensures
        r.hash@ == hash@,
        r.program_hash is None,
        r.matches is None,
{
    VerificationReport { hash, program_hash: None, matches: None }
}

/// Reports a build digest against the deployed program's digest.
pub fn compare_report(hash: String, program_hash: String) -> (r: VerificationReport)
    ensures
        r.hash@ == hash@,
        r.program_hash is Some && r.program_hash->Some_0@ == program_hash@,
        r.matches == Some(hash@ == program_hash@),
{
    let m = hash == program_hash;
    VerificationReport { hash, program_hash: Some(program_hash), matches: Some(m) }
}

} // verus!
