use otter_verify::cache::{Lookup, VerificationCache};
use otter_verify::digest::{get_binary_hash, strip_trailing_zeros};
use otter_verify::params::VerifyParams;
use otter_verify::pipeline::{
    artifact_file_name, artifact_name_from_manifest, build_run_args, check_sub_path,
    compare_report, contains_parent_ref, dump_args, failure_of, DumpType, Stage, VerifyError,
};

const EMPTY_SHA256: &str = "e3b0c44298fc1c149afbf4c8996fb92427ae41e4649b934ca495991b7852b855";

fn identity(repo: &str, path: &str, commit: &str) -> VerifyParams {
    VerifyParams::new(repo.to_string(), path.to_string(), commit.to_string())
}

#[test]
fn strip_removes_only_trailing_zeros() {
    assert_eq!(strip_trailing_zeros(&vec![0, 1, 0, 2, 0, 0]), vec![0, 1, 0, 2]);
    assert_eq!(strip_trailing_zeros(&vec![]), Vec::<u8>::new());
    assert_eq!(strip_trailing_zeros(&vec![0, 0, 0]), Vec::<u8>::new());
}

#[test]
fn digest_of_known_input() {
    assert_eq!(get_binary_hash(vec![]), EMPTY_SHA256);
    assert_eq!(
        get_binary_hash(b"abc".to_vec()),
        "ba7816bf8f01cfea414140de5dae2223b00361a396177a9cb410ff61f20015ad"
    );
}

#[test]
fn padding_does_not_change_digest() {
    let x = vec![7u8, 0, 9];
    let base = get_binary_hash(x.clone());
    for n in 0..5 {
        let mut padded = x.clone();
        padded.extend(std::iter::repeat(0u8).take(n));
        assert_eq!(get_binary_hash(padded), base);
    }
}

#[test]
fn all_zero_artifact_has_empty_digest() {
    for n in 0..6 {
        assert_eq!(get_binary_hash(vec![0u8; n]), get_binary_hash(vec![]));
    }
    assert_eq!(get_binary_hash(vec![0u8; 4]), EMPTY_SHA256);
}

#[test]
fn distinct_artifacts_have_distinct_digests() {
    let inputs: Vec<Vec<u8>> = vec![vec![1], vec![2], vec![1, 2], vec![0, 1], vec![1, 0, 1]];
    for (i, a) in inputs.iter().enumerate() {
        for (j, b) in inputs.iter().enumerate() {
            if i != j {
                assert_ne!(get_binary_hash(a.clone()), get_binary_hash(b.clone()));
            }
        }
    }
}

#[test]
fn matching_build_and_chain_report_match() {
    let build = get_binary_hash(vec![1, 2, 3]);
    let chain = get_binary_hash(vec![1, 2, 3, 0, 0]);
    let report = compare_report(build.clone(), chain.clone());
    assert_eq!(build, chain);
    assert_eq!(report.matches, Some(true));
    assert_eq!(report.program_hash, Some(chain));
}

#[test]
fn differing_build_and_chain_report_mismatch() {
    let build = get_binary_hash(vec![1, 2, 3]);
    let chain = get_binary_hash(vec![1, 2, 4, 0]);
    assert_ne!(build, chain);
    let report = compare_report(build, chain);
    assert_eq!(report.matches, Some(false));
}

#[test]
fn cache_second_request_reuses_digest() {
    let mut cache = VerificationCache::new();
    let id = identity("https://example.com/r.git", "prog", "abc123");
    let mut builds = 0;
    for _ in 0..2 {
        match cache.begin(&id) {
            Lookup::Build => {
                builds += 1;
                let r = cache.finish(&id, Ok("d1".to_string()));
                assert_eq!(r, Ok("d1".to_string()));
            }
            Lookup::Hit(d) => assert_eq!(d, "d1"),
            Lookup::Wait => panic!("nothing is in flight"),
        }
    }
    assert_eq!(builds, 1);
    assert_eq!(cache.get(&id), Some("d1".to_string()));
}

#[test]
fn cache_keeps_identities_apart() {
    let mut cache = VerificationCache::new();
    let a = identity("https://example.com/r.git", "prog", "abc123");
    let b = identity("https://example.com/r.git", "prog", "abc124");
    let c = identity("https://example.com/r.git/", "prog", "abc123");
    assert!(matches!(cache.begin(&b), Lookup::Build));
    cache.finish(&b, Ok("db".to_string())).unwrap();
    assert_eq!(cache.get(&a), None);
    assert!(matches!(cache.begin(&a), Lookup::Build));
    assert!(matches!(cache.begin(&c), Lookup::Build));
    cache.finish(&a, Ok("da".to_string())).unwrap();
    assert_eq!(cache.get(&a), Some("da".to_string()));
    assert_eq!(cache.get(&b), Some("db".to_string()));
    assert_eq!(cache.get(&c), None);
}

#[test]
fn failed_build_is_retried() {
    let mut cache = VerificationCache::new();
    let id = identity("https://unreachable.invalid/r.git", "prog", "abc123");
    assert!(matches!(cache.begin(&id), Lookup::Build));
    let err = cache.finish(&id, Err(failure_of(Stage::Clone)));
    assert_eq!(err, Err(VerifyError::SourceUnavailable));
    assert_eq!(cache.get(&id), None);
    assert!(matches!(cache.begin(&id), Lookup::Build));
    cache.finish(&id, Ok("d".to_string())).unwrap();
    assert_eq!(cache.get(&id), Some("d".to_string()));
}

#[test]
fn concurrent_requests_build_once() {
    let mut cache = VerificationCache::new();
    let id = identity("https://example.com/r.git", "prog", "abc123");
    let first = cache.begin(&id);
    assert!(matches!(first, Lookup::Build));
    for _ in 0..8 {
        assert!(matches!(cache.begin(&id), Lookup::Wait));
    }
    cache.finish(&id, Ok("d".to_string())).unwrap();
    for _ in 0..8 {
        match cache.begin(&id) {
            Lookup::Hit(d) => assert_eq!(d, "d"),
            _ => panic!("expected the stored digest"),
        }
    }
}

#[test]
fn parent_segment_is_rejected() {
    assert_eq!(check_sub_path(&identity("r", "../etc", "c")), Err(VerifyError::InvalidInput));
    assert_eq!(check_sub_path(&identity("r", "a/../b", "c")), Err(VerifyError::InvalidInput));
    assert_eq!(check_sub_path(&identity("r", "a/..", "c")), Err(VerifyError::InvalidInput));
    assert_eq!(check_sub_path(&identity("r", "..", "c")), Err(VerifyError::InvalidInput));
    assert_eq!(check_sub_path(&identity("r", "a/b..", "c")), Ok(()));
    assert_eq!(check_sub_path(&identity("r", "a/..b/c", "c")), Ok(()));
    assert_eq!(check_sub_path(&identity("r", "prog", "c")), Ok(()));
    assert_eq!(check_sub_path(&identity("r", "a/.b/.", "c")), Ok(()));
    assert!(!contains_parent_ref(""));
    assert!(!contains_parent_ref("."));
    assert!(contains_parent_ref(".."));
    assert!(!contains_parent_ref("x..y"));
}

#[test]
fn artifact_name_uses_underscores() {
    assert_eq!(artifact_file_name("my-program-x"), "my_program_x.so");
    assert_eq!(artifact_file_name("plain"), "plain.so");
    assert_eq!(artifact_file_name(""), ".so");
}

#[test]
fn manifest_gives_artifact_name() {
    let text = "[package]\nname = \"token-swap\"\nversion = \"0.1.0\"\n";
    assert_eq!(artifact_name_from_manifest(text), Ok("token_swap.so".to_string()));
}

#[test]
fn bad_manifest_is_reported() {
    assert_eq!(artifact_name_from_manifest("not [ toml"), Err(VerifyError::ManifestInvalid));
    assert_eq!(artifact_name_from_manifest("[workspace]\n"), Err(VerifyError::ManifestInvalid));
    assert_eq!(
        artifact_name_from_manifest("[package]\nname = 3\n"),
        Err(VerifyError::ManifestInvalid)
    );
}

#[test]
fn every_stage_has_its_error() {
    assert_eq!(failure_of(Stage::Clone), VerifyError::SourceUnavailable);
    assert_eq!(failure_of(Stage::Checkout), VerifyError::SourceUnavailable);
    assert_eq!(failure_of(Stage::ReadManifest), VerifyError::ManifestInvalid);
    assert_eq!(failure_of(Stage::BuildImage), VerifyError::BuildEnvironmentFailure);
    assert_eq!(failure_of(Stage::RunBuild), VerifyError::BuildFailure);
    assert_eq!(failure_of(Stage::ReadArtifact), VerifyError::BuildFailure);
    assert_eq!(failure_of(Stage::DumpChain), VerifyError::ChainUnavailable);
}

#[test]
fn dump_arguments_follow_kind() {
    let addr = "Prog111".to_string();
    let out = "/tmp/x/program.so".to_string();
    assert_eq!(
        dump_args(&addr, DumpType::Buffer, &out),
        vec!["account", "Prog111", "--output-file", "/tmp/x/program.so"]
    );
    assert_eq!(
        dump_args(&addr, DumpType::Program, &out),
        vec!["program", "dump", "Prog111", "/tmp/x/program.so"]
    );
}

#[test]
fn run_arguments_mount_and_enter_sub_path() {
    let args = build_run_args("/tmp/clone", "prog", "sha256:abc");
    assert_eq!(args[2], "/tmp/clone:/build");
    assert_eq!(args[4], "/build/prog");
    assert_eq!(args[7], "sha256:abc");
    assert_eq!(args[10], "cargo build-bpf -- --locked --frozen");
    assert_eq!(args.len(), 11);
}

#[test]
fn deeply_nested_manifest_is_refused() {
    let deep = format!("[package]\nname = \"p\"\nx = {}", "[".repeat(5000));
    assert_eq!(artifact_name_from_manifest(&deep), Err(VerifyError::ManifestInvalid));
    let nested = format!("[package]\nname = \"p\"\nx = {}1{}\n", "[".repeat(30), "]".repeat(30));
    assert_eq!(artifact_name_from_manifest(&nested), Err(VerifyError::ManifestInvalid));
    let dotted = format!("[package]\nname = \"p\"\n{} = 1\n", vec!["a"; 40000].join("."));
    assert_eq!(artifact_name_from_manifest(&dotted), Err(VerifyError::ManifestInvalid));
}

#[test]
fn large_flat_manifest_is_accepted() {
    let arrays = format!("[package]\nname = \"p\"\nx = [{}]\n", vec!["[]"; 600].join(","));
    assert_eq!(artifact_name_from_manifest(&arrays), Ok("p.so".to_string()));
    let mut tables = "[package]\nname = \"big-one\"\n".to_string();
    for i in 0..600 {
        tables.push_str(&format!("[dependencies.d{}]\nversion = \"1.2.3\"\nfeatures = [\"a\", \"b\"]\n", i));
    }
    assert_eq!(artifact_name_from_manifest(&tables), Ok("big_one.so".to_string()));
    let nested = format!("[package]\nname = \"p\"\nx = {}1{}\n", "[".repeat(10), "]".repeat(10));
    assert_eq!(artifact_name_from_manifest(&nested), Ok("p.so".to_string()));
}

#[test]
fn strings_and_comments_do_not_count_as_nesting() {
    let text = format!(
        "[package]\nname = \"p\"\ndescription = \"{}\"\nnote = '{}'\nmore = \"\"\"{}\"\"\"\n# {}\n",
        ".".repeat(100),
        "[".repeat(100),
        "{".repeat(100),
        "[.".repeat(100)
    );
    assert_eq!(artifact_name_from_manifest(&text), Ok("p.so".to_string()));
}

#[test]
fn stored_digest_is_never_replaced() {
    let mut cache = VerificationCache::new();
    let id = identity("https://example.com/r.git", "prog", "abc123");
    assert!(matches!(cache.begin(&id), Lookup::Build));
    cache.finish(&id, Ok("first".to_string())).unwrap();
    assert_eq!(cache.finish(&id, Ok("second".to_string())), Ok("second".to_string()));
    assert_eq!(cache.get(&id), Some("first".to_string()));
}

#[test]
fn traversal_identity_is_never_cached() {
    let mut cache = VerificationCache::new();
    let id = identity("https://example.com/r.git", "../prog", "abc123");
    assert!(matches!(cache.begin(&id), Lookup::Build));
    assert_eq!(cache.finish(&id, Ok("d".to_string())), Ok("d".to_string()));
    assert_eq!(cache.get(&id), None);
    assert!(matches!(cache.begin(&id), Lookup::Build));
}

#[test]
fn digest_is_lowercase_hex() {
    let d = get_binary_hash(vec![9, 8, 7]);
    assert_eq!(d.len(), 64);
    assert!(d.chars().all(|c| c.is_ascii_digit() || ('a'..='f').contains(&c)));
}
