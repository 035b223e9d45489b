//! Normalising an artifact and naming its digest.
use vstd::prelude::*;

verus! {

/// What `sha256::digest` returns for a byte sequence: its SHA-256 hash as lowercase hex.
pub uninterp spec fn sha256_hex(bytes: Seq<u8>) -> Seq<char>;

/// A digest's shape: sixty-four lowercase hexadecimal digits.
pub open spec fn is_hex_digest(s: Seq<char>) -> bool {
    s.len() == 64 && forall|i: int|
        0 <= i < s.len() ==> ('0' <= #[trigger] s[i] <= '9' || 'a' <= s[i] <= 'f')
}

/// The artifact with every trailing zero byte removed.
pub open spec fn trim_zeros(bytes: Seq<u8>) -> Seq<u8>
    decreases bytes.len(),
{
    if bytes.len() > 0 && bytes.last() == 0 {
        trim_zeros(bytes.drop_last())
    } else {
        bytes
    }
}

/// `n` zero bytes.
pub open spec fn zeros(n: nat) -> Seq<u8> {
    Seq::new(n, |i: int| 0u8)
}

/// The digest of an artifact: the hash of what is left once its padding is stripped.
pub open spec fn normalized_digest(bytes: Seq<u8>) -> Seq<char> {
    sha256_hex(trim_zeros(bytes))
}

/// Relies on `sha256::digest` on a byte slice: the hex rendering of the SHA-256 hash,
/// which depends on the bytes alone and is always 64 lowercase hex digits.
#[verifier::external_body]
fn sha256_digest(bytes: &[u8]) -> (r: String)
    ensures
        r@ == sha256_hex(bytes@),
        is_hex_digest(r@),
{
    sha256::digest(bytes)
}

/// Copies the artifact without its trailing zero bytes.
pub fn strip_trailing_zeros(data: &Vec<u8>) -> (r: Vec<u8>)
    ensures
        r@ == trim_zeros(data@),
{
    let mut n: usize = data.len();
    assert(data@.subrange(0, n as int) =~= data@);
    while n > 0 && data[n - 1] == 0
        invariant
            n <= data@.len(),
            trim_zeros(data@.subrange(0, n as int)) == trim_zeros(data@),
        decreases n,
    {
        assert(data@.subrange(0, n as int).drop_last() =~= data@.subrange(0, n - 1));
        n = n - 1;
    }
    let mut r: Vec<u8> = Vec::new();
    let mut i: usize = 0;
    while i < n
        invariant
            i <= n <= data@.len(),
            r@ =~= data@.subrange(0, i as int),
        decreases n - i,
    {
        r.push(data[i]);
        i = i + 1;
    }
    assert(r@ =~= data@.subrange(0, n as int));
    r
}

/// The digest of an artifact, as a build or a chain dump hands it over.
pub fn get_binary_hash(program_data: Vec<u8>) -> (r: String)
    ensures
        r@ == normalized_digest(program_data@),
        is_hex_digest(r@),
{
    let buffer = strip_trailing_zeros(&program_data);
    sha256_digest(buffer.as_slice())
}

/// Appending zero bytes to an artifact leaves its trimmed form unchanged.
pub proof fn lemma_trim_ignores_padding(x: Seq<u8>, n: nat)
    ensures
        trim_zeros(x + zeros(n)) == trim_zeros(x),
    decreases n,
{
    if n == 0 {
        assert(x + zeros(0) =~= x);
    } else {
        assert((x + zeros(n)).drop_last() =~= x + zeros((n - 1) as nat));
        lemma_trim_ignores_padding(x, (n - 1) as nat);
    }
}

/// Zero padding never changes a digest: `x` and `x` followed by any number of
/// zero bytes normalise to the same digest.
pub proof fn law_padding_does_not_change_digest(x: Seq<u8>, n: nat)
    ensures
        normalized_digest(x + zeros(n)) == normalized_digest(x),
{
    lemma_trim_ignores_padding(x, n);
}

/// An artifact made only of zero bytes, of any length, has the digest of the
/// empty artifact.
pub proof fn law_all_zero_is_empty(n: nat)
    ensures
        trim_zeros(zeros(n)) == Seq::<u8>::empty(),
        normalized_digest(zeros(n)) == normalized_digest(Seq::<u8>::empty()),
{
    lemma_trim_ignores_padding(Seq::<u8>::empty(), n);
    assert(Seq::<u8>::empty() + zeros(n) =~= zeros(n));
}

/// Artifacts that still differ once their padding is stripped are handed to the
/// hash as different inputs: normalisation alone never makes them collide.
pub proof fn law_distinct_artifacts_hash_distinct_inputs(a: Seq<u8>, b: Seq<u8>, n: nat, m: nat)
    requires
        trim_zeros(a) != trim_zeros(b),
    ensures
        trim_zeros(a + zeros(n)) != trim_zeros(b + zeros(m)),
{
    lemma_trim_ignores_padding(a, n);
    lemma_trim_ignores_padding(b, m);
}

} // verus!
