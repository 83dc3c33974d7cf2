//! Checksums of downloaded files: the SHA-256 digest of what was written, held
//! against the checksum that came with the request.

use crate::text::{lemma_occurs_in_middle, occurs_in, same_text};
use sha2::{Digest, Sha256};
use vstd::prelude::*;
use vstd::string::*;

verus! {

/// The SHA-256 digest of `data`, written as hexadecimal digits in lower case.
pub uninterp spec fn sha256_hex_of(data: Seq<u8>) -> Seq<char>;

/// `text` in lower case, by the rules of Unicode.
pub uninterp spec fn lowercase_of(text: Seq<char>) -> Seq<char>;

/// Calls `sha2::Sha256::digest` on `data` and formats the output with `{:x}`. The
/// result is claimed to depend on the bytes alone, and is named `sha256_hex_of`.
#[verifier::external_body]
fn sha256_hex(data: &[u8]) -> (digest: String)
    ensures
        digest@ == sha256_hex_of(data@),
{
    format!("{:x}", Sha256::digest(data))
}

/// Calls `str::to_lowercase`. The result is claimed to depend on the text alone,
/// and is named `lowercase_of`.
#[verifier::external_body]
pub(crate) fn lowercase(text: &str) -> (lower: String)
    ensures
        lower@ == lowercase_of(text@),
{
    text.to_lowercase()
}

/// The report of a digest that is not the expected one.
pub open spec fn mismatch_text(expected: Seq<char>, actual: Seq<char>) -> Seq<char> {
    "Checksum mismatch: expected "@ + expected + " but found "@ + actual
}

/// The verdict on a digest: `actual` is accepted where it equals `wanted`, and is
/// otherwise rejected with a report that names `expected` and `actual`.
pub open spec fn verdict_on(expected: Seq<char>, wanted: Seq<char>, actual: Seq<char>) -> Result<
    (),
    Seq<char>,
> {
    if actual == wanted {
        Ok(())
    } else {
        Err(mismatch_text(expected, actual))
    }
}

/// The verdict on the digest `actual` of a file whose checksum was announced as
/// `expected`: the announced checksum counts in lower case.
pub open spec fn checksum_verdict(expected: Seq<char>, actual: Seq<char>) -> Result<(), Seq<char>> {
    verdict_on(expected, lowercase_of(expected), actual)
}

/// A verdict as the contracts see it.
pub open spec fn verdict_text(verdict: Result<(), String>) -> Result<(), Seq<char>> {
    match verdict {
        Ok(_) => Ok(()),
        Err(report) => Err(report@),
    }
}

/// Judges a digest against the one that is wanted. `expected` is the checksum as it
/// was announced, which the report of a mismatch quotes; `wanted` is what the
/// digest has to equal.
pub fn judge_digest(expected: &str, wanted: &str, actual: &str) -> (verdict: Result<(), String>)
    ensures
        verdict_text(verdict) == verdict_on(expected@, wanted@, actual@),
{
    if same_text(actual, wanted) {
        Ok(())
    } else {
        let mut report = String::from_str("Checksum mismatch: expected ");
        report.append(expected);
        report.append(" but found ");
        report.append(actual);
        Err(report)
    }
}

/// Judges the digest of a downloaded file against the announced checksum, which may
/// be written in either case.
pub fn check_digest(expected: &str, actual: &str) -> (verdict: Result<(), String>)
    ensures
        verdict_text(verdict) == checksum_verdict(expected@, actual@),
{
    let wanted = lowercase(expected);
    judge_digest(expected, wanted.as_str(), actual)
}

/// Hashes what was written and judges the digest against the announced checksum.
pub fn verify_sha256(written: &[u8], expected: &str) -> (verdict: Result<(), String>)
    ensures
        verdict_text(verdict) == checksum_verdict(expected@, sha256_hex_of(written@)),
{
    let actual = sha256_hex(written);
    check_digest(expected, actual.as_str())
}

/// The report of a mismatch quotes both digests, the expected and the actual one.
pub proof fn lemma_mismatch_names_both(expected: Seq<char>, actual: Seq<char>)
    ensures
        occurs_in(expected, mismatch_text(expected, actual)),
        occurs_in(actual, mismatch_text(expected, actual)),
{
    lemma_occurs_in_middle("Checksum mismatch: expected "@, expected, " but found "@ + actual);
    assert("Checksum mismatch: expected "@ + expected + (" but found "@ + actual) =~= mismatch_text(
        expected,
        actual,
    ));
    lemma_occurs_in_middle(
        "Checksum mismatch: expected "@ + expected + " but found "@,
        actual,
        Seq::empty(),
    );
}

} // verus!
