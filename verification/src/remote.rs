//! Dealing with the version-control tool: what kind of failure its words
//! tell of, and the address under which it reaches the remote with a
//! credential.

use crate::error::FailureKind;
use crate::text::{
    chars_of, copy_range, find_pattern, first_occurrence, mentions, mentions_word, occurs,
    string_of,
};
use vstd::prelude::*;

verus! {

/// Whether the tool's words tell of a credential that was turned down.
pub open spec fn tells_of_refusal(said: Seq<char>) -> bool {
    mentions(said, "Authentication failed"@) || mentions(said, "could not read Username"@)
        || mentions(said, "error: 403"@)
}

/// Whether the tool's words tell of a remote that could not be reached.
pub open spec fn tells_of_no_answer(said: Seq<char>) -> bool {
    mentions(said, "Could not resolve host"@) || mentions(said, "unable to access"@) || mentions(
        said,
        "timed out"@,
    )
}

/// Whether the tool's words tell of histories that cannot be joined by a
/// fast-forward.
pub open spec fn tells_of_conflict(said: Seq<char>) -> bool {
    mentions(said, "Not possible to fast-forward"@) || mentions(said, "CONFLICT"@) || mentions(
        said,
        "diverged"@,
    )
}

/// The kind of failure that the tool's words tell of. A credential that
/// was turned down is looked for first, then a remote that could not be
/// reached, then a conflict; anything else is a failure of the tool.
pub open spec fn failure_kind_of(said: Seq<char>) -> FailureKind {
    if tells_of_refusal(said) {
        FailureKind::AuthenticationFailed
    } else if tells_of_no_answer(said) {
        FailureKind::NetworkUnavailable
    } else if tells_of_conflict(said) {
        FailureKind::MergeConflict
    } else {
        FailureKind::Git
    }
}

/// Tells the kind of failure from what the tool wrote when it failed.
pub fn classify_failure(stderr: &str) -> (kind: FailureKind)
    ensures
        kind == failure_kind_of(stderr@),
{
    let said = chars_of(stderr);
    if mentions_word(&said, "Authentication failed") || mentions_word(
        &said,
        "could not read Username",
    ) || mentions_word(&said, "error: 403") {
        FailureKind::AuthenticationFailed
    } else if mentions_word(&said, "Could not resolve host") || mentions_word(
        &said,
        "unable to access",
    ) || mentions_word(&said, "timed out") {
        FailureKind::NetworkUnavailable
    } else if mentions_word(&said, "Not possible to fast-forward") || mentions_word(
        &said,
        "CONFLICT",
    ) || mentions_word(&said, "diverged") {
        FailureKind::MergeConflict
    } else {
        FailureKind::Git
    }
}

/// What parts the scheme of an address from the rest.
pub open spec fn scheme_mark() -> Seq<char> {
    seq![':', '/', '/']
}

/// The address `url` with `credential` in it: the credential and an `@`
/// stand right behind the first `://`. An empty credential, and an address
/// without `://`, leave the address as it is.
pub open spec fn address_with_credential(url: Seq<char>, credential: Seq<char>) -> Seq<char> {
    let at = first_occurrence(url, scheme_mark(), 0);
    if credential.len() == 0 || !occurs(url, scheme_mark(), at) {
        url
    } else {
        url.subrange(0, at + 3) + credential + seq!['@'] + url.subrange(at + 3, url.len() as int)
    }
}

/// The address under which the remote is reached with `credential`. The
/// result is for the one call that needs it and is not kept.
pub fn with_credential(remote_url: &str, credential: &str) -> (address: String)
    ensures
        address@ == address_with_credential(remote_url@, credential@),
{
    let url = chars_of(remote_url);
    let secret = chars_of(credential);
    let mut mark: Vec<char> = Vec::new();
    mark.push(':');
    mark.push('/');
    mark.push('/');
    assert(mark@ =~= scheme_mark());
    let at = find_pattern(&url, &mark, 0);
    let mut out: Vec<char> = Vec::new();
    if secret.len() == 0 || url.len() < 3 || at > url.len() - 3 {
        copy_range(&url, 0, url.len(), &mut out);
        assert(url@.subrange(0, url@.len() as int) =~= url@);
    } else {
        copy_range(&url, 0, at + 3, &mut out);
        copy_range(&secret, 0, secret.len(), &mut out);
        out.push('@');
        copy_range(&url, at + 3, url.len(), &mut out);
        assert(secret@.subrange(0, secret@.len() as int) =~= secret@);
        assert(out@ =~= url@.subrange(0, at + 3) + secret@ + seq!['@'] + url@.subrange(
            at + 3,
            url@.len() as int,
        ));
    }
    let address = string_of(&out, 0, out.len());
    assert(out@.subrange(0, out@.len() as int) =~= out@);
    address
}

} // verus!
