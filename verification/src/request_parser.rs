//! The envelope-mode resolver: the same rule as every resolution in this
//! gateway — strip one leading separator, join under the root, canonicalize,
//! and accept only a target whose canonical form keeps the root among its
//! ancestors, with a missing target failing distinctly from an escaping one.
//! The caller builds the candidate with `candidate_path` and canonicalizes it;
//! this module judges the outcome.

use vstd::prelude::*;

use crate::process::{canonical_view, check_in_root, path_in_root};
use crate::types::FsErrorKind;

verus! {

/// Why a request path resolved to no script.
#[derive(Clone, Copy, Debug, PartialEq, Eq, Structural)]
pub enum ParseError {
    /// The canonical target lies outside the root, or the filesystem refused
    /// the path outright.
    InvalidPath,
    /// The target does not exist.
    NonExistingScript,
    /// The target exists but cannot be invoked.
    NonExecutable,
    /// Canonicalization failed for a reason other than a missing target.
    IoError(FsErrorKind),
}

/// What resolution must decide from a canonicalization outcome: a missing
/// target fails distinctly from everything else, a canonical path outside the
/// root is the sandbox violation, and only a contained path names a script.
pub open spec fn parse_rel(
    root: Seq<u8>,
    canonical: Result<Seq<u8>, FsErrorKind>,
    r: Result<Vec<u8>, ParseError>,
) -> bool {
    match canonical {
        Err(FsErrorKind::NotFound) => r matches Err(e) && e == ParseError::NonExistingScript,
        Err(k) => r matches Err(e) && e == ParseError::IoError(k),
        Ok(p) => if !path_in_root(root, p) {
            r matches Err(e) && e == ParseError::InvalidPath
        } else {
            r matches Ok(v) && v@ == p
        },
    }
}

/// Resolve a request path's canonicalization outcome against the canonical
/// script root. The containment check runs on the canonical path, after
/// symlinks and dot segments were resolved, so no traversal trick escapes it.
pub fn parse(script_root: &Vec<u8>, canonical: Result<Vec<u8>, FsErrorKind>) -> (r: Result<
    Vec<u8>,
    ParseError,
>)
    ensures
        parse_rel(script_root@, canonical_view(canonical), r),
{
    match canonical {
        Err(FsErrorKind::NotFound) => Err(ParseError::NonExistingScript),
        Err(k) => Err(ParseError::IoError(k)),
        Ok(p) => {
            if check_in_root(script_root, &p) {
                Ok(p)
            } else {
                Err(ParseError::InvalidPath)
            }
        },
    }
}

/// Law: a request path whose canonical form lies outside the root is rejected
/// by the envelope-mode resolver too, and no script is named.
pub proof fn lemma_parse_sandbox_violation(
    root: Seq<u8>,
    p: Seq<u8>,
    r: Result<Vec<u8>, ParseError>,
)
    requires
        parse_rel(root, Ok(p), r),
        !path_in_root(root, p),
    ensures
        r matches Err(e) && e == ParseError::InvalidPath,
        !(r is Ok),
{
}

/// Law: a missing target fails the envelope-mode resolver distinctly from the
/// sandbox-violation case.
pub proof fn lemma_parse_missing_distinct(root: Seq<u8>, r: Result<Vec<u8>, ParseError>)
    requires
        parse_rel(root, Err(FsErrorKind::NotFound), r),
    ensures
        r matches Err(e) && e == ParseError::NonExistingScript,
        !(r matches Err(e) && e == ParseError::InvalidPath),
{
}

} // verus!
