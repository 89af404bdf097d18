//! The edge between OS paths and the plain strings the library works on.
//!
//! The reconciler's decisions are all made on `String` values; callers
//! that hold `std::path::PathBuf` values convert them here before
//! handing them in.

use vstd::prelude::*;

use std::path::PathBuf;

verus! {

#[verifier::external_type_specification]
#[verifier::external_body]
pub struct ExPathBuf(PathBuf);

/// Relies on `std::path::Path::to_str`, which yields the path's text
/// exactly when the path is valid Unicode, and on `str::to_string`.
/// Nothing more can be said of the text: a `PathBuf` is opaque here.
#[verifier::external_body]
fn path_text(pathbuf: &PathBuf) -> Option<String> {
    pathbuf.to_str().map(|s| s.to_string())
}

/// Render a path as an owned `String`, or `None` when the path is not
/// valid Unicode and has no faithful string form.
pub fn pathbuf_to_string(pathbuf: &PathBuf) -> Option<String> {
    path_text(pathbuf)
}

} // verus!
