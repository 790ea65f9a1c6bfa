//! Artifact extractor: materializes a compiled archive into a package
//! directory, fully replacing any prior contents, and deterministically
//! resolves the single generated glue file inside it.

use vstd::prelude::*;

verus! {

/// Failures of the artifact extractor.
#[derive(Debug, Clone, PartialEq, Eq)]
pub enum ExtractError {
    /// The package directory does not exist.
    NotFound,
    /// Not exactly one usable glue file candidate was found; `count` is how
    /// many candidates the listing held.
    AmbiguousOrMissing { count: usize },
    /// The resolved glue file could not be read as text.
    ReadFailure,
}

impl ExtractError {
    pub open spec fn spec_message(&self) -> Seq<char> {
        match self {
            ExtractError::NotFound => "Package directory does not exist"@,
            ExtractError::AmbiguousOrMissing { .. } => {
                "Expected exactly one glue file in the package directory"@
            },
            ExtractError::ReadFailure => "Failed to read the glue file"@,
        }
    }

    /// A human-readable diagnostic for this failure.
    pub fn message(&self) -> (m: String)
        ensures
            m@ == self.spec_message(),
    {
        match self {
            ExtractError::NotFound => String::from_str("Package directory does not exist"),
            ExtractError::AmbiguousOrMissing { .. } => {
                String::from_str("Expected exactly one glue file in the package directory")
            },
            ExtractError::ReadFailure => String::from_str("Failed to read the glue file"),
        }
    }
}

/// Relies on fs_err::remove_dir_all: removes the directory and everything
/// under it. Any failure — in particular the directory not existing — is
/// ignored, since extraction only needs prior contents gone. The effect is on
/// the filesystem alone.
#[verifier::external_body]
fn remove_dir_recursive(path: &String) {
    let _ = fs_err::remove_dir_all(path.as_str());
}

/// Relies on tar::Archive::unpack: unpacks the archive read from the byte
/// slice into the directory, creating it as needed, and errors on a malformed
/// archive or a filesystem failure. The outcome depends on the bytes and on
/// the filesystem.
#[verifier::external_body]
fn unpack_archive(archive_bytes: &Vec<u8>, destination: &String) -> (r: Result<(), String>) {
    let mut archive = tar::Archive::new(archive_bytes.as_slice());
    match archive.unpack(destination.as_str()) {
        Ok(()) => Ok(()),
        Err(e) => Err(format!("{e}")),
    }
}

/// Relies on fs_err::metadata: it succeeds exactly when the path exists and
/// is accessible, so the result reports whether the directory is present at
/// the time of the call.
#[verifier::external_body]
fn path_exists(path: &String) -> (r: bool) {
    fs_err::metadata(path.as_str()).is_ok()
}

/// Relies on glob::glob: lists the paths matching the pattern at the time of
/// the call. `None` when the pattern is invalid; an inner `None` for an entry
/// that could not be read or whose path is not UTF-8.
#[verifier::external_body]
fn glob_matches(pattern: &String) -> (r: Option<Vec<Option<String>>>) {
    match glob::glob(pattern.as_str()) {
        Ok(paths) => Some(
            paths.map(
                |entry| match entry {
                    Ok(p) => p.to_str().map(|s| s.to_string()),
                    Err(_) => None,
                },
            ).collect(),
        ),
        Err(_) => None,
    }
}

/// Relies on fs_err::read_to_string: the contents of the file as UTF-8 text,
/// `None` on any read failure.
#[verifier::external_body]
fn read_text_file(path: &String) -> (r: Option<String>) {
    fs_err::read_to_string(path.as_str()).ok()
}

/// Materializes the archive at `destination_directory`, fully replacing any
/// prior contents: whatever was there is removed first (absence of a prior
/// directory is not an error), then the archive is unpacked into it. Whether
/// unpacking succeeds depends on the archive bytes and the filesystem; on
/// failure the destination is left without its prior contents but possibly
/// partially populated, never in a merged state.
pub fn extract(archive_bytes: &Vec<u8>, destination_directory: &String) -> (r: Result<
    (),
    String,
>) {
    remove_dir_recursive(destination_directory);
    unpack_archive(archive_bytes, destination_directory)
}

/// The exactly-one-match policy: succeeds if and only if the listing holds
/// exactly one candidate and that candidate is usable, and then returns it.
/// Zero candidates and two or more candidates are both errors; the policy is
/// never relaxed to "first match".
pub fn choose_glue_file(candidates: Vec<Option<String>>) -> (r: Result<String, ExtractError>)
    ensures
        r is Ok <==> (candidates@.len() == 1 && candidates@[0] is Some),
        r is Ok ==> r->Ok_0 == candidates@[0]->0,
        !(candidates@.len() == 1 && candidates@[0] is Some) ==> r == Err::<
            String,
            ExtractError,
        >(ExtractError::AmbiguousOrMissing { count: candidates@.len() as usize }),
{
    let mut candidates = candidates;
    if candidates.len() != 1 {
        let n = candidates.len();
        return Err(ExtractError::AmbiguousOrMissing { count: n });
    }
    match candidates.remove(0) {
        Some(path) => Ok(path),
        None => Err(ExtractError::AmbiguousOrMissing { count: 1 }),
    }
}

/// Locates the single generated glue file at the top level of the package
/// directory: `NotFound` when the directory does not exist, and
/// `AmbiguousOrMissing` unless exactly one file matches the fixed `*.js`
/// suffix pattern; the sole match is returned.
pub fn resolve_glue_file(directory: &String) -> (r: Result<String, ExtractError>)
    ensures
        r is Err ==> (r->Err_0 is NotFound || r->Err_0 is AmbiguousOrMissing),
{
    if !path_exists(directory) {
        return Err(ExtractError::NotFound);
    }
    let mut pattern = directory.clone();
    pattern.append("/*.js");
    match glob_matches(&pattern) {
        None => Err(ExtractError::AmbiguousOrMissing { count: 0 }),
        Some(candidates) => choose_glue_file(candidates),
    }
}

/// Reads the resolved glue file as text; fails with `ReadFailure` on any
/// read error.
pub fn read_glue_file(path: &String) -> (r: Result<String, ExtractError>)
    ensures
        r is Err ==> r == Err::<String, ExtractError>(ExtractError::ReadFailure),
{
    match read_text_file(path) {
        Some(text) => Ok(text),
        None => Err(ExtractError::ReadFailure),
    }
}

} // verus!
