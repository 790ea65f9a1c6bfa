use asa_server::extractor::{
    choose_glue_file, extract, read_glue_file, resolve_glue_file, ExtractError,
};

fn tar_archive(files: &[(&str, &str)]) -> Vec<u8> {
    let mut builder = tar::Builder::new(Vec::new());
    for (name, contents) in files {
        let mut header = tar::Header::new_gnu();
        header.set_size(contents.len() as u64);
        header.set_mode(0o644);
        header.set_cksum();
        builder
            .append_data(&mut header, *name, contents.as_bytes())
            .expect("appending to an in-memory archive cannot fail");
    }
    builder.into_inner().expect("finishing an in-memory archive cannot fail")
}

fn cleanup(directory: &str) {
    let _ = fs_err::remove_dir_all(directory);
}

#[test]
fn choose_glue_file_needs_exactly_one_candidate() {
    let none: Vec<Option<String>> = Vec::new();
    assert_eq!(choose_glue_file(none), Err(ExtractError::AmbiguousOrMissing { count: 0 }));
    let two = vec![Some(String::from("a.js")), Some(String::from("b.js"))];
    assert_eq!(choose_glue_file(two), Err(ExtractError::AmbiguousOrMissing { count: 2 }));
    let one = vec![Some(String::from("only.js"))];
    assert_eq!(choose_glue_file(one), Ok(String::from("only.js")));
    let unreadable = vec![None];
    assert_eq!(
        choose_glue_file(unreadable),
        Err(ExtractError::AmbiguousOrMissing { count: 1 })
    );
}

#[test]
fn resolve_glue_file_fails_for_missing_directory() {
    let r = resolve_glue_file(&String::from("/tmp/asa_extract_no_such_directory"));
    assert_eq!(r, Err(ExtractError::NotFound));
}

#[test]
fn resolve_glue_file_fails_with_zero_matches() {
    let dir = String::from("/tmp/asa_extract_zero_matches");
    let archive = tar_archive(&[("readme.txt", "no glue here")]);
    extract(&archive, &dir).expect("a well-formed archive unpacks");
    assert_eq!(
        resolve_glue_file(&dir),
        Err(ExtractError::AmbiguousOrMissing { count: 0 })
    );
    cleanup("/tmp/asa_extract_zero_matches");
}

#[test]
fn resolve_glue_file_fails_with_two_matches() {
    let dir = String::from("/tmp/asa_extract_two_matches");
    let archive = tar_archive(&[("one.js", "a"), ("two.js", "b")]);
    extract(&archive, &dir).expect("a well-formed archive unpacks");
    assert_eq!(
        resolve_glue_file(&dir),
        Err(ExtractError::AmbiguousOrMissing { count: 2 })
    );
    cleanup("/tmp/asa_extract_two_matches");
}

#[test]
fn resolve_glue_file_returns_the_single_match() {
    let dir = String::from("/tmp/asa_extract_single_match");
    let archive = tar_archive(&[("glue.js", "the glue"), ("module.wasm", "\0asm")]);
    extract(&archive, &dir).expect("a well-formed archive unpacks");
    let path = resolve_glue_file(&dir).expect("exactly one glue file matches");
    assert!(path.ends_with("glue.js"));
    assert_eq!(read_glue_file(&path), Ok(String::from("the glue")));
    cleanup("/tmp/asa_extract_single_match");
}

#[test]
fn extraction_fully_replaces_prior_contents() {
    let dir = String::from("/tmp/asa_extract_replaced");
    let first = tar_archive(&[("first.js", "glue-a"), ("stale.txt", "stale")]);
    let second = tar_archive(&[("second.js", "glue-b")]);
    extract(&first, &dir).expect("a well-formed archive unpacks");
    let path = resolve_glue_file(&dir).expect("exactly one glue file matches");
    assert!(path.ends_with("first.js"));
    extract(&second, &dir).expect("a well-formed archive unpacks");
    // only the second archive's contents remain: were first.js still there,
    // resolution would now find two matches and fail
    let path = resolve_glue_file(&dir).expect("exactly one glue file matches");
    assert!(path.ends_with("second.js"));
    assert_eq!(read_glue_file(&path), Ok(String::from("glue-b")));
    cleanup("/tmp/asa_extract_replaced");
}

#[test]
fn extract_rejects_a_malformed_archive() {
    let dir = String::from("/tmp/asa_extract_malformed");
    let garbage = vec![9u8, 8, 7, 6, 5, 4, 3, 2, 1];
    assert!(extract(&garbage, &dir).is_err());
    cleanup("/tmp/asa_extract_malformed");
}

#[test]
fn read_glue_file_fails_on_missing_file() {
    let r = read_glue_file(&String::from("/tmp/asa_extract_nowhere/missing.js"));
    assert_eq!(r, Err(ExtractError::ReadFailure));
}

#[test]
fn extract_error_messages() {
    assert_eq!(ExtractError::NotFound.message(), "Package directory does not exist");
    assert_eq!(
        ExtractError::AmbiguousOrMissing { count: 2 }.message(),
        "Expected exactly one glue file in the package directory"
    );
    assert_eq!(ExtractError::ReadFailure.message(), "Failed to read the glue file");
}
