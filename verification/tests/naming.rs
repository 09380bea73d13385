use file_compressor::error::{ErrorKind, TransferError};
use file_compressor::naming::{default_out_compress, default_out_decompress, validate_distinct};

#[test]
fn compress_name_appends_marker_to_the_full_name() {
    assert_eq!(default_out_compress("notes.txt"), "notes.txt.gz");
    assert_eq!(default_out_compress("archive.tar"), "archive.tar.gz");
}

#[test]
fn compress_name_of_a_name_without_extension() {
    assert_eq!(default_out_compress("README"), "README.gz");
}

#[test]
fn compress_name_keeps_directories_and_dots() {
    assert_eq!(default_out_compress("dir.d/file"), "dir.d/file.gz");
    assert_eq!(default_out_compress("/tmp/a.b/c.txt"), "/tmp/a.b/c.txt.gz");
    assert_eq!(default_out_compress(".bashrc"), ".bashrc.gz");
    assert_eq!(default_out_compress("trailing."), "trailing..gz");
}

#[test]
fn compress_name_of_an_already_compressed_name() {
    assert_eq!(default_out_compress("data.gz"), "data.gz.gz");
}

#[test]
fn compress_name_of_the_empty_path() {
    assert_eq!(default_out_compress(""), ".gz");
}

#[test]
fn compress_name_counts_characters_not_bytes() {
    assert_eq!(default_out_compress("r\u{e9}sum\u{e9}.txt"), "r\u{e9}sum\u{e9}.txt.gz");
}

#[test]
fn compress_name_is_the_same_on_every_call() {
    let first = default_out_compress("notes.txt");
    let second = default_out_compress("notes.txt");
    assert_eq!(first, second);
    assert_ne!(default_out_compress("notes.txt"), default_out_compress("notes.md"));
}

#[test]
fn decompress_name_strips_the_marker() {
    assert_eq!(default_out_decompress("notes.txt.gz"), Ok(String::from("notes.txt")));
    assert_eq!(default_out_decompress("README.gz"), Ok(String::from("README")));
    assert_eq!(default_out_decompress("dir.d/file.gz"), Ok(String::from("dir.d/file")));
}

#[test]
fn decompress_name_strips_the_marker_once() {
    assert_eq!(default_out_decompress("data.gz.gz"), Ok(String::from("data.gz")));
}

#[test]
fn decompress_name_rejects_a_name_without_marker() {
    let err = default_out_decompress("archive.txt").unwrap_err();
    assert_eq!(err.kind(), ErrorKind::InvalidInput);
    assert_eq!(err, TransferError::InvalidInput { path: String::from("archive.txt") });
}

#[test]
fn decompress_name_rejects_near_misses() {
    for name in ["gz", "a.GZ", "a.gzip", "a.gz ", "a.g", "agz", "", "gz.", "a.gz/"] {
        let err = default_out_decompress(name).unwrap_err();
        assert_eq!(err, TransferError::InvalidInput { path: String::from(name) });
    }
}

#[test]
fn decompress_name_of_the_bare_marker_is_empty() {
    assert_eq!(default_out_decompress(".gz"), Ok(String::new()));
}

#[test]
fn decompress_name_counts_characters_not_bytes() {
    assert_eq!(
        default_out_decompress("r\u{e9}sum\u{e9}.gz"),
        Ok(String::from("r\u{e9}sum\u{e9}"))
    );
    assert_eq!(default_out_decompress("\u{65e5}\u{672c}.gz"), Ok(String::from("\u{65e5}\u{672c}")));
}

#[test]
fn decompress_name_inverts_compress_name() {
    for name in ["notes.txt", "README", "", ".gz", "a.gz", "dir/x.tar", "r\u{e9}sum\u{e9}", "."] {
        let packed = default_out_compress(name);
        assert_eq!(packed, format!("{}.gz", name));
        assert_eq!(default_out_decompress(&packed), Ok(String::from(name)));
    }
}

#[test]
fn compress_name_restores_a_stripped_name() {
    for name in ["notes.txt.gz", ".gz", "a.gz.gz", "dir/x.gz"] {
        let stem = default_out_decompress(name).unwrap();
        assert_eq!(default_out_compress(&stem), name);
    }
}

#[test]
fn distinct_paths_pass() {
    assert_eq!(validate_distinct("a.txt", "a.txt.gz"), Ok(()));
    assert_eq!(validate_distinct("a.txt", "A.txt"), Ok(()));
    assert_eq!(validate_distinct("a.txt", "/a.txt"), Ok(()));
    assert_eq!(validate_distinct("a/b", "b"), Ok(()));
    assert_eq!(validate_distinct("a/../b", "b"), Ok(()));
    assert_eq!(validate_distinct("", "a"), Ok(()));
}

#[test]
fn same_path_is_refused() {
    let err = validate_distinct("a.txt", "a.txt").unwrap_err();
    assert_eq!(err.kind(), ErrorKind::SamePath);
    assert_eq!(err, TransferError::SamePath { path: String::from("a.txt") });
    assert_eq!(
        validate_distinct("", ""),
        Err(TransferError::SamePath { path: String::new() })
    );
}

#[test]
fn same_path_written_differently_is_refused() {
    for (input, output) in [
        ("a/b", "a//b"),
        ("a/b", "a/b/"),
        ("a/b", "a/./b"),
        ("a.txt", "./a.txt"),
        ("/tmp/x", "//tmp///x/"),
        ("/", "//"),
        (".", ""),
    ] {
        assert_eq!(
            validate_distinct(input, output),
            Err(TransferError::SamePath { path: String::from(input) })
        );
        assert_eq!(
            validate_distinct(output, input),
            Err(TransferError::SamePath { path: String::from(output) })
        );
    }
}
