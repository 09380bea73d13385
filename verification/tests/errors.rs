use file_compressor::error::{Direction, ErrorKind, FileRole, TransferError};

#[test]
fn kind_of_each_error() {
    let p = String::from("p");
    let c = String::from("c");
    assert_eq!(TransferError::NotFound { path: p.clone() }.kind(), ErrorKind::NotFound);
    assert_eq!(TransferError::InvalidInput { path: p.clone() }.kind(), ErrorKind::InvalidInput);
    assert_eq!(TransferError::SamePath { path: p.clone() }.kind(), ErrorKind::SamePath);
    assert_eq!(
        TransferError::IoOpen { role: FileRole::Input, path: p.clone(), cause: c.clone() }.kind(),
        ErrorKind::IoOpen
    );
    assert_eq!(
        TransferError::IoCopy { direction: Direction::Compress, cause: c.clone() }.kind(),
        ErrorKind::IoCopy
    );
    assert_eq!(TransferError::IoFinalize { cause: c }.kind(), ErrorKind::IoFinalize);
}

#[test]
fn message_of_not_found() {
    let e = TransferError::NotFound { path: String::from("does_not_exist.txt") };
    assert_eq!(e.context(), "Input file not found");
    assert_eq!(e.message(), "Input file not found: does_not_exist.txt");
}

#[test]
fn message_of_invalid_input() {
    let e = TransferError::InvalidInput { path: String::from("archive.txt") };
    assert_eq!(e.context(), "Input file must end with .gz if no --out is provided");
    assert_eq!(
        e.message(),
        "Input file must end with .gz if no --out is provided: archive.txt"
    );
}

#[test]
fn message_of_same_path() {
    let e = TransferError::SamePath { path: String::from("a.txt") };
    assert_eq!(e.context(), "Input and output cannot be the same");
    assert_eq!(e.message(), "Input and output cannot be the same: a.txt");
}

#[test]
fn message_of_open_failure_names_the_role() {
    let input = TransferError::IoOpen {
        role: FileRole::Input,
        path: String::from("in.txt"),
        cause: String::from("permission denied"),
    };
    assert_eq!(input.context(), "Cannot open");
    assert_eq!(input.message(), "Cannot open in.txt: permission denied");
    let output = TransferError::IoOpen {
        role: FileRole::Output,
        path: String::from("no/such/dir/out.gz"),
        cause: String::from("no such directory"),
    };
    assert_eq!(output.context(), "Cannot create");
    assert_eq!(output.message(), "Cannot create no/such/dir/out.gz: no such directory");
}

#[test]
fn message_of_copy_failure_names_the_direction() {
    let packing = TransferError::IoCopy {
        direction: Direction::Compress,
        cause: String::from("read error"),
    };
    assert_eq!(packing.context(), "Failed while copying data (compression)");
    assert_eq!(packing.message(), "Failed while copying data (compression): read error");
    let unpacking = TransferError::IoCopy {
        direction: Direction::Decompress,
        cause: String::from("corrupt deflate stream"),
    };
    assert_eq!(unpacking.context(), "Failed while copying data (decompression)");
    assert_eq!(
        unpacking.message(),
        "Failed while copying data (decompression): corrupt deflate stream"
    );
}

#[test]
fn message_of_finalize_failure() {
    let e = TransferError::IoFinalize { cause: String::from("disk full") };
    assert_eq!(e.context(), "Failed to finalize gzip");
    assert_eq!(e.message(), "Failed to finalize gzip: disk full");
}

#[test]
fn message_with_empty_parts() {
    let e = TransferError::NotFound { path: String::new() };
    assert_eq!(e.message(), "Input file not found: ");
    let f = TransferError::IoFinalize { cause: String::new() };
    assert_eq!(f.message(), "Failed to finalize gzip: ");
}
