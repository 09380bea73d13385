//! The failures a transfer can end in.

use vstd::prelude::*;
use vstd::string::*;

verus! {

/// Which way the bytes go.
#[derive(Debug, Clone, Copy, PartialEq, Eq, Structural)]
pub enum Direction {
    Compress,
    Decompress,
}

/// Which of a transfer's two files a path names.
#[derive(Debug, Clone, Copy, PartialEq, Eq, Structural)]
pub enum FileRole {
    Input,
    Output,
}

/// The category of a failure, for callers that branch on it.
#[derive(Debug, Clone, Copy, PartialEq, Eq, Structural)]
pub enum ErrorKind {
    NotFound,
    InvalidInput,
    SamePath,
    IoOpen,
    IoCopy,
    IoFinalize,
}

/// Why a transfer failed, with the path or the underlying cause it concerns.
#[derive(Debug, Clone, PartialEq, Eq)]
pub enum TransferError {
    /// The input path does not exist.
    NotFound { path: String },
    /// No output was named and the input does not carry the marker suffix,
    /// or nothing would be left of it once the suffix is removed.
    InvalidInput { path: String },
    /// Input and output are the same path.
    SamePath { path: String },
    /// A file could not be opened or created.
    IoOpen { role: FileRole, path: String, cause: String },
    /// A read, a write or the codec failed while bytes were streaming.
    IoCopy { direction: Direction, cause: String },
    /// The last bytes could not be produced or did not reach the output.
    IoFinalize { cause: String },
}

/// The mathematical content of a [`TransferError`].
pub ghost enum ErrorView {
    NotFound { path: Seq<char> },
    InvalidInput { path: Seq<char> },
    SamePath { path: Seq<char> },
    IoOpen { role: FileRole, path: Seq<char>, cause: Seq<char> },
    IoCopy { direction: Direction, cause: Seq<char> },
    IoFinalize { cause: Seq<char> },
}

impl View for TransferError {
    type V = ErrorView;

    open spec fn view(&self) -> ErrorView {
        match self {
            TransferError::NotFound { path } => ErrorView::NotFound { path: path@ },
            TransferError::InvalidInput { path } => ErrorView::InvalidInput { path: path@ },
            TransferError::SamePath { path } => ErrorView::SamePath { path: path@ },
            TransferError::IoOpen { role, path, cause } => ErrorView::IoOpen {
                role: *role,
                path: path@,
                cause: cause@,
            },
            TransferError::IoCopy { direction, cause } => ErrorView::IoCopy {
                direction: *direction,
                cause: cause@,
            },
            TransferError::IoFinalize { cause } => ErrorView::IoFinalize { cause: cause@ },
        }
    }
}

/// The category of an error.
pub open spec fn kind_of(e: ErrorView) -> ErrorKind {
    match e {
        ErrorView::NotFound { .. } => ErrorKind::NotFound,
        ErrorView::InvalidInput { .. } => ErrorKind::InvalidInput,
        ErrorView::SamePath { .. } => ErrorKind::SamePath,
        ErrorView::IoOpen { .. } => ErrorKind::IoOpen,
        ErrorView::IoCopy { .. } => ErrorKind::IoCopy,
        ErrorView::IoFinalize { .. } => ErrorKind::IoFinalize,
    }
}

/// What is being attempted when an error of this shape arises.
pub open spec fn context_of(e: ErrorView) -> Seq<char> {
    match e {
        ErrorView::NotFound { .. } => "Input file not found"@,
        ErrorView::InvalidInput { .. } => "Input file must end with .gz if no --out is provided"@,
        ErrorView::SamePath { .. } => "Input and output cannot be the same"@,
        ErrorView::IoOpen { role: FileRole::Input, .. } => "Cannot open"@,
        ErrorView::IoOpen { role: FileRole::Output, .. } => "Cannot create"@,
        ErrorView::IoCopy { direction: Direction::Compress, .. } =>
            "Failed while copying data (compression)"@,
        ErrorView::IoCopy { direction: Direction::Decompress, .. } =>
            "Failed while copying data (decompression)"@,
        ErrorView::IoFinalize { .. } => "Failed to finalize gzip"@,
    }
}

/// The rendered message: the context, then the path or the cause.
pub open spec fn message_of(e: ErrorView) -> Seq<char> {
    match e {
        ErrorView::NotFound { path } => context_of(e) + ": "@ + path,
        ErrorView::InvalidInput { path } => context_of(e) + ": "@ + path,
        ErrorView::SamePath { path } => context_of(e) + ": "@ + path,
        ErrorView::IoOpen { path, cause, .. } => context_of(e) + " "@ + path + ": "@ + cause,
        ErrorView::IoCopy { cause, .. } => context_of(e) + ": "@ + cause,
        ErrorView::IoFinalize { cause } => context_of(e) + ": "@ + cause,
    }
}

impl TransferError {
    /// The category of this error.
    pub fn kind(&self) -> (k: ErrorKind)
        ensures
            k == kind_of(self@),
    {
        match self {
            TransferError::NotFound { .. } => ErrorKind::NotFound,
            TransferError::InvalidInput { .. } => ErrorKind::InvalidInput,
            TransferError::SamePath { .. } => ErrorKind::SamePath,
            TransferError::IoOpen { .. } => ErrorKind::IoOpen,
            TransferError::IoCopy { .. } => ErrorKind::IoCopy,
            TransferError::IoFinalize { .. } => ErrorKind::IoFinalize,
        }
    }

    /// What was being attempted, without the path or the cause.
    pub fn context(&self) -> (s: String)
        ensures
            s@ == context_of(self@),
    {
        match self {
            TransferError::NotFound { .. } => String::from_str("Input file not found"),
            TransferError::InvalidInput { .. } => String::from_str(
                "Input file must end with .gz if no --out is provided",
            ),
            TransferError::SamePath { .. } => String::from_str(
                "Input and output cannot be the same",
            ),
            TransferError::IoOpen { role: FileRole::Input, .. } => String::from_str("Cannot open"),
            TransferError::IoOpen { role: FileRole::Output, .. } => String::from_str(
                "Cannot create",
            ),
            TransferError::IoCopy { direction: Direction::Compress, .. } => String::from_str(
                "Failed while copying data (compression)",
            ),
            TransferError::IoCopy { direction: Direction::Decompress, .. } => String::from_str(
                "Failed while copying data (decompression)",
            ),
            TransferError::IoFinalize { .. } => String::from_str("Failed to finalize gzip"),
        }
    }

    /// The message shown to a person: the context, then the path or the cause.
    pub fn message(&self) -> (s: String)
        ensures
            s@ == message_of(self@),
    {
        let context = self.context();
        match self {
            TransferError::NotFound { path } => context.concat(": ").concat(path.as_str()),
            TransferError::InvalidInput { path } => context.concat(": ").concat(path.as_str()),
            TransferError::SamePath { path } => context.concat(": ").concat(path.as_str()),
            TransferError::IoOpen { path, cause, .. } => context.concat(" ").concat(
                path.as_str(),
            ).concat(": ").concat(cause.as_str()),
            TransferError::IoCopy { cause, .. } => context.concat(": ").concat(cause.as_str()),
            TransferError::IoFinalize { cause } => context.concat(": ").concat(cause.as_str()),
        }
    }
}

} // verus!
