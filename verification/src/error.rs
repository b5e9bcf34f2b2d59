use vstd::prelude::*;

verus! {

/// The outcomes the memo operations report.
#[derive(Clone, Copy, Debug, PartialEq, Eq, Structural)]
pub enum MemoError {
    /// No error.
    NoError,
    /// The file already exists.
    FileExist,
    /// The file or directory does not exist (or the name is not valid there).
    NoEntry,
    /// The save directory does not exist.
    NoDirectory,
    /// The path is too long.
    LongPath,
    /// The file name holds characters that are not allowed.
    InvalidFileName,
    /// No file name was given.
    NoFileName,
    /// The name is that of the open file.
    SameName,
    /// Access was denied.
    Permission,
    /// The file is larger than the warning size.
    LargeFile,
    /// The file is already open on another page.
    AlreadyOpen,
    /// The bytes could not be decoded.
    Decode,
    /// The page still holds a memo.
    LeaveMemo,
    /// The resource is in use or locked.
    Busy,
    /// The font size is out of range.
    InvalidFontSize,
    /// A parameter is not valid.
    Param,
    /// Any other error.
    Error,
}

/// The kind of an input/output error, as far as the memo rules tell kinds apart.
#[derive(Clone, Copy, Debug, PartialEq, Eq, Structural)]
pub enum IoErrorKind {
    NotFound,
    PermissionDenied,
    AlreadyExists,
    Other,
}

/// How reading or writing a file failed: opening it, or moving its bytes.
#[derive(Clone, Copy, Debug, PartialEq, Eq, Structural)]
pub enum FileFailure {
    /// The file could not be opened.
    Open(IoErrorKind),
    /// The file was opened but reading or writing its bytes failed.
    Transfer,
}

} // verus!
