//! The error shapes of the file operations at the system boundary. The
//! operations themselves live outside the library; callers classify a
//! low-level failure into an `IoKind` and build the matching error here.
use vstd::prelude::*;

verus! {

/// The kind of a low-level I/O failure, as plain data.
#[derive(Debug, Clone, Copy, PartialEq, Eq, Structural)]
pub enum IoKind {
    NotFound,
    PermissionDenied,
    InvalidData,
    Other,
}

/// Why reading a file failed.
#[derive(Debug, PartialEq)]
pub enum ReadError {
    FileNotFound,
    PermissionDenied,
    InvalidData,
    Other(String),
}

/// Why writing a file failed.
#[derive(Debug, Clone, PartialEq)]
pub enum WriteError {
    DirectoryDoesNotExist,
    PermissionDenied,
    Other(String),
}

/// Why listing a directory failed.
#[derive(Debug, Clone, PartialEq)]
pub enum ReadDirError {
    DirectoryDoesNotExist,
    PermissionDenied,
    Other(String),
}

pub open spec fn spec_read_error_message(e: ReadError) -> Seq<char> {
    match e {
        ReadError::FileNotFound => "file not found"@,
        ReadError::PermissionDenied => "permission denied"@,
        ReadError::InvalidData => "file contents are not valid utf-8"@,
        ReadError::Other(s) => s@,
    }
}

pub open spec fn spec_write_error_message(e: WriteError) -> Seq<char> {
    match e {
        WriteError::DirectoryDoesNotExist => "directory does not exist"@,
        WriteError::PermissionDenied => "permission denied"@,
        WriteError::Other(s) => s@,
    }
}

pub open spec fn spec_read_dir_error_message(e: ReadDirError) -> Seq<char> {
    match e {
        ReadDirError::DirectoryDoesNotExist => "directory does not exist"@,
        ReadDirError::PermissionDenied => "permission denied"@,
        ReadDirError::Other(s) => s@,
    }
}

impl Clone for ReadError {
    /// A copy equal to the original.
    fn clone(&self) -> (r: ReadError)
        ensures
            r == *self,
    {
        match self {
            ReadError::FileNotFound => ReadError::FileNotFound,
            ReadError::PermissionDenied => ReadError::PermissionDenied,
            ReadError::InvalidData => ReadError::InvalidData,
            ReadError::Other(s) => ReadError::Other(s.clone()),
        }
    }
}

impl ReadError {
    /// Classifies a low-level failure: not-found, permission and encoding
    /// failures get their own variants, anything else keeps its text.
    pub fn from_kind(kind: IoKind, detail: String) -> (r: ReadError)
        ensures
            r == match kind {
                IoKind::NotFound => ReadError::FileNotFound,
                IoKind::PermissionDenied => ReadError::PermissionDenied,
                IoKind::InvalidData => ReadError::InvalidData,
                IoKind::Other => ReadError::Other(detail),
            },
    {
        match kind {
            IoKind::NotFound => ReadError::FileNotFound,
            IoKind::PermissionDenied => ReadError::PermissionDenied,
            IoKind::InvalidData => ReadError::InvalidData,
            IoKind::Other => ReadError::Other(detail),
        }
    }

    pub fn message(&self) -> (r: String)
        ensures
            r@ == spec_read_error_message(*self),
    {
        match self {
            ReadError::FileNotFound => String::from_str("file not found"),
            ReadError::PermissionDenied => String::from_str("permission denied"),
            ReadError::InvalidData => String::from_str("file contents are not valid utf-8"),
            ReadError::Other(s) => s.clone(),
        }
    }
}

impl WriteError {
    /// Classifies a low-level failure; a missing target maps to the missing
    /// directory variant.
    pub fn from_kind(kind: IoKind, detail: String) -> (r: WriteError)
        ensures
            r == match kind {
                IoKind::NotFound => WriteError::DirectoryDoesNotExist,
                IoKind::PermissionDenied => WriteError::PermissionDenied,
                IoKind::InvalidData => WriteError::Other(detail),
                IoKind::Other => WriteError::Other(detail),
            },
    {
        match kind {
            IoKind::NotFound => WriteError::DirectoryDoesNotExist,
            IoKind::PermissionDenied => WriteError::PermissionDenied,
            IoKind::InvalidData => WriteError::Other(detail),
            IoKind::Other => WriteError::Other(detail),
        }
    }

    pub fn message(&self) -> (r: String)
        ensures
            r@ == spec_write_error_message(*self),
    {
        match self {
            WriteError::DirectoryDoesNotExist => String::from_str("directory does not exist"),
            WriteError::PermissionDenied => String::from_str("permission denied"),
            WriteError::Other(s) => s.clone(),
        }
    }
}

impl ReadDirError {
    /// Classifies a low-level failure; a missing target maps to the missing
    /// directory variant.
    pub fn from_kind(kind: IoKind, detail: String) -> (r: ReadDirError)
        ensures
            r == match kind {
                IoKind::NotFound => ReadDirError::DirectoryDoesNotExist,
                IoKind::PermissionDenied => ReadDirError::PermissionDenied,
                IoKind::InvalidData => ReadDirError::Other(detail),
                IoKind::Other => ReadDirError::Other(detail),
            },
    {
        match kind {
            IoKind::NotFound => ReadDirError::DirectoryDoesNotExist,
            IoKind::PermissionDenied => ReadDirError::PermissionDenied,
            IoKind::InvalidData => ReadDirError::Other(detail),
            IoKind::Other => ReadDirError::Other(detail),
        }
    }

    pub fn message(&self) -> (r: String)
        ensures
            r@ == spec_read_dir_error_message(*self),
    {
        match self {
            ReadDirError::DirectoryDoesNotExist => String::from_str("directory does not exist"),
            ReadDirError::PermissionDenied => String::from_str("permission denied"),
            ReadDirError::Other(s) => s.clone(),
        }
    }
}

} // verus!
