use vstd::prelude::*;

verus! {

/// The category of an I/O error.
#[derive(Clone, Copy, Debug, PartialEq, Eq, Structural, Hash)]
pub enum ErrorKind {
    NotFound,
    PermissionDenied,
    ConnectionRefused,
    ConnectionReset,
    ConnectionAborted,
    NotConnected,
    AddrInUse,
    AddrNotAvailable,
    BrokenPipe,
    AlreadyExists,
    WouldBlock,
    InvalidInput,
    InvalidData,
    TimedOut,
    WriteZero,
    Interrupted,
    Other,
    UnexpectedEof,
}

/// The description of each kind.
pub open spec fn kind_text(k: ErrorKind) -> Seq<char> {
    match k {
        ErrorKind::NotFound => "entity not found"@,
        ErrorKind::PermissionDenied => "permission denied"@,
        ErrorKind::ConnectionRefused => "connection refused"@,
        ErrorKind::ConnectionReset => "connection reset"@,
        ErrorKind::ConnectionAborted => "connection aborted"@,
        ErrorKind::NotConnected => "not connected"@,
        ErrorKind::AddrInUse => "address in use"@,
        ErrorKind::AddrNotAvailable => "address not available"@,
        ErrorKind::BrokenPipe => "broken pipe"@,
        ErrorKind::AlreadyExists => "entity already exists"@,
        ErrorKind::WouldBlock => "operation would block"@,
        ErrorKind::InvalidInput => "invalid input parameter"@,
        ErrorKind::InvalidData => "invalid data"@,
        ErrorKind::TimedOut => "timed out"@,
        ErrorKind::WriteZero => "write zero"@,
        ErrorKind::Interrupted => "operation interrupted"@,
        ErrorKind::Other => "other os error"@,
        ErrorKind::UnexpectedEof => "unexpected end of file"@,
    }
}

impl ErrorKind {
    pub fn as_str(&self) -> (r: &'static str)
        ensures
            r@ == kind_text(*self),
    {
        match *self {
            ErrorKind::NotFound => "entity not found",
            ErrorKind::PermissionDenied => "permission denied",
            ErrorKind::ConnectionRefused => "connection refused",
            ErrorKind::ConnectionReset => "connection reset",
            ErrorKind::ConnectionAborted => "connection aborted",
            ErrorKind::NotConnected => "not connected",
            ErrorKind::AddrInUse => "address in use",
            ErrorKind::AddrNotAvailable => "address not available",
            ErrorKind::BrokenPipe => "broken pipe",
            ErrorKind::AlreadyExists => "entity already exists",
            ErrorKind::WouldBlock => "operation would block",
            ErrorKind::InvalidInput => "invalid input parameter",
            ErrorKind::InvalidData => "invalid data",
            ErrorKind::TimedOut => "timed out",
            ErrorKind::WriteZero => "write zero",
            ErrorKind::Interrupted => "operation interrupted",
            ErrorKind::Other => "other os error",
            ErrorKind::UnexpectedEof => "unexpected end of file",
        }
    }
}

/// An I/O error: its kind and, optionally, a message describing it.
#[derive(Debug)]
pub struct Error {
    kind: ErrorKind,
    inner: Option<String>,
}

pub type IoResult<T> = core::result::Result<T, Error>;

impl Error {
    pub closed spec fn spec_kind(&self) -> ErrorKind {
        self.kind
    }

    pub closed spec fn spec_message(&self) -> Option<Seq<char>> {
        match self.inner {
            Some(s) => Some(s@),
            None => None,
        }
    }

    /// An error of kind `kind` described by `error`.
    pub fn new(kind: ErrorKind, error: &str) -> (r: Error)
        ensures
            r.spec_kind() == kind,
            r.spec_message() == Some(error@),
    {
        Error { kind, inner: Some(error.to_string()) }
    }

    /// An error of kind `kind` without a message.
    pub fn from_kind(kind: ErrorKind) -> (r: Error)
        ensures
            r.spec_kind() == kind,
            r.spec_message() == None::<Seq<char>>,
    {
        Error { kind, inner: None }
    }

    pub fn get_ref(&self) -> (r: Option<&String>)
        ensures
            match r {
                Some(s) => self.spec_message() == Some(s@),
                None => self.spec_message() is None,
            },
    {
        match &self.inner {
            Some(s) => Some(s),
            None => None,
        }
    }

    pub fn get_mut(&mut self) -> (r: &mut Option<String>)
        ensures
            match *r {
                Some(s) => old(self).spec_message() == Some(s@),
                None => old(self).spec_message() is None,
            },
            final(self).spec_kind() == old(self).spec_kind(),
            match *final(r) {
                Some(s) => final(self).spec_message() == Some(s@),
                None => final(self).spec_message() is None,
            },
    {
        &mut self.inner
    }

    pub fn into_inner(self) -> (r: Option<String>)
        ensures
            match r {
                Some(s) => self.spec_message() == Some(s@),
                None => self.spec_message() is None,
            },
    {
        self.inner
    }

    pub fn kind(&self) -> (r: ErrorKind)
        ensures
            r == self.spec_kind(),
    {
        self.kind
    }

    /// The error's text: its message, or else its kind's description.
    pub fn to_text(&self) -> (r: String)
        ensures
            match self.spec_message() {
                Some(m) => r@ == m,
                None => r@ == kind_text(self.spec_kind()),
            },
    {
        match &self.inner {
            Some(s) => s.clone(),
            None => self.kind.as_str().to_string(),
        }
    }
}

} // verus!
