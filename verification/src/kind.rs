//! The closed set of resource kinds, their diagnostic labels, and the
//! capability rules that say which I/O operation each kind supports.

use vstd::prelude::*;

verus! {

/// The tag of a table entry: which concrete OS primitive the entry owns.
///
/// The set is closed; every operation matches on it exhaustively, so adding
/// a kind forces every dispatch site to decide its behaviour for it.
#[derive(Clone, Copy, Debug, PartialEq, Eq, Structural)]
pub enum ResourceKind {
    Stdin,
    Stdout,
    Stderr,
    FsFile,
    TcpListener,
    TcpStream,
    HttpBody,
    Repl,
    Child,
    ChildStdin,
    ChildStdout,
    ChildStderr,
}

/// The fixed human-readable label of a kind, as reported by the
/// introspection snapshot.
pub open spec fn kind_label(k: ResourceKind) -> Seq<char> {
    match k {
        ResourceKind::Stdin => "stdin"@,
        ResourceKind::Stdout => "stdout"@,
        ResourceKind::Stderr => "stderr"@,
        ResourceKind::FsFile => "fsFile"@,
        ResourceKind::TcpListener => "tcpListener"@,
        ResourceKind::TcpStream => "tcpStream"@,
        ResourceKind::HttpBody => "httpBody"@,
        ResourceKind::Repl => "repl"@,
        ResourceKind::Child => "child"@,
        ResourceKind::ChildStdin => "childStdin"@,
        ResourceKind::ChildStdout => "childStdout"@,
        ResourceKind::ChildStderr => "childStderr"@,
    }
}

/// Returns the diagnostic label of a payload's kind.
pub fn inspect_repr(repr: &ResourceKind) -> (s: String)
    ensures
        s@ == kind_label(*repr),
{
    match repr {
        ResourceKind::Stdin => String::from_str("stdin"),
        ResourceKind::Stdout => String::from_str("stdout"),
        ResourceKind::Stderr => String::from_str("stderr"),
        ResourceKind::FsFile => String::from_str("fsFile"),
        ResourceKind::TcpListener => String::from_str("tcpListener"),
        ResourceKind::TcpStream => String::from_str("tcpStream"),
        ResourceKind::HttpBody => String::from_str("httpBody"),
        ResourceKind::Repl => String::from_str("repl"),
        ResourceKind::Child => String::from_str("child"),
        ResourceKind::ChildStdin => String::from_str("childStdin"),
        ResourceKind::ChildStdout => String::from_str("childStdout"),
        ResourceKind::ChildStderr => String::from_str("childStderr"),
    }
}

/// The low-level operations dispatched through the table by resource id.
#[derive(Clone, Copy, Debug, PartialEq, Eq, Structural)]
pub enum IoOp {
    Read,
    Write,
    Accept,
    Shutdown,
}

/// Kinds whose payload can be read from.
pub open spec fn can_read(k: ResourceKind) -> bool {
    ||| k is Stdin
    ||| k is FsFile
    ||| k is TcpStream
    ||| k is HttpBody
    ||| k is ChildStdout
    ||| k is ChildStderr
}

/// Kinds whose payload can be written to.
pub open spec fn can_write(k: ResourceKind) -> bool {
    ||| k is Stdout
    ||| k is Stderr
    ||| k is FsFile
    ||| k is TcpStream
    ||| k is ChildStdin
}

/// Kinds whose payload can accept a connection.
pub open spec fn can_accept(k: ResourceKind) -> bool {
    k is TcpListener
}

/// Kinds whose payload can have its socket shut down.
pub open spec fn can_shutdown(k: ResourceKind) -> bool {
    k is TcpStream
}

/// Whether a kind is semantically capable of an operation.  Dispatching an
/// operation to a kind that does not support it is a contract violation by
/// the invoking layer and is fatal, never a recoverable error.
pub open spec fn supports(k: ResourceKind, op: IoOp) -> bool {
    match op {
        IoOp::Read => can_read(k),
        IoOp::Write => can_write(k),
        IoOp::Accept => can_accept(k),
        IoOp::Shutdown => can_shutdown(k),
    }
}

/// Decides whether a kind supports an operation.  The invoking layer must
/// check this before dispatching through the low-level path; on a `false`
/// answer the dispatch would be a fatal contract violation.
pub fn supports_op(k: &ResourceKind, op: &IoOp) -> (b: bool)
    ensures
        b == supports(*k, *op),
{
    match op {
        IoOp::Read => match k {
            ResourceKind::Stdin
            | ResourceKind::FsFile
            | ResourceKind::TcpStream
            | ResourceKind::HttpBody
            | ResourceKind::ChildStdout
            | ResourceKind::ChildStderr => true,
            _ => false,
        },
        IoOp::Write => match k {
            ResourceKind::Stdout
            | ResourceKind::Stderr
            | ResourceKind::FsFile
            | ResourceKind::TcpStream
            | ResourceKind::ChildStdin => true,
            _ => false,
        },
        IoOp::Accept => match k {
            ResourceKind::TcpListener => true,
            _ => false,
        },
        IoOp::Shutdown => match k {
            ResourceKind::TcpStream => true,
            _ => false,
        },
    }
}

} // verus!
