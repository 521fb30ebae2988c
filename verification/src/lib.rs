//! Decision core of a seccomp user-notification supervisor that lets file
//! ownership syscalls succeed inside rootless containers.
//!
//! The crate performs no I/O. Every piece of the supervisor that decides or
//! computes lives here with a contract; a driver performs the system calls the
//! crate asks for and reports their outcome back.

use vstd::prelude::*;
use vstd::string::StringExecFns;
use vstd::utf8::encode_utf8;

/// Error numbers and the error type every fallible operation returns.
pub mod error;

/// The flag sets that argument words are read as.
pub mod flags;

/// Contains `MaybeRemote` to work with the arguments provided by Seccomp.
pub mod mem;

/// The files under `/proc` through which a tracee is reached.
pub mod procfs;

/// Wire format of the ownership record.
pub mod record;

/// The decisions of the supervisor loop.
pub mod supervisor;

/// The supervised system calls and their emulation.
pub mod syscall;

/// The worker that handles one notification.
pub mod worker;

/// Helper methods to modify the rootlesscontaine.rs xAttribute.
pub mod xattr;

verus! {

/// Type alias for `SyscallErrno` for ease of use.
pub type Error = crate::error::SyscallErrno;

/// File name of the socket on which the supervisor accepts connections.
pub const SOCKET_NAME: &'static str = "subuidless.socket";

/// Why the socket of the supervisor cannot be created.
#[derive(Clone, Copy, Debug, PartialEq, Eq, Structural)]
pub enum SocketError {
    /// `XDG_RUNTIME_DIR` is not set.
    MissingRuntimeDir,
}

/// How the removal of a file at the socket's path ended.
#[derive(Clone, Copy, Debug, PartialEq, Eq, Structural)]
pub enum Removal {
    /// A stale file was removed.
    Removed,
    /// There was no file.
    NotFound,
    /// The removal failed for another reason.
    Failed,
}

/// Whether a path needs a separator before a file name is added to it: it
/// does unless it is empty or ends in `/`.
pub open spec fn needs_separator(dir: Seq<char>) -> bool {
    encode_utf8(dir).len() > 0 && encode_utf8(dir).last() != 0x2f
}

/// The path of the file `name` in the directory `dir`.
pub open spec fn join(dir: Seq<char>, name: Seq<char>) -> Seq<char> {
    if needs_separator(dir) {
        dir + "/"@ + name
    } else {
        dir + name
    }
}

/// Says where the Unix socket `subuidless.socket` is to be created: in the
/// directory `runtime_dir`, the value of `$XDG_RUNTIME_DIR`.
/// Fails if `$XDG_RUNTIME_DIR` is not set.
pub fn create_socket(runtime_dir: Option<&str>) -> (path: Result<String, SocketError>)
    ensures
        match runtime_dir {
            Some(dir) => path matches Ok(joined) && joined@ == join(dir@, SOCKET_NAME@),
            None => path == Err::<String, SocketError>(SocketError::MissingRuntimeDir),
        },
{
    let dir = match runtime_dir {
        Some(dir) => dir,
        None => {
            return Err(SocketError::MissingRuntimeDir);
        },
    };
    let bytes = dir.as_bytes();
    let mut path = String::from_str(dir);
    if bytes.len() > 0 && bytes[bytes.len() - 1] != 0x2f {
        path.append("/");
    }
    path.append(SOCKET_NAME);
    Ok(path)
}

/// Whether the socket may be created after the removal of a stale file at
/// its path ended with `removal`: it may unless the removal failed for
/// another reason than that there was no file.
pub fn stale_socket_cleared(removal: Removal) -> (cleared: bool)
    ensures
        cleared == !(removal is Failed),
{
    match removal {
        Removal::Failed => false,
        _ => true,
    }
}

} // verus!
