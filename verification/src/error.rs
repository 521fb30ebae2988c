use vstd::prelude::*;

verus! {

/// Operation not permitted.
pub const EPERM: u16 = 1;

/// No such file or directory.
pub const ENOENT: u16 = 2;

/// Bad address.
pub const EFAULT: u16 = 14;

/// Invalid argument.
pub const EINVAL: u16 = 22;

/// Result too large for the buffer that was offered.
pub const ERANGE: u16 = 34;

/// File name too long.
pub const ENAMETOOLONG: u16 = 36;

/// Function not implemented.
pub const ENOSYS: u16 = 38;

/// No data available.
pub const ENODATA: u16 = 61;

/// File descriptor in bad state.
pub const EBADFD: u16 = 77;

/// Operation not supported.
pub const ENOTSUP: u16 = 95;

/// Why the supervisor itself, rather than a system call it issued, raised an
/// error.
#[derive(Clone, Copy, Debug, PartialEq, Eq, Structural)]
pub enum Cause {
    /// An argument word does not fit the integer type it is read as.
    WordOutOfRange,
    /// An argument word sets bits that are not flags of its flag set.
    UnknownBits,
    /// A file descriptor of the tracee could not be reopened.
    DescriptorReopen,
    /// The notification is no longer pending.
    NotificationInvalid,
    /// The tracee's memory could not be opened.
    MemoryOpen,
    /// Reading or writing the tracee's memory failed.
    MemoryTransfer,
    /// A path read from the tracee has no terminator within the path bound.
    MissingTerminator,
    /// A path read from the tracee is not UTF-8.
    InvalidUtf8,
    /// An ownership record could not be parsed.
    MalformedRecord,
    /// No handler is registered for the syscall.
    UnsupportedSyscall,
    /// The driver of a worker gave a reply that does not fit the request.
    UnexpectedReply,
}

impl Cause {
    /// What went wrong, in words.
    pub open spec fn spec_message(self) -> Seq<char> {
        match self {
            Cause::WordOutOfRange => "Argument out of range of its type"@,
            Cause::UnknownBits => "Could not convert to bits"@,
            Cause::DescriptorReopen => "Could not reopen the file descriptor"@,
            Cause::NotificationInvalid => "Notification is no longer valid"@,
            Cause::MemoryOpen => "Could not open the memory of the caller"@,
            Cause::MemoryTransfer => "Could not access the memory of the caller"@,
            Cause::MissingTerminator => "Could not find the null terminator"@,
            Cause::InvalidUtf8 => "Path is not valid UTF-8"@,
            Cause::MalformedRecord => "Could not parse the ownership record"@,
            Cause::UnsupportedSyscall => "Syscall not supported"@,
            Cause::UnexpectedReply => "Reply does not fit the request"@,
        }
    }

    /// What went wrong, in words.
    pub fn message(self) -> (message: &'static str)
        ensures
            message@ == self.spec_message(),
    {
        match self {
            Cause::WordOutOfRange => "Argument out of range of its type",
            Cause::UnknownBits => "Could not convert to bits",
            Cause::DescriptorReopen => "Could not reopen the file descriptor",
            Cause::NotificationInvalid => "Notification is no longer valid",
            Cause::MemoryOpen => "Could not open the memory of the caller",
            Cause::MemoryTransfer => "Could not access the memory of the caller",
            Cause::MissingTerminator => "Could not find the null terminator",
            Cause::InvalidUtf8 => "Path is not valid UTF-8",
            Cause::MalformedRecord => "Could not parse the ownership record",
            Cause::UnsupportedSyscall => "Syscall not supported",
            Cause::UnexpectedReply => "Reply does not fit the request",
        }
    }
}

/// An error together with the error number the tracee is to observe.
#[derive(Clone, Copy, Debug, PartialEq, Eq, Structural)]
pub enum SyscallErrno {
    /// A system call issued through the `nix` bindings failed.
    NixError(u16),
    /// A system call issued through the `rustix` bindings failed.
    RustixError(u16),
    /// The supervisor raised the error and attached the number to it.
    Anyhow(u16, Cause),
}

impl SyscallErrno {
    /// The error number carried by the error.
    pub open spec fn spec_errno(self) -> u16 {
        match self {
            SyscallErrno::NixError(errno) => errno,
            SyscallErrno::RustixError(errno) => errno,
            SyscallErrno::Anyhow(errno, _) => errno,
        }
    }

    /// The error number carried by the error.
    #[verifier::when_used_as_spec(spec_errno)]
    pub fn errno(self) -> (errno: u16)
        ensures
            errno == self.spec_errno(),
    {
        match self {
            SyscallErrno::NixError(errno) => errno,
            SyscallErrno::RustixError(errno) => errno,
            SyscallErrno::Anyhow(errno, _) => errno,
        }
    }
}

impl From<SyscallErrno> for i32 {
    fn from(value: SyscallErrno) -> (errno: i32) {
        value.errno() as i32
    }
}

impl vstd::std_specs::convert::FromSpecImpl<SyscallErrno> for i32 {
    open spec fn obeys_from_spec() -> bool {
        true
    }

    open spec fn from_spec(value: SyscallErrno) -> i32 {
        value.spec_errno() as i32
    }
}

/// Attaches the error number `errno` to an error the supervisor raises for
/// the reason `cause`.
pub fn attach(errno: u16, cause: Cause) -> (err: SyscallErrno)
    ensures
        err == SyscallErrno::Anyhow(errno, cause),
{
    SyscallErrno::Anyhow(errno, cause)
}

} // verus!
