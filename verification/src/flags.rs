//! The flag sets that argument words are read as.
//!
//! Which bits of a word are flags is decided by the `nix` crate, so that the
//! supervisor accepts the words its own system calls accept.
use crate::error::{Cause, SyscallErrno, EINVAL};
use vstd::prelude::*;

verus! {

/// All the bits that are flags of the `*at` system calls.
pub const AT_FLAGS_ALL: i32 = 0x1f00;

/// The flag that makes an `*at` system call act on a symbolic link itself.
pub const AT_SYMLINK_NOFOLLOW: i32 = 0x100;

/// All the bits that are file mode flags.
pub const MODE_ALL: u32 = 0o7777;

/// Flags that control how the various `*at` syscalls behave.
#[derive(Clone, Copy, Debug, PartialEq, Eq, Structural)]
pub struct AtFlags {
    pub bits: i32,
}

/// Configuration options for opened files.
#[derive(Clone, Copy, Debug, PartialEq, Eq, Structural)]
pub struct OFlag {
    pub bits: i32,
}

/// File mode and permission flags.
#[derive(Clone, Copy, Debug, PartialEq, Eq, Structural)]
pub struct Mode {
    pub bits: u32,
}

/// The `*at` flags that the bits `bits` stand for: `None` where a bit is set
/// that is no such flag.
pub open spec fn at_flags_of(bits: i32) -> Option<i32> {
    if bits & !AT_FLAGS_ALL == 0 {
        Some(bits)
    } else {
        None
    }
}

/// The file mode that the bits `bits` stand for: `None` where a bit is set
/// that is no mode flag.
pub open spec fn mode_of(bits: u32) -> Option<u32> {
    if bits & !MODE_ALL == 0 {
        Some(bits)
    } else {
        None
    }
}

/// The open flags that the bits `bits` stand for on the platform the
/// supervisor is built for, as `nix::fcntl::OFlag::from_bits` gives them.
pub uninterp spec fn nix_oflag_of(bits: i32) -> Option<i32>;

/// Calls `nix::fcntl::AtFlags::from_bits` and gives the bits of the flags it
/// returns. The contract claims that the call accepts exactly the words made
/// of `AT_SYMLINK_NOFOLLOW`, `AT_REMOVEDIR` or `AT_EACCESS`,
/// `AT_SYMLINK_FOLLOW`, `AT_NO_AUTOMOUNT` and `AT_EMPTY_PATH`, with their
/// Linux values, and keeps the bits as they are.
#[verifier::external_body]
fn nix_at_flags_from_bits(bits: i32) -> (known: Option<i32>)
    ensures
        known == at_flags_of(bits),
{
    nix::fcntl::AtFlags::from_bits(bits).map(|flags| flags.bits())
}

/// Calls `nix::fcntl::AtFlags::contains` with `AT_SYMLINK_NOFOLLOW` on the
/// flags made of `bits`. The contract claims that the call tests the bit
/// `0x100`, the Linux value of that flag.
#[verifier::external_body]
fn nix_at_flags_nofollow(bits: i32) -> (set: bool)
    ensures
        set == (bits & AT_SYMLINK_NOFOLLOW == AT_SYMLINK_NOFOLLOW),
{
    nix::fcntl::AtFlags::from_bits_retain(bits).contains(nix::fcntl::AtFlags::AT_SYMLINK_NOFOLLOW)
}

/// Calls `nix::fcntl::OFlag::from_bits` and gives the bits of the flags it
/// returns. The set of open flags differs between platforms, so the contract
/// only names the result, and claims that flags that are returned keep the
/// bits they were made of.
#[verifier::external_body]
fn nix_oflag_from_bits(bits: i32) -> (known: Option<i32>)
    ensures
        known == nix_oflag_of(bits),
        known matches Some(kept) ==> kept == bits,
{
    nix::fcntl::OFlag::from_bits(bits).map(|flags| flags.bits())
}

/// Calls `nix::sys::stat::Mode::from_bits` and gives the bits of the mode it
/// returns. The contract claims that the call accepts exactly the words made
/// of the twelve permission bits, and keeps the bits as they are.
#[verifier::external_body]
fn nix_mode_from_bits(bits: u32) -> (known: Option<u32>)
    ensures
        known == mode_of(bits),
{
    nix::sys::stat::Mode::from_bits(bits).map(|mode| mode.bits())
}

/// The error of a word with a bit that is no flag.
pub open spec fn unknown_bits() -> SyscallErrno {
    SyscallErrno::Anyhow(EINVAL, Cause::UnknownBits)
}

impl AtFlags {
    /// The flags that `from_bits` makes of `bits`.
    pub open spec fn spec_from_bits(bits: i32) -> Result<AtFlags, SyscallErrno> {
        match at_flags_of(bits) {
            Some(kept) => Ok(AtFlags { bits: kept }),
            None => Err(unknown_bits()),
        }
    }

    /// Whether a system call with these flags follows a symbolic link.
    pub open spec fn spec_follow(self) -> bool {
        self.bits & AT_SYMLINK_NOFOLLOW != AT_SYMLINK_NOFOLLOW
    }

    /// Reads `bits` as flags; `EINVAL` where a bit is set that is no flag.
    pub fn from_bits(bits: i32) -> (flags: Result<AtFlags, SyscallErrno>)
        ensures
            flags == Self::spec_from_bits(bits),
    {
        match nix_at_flags_from_bits(bits) {
            Some(kept) => Ok(AtFlags { bits: kept }),
            None => Err(SyscallErrno::Anyhow(EINVAL, Cause::UnknownBits)),
        }
    }

    /// Whether a system call with these flags follows a symbolic link: it
    /// does unless `AT_SYMLINK_NOFOLLOW` is set.
    #[verifier::when_used_as_spec(spec_follow)]
    pub fn follow(self) -> (follow: bool)
        ensures
            follow == self.spec_follow(),
    {
        !nix_at_flags_nofollow(self.bits)
    }
}

impl OFlag {
    /// The flags that stand for `bits` where the platform's answer for
    /// `bits` is `known`.
    pub open spec fn spec_from_known(known: Option<i32>) -> Result<OFlag, SyscallErrno> {
        match known {
            Some(kept) => Ok(OFlag { bits: kept }),
            None => Err(unknown_bits()),
        }
    }

    /// The flags that `from_bits` makes of `bits`.
    pub open spec fn spec_from_bits(bits: i32) -> Result<OFlag, SyscallErrno> {
        Self::spec_from_known(nix_oflag_of(bits))
    }

    /// Makes flags of the platform's answer `known` for some bits: the bits
    /// it kept, or `EINVAL` where it kept none.
    pub fn from_known(known: Option<i32>) -> (flags: Result<OFlag, SyscallErrno>)
        ensures
            flags == Self::spec_from_known(known),
    {
        match known {
            Some(kept) => Ok(OFlag { bits: kept }),
            None => Err(SyscallErrno::Anyhow(EINVAL, Cause::UnknownBits)),
        }
    }

    /// Reads `bits` as flags; `EINVAL` where a bit is set that is no flag
    /// on this platform. Flags that are returned have the bits `bits`.
    pub fn from_bits(bits: i32) -> (flags: Result<OFlag, SyscallErrno>)
        ensures
            flags == Self::spec_from_bits(bits),
            flags matches Ok(kept) ==> kept.bits == bits,
    {
        Self::from_known(nix_oflag_from_bits(bits))
    }
}

impl Mode {
    /// The mode that `from_bits` makes of `bits`.
    pub open spec fn spec_from_bits(bits: u32) -> Result<Mode, SyscallErrno> {
        match mode_of(bits) {
            Some(kept) => Ok(Mode { bits: kept }),
            None => Err(unknown_bits()),
        }
    }

    /// Reads `bits` as a mode; `EINVAL` where a bit is set that is no mode
    /// flag.
    pub fn from_bits(bits: u32) -> (mode: Result<Mode, SyscallErrno>)
        ensures
            mode == Self::spec_from_bits(bits),
    {
        match nix_mode_from_bits(bits) {
            Some(kept) => Ok(Mode { bits: kept }),
            None => Err(SyscallErrno::Anyhow(EINVAL, Cause::UnknownBits)),
        }
    }
}

} // verus!
