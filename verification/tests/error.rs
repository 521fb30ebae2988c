use nix::errno::Errno;
use subuidless::error::{
    attach, Cause, SyscallErrno, EBADFD, EFAULT, EINVAL, ENAMETOOLONG, ENODATA, ENOENT, ENOSYS,
    ENOTSUP, EPERM, ERANGE,
};

#[test]
fn error_numbers_are_those_of_the_platform() {
    assert_eq!(i32::from(EPERM), Errno::EPERM as i32);
    assert_eq!(i32::from(ENOENT), Errno::ENOENT as i32);
    assert_eq!(i32::from(EFAULT), Errno::EFAULT as i32);
    assert_eq!(i32::from(EINVAL), Errno::EINVAL as i32);
    assert_eq!(i32::from(ERANGE), Errno::ERANGE as i32);
    assert_eq!(i32::from(ENAMETOOLONG), Errno::ENAMETOOLONG as i32);
    assert_eq!(i32::from(ENOSYS), Errno::ENOSYS as i32);
    assert_eq!(i32::from(ENODATA), Errno::ENODATA as i32);
    assert_eq!(i32::from(EBADFD), Errno::EBADFD as i32);
    assert_eq!(i32::from(ENOTSUP), Errno::ENOTSUP as i32);
}

#[test]
fn attach_keeps_the_error_number() {
    let err = attach(EINVAL, Cause::WordOutOfRange);
    assert_eq!(err, SyscallErrno::Anyhow(22, Cause::WordOutOfRange));
    assert_eq!(i32::from(err), Errno::EINVAL as i32);
}

#[test]
fn every_variant_yields_its_error_number() {
    assert_eq!(SyscallErrno::NixError(ENOENT).errno(), 2);
    assert_eq!(SyscallErrno::RustixError(ENODATA).errno(), 61);
    assert_eq!(SyscallErrno::Anyhow(EPERM, Cause::NotificationInvalid).errno(), 1);
    assert_eq!(i32::from(SyscallErrno::NixError(ENOENT)), 2);
    assert_eq!(i32::from(SyscallErrno::RustixError(ENODATA)), 61);
    assert_eq!(i32::from(SyscallErrno::Anyhow(u16::MAX, Cause::UnknownBits)), 65535);
}

#[test]
fn the_alias_names_the_error_type() {
    let err: subuidless::Error = SyscallErrno::NixError(EFAULT);
    assert_eq!(err.errno(), 14);
}

#[test]
fn causes_are_put_into_words() {
    assert_eq!(Cause::UnknownBits.message(), "Could not convert to bits");
    assert_eq!(Cause::MissingTerminator.message(), "Could not find the null terminator");
    assert_eq!(Cause::UnsupportedSyscall.message(), "Syscall not supported");
    let causes = [
        Cause::WordOutOfRange,
        Cause::UnknownBits,
        Cause::DescriptorReopen,
        Cause::NotificationInvalid,
        Cause::MemoryOpen,
        Cause::MemoryTransfer,
        Cause::MissingTerminator,
        Cause::InvalidUtf8,
        Cause::MalformedRecord,
        Cause::UnsupportedSyscall,
        Cause::UnexpectedReply,
    ];
    for (index, cause) in causes.iter().enumerate() {
        assert!(!cause.message().is_empty());
        for other in &causes[index + 1..] {
            assert_ne!(cause.message(), other.message());
        }
    }
}
