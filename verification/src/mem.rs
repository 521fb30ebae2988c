//! Argument words of an intercepted system call, and how they are read as
//! typed values.
use crate::error::{
    Cause, SyscallErrno, EBADFD, EFAULT, EINVAL, ENAMETOOLONG, ENOENT, EPERM,
};
use crate::flags::{AtFlags, Mode, OFlag};
use std::marker::PhantomData;
use vstd::prelude::*;
use vstd::utf8::{decode_utf8, encode_utf8, valid_utf8};

verus! {

/// Number of bytes read from the tracee for a path.
pub const PATH_MAX: usize = 4096;

/// Newtype for values provided in the `args: [u64; 6]` array from Seccomp.
/// Int values like flags can be used instantly whereas values like strings
/// need to be read from the caller's memory.
#[derive(Clone, Copy, Debug, PartialEq, Eq, Structural)]
pub struct MaybeRemote {
    /// The tracee.
    pub pid: i32,
    /// The argument word: a value, or an address in the tracee's memory.
    pub pointer: u64,
    /// The notify file descriptor.
    pub fd: i32,
    /// The notification the word belongs to.
    pub id: u64,
}

/// `Plain` old data: a type whose values may be written to the memory of
/// another process as they lie in memory.
///
/// An implementor vouches that
/// * `Self` does not contain any form of padding,
/// * `Self` has the layout of C,
/// * the processes it is written to share the architecture of the supervisor.
pub trait Plain: Sized {

}

/// Represents a pointer to a struct that is in the caller's memory.
#[verifier::reject_recursive_types(T)]
pub struct RemoteStruct<T: Plain> {
    pub data: MaybeRemote,
    pub remote_type: PhantomData<T>,
}

/// The error of a word that does not fit the integer it is read as.
pub open spec fn word_out_of_range() -> SyscallErrno {
    SyscallErrno::Anyhow(EINVAL, Cause::WordOutOfRange)
}

impl MaybeRemote {
    /// Create a new `MaybeRemote`.
    #[must_use]
    pub fn new(pid: i32, pointer: u64, fd: i32, id: u64) -> (remote: Self)
        ensures
            remote == (MaybeRemote { pid, pointer, fd, id }),
    {
        Self { pid, pointer, fd, id }
    }

    /// The word as an unsigned 32-bit value.
    pub open spec fn spec_u32(self) -> Result<u32, SyscallErrno> {
        if self.pointer <= u32::MAX {
            Ok(self.pointer as u32)
        } else {
            Err(word_out_of_range())
        }
    }

    /// The word as `*at` flags.
    pub open spec fn spec_at_flags(self) -> Result<AtFlags, SyscallErrno> {
        if self.pointer <= i32::MAX {
            AtFlags::spec_from_bits(self.pointer as i32)
        } else {
            Err(word_out_of_range())
        }
    }

    /// The word as open flags.
    pub open spec fn spec_oflag(self) -> Result<OFlag, SyscallErrno> {
        if self.pointer <= i32::MAX {
            OFlag::spec_from_bits(self.pointer as i32)
        } else {
            Err(word_out_of_range())
        }
    }

    /// The word as a file mode.
    pub open spec fn spec_mode(self) -> Result<Mode, SyscallErrno> {
        if self.pointer <= u32::MAX {
            Mode::spec_from_bits(self.pointer as u32)
        } else {
            Err(word_out_of_range())
        }
    }

    /// The word as a file descriptor of the tracee: absent where the word
    /// is no signed 32-bit value that is not negative.
    pub open spec fn spec_descriptor(self) -> Option<i32> {
        if self.pointer <= i32::MAX {
            Some(self.pointer as i32)
        } else {
            None
        }
    }

    /// Reads the word as an unsigned 32-bit value; `EINVAL` where it does
    /// not fit.
    pub fn try_into_u32(self) -> (value: Result<u32, SyscallErrno>)
        ensures
            value == self.spec_u32(),
    {
        if self.pointer <= u32::MAX as u64 {
            Ok(self.pointer as u32)
        } else {
            Err(SyscallErrno::Anyhow(EINVAL, Cause::WordOutOfRange))
        }
    }

    /// Reads the word as `*at` flags; `EINVAL` where it does not fit a
    /// signed 32-bit value or sets a bit that is no flag.
    pub fn try_into_at_flags(self) -> (flags: Result<AtFlags, SyscallErrno>)
        ensures
            flags == self.spec_at_flags(),
    {
        if self.pointer <= i32::MAX as u64 {
            AtFlags::from_bits(self.pointer as i32)
        } else {
            Err(SyscallErrno::Anyhow(EINVAL, Cause::WordOutOfRange))
        }
    }

    /// Reads the word as open flags; `EINVAL` where it does not fit a signed
    /// 32-bit value or sets a bit that is no flag.
    pub fn try_into_oflag(self) -> (flags: Result<OFlag, SyscallErrno>)
        ensures
            flags == self.spec_oflag(),
            flags matches Ok(kept) ==> kept.bits == self.pointer,
    {
        if self.pointer <= i32::MAX as u64 {
            OFlag::from_bits(self.pointer as i32)
        } else {
            Err(SyscallErrno::Anyhow(EINVAL, Cause::WordOutOfRange))
        }
    }

    /// Reads the word as a file mode; `EINVAL` where it does not fit an
    /// unsigned 32-bit value or sets a bit that is no mode flag.
    pub fn try_into_mode(self) -> (mode: Result<Mode, SyscallErrno>)
        ensures
            mode == self.spec_mode(),
    {
        if self.pointer <= u32::MAX as u64 {
            Mode::from_bits(self.pointer as u32)
        } else {
            Err(SyscallErrno::Anyhow(EINVAL, Cause::WordOutOfRange))
        }
    }

    /// Reads the word as a file descriptor of the tracee. A word that is no
    /// signed 32-bit value, as `AT_FDCWD` is not, gives no descriptor.
    pub fn descriptor(self) -> (descriptor: Option<i32>)
        ensures
            descriptor == self.spec_descriptor(),
    {
        if self.pointer <= i32::MAX as u64 {
            Some(self.pointer as i32)
        } else {
            None
        }
    }

    /// Takes the word as the address of a `T` in the tracee's memory. Nothing
    /// is read or written yet.
    pub fn into_remote_struct<T: Plain>(self) -> (slot: RemoteStruct<T>)
        ensures
            slot.data == self,
    {
        RemoteStruct { data: self, remote_type: PhantomData }
    }
}

/// What an exchange with the tracee is for.
#[derive(Clone, Copy, Debug, PartialEq, Eq, Structural)]
pub enum Transfer {
    /// Reopen the file descriptor `fd` of the tracee in the supervisor.
    Descriptor { fd: i32 },
    /// Read `PATH_MAX` bytes from the tracee's memory.
    Read,
    /// Write the image of a value to the tracee's memory.
    Write,
}

/// How far an exchange has come.
#[derive(Clone, Copy, Debug, PartialEq, Eq)]
pub enum Progress {
    /// The file under `/proc` is being opened.
    Opening,
    /// The notification is being checked before anything is moved.
    Checking,
    /// Bytes are being read or written.
    Moving,
    /// The notification is being checked again after the bytes were moved.
    Confirming,
    /// The exchange has ended with this result.
    Finished(Result<(), SyscallErrno>),
}

/// What the driver of an exchange is to do next.
#[derive(Clone, Copy, Debug, PartialEq, Eq)]
pub enum Action {
    /// Open `/proc/<pid>/fd/<fd>` for reading.
    OpenDescriptor { pid: i32, fd: i32 },
    /// Open `/proc/<pid>/mem`, for writing or else for reading.
    OpenMemory { pid: i32, write: bool },
    /// Ask the kernel whether the notification `id` is still pending on the
    /// notify file descriptor `fd`.
    CheckId { fd: i32, id: u64 },
    /// Read `len` bytes at `address` from the file that was opened, into a
    /// buffer of zero bytes.
    ReadAt { address: u64, len: usize },
    /// Write the image at `address` to the file that was opened.
    WriteAt { address: u64 },
    /// Do nothing more: the exchange has ended with this result.
    Finish(Result<(), SyscallErrno>),
}

/// One exchange with the tracee: reopening one of its file descriptors, or
/// moving bytes from or to its memory. The driver does what `begin` asks
/// for, reports to `advance` whether that succeeded, does what `advance`
/// asks for, and so on until it is told to finish.
#[derive(Clone, Copy, Debug, PartialEq, Eq)]
pub struct Exchange {
    pub target: MaybeRemote,
    pub transfer: Transfer,
    pub progress: Progress,
}

/// The error of a notification that is no longer pending.
pub open spec fn notification_invalid() -> SyscallErrno {
    SyscallErrno::Anyhow(EPERM, Cause::NotificationInvalid)
}

impl Action {
    /// Whether the action moves bytes from or to the tracee's memory.
    pub open spec fn moves_bytes(self) -> bool {
        self is ReadAt || self is WriteAt
    }
}

impl Exchange {
    /// The exchange `transfer` with `target`, before anything was done.
    pub open spec fn spec_begin(target: MaybeRemote, transfer: Transfer) -> (Exchange, Action) {
        (
            Exchange { target, transfer, progress: Progress::Opening },
            match transfer {
                Transfer::Descriptor { fd } => Action::OpenDescriptor { pid: target.pid, fd },
                Transfer::Read => Action::OpenMemory { pid: target.pid, write: false },
                Transfer::Write => Action::OpenMemory { pid: target.pid, write: true },
            },
        )
    }

    /// The error of a file under `/proc` that could not be opened.
    pub open spec fn open_error(self) -> SyscallErrno {
        match self.transfer {
            Transfer::Descriptor { .. } => SyscallErrno::Anyhow(EBADFD, Cause::DescriptorReopen),
            _ => SyscallErrno::Anyhow(EFAULT, Cause::MemoryOpen),
        }
    }

    /// The check of the notification.
    pub open spec fn check(self) -> Action {
        Action::CheckId { fd: self.target.fd, id: self.target.id }
    }

    /// The exchange after it ended with `result`, and the action that says
    /// so.
    pub open spec fn finished(self, result: Result<(), SyscallErrno>) -> (Exchange, Action) {
        (Exchange { progress: Progress::Finished(result), ..self }, Action::Finish(result))
    }

    /// The exchange and the next action after the last action had the
    /// outcome `success`.
    pub open spec fn spec_advance(self, success: bool) -> (Exchange, Action) {
        match self.progress {
            Progress::Opening => if success {
                (Exchange { progress: Progress::Checking, ..self }, self.check())
            } else {
                self.finished(Err(self.open_error()))
            },
            Progress::Checking => if !success {
                self.finished(Err(notification_invalid()))
            } else {
                match self.transfer {
                    Transfer::Descriptor { .. } => self.finished(Ok(())),
                    Transfer::Read => (
                        Exchange { progress: Progress::Moving, ..self },
                        Action::ReadAt { address: self.target.pointer, len: PATH_MAX },
                    ),
                    Transfer::Write => (
                        Exchange { progress: Progress::Moving, ..self },
                        Action::WriteAt { address: self.target.pointer },
                    ),
                }
            },
            Progress::Moving => if success {
                (Exchange { progress: Progress::Confirming, ..self }, self.check())
            } else {
                self.finished(Err(SyscallErrno::Anyhow(EFAULT, Cause::MemoryTransfer)))
            },
            Progress::Confirming => if success {
                self.finished(Ok(()))
            } else {
                self.finished(Err(notification_invalid()))
            },
            Progress::Finished(result) => (self, Action::Finish(result)),
        }
    }

    /// Starts the exchange `transfer` with `target` and says what to do
    /// first: open the file under `/proc` that the exchange goes through.
    pub fn begin(target: MaybeRemote, transfer: Transfer) -> (start: (Exchange, Action))
        ensures
            start == Self::spec_begin(target, transfer),
    {
        let action = match transfer {
            Transfer::Descriptor { fd } => Action::OpenDescriptor { pid: target.pid, fd },
            Transfer::Read => Action::OpenMemory { pid: target.pid, write: false },
            Transfer::Write => Action::OpenMemory { pid: target.pid, write: true },
        };
        (Exchange { target, transfer, progress: Progress::Opening }, action)
    }

    /// Takes the outcome `success` of the action that was asked for last
    /// and says what to do next. A file that cannot be opened ends the
    /// exchange with `EBADFD` for a descriptor and `EFAULT` for the memory,
    /// a check that fails with `EPERM`, bytes that cannot be moved with
    /// `EFAULT`. Bytes are moved only after a check, and the exchange
    /// succeeds only after a check that followed them.
    pub fn advance(&mut self, success: bool) -> (action: Action)
        ensures
            (*final(self), action) == old(self).spec_advance(success),
    {
        let check = Action::CheckId { fd: self.target.fd, id: self.target.id };
        let (progress, action) = match self.progress {
            Progress::Opening => if success {
                (Progress::Checking, check)
            } else {
                let result = Err(
                    match self.transfer {
                        Transfer::Descriptor { .. } => SyscallErrno::Anyhow(
                            EBADFD,
                            Cause::DescriptorReopen,
                        ),
                        _ => SyscallErrno::Anyhow(EFAULT, Cause::MemoryOpen),
                    },
                );
                (Progress::Finished(result), Action::Finish(result))
            },
            Progress::Checking => if !success {
                let result = Err(SyscallErrno::Anyhow(EPERM, Cause::NotificationInvalid));
                (Progress::Finished(result), Action::Finish(result))
            } else {
                match self.transfer {
                    Transfer::Descriptor { .. } => (
                        Progress::Finished(Ok(())),
                        Action::Finish(Ok(())),
                    ),
                    Transfer::Read => (
                        Progress::Moving,
                        Action::ReadAt { address: self.target.pointer, len: PATH_MAX },
                    ),
                    Transfer::Write => (
                        Progress::Moving,
                        Action::WriteAt { address: self.target.pointer },
                    ),
                }
            },
            Progress::Moving => if success {
                (Progress::Confirming, check)
            } else {
                let result = Err(SyscallErrno::Anyhow(EFAULT, Cause::MemoryTransfer));
                (Progress::Finished(result), Action::Finish(result))
            },
            Progress::Confirming => {
                let result = if success {
                    Ok(())
                } else {
                    Err(SyscallErrno::Anyhow(EPERM, Cause::NotificationInvalid))
                };
                (Progress::Finished(result), Action::Finish(result))
            },
            Progress::Finished(result) => (Progress::Finished(result), Action::Finish(result)),
        };
        self.progress = progress;
        action
    }

    /// The exchange after the driver reported the outcomes `outcomes`, one
    /// after the other, and the action it was asked for last.
    pub open spec fn after(
        target: MaybeRemote,
        transfer: Transfer,
        outcomes: Seq<bool>,
    ) -> (Exchange, Action)
        decreases outcomes.len(),
    {
        if outcomes.len() == 0 {
            Self::spec_begin(target, transfer)
        } else {
            Self::after(target, transfer, outcomes.drop_last()).0.spec_advance(outcomes.last())
        }
    }

    /// The action number `index` of the run in which the driver reports the
    /// outcomes `outcomes`.
    pub open spec fn action_at(
        target: MaybeRemote,
        transfer: Transfer,
        outcomes: Seq<bool>,
        index: int,
    ) -> Action {
        Self::after(target, transfer, outcomes.take(index)).1
    }
}

impl<T: Plain> RemoteStruct<T> {
    /// Starts the exchange that writes the image of a `T` to the place in the
    /// tracee's memory that `self` points to. The driver supplies the image
    /// when it is asked to write.
    pub fn write(self) -> (start: (Exchange, Action))
        ensures
            start == Exchange::spec_begin(self.data, Transfer::Write),
    {
        Exchange::begin(self.data, Transfer::Write)
    }
}

/// Where an exchange stands after `index` outcomes were reported, and how it
/// came there.
proof fn lemma_exchange_progress(
    target: MaybeRemote,
    transfer: Transfer,
    outcomes: Seq<bool>,
    index: int,
)
    requires
        0 <= index <= outcomes.len(),
    ensures
        ({
            let (exchange, action) = Exchange::after(target, transfer, outcomes.take(index));
            &&& exchange.target == target
            &&& exchange.transfer == transfer
            &&& match exchange.progress {
                Progress::Opening => index == 0 && !action.moves_bytes() && !(action is CheckId)
                    && !(action is Finish),
                Progress::Checking => index == 1 && outcomes[0] && action == exchange.check(),
                Progress::Moving => index == 2 && outcomes[0] && outcomes[1]
                    && action.moves_bytes(),
                Progress::Confirming => index == 3 && outcomes[0] && outcomes[1] && outcomes[2]
                    && action == exchange.check(),
                Progress::Finished(result) => {
                    &&& index >= 1
                    &&& action == Action::Finish(result)
                    &&& result is Ok && !(transfer is Descriptor) ==> index >= 4 && outcomes[0]
                        && outcomes[1] && outcomes[2] && outcomes[3]
                    &&& result is Ok && transfer is Descriptor ==> index >= 2 && outcomes[0]
                        && outcomes[1]
                },
            }
        }),
    decreases index,
{
    let taken = outcomes.take(index);
    if index > 0 {
        assert(taken.drop_last() =~= outcomes.take(index - 1));
        assert(taken.last() == outcomes[index - 1]);
        lemma_exchange_progress(target, transfer, outcomes, index - 1);
    }
}

/// Once an exchange has ended, its driver is told to finish with the same
/// result whatever it reports.
proof fn lemma_exchange_stays_finished(
    target: MaybeRemote,
    transfer: Transfer,
    outcomes: Seq<bool>,
    index: int,
    later: int,
)
    requires
        0 <= index <= later <= outcomes.len(),
        Exchange::after(target, transfer, outcomes.take(index)).0.progress is Finished,
    ensures
        Exchange::after(target, transfer, outcomes.take(later)) == Exchange::after(
            target,
            transfer,
            outcomes.take(index),
        ),
    decreases later - index,
{
    if index < later {
        let taken = outcomes.take(later);
        assert(taken.drop_last() =~= outcomes.take(later - 1));
        lemma_exchange_stays_finished(target, transfer, outcomes, index, later - 1);
        lemma_exchange_progress(target, transfer, outcomes, index);
    }
}

/// Bracketing: in every run of an exchange, bytes are moved from or to the
/// tracee's memory only right after a check of the notification that
/// passed, and a move that succeeded is followed at once by another check of
/// the same notification.
pub proof fn lemma_moves_are_bracketed(
    target: MaybeRemote,
    transfer: Transfer,
    outcomes: Seq<bool>,
    index: int,
)
    requires
        0 <= index <= outcomes.len(),
        Exchange::action_at(target, transfer, outcomes, index).moves_bytes(),
    ensures
        index >= 1,
        Exchange::action_at(target, transfer, outcomes, index - 1) == (Action::CheckId {
            fd: target.fd,
            id: target.id,
        }),
        outcomes[index - 1],
        index < outcomes.len() && outcomes[index] ==> Exchange::action_at(
            target,
            transfer,
            outcomes,
            index + 1,
        ) == (Action::CheckId { fd: target.fd, id: target.id }),
{
    lemma_exchange_progress(target, transfer, outcomes, index);
    lemma_exchange_progress(target, transfer, outcomes, index - 1);
    assert(outcomes.take(index).drop_last() =~= outcomes.take(index - 1));
    if index < outcomes.len() {
        lemma_exchange_progress(target, transfer, outcomes, index + 1);
        assert(outcomes.take(index + 1).drop_last() =~= outcomes.take(index));
    }
}

/// A check that fails aborts: from then on the driver is told to finish
/// with `EPERM`, so that no byte is moved after a failed check.
pub proof fn lemma_failed_check_aborts(
    target: MaybeRemote,
    transfer: Transfer,
    outcomes: Seq<bool>,
    index: int,
    later: int,
)
    requires
        0 <= index < later <= outcomes.len(),
        Exchange::action_at(target, transfer, outcomes, index) is CheckId,
        !outcomes[index],
    ensures
        Exchange::action_at(target, transfer, outcomes, later) == Action::Finish(
            Err(notification_invalid()),
        ),
{
    lemma_exchange_progress(target, transfer, outcomes, index);
    lemma_exchange_progress(target, transfer, outcomes, index + 1);
    assert(outcomes.take(index + 1).drop_last() =~= outcomes.take(index));
    lemma_exchange_stays_finished(target, transfer, outcomes, index + 1, later);
}

/// An exchange that moves bytes succeeds only if the file was opened, the
/// first check passed, the bytes were moved and the second check passed.
pub proof fn lemma_success_is_confirmed(
    target: MaybeRemote,
    transfer: Transfer,
    outcomes: Seq<bool>,
    index: int,
)
    requires
        0 <= index <= outcomes.len(),
        !(transfer is Descriptor),
        Exchange::action_at(target, transfer, outcomes, index) == Action::Finish(Ok(())),
    ensures
        index >= 4,
        outcomes[0] && outcomes[1] && outcomes[2] && outcomes[3],
        Exchange::action_at(target, transfer, outcomes, 1) is CheckId,
        Exchange::action_at(target, transfer, outcomes, 2).moves_bytes(),
        Exchange::action_at(target, transfer, outcomes, 3) is CheckId,
{
    lemma_exchange_progress(target, transfer, outcomes, index);
    lemma_exchange_progress(target, transfer, outcomes, 0);
    lemma_exchange_progress(target, transfer, outcomes, 1);
    lemma_exchange_progress(target, transfer, outcomes, 2);
    lemma_exchange_progress(target, transfer, outcomes, 3);
    assert(outcomes.take(1).drop_last() =~= outcomes.take(0));
    assert(outcomes.take(2).drop_last() =~= outcomes.take(1));
    assert(outcomes.take(3).drop_last() =~= outcomes.take(2));
}

/// Whether `index` is the place of the first zero byte of `data`.
pub open spec fn is_terminator(data: Seq<u8>, index: int) -> bool {
    &&& 0 <= index < data.len()
    &&& data[index] == 0
    &&& forall|before: int| 0 <= before < index ==> data[before] != 0
}

/// The bytes of `data` before its first zero byte, or `None` where `data`
/// holds no zero byte.
pub open spec fn terminated(data: Seq<u8>) -> Option<Seq<u8>> {
    if exists|index: int| is_terminator(data, index) {
        Some(data.take(choose|index: int| is_terminator(data, index)))
    } else {
        None
    }
}

/// The path that the bytes `data`, read from the tracee, hold: what stands
/// before the first zero byte, read as UTF-8. `ENAMETOOLONG` where no
/// zero byte is found, `ENOENT` where the bytes before it are not UTF-8.
pub open spec fn path_of(data: Seq<u8>) -> Result<Seq<char>, SyscallErrno> {
    match terminated(data) {
        None => Err(SyscallErrno::Anyhow(ENAMETOOLONG, Cause::MissingTerminator)),
        Some(name) => if valid_utf8(name) {
            Ok(decode_utf8(name))
        } else {
            Err(SyscallErrno::Anyhow(ENOENT, Cause::InvalidUtf8))
        },
    }
}

/// A path, or the error of reading it, with the path as a sequence of
/// characters.
pub open spec fn path_view(path: Result<String, SyscallErrno>) -> Result<Seq<char>, SyscallErrno> {
    match path {
        Ok(name) => Ok(name@),
        Err(err) => Err(err),
    }
}

/// Whether the path `path` is absolute: whether its first byte is `/`.
pub open spec fn is_absolute(path: Seq<char>) -> bool {
    encode_utf8(path).len() > 0 && encode_utf8(path)[0] == 0x2f
}

/// Calls `String::from_utf8`. The contract claims what the documentation of
/// std says: the call succeeds exactly on the byte strings that are UTF-8,
/// and the string it returns holds the characters these bytes encode.
#[verifier::external_body]
fn string_from_utf8(bytes: Vec<u8>) -> (text: Option<String>)
    ensures
        match text {
            Some(text) => valid_utf8(bytes@) && text@ == decode_utf8(bytes@),
            None => !valid_utf8(bytes@),
        },
{
    String::from_utf8(bytes).ok()
}

/// Finds the first zero byte of `data`.
pub fn find_terminator(data: &[u8]) -> (index: Option<usize>)
    ensures
        match index {
            Some(index) => is_terminator(data@, index as int),
            None => forall|at: int| 0 <= at < data@.len() ==> data@[at] != 0,
        },
{
    let mut index: usize = 0;
    while index < data.len()
        invariant
            index <= data@.len(),
            forall|before: int| 0 <= before < index ==> data@[before] != 0,
        decreases data@.len() - index,
    {
        if data[index] == 0 {
            return Some(index);
        }
        index = index + 1;
    }
    None
}

/// Reads the path that the buffer `data` holds after it was filled from the
/// tracee's memory.
pub fn path_from_buffer(data: &[u8]) -> (path: Result<String, SyscallErrno>)
    ensures
        path_view(path) == path_of(data@),
{
    let end = match find_terminator(data) {
        Some(end) => end,
        None => {
            return Err(SyscallErrno::Anyhow(ENAMETOOLONG, Cause::MissingTerminator));
        },
    };
    proof {
        lemma_terminator_unique(data@, end as int);
    }
    let mut name: Vec<u8> = Vec::new();
    let mut index: usize = 0;
    while index < end
        invariant
            index <= end <= data@.len(),
            name@ == data@.take(index as int),
        decreases end - index,
    {
        name.push(data[index]);
        proof {
            assert(name@ =~= data@.take(index + 1));
        }
        index = index + 1;
    }
    match string_from_utf8(name) {
        Some(text) => Ok(text),
        None => Err(SyscallErrno::Anyhow(ENOENT, Cause::InvalidUtf8)),
    }
}

/// Whether the path `path` is absolute.
pub fn path_is_absolute(path: &str) -> (absolute: bool)
    ensures
        absolute == is_absolute(path@),
{
    let bytes = path.as_bytes();
    bytes.len() > 0 && bytes[0] == 0x2f
}

/// A sequence has one first zero byte at most.
pub proof fn lemma_terminator_unique(data: Seq<u8>, index: int)
    requires
        is_terminator(data, index),
    ensures
        terminated(data) == Some(data.take(index)),
{
    let chosen = choose|index: int| is_terminator(data, index);
    assert(is_terminator(data, chosen));
    assert(chosen == index) by {
        if chosen < index {
            assert(data[chosen] != 0);
        } else if index < chosen {
            assert(data[index] != 0);
        }
    }
}

} // verus!
