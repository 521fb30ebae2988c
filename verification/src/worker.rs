//! The worker that handles one notification: it finds the handler, reads the
//! arguments of the system call, emulates the call and answers the kernel.
//!
//! The worker is a state machine. `Call::dispatch` and `Call::next` say which
//! system call the driver is to make next; the driver makes it and hands its
//! outcome to `Call::next`, until it is told to respond.
use crate::error::{Cause, SyscallErrno, EINVAL, ENOSYS};
use crate::flags::{AtFlags, Mode, OFlag};
use crate::mem::{
    is_absolute, path_from_buffer, path_is_absolute, path_of, word_out_of_range, MaybeRemote,
    Transfer,
};
use crate::syscall::{ArgKind, Handler, Notification, Registry, Syscall};
use vstd::prelude::*;

verus! {

/// The answer to a notification.
#[derive(Clone, Copy, Debug, PartialEq, Eq, Structural)]
pub struct Response {
    /// The notification that is answered.
    pub id: u64,
    /// Return value for the syscall that created the notification.
    pub val: i64,
    /// Zero, or a negative error number.
    pub error: i32,
    /// Response flags: always zero.
    pub flags: u32,
}

/// The answer to the notification `id` whose handler ended with `result`: a
/// value response with the value, or an error response with the negated error
/// number.
pub open spec fn response_for(id: u64, result: Result<i64, SyscallErrno>) -> Response {
    match result {
        Ok(val) => Response { id, val, error: 0, flags: 0 },
        Err(err) => Response { id, val: 0, error: (-err.spec_errno()) as i32, flags: 0 },
    }
}

/// Builds the answer to the notification `id` whose handler ended with
/// `result`. The tracee observes the error number of every error.
pub fn respond(id: u64, result: Result<i64, SyscallErrno>) -> (response: Response)
    ensures
        response == response_for(id, result),
        result matches Err(err) ==> response.error == -err.spec_errno(),
{
    match result {
        Ok(val) => Response { id, val, error: 0, flags: 0 },
        Err(err) => Response { id, val: 0, error: -(err.errno() as i32), flags: 0 },
    }
}

/// What the driver of a worker is to do next.
#[derive(Clone, Copy, Debug, PartialEq, Eq)]
pub enum Request {
    /// Change the working directory to `/proc/<pid>/cwd`.
    Chdir { pid: u32 },
    /// Run the exchange `transfer` with `target`, to reopen a file
    /// descriptor of the tracee or to read a path from its memory.
    Exchange { target: MaybeRemote, transfer: Transfer },
    /// Make `(uid, gid)` the shadow owner of the file at the pathname.
    SetOwner { follow: bool, uid: u32, gid: u32 },
    /// Take the `stat` record of the file at the pathname, relative to the
    /// directory that was reopened if there is one.
    Stat { flags: AtFlags },
    /// Look up the shadow owner of the file at the pathname.
    GetOwner { follow: bool },
    /// Write the `stat` record that was taken to `slot` in the tracee's
    /// memory, with the owner `shadow` in place of its own where there is
    /// one.
    StoreStat { slot: MaybeRemote, shadow: Option<(u32, u32)> },
    /// Open the file at the pathname, relative to the directory that was
    /// reopened if there is one.
    Open { oflag: OFlag, mode: Mode },
    /// Send `response` to the kernel and end the worker.
    Respond(Response),
}

/// The outcome of what the driver was asked for.
#[derive(Debug)]
pub enum Reply {
    /// The outcome of a request that yields no data.
    Done(Result<(), SyscallErrno>),
    /// The outcome of an exchange that reads: the buffer that was read into.
    Bytes(Result<Vec<u8>, SyscallErrno>),
    /// The outcome of a lookup of the shadow owner.
    Owner(Result<(u32, u32), SyscallErrno>),
}

/// What a worker is waiting for.
#[derive(Clone, Copy, Debug, PartialEq, Eq)]
pub enum Stage {
    /// The change to the working directory of the tracee.
    Entering,
    /// The reopening of the file descriptor `fd`, argument number `index`.
    Reopening { index: usize, fd: i32 },
    /// The reading of the pathname, argument number `index`.
    ReadingPath { index: usize },
    /// The change of the working directory that `fchownat` asks for.
    Changing,
    /// The setting of the shadow owner.
    Setting,
    /// The `stat` record of the file.
    Stating,
    /// The lookup of the shadow owner.
    Looking,
    /// The writing of the `stat` record.
    Storing,
    /// The opening of the file.
    Opening,
    /// Nothing: the handler has ended with this result.
    Finished(Result<i64, SyscallErrno>),
}

/// The arguments of a system call as typed values. Only those that the
/// system call has are filled in.
#[derive(Clone, Copy, Debug, PartialEq, Eq)]
pub struct Arguments {
    /// The file descriptor of the tracee that was reopened, if any.
    pub dirfd: Option<i32>,
    pub owner: u32,
    pub group: u32,
    pub at_flags: AtFlags,
    pub open_flags: OFlag,
    pub mode: Mode,
    /// Where in the tracee's memory the `stat` record goes.
    pub stat_slot: MaybeRemote,
}

/// The worker of one notification.
pub struct Call {
    handler: Handler,
    note: Notification,
    notify_fd: i32,
    stage: Stage,
    args: Arguments,
    pathname: String,
}

/// A worker with its pathname as a sequence of characters.
pub ghost struct CallView {
    pub handler: Handler,
    pub note: Notification,
    pub notify_fd: i32,
    pub stage: Stage,
    pub args: Arguments,
    pub pathname: Seq<char>,
}

/// The error of a reply that does not fit what was asked for.
pub open spec fn unexpected_reply() -> SyscallErrno {
    SyscallErrno::Anyhow(EINVAL, Cause::UnexpectedReply)
}

/// The error of a system call without handler.
pub open spec fn unsupported() -> SyscallErrno {
    SyscallErrno::Anyhow(ENOSYS, Cause::UnsupportedSyscall)
}

/// The arguments before any was read.
pub open spec fn no_arguments() -> Arguments {
    Arguments {
        dirfd: None,
        owner: 0,
        group: 0,
        at_flags: AtFlags { bits: 0 },
        open_flags: OFlag { bits: 0 },
        mode: Mode { bits: 0 },
        stat_slot: MaybeRemote { pid: 0, pointer: 0, fd: 0, id: 0 },
    }
}

impl Request {
    /// Whether the request reads an argument from the tracee.
    pub open spec fn captures_argument(self) -> bool {
        self is Exchange
    }

    /// Whether the request may alter the state of the filesystem.
    pub open spec fn alters_filesystem(self) -> bool {
        self is SetOwner || self is Open
    }
}

impl CallView {
    /// Argument number `index` with what is needed to read it.
    pub open spec fn word(self, index: int) -> MaybeRemote {
        MaybeRemote {
            pid: self.note.pid as i32,
            pointer: self.note.args[index],
            fd: self.notify_fd,
            id: self.note.id,
        }
    }

    /// The worker after its handler ended with `result`, and the request to
    /// respond.
    pub open spec fn finish(self, result: Result<i64, SyscallErrno>) -> (CallView, Request) {
        (
            CallView { stage: Stage::Finished(result), ..self },
            Request::Respond(response_for(self.note.id, result)),
        )
    }

    /// The worker with the stage `stage`, and the request it waits for.
    pub open spec fn wait(self, stage: Stage, request: Request) -> (CallView, Request) {
        (CallView { stage, ..self }, request)
    }

    /// Reads the arguments from number `index` on, in their order, as far as
    /// no exchange with the tracee is needed, and emulates the system call
    /// once all are read. A process id that is no signed 32-bit value and a
    /// word that cannot be read as its kind end the handler with `EINVAL`.
    pub open spec fn marshal(self, index: nat) -> (CallView, Request)
        decreases self.handler.signature().len() - index,
    {
        if index >= self.handler.signature().len() {
            self.emulate()
        } else if self.note.pid > i32::MAX {
            self.finish(Err(word_out_of_range()))
        } else {
            let word = self.word(index as int);
            match self.handler.signature()[index as int] {
                ArgKind::Dirfd => match word.spec_descriptor() {
                    Some(fd) => self.wait(
                        Stage::Reopening { index: index as usize, fd },
                        Request::Exchange { target: word, transfer: Transfer::Descriptor { fd } },
                    ),
                    None => CallView {
                        args: Arguments { dirfd: None, ..self.args },
                        ..self
                    }.marshal(index + 1),
                },
                ArgKind::Pathname => self.wait(
                    Stage::ReadingPath { index: index as usize },
                    Request::Exchange { target: word, transfer: Transfer::Read },
                ),
                ArgKind::Owner => match word.spec_u32() {
                    Ok(owner) => CallView {
                        args: Arguments { owner, ..self.args },
                        ..self
                    }.marshal(index + 1),
                    Err(err) => self.finish(Err(err)),
                },
                ArgKind::Group => match word.spec_u32() {
                    Ok(group) => CallView {
                        args: Arguments { group, ..self.args },
                        ..self
                    }.marshal(index + 1),
                    Err(err) => self.finish(Err(err)),
                },
                ArgKind::AtFlags => match word.spec_at_flags() {
                    Ok(at_flags) => CallView {
                        args: Arguments { at_flags, ..self.args },
                        ..self
                    }.marshal(index + 1),
                    Err(err) => self.finish(Err(err)),
                },
                ArgKind::OpenFlags => match word.spec_oflag() {
                    Ok(open_flags) => CallView {
                        args: Arguments { open_flags, ..self.args },
                        ..self
                    }.marshal(index + 1),
                    Err(err) => self.finish(Err(err)),
                },
                ArgKind::Mode => match word.spec_mode() {
                    Ok(mode) => CallView {
                        args: Arguments { mode, ..self.args },
                        ..self
                    }.marshal(index + 1),
                    Err(err) => self.finish(Err(err)),
                },
                ArgKind::StatSlot => CallView {
                    args: Arguments { stat_slot: word, ..self.args },
                    ..self
                }.marshal(index + 1),
            }
        }
    }

    /// The request to set the shadow owner that `fchownat` was called with.
    pub open spec fn set_owner(self) -> (CallView, Request) {
        self.wait(
            Stage::Setting,
            Request::SetOwner {
                follow: self.args.at_flags.spec_follow(),
                uid: self.args.owner,
                gid: self.args.group,
            },
        )
    }

    /// The first step of the emulation, once all arguments are read.
    pub open spec fn emulate(self) -> (CallView, Request) {
        match self.handler {
            Handler::Fchownat => if is_absolute(self.pathname) {
                self.set_owner()
            } else {
                self.wait(Stage::Changing, Request::Chdir { pid: self.note.pid })
            },
            Handler::Newfstatat => self.wait(
                Stage::Stating,
                Request::Stat { flags: self.args.at_flags },
            ),
            Handler::Openat => self.wait(
                Stage::Opening,
                Request::Open { oflag: self.args.open_flags, mode: self.args.mode },
            ),
        }
    }

    /// The worker that handles `note` with `handler`, and its first request:
    /// to enter the working directory of the tracee.
    pub open spec fn spec_start(handler: Handler, note: Notification, notify_fd: i32) -> (
        CallView,
        Request,
    ) {
        (
            CallView {
                handler,
                note,
                notify_fd,
                stage: Stage::Entering,
                args: no_arguments(),
                pathname: Seq::empty(),
            },
            Request::Chdir { pid: note.pid },
        )
    }

    /// The worker and its next request after the driver gave the reply
    /// `reply` to its last request.
    pub open spec fn spec_next(self, reply: Reply) -> (CallView, Request) {
        match self.stage {
            Stage::Finished(result) => (
                self,
                Request::Respond(response_for(self.note.id, result)),
            ),
            Stage::Looking => match reply {
                Reply::Owner(Ok(owner)) => self.wait(
                    Stage::Storing,
                    Request::StoreStat { slot: self.args.stat_slot, shadow: Some(owner) },
                ),
                Reply::Owner(Err(_)) => self.wait(
                    Stage::Storing,
                    Request::StoreStat { slot: self.args.stat_slot, shadow: None },
                ),
                _ => self.finish(Err(unexpected_reply())),
            },
            Stage::ReadingPath { index } => match reply {
                Reply::Bytes(Ok(bytes)) => match path_of(bytes@) {
                    Ok(pathname) => CallView { pathname, ..self }.marshal((index + 1) as nat),
                    Err(err) => self.finish(Err(err)),
                },
                Reply::Bytes(Err(err)) => self.finish(Err(err)),
                _ => self.finish(Err(unexpected_reply())),
            },
            _ => match reply {
                Reply::Done(Err(err)) => self.finish(Err(err)),
                Reply::Done(Ok(())) => match self.stage {
                    Stage::Entering => self.marshal(0),
                    Stage::Reopening { index, fd } => CallView {
                        args: Arguments { dirfd: Some(fd), ..self.args },
                        ..self
                    }.marshal((index + 1) as nat),
                    Stage::Changing => self.set_owner(),
                    Stage::Stating => self.wait(
                        Stage::Looking,
                        Request::GetOwner { follow: self.args.at_flags.spec_follow() },
                    ),
                    _ => self.finish(Ok(0)),
                },
                _ => self.finish(Err(unexpected_reply())),
            },
        }
    }
}

impl View for Call {
    type V = CallView;

    closed spec fn view(&self) -> CallView {
        CallView {
            handler: self.handler,
            note: self.note,
            notify_fd: self.notify_fd,
            stage: self.stage,
            args: self.args,
            pathname: self.pathname@,
        }
    }
}

impl Syscall for Handler {
    open spec fn syscall_name(&self) -> Seq<char> {
        self.spec_name()
    }

    open spec fn handler(&self) -> Handler {
        *self
    }

    fn execute(&self, req: Notification, fd: i32) -> (start: (Call, Request)) {
        let call = Call {
            handler: *self,
            note: req,
            notify_fd: fd,
            stage: Stage::Entering,
            args: Arguments {
                dirfd: None,
                owner: 0,
                group: 0,
                at_flags: AtFlags { bits: 0 },
                open_flags: OFlag { bits: 0 },
                mode: Mode { bits: 0 },
                stat_slot: MaybeRemote { pid: 0, pointer: 0, fd: 0, id: 0 },
            },
            pathname: String::new(),
        };
        (call, Request::Chdir { pid: req.pid })
    }

    fn get_syscall(&self) -> (name: &'static str) {
        self.name()
    }
}

impl Call {
    /// Starts the worker of the notification `note` that came from the notify
    /// file descriptor `notify_fd`. Where `registry` has no handler for the
    /// system call, the answer is `ENOSYS` at once; else the driver is asked
    /// to enter the working directory of the tracee.
    pub fn dispatch(registry: &Registry, note: Notification, notify_fd: i32) -> (step: Result<
        (Call, Request),
        Response,
    >)
        ensures
            match step {
                Ok((call, request)) => registry@.contains_key(note.syscall) && (call@, request)
                    == CallView::spec_start(registry@[note.syscall], note, notify_fd),
                Err(response) => !registry@.contains_key(note.syscall) && response
                    == response_for(note.id, Err(unsupported())),
            },
    {
        match registry.lookup(note.syscall) {
            None => Err(
                respond(note.id, Err(SyscallErrno::Anyhow(ENOSYS, Cause::UnsupportedSyscall))),
            ),
            Some(handler) => Ok(handler.execute(note, notify_fd)),
        }
    }

    /// Takes the reply of the driver to the last request and says what to do
    /// next. Arguments are read in their order; the system call is emulated
    /// only after all of them are read; an error of a request ends the handler
    /// with that error, but for the lookup of the shadow owner, whose
    /// failure leaves the real owner in the `stat` record.
    pub fn next(&mut self, reply: Reply) -> (request: Request)
        ensures
            (final(self)@, request) == old(self)@.spec_next(reply),
    {
        match self.stage {
            Stage::Finished(result) => Request::Respond(respond(self.note.id, result)),
            Stage::Looking => match reply {
                Reply::Owner(Ok(owner)) => {
                    self.stage = Stage::Storing;
                    Request::StoreStat { slot: self.args.stat_slot, shadow: Some(owner) }
                },
                Reply::Owner(Err(_)) => {
                    self.stage = Stage::Storing;
                    Request::StoreStat { slot: self.args.stat_slot, shadow: None }
                },
                _ => self.finish(Err(SyscallErrno::Anyhow(EINVAL, Cause::UnexpectedReply))),
            },
            Stage::ReadingPath { index } => match reply {
                Reply::Bytes(Ok(bytes)) => match path_from_buffer(bytes.as_slice()) {
                    Ok(pathname) => {
                        self.pathname = pathname;
                        self.marshal_after(index)
                    },
                    Err(err) => self.finish(Err(err)),
                },
                Reply::Bytes(Err(err)) => self.finish(Err(err)),
                _ => self.finish(Err(SyscallErrno::Anyhow(EINVAL, Cause::UnexpectedReply))),
            },
            _ => match reply {
                Reply::Done(Err(err)) => self.finish(Err(err)),
                Reply::Done(Ok(())) => match self.stage {
                    Stage::Entering => self.marshal(0),
                    Stage::Reopening { index, fd } => {
                        self.args.dirfd = Some(fd);
                        self.marshal_after(index)
                    },
                    Stage::Changing => self.set_owner(),
                    Stage::Stating => {
                        self.stage = Stage::Looking;
                        Request::GetOwner { follow: self.args.at_flags.follow() }
                    },
                    _ => self.finish(Ok(0)),
                },
                _ => self.finish(Err(SyscallErrno::Anyhow(EINVAL, Cause::UnexpectedReply))),
            },
        }
    }

    /// The handler that emulates the system call.
    pub fn handler(&self) -> (handler: Handler)
        ensures
            handler == self@.handler,
    {
        self.handler
    }

    /// What the worker is waiting for.
    pub fn stage(&self) -> (stage: Stage)
        ensures
            stage == self@.stage,
    {
        self.stage
    }

    /// The arguments that were read so far.
    pub fn arguments(&self) -> (args: Arguments)
        ensures
            args == self@.args,
    {
        self.args
    }

    /// The pathname that was read from the tracee; empty before that.
    pub fn pathname(&self) -> (pathname: &str)
        ensures
            pathname@ == self@.pathname,
    {
        self.pathname.as_str()
    }

    fn finish(&mut self, result: Result<i64, SyscallErrno>) -> (request: Request)
        ensures
            (final(self)@, request) == old(self)@.finish(result),
    {
        self.stage = Stage::Finished(result);
        Request::Respond(respond(self.note.id, result))
    }

    fn set_owner(&mut self) -> (request: Request)
        ensures
            (final(self)@, request) == old(self)@.set_owner(),
    {
        self.stage = Stage::Setting;
        Request::SetOwner {
            follow: self.args.at_flags.follow(),
            uid: self.args.owner,
            gid: self.args.group,
        }
    }

    fn emulate(&mut self) -> (request: Request)
        ensures
            (final(self)@, request) == old(self)@.emulate(),
    {
        match self.handler {
            Handler::Fchownat => if path_is_absolute(self.pathname.as_str()) {
                self.set_owner()
            } else {
                self.stage = Stage::Changing;
                Request::Chdir { pid: self.note.pid }
            },
            Handler::Newfstatat => {
                self.stage = Stage::Stating;
                Request::Stat { flags: self.args.at_flags }
            },
            Handler::Openat => {
                self.stage = Stage::Opening;
                Request::Open { oflag: self.args.open_flags, mode: self.args.mode }
            },
        }
    }

    fn marshal_after(&mut self, index: usize) -> (request: Request)
        ensures
            (final(self)@, request) == old(self)@.marshal((index + 1) as nat),
    {
        if index < 6 {
            self.marshal(index + 1)
        } else {
            self.emulate()
        }
    }

    fn marshal(&mut self, start: usize) -> (request: Request)
        ensures
            (final(self)@, request) == old(self)@.marshal(start as nat),
    {
        if start > 6 {
            return self.emulate();
        }
        let mut index: usize = start;
        loop
            invariant
                index <= 6,
                self@.marshal(index as nat) == old(self)@.marshal(start as nat),
            decreases 6 - index,
        {
            let kind = match self.handler.kind(index) {
                Some(kind) => kind,
                None => {
                    return self.emulate();
                },
            };
            if self.note.pid > i32::MAX as u32 {
                return self.finish(Err(SyscallErrno::Anyhow(EINVAL, Cause::WordOutOfRange)));
            }
            let word = MaybeRemote::new(
                self.note.pid as i32,
                self.note.args[index],
                self.notify_fd,
                self.note.id,
            );
            let filled = match kind {
                ArgKind::Dirfd => match word.descriptor() {
                    Some(fd) => {
                        self.stage = Stage::Reopening { index, fd };
                        return Request::Exchange {
                            target: word,
                            transfer: Transfer::Descriptor { fd },
                        };
                    },
                    None => {
                        self.args.dirfd = None;
                        Ok(())
                    },
                },
                ArgKind::Pathname => {
                    self.stage = Stage::ReadingPath { index };
                    return Request::Exchange { target: word, transfer: Transfer::Read };
                },
                ArgKind::Owner => match word.try_into_u32() {
                    Ok(owner) => {
                        self.args.owner = owner;
                        Ok(())
                    },
                    Err(err) => Err(err),
                },
                ArgKind::Group => match word.try_into_u32() {
                    Ok(group) => {
                        self.args.group = group;
                        Ok(())
                    },
                    Err(err) => Err(err),
                },
                ArgKind::AtFlags => match word.try_into_at_flags() {
                    Ok(at_flags) => {
                        self.args.at_flags = at_flags;
                        Ok(())
                    },
                    Err(err) => Err(err),
                },
                ArgKind::OpenFlags => match word.try_into_oflag() {
                    Ok(open_flags) => {
                        self.args.open_flags = open_flags;
                        Ok(())
                    },
                    Err(err) => Err(err),
                },
                ArgKind::Mode => match word.try_into_mode() {
                    Ok(mode) => {
                        self.args.mode = mode;
                        Ok(())
                    },
                    Err(err) => Err(err),
                },
                ArgKind::StatSlot => {
                    self.args.stat_slot = word;
                    Ok(())
                },
            };
            if let Err(err) = filled {
                return self.finish(Err(err));
            }
            index = index + 1;
        }
    }
}

impl Stage {
    /// The part of a worker's life that the stage belongs to: `0` before
    /// any argument is read, `1` while arguments are read from the tracee,
    /// `2` while the system call is emulated, `3` after the handler ended.
    pub open spec fn phase(self) -> int {
        match self {
            Stage::Entering => 0,
            Stage::Reopening { .. } | Stage::ReadingPath { .. } => 1,
            Stage::Finished(_) => 3,
            _ => 2,
        }
    }
}

impl CallView {
    /// The worker after the driver gave the replies `replies`, one after the
    /// other, and the request it was given last.
    pub open spec fn after(
        handler: Handler,
        note: Notification,
        notify_fd: i32,
        replies: Seq<Reply>,
    ) -> (CallView, Request)
        decreases replies.len(),
    {
        if replies.len() == 0 {
            Self::spec_start(handler, note, notify_fd)
        } else {
            Self::after(handler, note, notify_fd, replies.drop_last()).0.spec_next(replies.last())
        }
    }

    /// The request number `index` of the run in which the driver gives the
    /// replies `replies`.
    pub open spec fn request_at(
        handler: Handler,
        note: Notification,
        notify_fd: i32,
        replies: Seq<Reply>,
        index: int,
    ) -> Request {
        Self::after(handler, note, notify_fd, replies.take(index)).1
    }

    /// Whether the request `request` fits the stage of the worker: an
    /// argument is read from the tracee only while arguments are read, and the
    /// filesystem is altered only while the system call is emulated.
    pub open spec fn fits(self, request: Request) -> bool {
        &&& request.captures_argument() ==> self.stage.phase() == 1
        &&& request.alters_filesystem() ==> self.stage.phase() == 2
        &&& self.stage matches Stage::Finished(result) ==> request == Request::Respond(
            response_for(self.note.id, result),
        )
    }
}

/// Reading the arguments from any of them on leaves the worker reading
/// arguments, emulating or ended, with a request that fits.
proof fn lemma_marshal_fits(call: CallView, index: nat)
    ensures
        call.marshal(index).0.stage.phase() >= 1,
        call.marshal(index).0.fits(call.marshal(index).1),
        call.marshal(index).0.note == call.note,
    decreases call.handler.signature().len() - index,
{
    if index < call.handler.signature().len() && call.note.pid <= i32::MAX {
        let word = call.word(index as int);
        let args = call.args;
        match call.handler.signature()[index as int] {
            ArgKind::Dirfd => {
                lemma_marshal_fits(
                    CallView { args: Arguments { dirfd: None, ..args }, ..call },
                    index + 1,
                );
            },
            ArgKind::Pathname => {},
            ArgKind::Owner => {
                if let Ok(owner) = word.spec_u32() {
                    lemma_marshal_fits(
                        CallView { args: Arguments { owner, ..args }, ..call },
                        index + 1,
                    );
                }
            },
            ArgKind::Group => {
                if let Ok(group) = word.spec_u32() {
                    lemma_marshal_fits(
                        CallView { args: Arguments { group, ..args }, ..call },
                        index + 1,
                    );
                }
            },
            ArgKind::AtFlags => {
                if let Ok(at_flags) = word.spec_at_flags() {
                    lemma_marshal_fits(
                        CallView { args: Arguments { at_flags, ..args }, ..call },
                        index + 1,
                    );
                }
            },
            ArgKind::OpenFlags => {
                if let Ok(open_flags) = word.spec_oflag() {
                    lemma_marshal_fits(
                        CallView { args: Arguments { open_flags, ..args }, ..call },
                        index + 1,
                    );
                }
            },
            ArgKind::Mode => {
                if let Ok(mode) = word.spec_mode() {
                    lemma_marshal_fits(
                        CallView { args: Arguments { mode, ..args }, ..call },
                        index + 1,
                    );
                }
            },
            ArgKind::StatSlot => {
                lemma_marshal_fits(
                    CallView { args: Arguments { stat_slot: word, ..args }, ..call },
                    index + 1,
                );
            },
        }
    }
}

/// A step never takes a worker back: the phase of its stage does not
/// decrease, and the request it gives fits the stage it enters.
pub proof fn lemma_step_goes_forward(call: CallView, reply: Reply)
    ensures
        call.spec_next(reply).0.stage.phase() >= call.stage.phase(),
        call.spec_next(reply).0.fits(call.spec_next(reply).1),
        call.spec_next(reply).0.note == call.note,
{
    match call.stage {
        Stage::Entering => {
            lemma_marshal_fits(call, 0);
        },
        Stage::Reopening { index, fd } => {
            lemma_marshal_fits(
                CallView { args: Arguments { dirfd: Some(fd), ..call.args }, ..call },
                (index + 1) as nat,
            );
        },
        Stage::ReadingPath { index } => {
            if let Reply::Bytes(Ok(bytes)) = reply {
                if let Ok(pathname) = path_of(bytes@) {
                    lemma_marshal_fits(CallView { pathname, ..call }, (index + 1) as nat);
                }
            }
        },
        _ => {},
    }
}

/// Where a worker stands after `index` replies: its phase has not decreased
/// since any earlier point of the run, and its last request fits its stage.
proof fn lemma_run_goes_forward(
    handler: Handler,
    note: Notification,
    notify_fd: i32,
    replies: Seq<Reply>,
    early: int,
    late: int,
)
    requires
        0 <= early <= late <= replies.len(),
    ensures
        ({
            let (before, asked_before) = CallView::after(
                handler,
                note,
                notify_fd,
                replies.take(early),
            );
            let (behind, asked_behind) = CallView::after(
                handler,
                note,
                notify_fd,
                replies.take(late),
            );
            &&& before.stage.phase() <= behind.stage.phase()
            &&& before.fits(asked_before)
            &&& behind.fits(asked_behind)
            &&& behind.note == note
        }),
    decreases late,
{
    if late > 0 {
        let taken = replies.take(late);
        assert(taken.drop_last() =~= replies.take(late - 1));
        let (previous, _) = CallView::after(handler, note, notify_fd, replies.take(late - 1));
        lemma_step_goes_forward(previous, taken.last());
        if early < late {
            lemma_run_goes_forward(handler, note, notify_fd, replies, early, late - 1);
        } else {
            lemma_run_goes_forward(handler, note, notify_fd, replies, late - 1, late - 1);
        }
    }
}

/// Argument materialization before action: in every run of a worker, once a
/// request was given that may alter the filesystem, no later request reads an
/// argument from the tracee.
pub proof fn lemma_arguments_before_effects(
    handler: Handler,
    note: Notification,
    notify_fd: i32,
    replies: Seq<Reply>,
    early: int,
    late: int,
)
    requires
        0 <= early <= late <= replies.len(),
        CallView::request_at(handler, note, notify_fd, replies, early).alters_filesystem(),
    ensures
        !CallView::request_at(handler, note, notify_fd, replies, late).captures_argument(),
{
    lemma_run_goes_forward(handler, note, notify_fd, replies, early, late);
}

/// Error preservation: whenever the handler of a notification has ended,
/// with a value or with an error of whatever origin, the worker asks for the
/// response that carries that value, or the negated error number of that
/// error.
pub proof fn lemma_result_reaches_tracee(
    handler: Handler,
    note: Notification,
    notify_fd: i32,
    replies: Seq<Reply>,
    result: Result<i64, SyscallErrno>,
)
    requires
        CallView::after(handler, note, notify_fd, replies).0.stage == Stage::Finished(result),
    ensures
        CallView::after(handler, note, notify_fd, replies).1 == Request::Respond(
            response_for(note.id, result),
        ),
        result matches Err(err) ==> response_for(note.id, result).error == -err.spec_errno(),
        result matches Err(err) ==> response_for(note.id, result).val == 0,
{
    assert(replies.take(replies.len() as int) =~= replies);
    lemma_run_goes_forward(handler, note, notify_fd, replies, 0, replies.len() as int);
}

/// No error is swallowed: an error that the driver reports for a request ends
/// the handler with that error. The one exception is the lookup of the shadow
/// owner, whose failure leaves the real owner in the `stat` record.
pub proof fn lemma_error_ends_handler(call: CallView, reply: Reply, err: SyscallErrno)
    requires
        !(call.stage is Finished),
        match call.stage {
            Stage::Looking => false,
            Stage::ReadingPath { .. } => reply == Reply::Bytes(Err(err)),
            _ => reply == Reply::Done(Err(err)),
        },
    ensures
        call.spec_next(reply) == call.finish(Err(err)),
        call.spec_next(reply).1 == Request::Respond(
            Response { id: call.note.id, val: 0, error: (-err.spec_errno()) as i32, flags: 0 },
        ),
{
}


} // verus!
