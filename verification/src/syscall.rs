//! The supervised system calls and the registry that finds the handler of a
//! notification.
use crate::worker::{Call, CallView, Request};
use std::collections::HashMap;
use vstd::prelude::*;

verus! {

broadcast use vstd::std_specs::hash::group_hash_axioms;

/// A notification that the kernel delivered on the notify file descriptor.
#[derive(Clone, Copy, Debug, PartialEq, Eq)]
pub struct Notification {
    /// Notification ID.
    pub id: u64,
    /// Process that triggered the notification event.
    pub pid: u32,
    /// The syscall number.
    pub syscall: i32,
    /// Arguments (up to 6) for the syscall.
    pub args: [u64; 6],
}

/// What the supervisor knows of a system call that it emulates.
pub trait Syscall {
    /// The name under which the kernel knows the system call.
    spec fn syscall_name(&self) -> Seq<char>;

    /// The handler that emulates the system call.
    spec fn handler(&self) -> Handler;

    /// Starts the emulation of the system call for the notification `req`
    /// that came from the notify file descriptor `fd`, and says what the
    /// driver is to do first. Everything the syscall does is asked for by the
    /// worker that is returned.
    fn execute(&self, req: Notification, fd: i32) -> (start: (Call, Request))
        ensures
            (start.0@, start.1) == CallView::spec_start(self.handler(), req, fd),
    ;

    /// The name of the system call, by which its number is found when the
    /// registry is built.
    fn get_syscall(&self) -> (name: &'static str)
        ensures
            name@ == self.syscall_name(),
    ;
}

/// The system calls that the supervisor emulates.
#[derive(Clone, Copy, Debug, PartialEq, Eq, Structural)]
pub enum Handler {
    /// `fchownat(dirfd, pathname, owner, group, flags)`
    Fchownat,
    /// `newfstatat(dirfd, pathname, statbuf, flags)`
    Newfstatat,
    /// `openat(dirfd, pathname, flags, mode)`
    Openat,
}

/// What an argument of a supervised system call is read as.
#[derive(Clone, Copy, Debug, PartialEq, Eq, Structural)]
pub enum ArgKind {
    /// A file descriptor of the tracee that names a directory, or none.
    Dirfd,
    /// The address of a path in the tracee's memory.
    Pathname,
    /// A user id.
    Owner,
    /// A group id.
    Group,
    /// Flags of an `*at` system call.
    AtFlags,
    /// Flags of an open.
    OpenFlags,
    /// A file mode.
    Mode,
    /// The address in the tracee's memory that a `stat` record is written to.
    StatSlot,
}

impl Handler {
    /// The kinds of the arguments of the system call, in their order.
    pub open spec fn signature(self) -> Seq<ArgKind> {
        match self {
            Handler::Fchownat => seq![
                ArgKind::Dirfd,
                ArgKind::Pathname,
                ArgKind::Owner,
                ArgKind::Group,
                ArgKind::AtFlags,
            ],
            Handler::Newfstatat => seq![
                ArgKind::Dirfd,
                ArgKind::Pathname,
                ArgKind::StatSlot,
                ArgKind::AtFlags,
            ],
            Handler::Openat => seq![
                ArgKind::Dirfd,
                ArgKind::Pathname,
                ArgKind::OpenFlags,
                ArgKind::Mode,
            ],
        }
    }

    /// The name under which the kernel knows the system call.
    pub open spec fn spec_name(self) -> Seq<char> {
        match self {
            Handler::Fchownat => "fchownat"@,
            Handler::Newfstatat => "newfstatat"@,
            Handler::Openat => "openat"@,
        }
    }

    /// The name under which the kernel knows the system call. The number of
    /// the system call on an architecture is found by this name.
    pub fn name(self) -> (name: &'static str)
        ensures
            name@ == self.spec_name(),
    {
        match self {
            Handler::Fchownat => "fchownat",
            Handler::Newfstatat => "newfstatat",
            Handler::Openat => "openat",
        }
    }

    /// The system calls that the supervisor emulates, each of them once.
    pub fn all() -> (handlers: [Handler; 3])
        ensures
            handlers@ == seq![Handler::Fchownat, Handler::Newfstatat, Handler::Openat],
    {
        [Handler::Fchownat, Handler::Newfstatat, Handler::Openat]
    }

    /// The number of arguments of the system call.
    pub fn arity(self) -> (arity: usize)
        ensures
            arity == self.signature().len(),
            arity <= 6,
    {
        match self {
            Handler::Fchownat => 5,
            Handler::Newfstatat => 4,
            Handler::Openat => 4,
        }
    }

    /// The kind of argument number `index` of the system call.
    pub fn kind(self, index: usize) -> (kind: Option<ArgKind>)
        ensures
            kind == if index < self.signature().len() {
                Some(self.signature()[index as int])
            } else {
                None
            },
    {
        match (self, index) {
            (_, 0) => Some(ArgKind::Dirfd),
            (_, 1) => Some(ArgKind::Pathname),
            (Handler::Fchownat, 2) => Some(ArgKind::Owner),
            (Handler::Fchownat, 3) => Some(ArgKind::Group),
            (Handler::Fchownat, 4) => Some(ArgKind::AtFlags),
            (Handler::Newfstatat, 2) => Some(ArgKind::StatSlot),
            (Handler::Newfstatat, 3) => Some(ArgKind::AtFlags),
            (Handler::Openat, 2) => Some(ArgKind::OpenFlags),
            (Handler::Openat, 3) => Some(ArgKind::Mode),
            _ => None,
        }
    }
}

/// The mapping from the number of a system call to its handler. It is filled
/// once at startup and only read after that.
pub struct Registry {
    pub handlers: HashMap<i32, Handler>,
}

impl View for Registry {
    type V = Map<i32, Handler>;

    open spec fn view(&self) -> Map<i32, Handler> {
        self.handlers@
    }
}

impl Registry {
    /// A registry without handlers.
    pub fn new() -> (registry: Registry)
        ensures
            registry@ == Map::<i32, Handler>::empty(),
    {
        Registry { handlers: HashMap::new() }
    }

    /// Makes `handler` the handler of the system call number `syscall`, in
    /// place of any that was registered for that number before.
    pub fn register(&mut self, syscall: i32, handler: Handler)
        ensures
            final(self)@ == old(self)@.insert(syscall, handler),
    {
        self.handlers.insert(syscall, handler);
    }

    /// The handler of the system call number `syscall`, if one is
    /// registered.
    pub fn lookup(&self, syscall: i32) -> (handler: Option<Handler>)
        ensures
            handler == if self@.contains_key(syscall) {
                Some(self@[syscall])
            } else {
                None
            },
    {
        match self.handlers.get(&syscall) {
            Some(handler) => Some(*handler),
            None => None,
        }
    }
}

} // verus!
