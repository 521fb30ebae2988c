use std::collections::HashMap;
use subuidless::error::{
    Cause, SyscallErrno, EBADFD, EFAULT, EINVAL, ENAMETOOLONG, ENOENT, ENOSYS, EPERM,
};
use subuidless::flags::{AtFlags, Mode, OFlag};
use subuidless::mem::{Action, Exchange, MaybeRemote, Plain, RemoteStruct, Transfer};
use subuidless::syscall::{ArgKind, Handler, Notification, Registry, Syscall};
use subuidless::worker::{respond, Call, Reply, Request, Response, Stage};
use subuidless::xattr::{get_xa_user, set_xa_user, XattrCall, LOOKUP_CAPACITY};

const FCHOWNAT: i32 = 260;
const NEWFSTATAT: i32 = 262;
const OPENAT: i32 = 257;
const NOTIFY_FD: i32 = 7;
const AT_FDCWD: u64 = -100i64 as u64;
const PATH_AT: u64 = 0x7000;
const STAT_AT: u64 = 0x9000;

#[derive(Clone, Copy, Debug, PartialEq, Eq)]
struct Stat {
    uid: u32,
    gid: u32,
}

impl Plain for Stat {}

struct File {
    owner: (u32, u32),
    attribute: Option<Vec<u8>>,
}

/// What the system calls of a driver act on: files, the memory of the
/// tracee, and the kernel's view of the notification.
struct World {
    files: HashMap<String, File>,
    memory: HashMap<u64, Vec<u8>>,
    descriptors: Vec<i32>,
    /// Number of checks of the notification that still pass.
    checks_left: usize,
    stored: Vec<(u64, Stat)>,
    requests: Vec<Request>,
    actions: Vec<Action>,
}

impl World {
    fn new() -> World {
        World {
            files: HashMap::new(),
            memory: HashMap::new(),
            descriptors: Vec::new(),
            checks_left: usize::MAX,
            stored: Vec::new(),
            requests: Vec::new(),
            actions: Vec::new(),
        }
    }

    fn touch(&mut self, path: &str, owner: (u32, u32)) {
        self.files.insert(path.to_string(), File { owner, attribute: None });
    }

    fn place(&mut self, address: u64, text: &[u8]) {
        let mut bytes = text.to_vec();
        bytes.push(0);
        self.memory.insert(address, bytes);
    }

    fn exchange(&mut self, target: MaybeRemote, transfer: Transfer) -> (Result<(), SyscallErrno>, Vec<u8>) {
        let mut buffer = Vec::new();
        let (mut exchange, mut action) = Exchange::begin(target, transfer);
        loop {
            self.actions.push(action);
            let success = match action {
                Action::OpenDescriptor { fd, .. } => self.descriptors.contains(&fd),
                Action::OpenMemory { .. } => true,
                Action::CheckId { .. } => {
                    let valid = self.checks_left > 0;
                    self.checks_left = self.checks_left.saturating_sub(1);
                    valid
                }
                Action::ReadAt { address, len } => match self.memory.get(&address) {
                    Some(bytes) => {
                        buffer = vec![0; len];
                        buffer[..bytes.len()].copy_from_slice(bytes);
                        true
                    }
                    None => false,
                },
                Action::WriteAt { address } => self.memory.contains_key(&address),
                Action::Finish(result) => return (result, buffer),
            };
            action = exchange.advance(success);
        }
    }

    fn set_owner(&mut self, path: &str, call: XattrCall) -> Result<(), SyscallErrno> {
        let file = self.files.get_mut(path).ok_or(SyscallErrno::RustixError(ENOENT))?;
        match call {
            XattrCall::Store { value, .. } => file.attribute = Some(value),
            XattrCall::Remove { .. } => file.attribute = None,
        }
        Ok(())
    }

    fn lookup(&self, path: &str) -> Result<Vec<u8>, u16> {
        let file = self.files.get(path).ok_or(ENOENT)?;
        match &file.attribute {
            Some(value) if value.len() <= LOOKUP_CAPACITY => Ok(value.clone()),
            Some(_) => Err(34),
            None => Err(61),
        }
    }

    /// Handles one notification as a driver does.
    fn handle(&mut self, registry: &Registry, note: Notification) -> Response {
        let (mut call, mut request) = match Call::dispatch(registry, note, NOTIFY_FD) {
            Ok(start) => start,
            Err(response) => return response,
        };
        let mut stat = Stat { uid: 0, gid: 0 };
        loop {
            self.requests.push(request);
            let path = call.pathname().to_string();
            let reply = match request {
                Request::Chdir { .. } => Reply::Done(Ok(())),
                Request::Exchange { target, transfer } => {
                    let (result, buffer) = self.exchange(target, transfer);
                    match transfer {
                        Transfer::Read => Reply::Bytes(result.map(|()| buffer)),
                        _ => Reply::Done(result),
                    }
                }
                Request::SetOwner { follow, uid, gid } => {
                    Reply::Done(self.set_owner(&path, set_xa_user(follow, uid, gid)))
                }
                Request::Stat { .. } => Reply::Done(match self.files.get(&path) {
                    Some(file) => {
                        stat = Stat { uid: file.owner.0, gid: file.owner.1 };
                        Ok(())
                    }
                    None => Err(SyscallErrno::NixError(ENOENT)),
                }),
                Request::GetOwner { .. } => Reply::Owner(get_xa_user(self.lookup(&path))),
                Request::StoreStat { slot, shadow } => {
                    if let Some((uid, gid)) = shadow {
                        stat = Stat { uid, gid };
                    }
                    let place: RemoteStruct<Stat> = slot.into_remote_struct();
                    let (result, _) = self.exchange(place.data, Transfer::Write);
                    if result.is_ok() {
                        self.stored.push((slot.pointer, stat));
                    }
                    Reply::Done(result)
                }
                Request::Open { .. } => Reply::Done(match self.files.get(&path) {
                    Some(_) => Ok(()),
                    None => Err(SyscallErrno::NixError(ENOENT)),
                }),
                Request::Respond(response) => return response,
            };
            request = call.next(reply);
        }
    }
}

fn registry() -> Registry {
    let mut registry = Registry::new();
    registry.register(FCHOWNAT, Handler::Fchownat);
    registry.register(NEWFSTATAT, Handler::Newfstatat);
    registry.register(OPENAT, Handler::Openat);
    registry
}

fn note(syscall: i32, args: [u64; 6]) -> Notification {
    Notification { id: 11, pid: 42, syscall, args }
}

fn chown(owner: u64, group: u64, flags: u64) -> Notification {
    note(FCHOWNAT, [AT_FDCWD, PATH_AT, owner, group, flags, 0])
}

fn stat(flags: u64) -> Notification {
    note(NEWFSTATAT, [AT_FDCWD, PATH_AT, STAT_AT, flags, 0, 0])
}

fn value(val: i64) -> Response {
    Response { id: 11, val, error: 0, flags: 0 }
}

fn error(errno: u16) -> Response {
    Response { id: 11, val: 0, error: -i32::from(errno), flags: 0 }
}

fn world_with_file() -> World {
    let mut world = World::new();
    world.touch("/tmp/t", (4242, 4343));
    world.place(PATH_AT, b"/tmp/t");
    world.memory.insert(STAT_AT, Vec::new());
    world
}

#[test]
fn respond_with_a_value() {
    assert_eq!(respond(5, Ok(0)), Response { id: 5, val: 0, error: 0, flags: 0 });
    assert_eq!(respond(5, Ok(-3)), Response { id: 5, val: -3, error: 0, flags: 0 });
    assert_eq!(respond(u64::MAX, Ok(i64::MAX)).val, i64::MAX);
}

#[test]
fn respond_with_the_negated_error_number() {
    assert_eq!(
        respond(5, Err(SyscallErrno::NixError(ENOENT))),
        Response { id: 5, val: 0, error: -2, flags: 0 }
    );
    assert_eq!(respond(5, Err(SyscallErrno::RustixError(61))).error, -61);
    assert_eq!(respond(5, Err(SyscallErrno::Anyhow(EPERM, Cause::NotificationInvalid))).error, -1);
    assert_eq!(respond(5, Err(SyscallErrno::NixError(u16::MAX))).error, -65535);
}

#[test]
fn chown_is_seen_by_stat() {
    let registry = registry();
    let mut world = world_with_file();
    assert_eq!(world.handle(&registry, chown(1000, 1000, 0)), value(0));
    assert_eq!(world.files["/tmp/t"].owner, (4242, 4343));
    assert_eq!(
        world.files["/tmp/t"].attribute,
        Some(vec![0x08, 0xe8, 0x07, 0x10, 0xe8, 0x07])
    );
    assert_eq!(world.handle(&registry, stat(0)), value(0));
    assert_eq!(world.stored, vec![(STAT_AT, Stat { uid: 1000, gid: 1000 })]);
}

#[test]
fn chown_to_root_removes_the_attribute() {
    let registry = registry();
    let mut world = world_with_file();
    assert_eq!(world.handle(&registry, chown(1000, 1000, 0)), value(0));
    assert_eq!(world.handle(&registry, chown(0, 0, 0)), value(0));
    assert_eq!(world.files["/tmp/t"].attribute, None);
    assert_eq!(world.handle(&registry, stat(0)), value(0));
    assert_eq!(world.stored, vec![(STAT_AT, Stat { uid: 0, gid: 0 })]);
}

#[test]
fn chown_of_a_missing_file_is_not_found() {
    let registry = registry();
    let mut world = World::new();
    world.place(PATH_AT, b"nosuchfile");
    assert_eq!(world.handle(&registry, chown(1000, 1000, 0)), error(ENOENT));
    assert_eq!(world.handle(&registry, chown(1000, 1000, 0)).error, -2);
}

#[test]
fn a_path_in_unmapped_memory_is_a_fault() {
    let registry = registry();
    let mut world = World::new();
    world.touch("/tmp/t", (1, 1));
    assert_eq!(world.handle(&registry, chown(1000, 1000, 0)), error(EFAULT));
    assert_eq!(world.files["/tmp/t"].attribute, None);
}

#[test]
fn a_killed_tracee_is_answered_with_eperm() {
    let registry = registry();
    for checks_left in 0..2 {
        let mut world = world_with_file();
        world.checks_left = checks_left;
        assert_eq!(world.handle(&registry, chown(1000, 1000, 0)), error(EPERM));
        assert_eq!(world.files["/tmp/t"].attribute, None);
        assert!(!world.requests.iter().any(|request| matches!(request, Request::SetOwner { .. })));
    }
}

#[test]
fn a_tracee_killed_during_stat_gets_no_record() {
    let registry = registry();
    for checks_left in 0..4 {
        let mut world = world_with_file();
        world.checks_left = checks_left;
        assert_eq!(world.handle(&registry, stat(0)), error(EPERM));
        assert_eq!(world.stored, vec![]);
    }
}

#[test]
fn open_of_a_file_returns_zero() {
    let registry = registry();
    let mut world = World::new();
    world.touch("/etc/passwd", (0, 0));
    world.place(PATH_AT, b"/etc/passwd");
    let open = note(OPENAT, [AT_FDCWD, PATH_AT, 0, 0, 0, 0]);
    assert_eq!(world.handle(&registry, open), value(0));
    assert_eq!(
        world.requests,
        vec![
            Request::Chdir { pid: 42 },
            Request::Exchange {
                target: MaybeRemote { pid: 42, pointer: PATH_AT, fd: NOTIFY_FD, id: 11 },
                transfer: Transfer::Read,
            },
            Request::Open { oflag: OFlag { bits: 0 }, mode: Mode { bits: 0 } },
            Request::Respond(value(0)),
        ]
    );
}

#[test]
fn open_of_a_missing_file_is_not_found() {
    let registry = registry();
    let mut world = World::new();
    world.place(PATH_AT, b"/nosuchfile");
    let open = note(OPENAT, [AT_FDCWD, PATH_AT, 0, 0o644, 0, 0]);
    assert_eq!(world.handle(&registry, open), error(ENOENT));
}

#[test]
fn an_unknown_syscall_is_not_implemented() {
    let registry = registry();
    let mut world = World::new();
    assert_eq!(world.handle(&registry, note(1, [0; 6])), error(ENOSYS));
    assert!(world.requests.is_empty());
    assert_eq!(Registry::new().lookup(FCHOWNAT), None);
}

#[test]
fn the_registry_finds_what_was_registered() {
    let mut registry = registry();
    assert_eq!(registry.lookup(FCHOWNAT), Some(Handler::Fchownat));
    assert_eq!(registry.lookup(NEWFSTATAT), Some(Handler::Newfstatat));
    assert_eq!(registry.lookup(OPENAT), Some(Handler::Openat));
    assert_eq!(registry.lookup(0), None);
    registry.register(FCHOWNAT, Handler::Openat);
    assert_eq!(registry.lookup(FCHOWNAT), Some(Handler::Openat));
    assert_eq!(registry.lookup(OPENAT), Some(Handler::Openat));
}

#[test]
fn handlers_are_known_by_their_names() {
    assert_eq!(Handler::Fchownat.name(), "fchownat");
    assert_eq!(Handler::Newfstatat.name(), "newfstatat");
    assert_eq!(Handler::Openat.name(), "openat");
    assert_eq!(Handler::all(), [Handler::Fchownat, Handler::Newfstatat, Handler::Openat]);
}

#[test]
fn a_handler_starts_its_worker() {
    for handler in Handler::all() {
        assert_eq!(handler.get_syscall(), handler.name());
        let (call, request) = handler.execute(chown(1, 2, 0), NOTIFY_FD);
        assert_eq!(request, Request::Chdir { pid: 42 });
        assert_eq!(call.handler(), handler);
        assert_eq!(call.stage(), Stage::Entering);
        assert_eq!(call.pathname(), "");
        assert_eq!(call.arguments().dirfd, None);
    }
}

#[test]
fn handlers_have_their_signatures() {
    assert_eq!(Handler::Fchownat.arity(), 5);
    assert_eq!(Handler::Newfstatat.arity(), 4);
    assert_eq!(Handler::Openat.arity(), 4);
    let kinds = |handler: Handler| (0..7).map(|index| handler.kind(index)).collect::<Vec<_>>();
    assert_eq!(
        kinds(Handler::Fchownat),
        vec![
            Some(ArgKind::Dirfd),
            Some(ArgKind::Pathname),
            Some(ArgKind::Owner),
            Some(ArgKind::Group),
            Some(ArgKind::AtFlags),
            None,
            None,
        ]
    );
    assert_eq!(
        kinds(Handler::Newfstatat),
        vec![
            Some(ArgKind::Dirfd),
            Some(ArgKind::Pathname),
            Some(ArgKind::StatSlot),
            Some(ArgKind::AtFlags),
            None,
            None,
            None,
        ]
    );
    assert_eq!(
        kinds(Handler::Openat),
        vec![
            Some(ArgKind::Dirfd),
            Some(ArgKind::Pathname),
            Some(ArgKind::OpenFlags),
            Some(ArgKind::Mode),
            None,
            None,
            None,
        ]
    );
}

#[test]
fn a_relative_path_enters_the_working_directory_again() {
    let registry = registry();
    let mut world = World::new();
    world.touch("t", (1, 1));
    world.place(PATH_AT, b"t");
    assert_eq!(world.handle(&registry, chown(5, 6, 0x100)), value(0));
    assert_eq!(
        world.requests,
        vec![
            Request::Chdir { pid: 42 },
            Request::Exchange {
                target: MaybeRemote { pid: 42, pointer: PATH_AT, fd: NOTIFY_FD, id: 11 },
                transfer: Transfer::Read,
            },
            Request::Chdir { pid: 42 },
            Request::SetOwner { follow: false, uid: 5, gid: 6 },
            Request::Respond(value(0)),
        ]
    );
}

#[test]
fn an_absolute_path_needs_no_second_chdir() {
    let registry = registry();
    let mut world = world_with_file();
    assert_eq!(world.handle(&registry, chown(5, 6, 0)), value(0));
    assert_eq!(
        world.requests[2..],
        [Request::SetOwner { follow: true, uid: 5, gid: 6 }, Request::Respond(value(0))]
    );
}

#[test]
fn a_directory_descriptor_is_reopened_first() {
    let registry = registry();
    let mut world = world_with_file();
    world.descriptors.push(3);
    let chown = note(FCHOWNAT, [3, PATH_AT, 1, 2, 0, 0]);
    assert_eq!(world.handle(&registry, chown), value(0));
    let word = |pointer| MaybeRemote { pid: 42, pointer, fd: NOTIFY_FD, id: 11 };
    assert_eq!(
        world.requests[..3],
        [
            Request::Chdir { pid: 42 },
            Request::Exchange { target: word(3), transfer: Transfer::Descriptor { fd: 3 } },
            Request::Exchange { target: word(PATH_AT), transfer: Transfer::Read },
        ]
    );
}

#[test]
fn a_descriptor_that_cannot_be_reopened_is_bad() {
    let registry = registry();
    let mut world = world_with_file();
    let chown = note(FCHOWNAT, [3, PATH_AT, 1, 2, 0, 0]);
    assert_eq!(world.handle(&registry, chown), error(EBADFD));
    assert_eq!(world.files["/tmp/t"].attribute, None);
}

#[test]
fn arguments_are_read_before_anything_is_changed() {
    let registry = registry();
    let notes = [
        chown(1, 2, 0),
        note(FCHOWNAT, [3, PATH_AT, 1, 2, 0x100, 0]),
        note(OPENAT, [3, PATH_AT, 0, 0o600, 0, 0]),
        stat(0),
    ];
    for note in notes {
        let mut world = world_with_file();
        world.descriptors.push(3);
        assert_eq!(world.handle(&registry, note), value(0));
        let first_change = world
            .requests
            .iter()
            .position(|request| matches!(request, Request::SetOwner { .. } | Request::Open { .. }));
        let last_read = world
            .requests
            .iter()
            .rposition(|request| matches!(request, Request::Exchange { .. }))
            .unwrap();
        if let Some(first_change) = first_change {
            assert!(last_read < first_change);
        }
    }
}

#[test]
fn a_word_that_is_no_user_id_is_invalid() {
    let registry = registry();
    let out_of_range = error(EINVAL);
    let mut world = world_with_file();
    assert_eq!(world.handle(&registry, chown(0x1_0000_0000, 0, 0)), out_of_range);
    assert_eq!(world.handle(&registry, chown(0, u64::MAX, 0)), out_of_range);
    assert_eq!(world.files["/tmp/t"].attribute, None);
}

#[test]
fn flags_with_unknown_bits_are_invalid() {
    let registry = registry();
    let mut world = world_with_file();
    assert_eq!(world.handle(&registry, chown(1, 1, 1)), error(EINVAL));
    assert_eq!(world.handle(&registry, stat(0x8000_0000)), error(EINVAL));
    let open = note(OPENAT, [AT_FDCWD, PATH_AT, 0, 0o10000, 0, 0]);
    assert_eq!(world.handle(&registry, open), error(EINVAL));
    let open = note(OPENAT, [AT_FDCWD, PATH_AT, u64::MAX, 0, 0, 0]);
    assert_eq!(world.handle(&registry, open), error(EINVAL));
    assert!(!world
        .requests
        .iter()
        .any(|request| matches!(request, Request::SetOwner { .. } | Request::Open { .. })));
}

#[test]
fn a_process_id_out_of_range_is_invalid() {
    let registry = registry();
    let mut world = world_with_file();
    let mut chown = chown(1, 1, 0);
    chown.pid = 0x8000_0000;
    assert_eq!(world.handle(&registry, chown), error(EINVAL));
    assert_eq!(world.requests, vec![Request::Chdir { pid: 0x8000_0000 }, Request::Respond(error(EINVAL))]);
}

#[test]
fn a_path_without_terminator_is_too_long() {
    let registry = registry();
    let mut world = World::new();
    world.memory.insert(PATH_AT, vec![b'a'; 4096]);
    assert_eq!(world.handle(&registry, chown(1, 1, 0)), error(ENAMETOOLONG));
}

#[test]
fn a_failed_chdir_ends_the_worker() {
    let (mut call, request) = Call::dispatch(&registry(), chown(1, 1, 0), NOTIFY_FD).unwrap();
    assert_eq!(request, Request::Chdir { pid: 42 });
    assert_eq!(call.stage(), Stage::Entering);
    assert_eq!(call.handler(), Handler::Fchownat);
    assert_eq!(call.next(Reply::Done(Err(SyscallErrno::NixError(ENOENT)))), Request::Respond(error(ENOENT)));
    assert_eq!(call.stage(), Stage::Finished(Err(SyscallErrno::NixError(ENOENT))));
    assert_eq!(call.next(Reply::Done(Ok(()))), Request::Respond(error(ENOENT)));
}

#[test]
fn stat_of_a_file_without_attribute_shows_the_zero_owner() {
    let registry = registry();
    let mut world = world_with_file();
    assert_eq!(world.handle(&registry, stat(0)), value(0));
    assert_eq!(world.stored, vec![(STAT_AT, Stat { uid: 0, gid: 0 })]);
    assert!(world.requests.contains(&Request::GetOwner { follow: true }));
}

#[test]
fn stat_with_a_failed_lookup_leaves_the_real_owner() {
    let registry = registry();
    let mut world = world_with_file();
    world.files.get_mut("/tmp/t").unwrap().attribute = Some(vec![0xff]);
    assert_eq!(world.handle(&registry, stat(0x100)), value(0));
    assert_eq!(world.stored, vec![(STAT_AT, Stat { uid: 4242, gid: 4343 })]);
    assert!(world.requests.contains(&Request::StoreStat {
        slot: MaybeRemote { pid: 42, pointer: STAT_AT, fd: NOTIFY_FD, id: 11 },
        shadow: None,
    }));
    assert!(world.requests.contains(&Request::Stat { flags: AtFlags { bits: 0x100 } }));
    assert!(world.requests.contains(&Request::GetOwner { follow: false }));
}

#[test]
fn stat_of_a_missing_file_is_not_found() {
    let registry = registry();
    let mut world = World::new();
    world.place(PATH_AT, b"/nosuchfile");
    world.memory.insert(STAT_AT, Vec::new());
    assert_eq!(world.handle(&registry, stat(0)), error(ENOENT));
    assert_eq!(world.stored, vec![]);
}

#[test]
fn stat_into_unmapped_memory_is_a_fault() {
    let registry = registry();
    let mut world = world_with_file();
    world.memory.remove(&STAT_AT);
    assert_eq!(world.handle(&registry, stat(0)), error(EFAULT));
}

#[test]
fn an_unexpected_reply_is_invalid() {
    let unexpected = Request::Respond(error(EINVAL));
    let (mut call, _) = Call::dispatch(&registry(), chown(1, 1, 0), NOTIFY_FD).unwrap();
    assert_eq!(call.next(Reply::Owner(Ok((1, 1)))), unexpected);
    assert_eq!(
        call.stage(),
        Stage::Finished(Err(SyscallErrno::Anyhow(EINVAL, Cause::UnexpectedReply)))
    );
    let (mut call, _) = Call::dispatch(&registry(), chown(1, 1, 0), NOTIFY_FD).unwrap();
    call.next(Reply::Done(Ok(())));
    assert_eq!(call.stage(), Stage::ReadingPath { index: 1 });
    assert_eq!(call.next(Reply::Done(Ok(()))), unexpected);
}

#[test]
fn the_worker_keeps_what_it_read() {
    let (mut call, _) = Call::dispatch(&registry(), chown(1000, 100, 0x100), NOTIFY_FD).unwrap();
    assert_eq!(call.pathname(), "");
    call.next(Reply::Done(Ok(())));
    let request = call.next(Reply::Bytes(Ok(b"/tmp/t\0".to_vec())));
    assert_eq!(request, Request::SetOwner { follow: false, uid: 1000, gid: 100 });
    assert_eq!(call.pathname(), "/tmp/t");
    let args = call.arguments();
    assert_eq!(args.dirfd, None);
    assert_eq!((args.owner, args.group), (1000, 100));
    assert_eq!(args.at_flags, AtFlags { bits: 0x100 });
    assert_eq!(call.stage(), Stage::Setting);
}
