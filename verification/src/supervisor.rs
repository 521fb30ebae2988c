//! The decisions of the supervisor loop: which container a connection is
//! for, how the supervisor attaches to it, and under which process id a
//! notification is handled.
use vstd::prelude::*;

verus! {

/// Number of bytes offered to the control message of a connection.
pub const CONTROL_BUFFER_LEN: usize = 4096;

/// Name of the member of the control message that holds the process id of
/// the container's init process.
pub const PID_MEMBER: &'static str = "pid";

/// Why a control message names no container.
#[derive(Clone, Copy, Debug, PartialEq, Eq, Structural)]
pub enum ControlError {
    /// The message is not JSON.
    Malformed,
    /// The message holds no member `pid` that is a process id.
    MissingPid,
}

/// What the JSON text `body` holds under `key`: `None` where `body` is not
/// JSON; else the member's value where `body` is an object with a member
/// `key` that is an integer of 64 bits without sign, and `Some(None)` where
/// it is not. This is what `serde_json::from_slice`, `Value::get` and
/// `Value::as_u64` give one after the other.
pub uninterp spec fn json_u64_member(body: Seq<u8>, key: Seq<char>) -> Option<Option<u64>>;

/// Parses `body` with `serde_json::from_slice` and reads the member `key` of
/// the value with `serde_json::Value::get` and `serde_json::Value::as_u64`.
/// The contract names the result and claims no more than that it depends on
/// `body` and `key` alone.
#[verifier::external_body]
fn json_member_as_u64(body: &[u8], key: &str) -> (member: Option<Option<u64>>)
    ensures
        member == json_u64_member(body@, key@),
{
    let value: serde_json::Value = match serde_json::from_slice(body) {
        Ok(value) => value,
        Err(_) => return None,
    };
    Some(value.get(key).and_then(serde_json::Value::as_u64))
}

/// The process id that a control message names, where `member` is what the
/// message holds under `pid`: the member's value where it is a positive
/// signed 32-bit value.
pub open spec fn pid_of_member(member: Option<Option<u64>>) -> Result<i32, ControlError> {
    match member {
        None => Err(ControlError::Malformed),
        Some(None) => Err(ControlError::MissingPid),
        Some(Some(pid)) => if 0 < pid <= i32::MAX {
            Ok(pid as i32)
        } else {
            Err(ControlError::MissingPid)
        },
    }
}

/// Reads the process id of a container's init process from what its control
/// message holds under `pid`.
pub fn pid_from_member(member: Option<Option<u64>>) -> (pid: Result<i32, ControlError>)
    ensures
        pid == pid_of_member(member),
{
    match member {
        None => Err(ControlError::Malformed),
        Some(None) => Err(ControlError::MissingPid),
        Some(Some(pid)) => if 0 < pid && pid <= i32::MAX as u64 {
            Ok(pid as i32)
        } else {
            Err(ControlError::MissingPid)
        },
    }
}

/// Reads the process id of a container's init process from the control
/// message `body` of a connection.
pub fn container_pid(body: &[u8]) -> (pid: Result<i32, ControlError>)
    ensures
        pid == pid_of_member(json_u64_member(body@, PID_MEMBER@)),
{
    pid_from_member(json_member_as_u64(body, PID_MEMBER))
}

/// A namespace of the container that the supervisor joins.
#[derive(Clone, Copy, Debug, PartialEq, Eq, Structural)]
pub enum Namespace {
    User,
    Mount,
    Pid,
}

/// A step of attaching to a container after its connection was accepted.
/// The first step is `Fork`.
#[derive(Clone, Copy, Debug, PartialEq, Eq, Structural)]
pub enum Attach {
    /// Fork, so that the process that accepts connections stays outside.
    Fork,
    /// Stop sharing the filesystem attributes with the parent.
    Detach,
    /// Open a pid file descriptor for the container's init process.
    OpenPid,
    /// Join a namespace of the container through the pid file descriptor.
    Join(Namespace),
    /// Fork again, so that the child is a member of the pid namespace.
    Refork,
    /// Receive and handle the notifications of the container.
    Serve,
    /// Go back to accepting connections.
    Accept,
    /// Give up: the supervisor ends with an error.
    Abort,
}

/// How a step of attaching ended.
#[derive(Clone, Copy, Debug, PartialEq, Eq, Structural)]
pub enum Outcome {
    /// The step succeeded; after a fork, this process is the child.
    Succeeded,
    /// The fork succeeded and this process is the parent.
    InParent,
    /// The step failed.
    Failed,
}

impl Attach {
    /// The step that follows `self` where `self` ended with `outcome`. The
    /// steps go from the first fork over detaching, the pid file descriptor,
    /// the user, the mount and the pid namespace, in that order, to the second
    /// fork and to serving. The parent of either fork goes back to accepting
    /// connections, and a step that fails ends the supervisor.
    pub open spec fn spec_then(self, outcome: Outcome) -> Attach {
        match outcome {
            Outcome::Failed => Attach::Abort,
            Outcome::InParent => Attach::Accept,
            Outcome::Succeeded => match self {
                Attach::Fork => Attach::Detach,
                Attach::Detach => Attach::OpenPid,
                Attach::OpenPid => Attach::Join(Namespace::User),
                Attach::Join(Namespace::User) => Attach::Join(Namespace::Mount),
                Attach::Join(Namespace::Mount) => Attach::Join(Namespace::Pid),
                Attach::Join(Namespace::Pid) => Attach::Refork,
                Attach::Refork => Attach::Serve,
                Attach::Serve => Attach::Serve,
                Attach::Accept => Attach::Accept,
                Attach::Abort => Attach::Abort,
            },
        }
    }

    /// The step that follows `self` where `self` ended with `outcome`.
    pub fn then(self, outcome: Outcome) -> (step: Attach)
        ensures
            step == self.spec_then(outcome),
    {
        match outcome {
            Outcome::Failed => Attach::Abort,
            Outcome::InParent => Attach::Accept,
            Outcome::Succeeded => match self {
                Attach::Fork => Attach::Detach,
                Attach::Detach => Attach::OpenPid,
                Attach::OpenPid => Attach::Join(Namespace::User),
                Attach::Join(Namespace::User) => Attach::Join(Namespace::Mount),
                Attach::Join(Namespace::Mount) => Attach::Join(Namespace::Pid),
                Attach::Join(Namespace::Pid) => Attach::Refork,
                Attach::Refork => Attach::Serve,
                Attach::Serve => Attach::Serve,
                Attach::Accept => Attach::Accept,
                Attach::Abort => Attach::Abort,
            },
        }
    }
}

/// The rule that gives the container's init process the process id it has in
/// its own pid namespace.
///
/// Notifications that come before the init process is seen are those of the
/// container runtime. The first notification of a process id that is not below
/// that of the init process ends this time; if it is the init process itself,
/// it is handled as process `1`. From then on process ids are left as they
/// are.
#[derive(Clone, Copy, Debug, PartialEq, Eq, Structural)]
pub struct PidRewriter {
    /// The process id of the container's init process.
    pub init_pid: i32,
    /// Whether the init process has not been seen yet.
    pub pre_init: bool,
}

impl PidRewriter {
    /// The rule after a notification of the process `pid`, and the process
    /// id under which the notification is handled; `None` where `pid` is no
    /// signed 32-bit value while the init process has not been seen.
    pub open spec fn spec_rewrite(self, pid: u32) -> Option<(PidRewriter, u32)> {
        if !self.pre_init {
            Some((self, pid))
        } else if pid > i32::MAX {
            None
        } else if pid < self.init_pid {
            Some((self, pid))
        } else {
            Some(
                (
                    PidRewriter { pre_init: false, ..self },
                    if pid == self.init_pid {
                        1u32
                    } else {
                        pid
                    },
                ),
            )
        }
    }

    /// The rule for the container whose init process is `init_pid`, before
    /// any notification.
    pub fn new(init_pid: i32) -> (rule: PidRewriter)
        ensures
            rule == (PidRewriter { init_pid, pre_init: true }),
    {
        PidRewriter { init_pid, pre_init: true }
    }

    /// Takes the process id `pid` of the next notification and gives the
    /// process id under which it is handled. Where `None` is returned the
    /// rule is left as it was.
    pub fn rewrite(&mut self, pid: u32) -> (handled: Option<u32>)
        ensures
            match old(self).spec_rewrite(pid) {
                Some((rule, as_pid)) => *final(self) == rule && handled == Some(as_pid),
                None => *final(self) == *old(self) && handled is None,
            },
    {
        if !self.pre_init {
            return Some(pid);
        }
        if pid > i32::MAX as u32 {
            return None;
        }
        if (pid as i32) < self.init_pid {
            return Some(pid);
        }
        self.pre_init = false;
        if pid as i32 == self.init_pid {
            Some(1)
        } else {
            Some(pid)
        }
    }
}

} // verus!
