//! The ownership shadow: the owner a containerized workload believes a file
//! to have, kept in the extended attribute `user.rootlesscontainers`.
//!
//! An absent attribute stands for the owner `(0, 0)`, and that owner is never
//! written: setting it removes the attribute.
//! <https://github.com/rootless-containers/proto>
use crate::error::{Cause, SyscallErrno, ENODATA, ENOTSUP, ERANGE};
use crate::record::{encode, lemma_record_len, lemma_record_round_trip, owner_of, parse, record};
use vstd::prelude::*;

verus! {

/// Name of the extended attribute that holds the ownership record.
pub const XA_USER_ROOTLESSCONTAINERS: &'static str = "user.rootlesscontainers";

/// Number of bytes a lookup of the attribute offers for its value.
pub const LOOKUP_CAPACITY: usize = 24;

/// A change of the attribute that the driver is to make. With `follow` the
/// change is made to the file a symbolic link points to, without it to the
/// link itself.
#[derive(Debug)]
pub enum XattrCall {
    /// Set the attribute to `value`, creating or replacing it.
    Store { follow: bool, value: Vec<u8> },
    /// Remove the attribute.
    Remove { follow: bool },
}

/// What an `XattrCall` asks for, with the value as a sequence of bytes.
pub ghost enum XattrChange {
    Store { follow: bool, value: Seq<u8> },
    Remove { follow: bool },
}

impl View for XattrCall {
    type V = XattrChange;

    open spec fn view(&self) -> XattrChange {
        match self {
            XattrCall::Store { follow, value } => XattrChange::Store { follow: *follow, value: value@ },
            XattrCall::Remove { follow } => XattrChange::Remove { follow: *follow },
        }
    }
}

/// The change that makes `(uid, gid)` the shadow owner: the owner `(0, 0)`
/// removes the attribute, any other owner sets it to its record.
pub open spec fn change_for(follow: bool, uid: u32, gid: u32) -> XattrChange {
    if uid == 0 && gid == 0 {
        XattrChange::Remove { follow }
    } else {
        XattrChange::Store { follow, value: record(uid, gid) }
    }
}

/// The attribute of a file after `change` was made with success to a file
/// whose attribute was `before`; `None` is an absent attribute.
pub open spec fn attribute_after(change: XattrChange, before: Option<Seq<u8>>) -> Option<Seq<u8>> {
    match change {
        XattrChange::Store { value, .. } => Some(value),
        XattrChange::Remove { .. } => None,
    }
}

/// What a lookup with room for `LOOKUP_CAPACITY` bytes reports of a file
/// whose attribute is `attribute`: the value, `ENODATA` where the attribute
/// is absent, `ERANGE` where the value does not fit.
pub open spec fn lookup_of(attribute: Option<Seq<u8>>) -> Result<Seq<u8>, u16> {
    match attribute {
        None => Err(ENODATA),
        Some(value) => if value.len() <= LOOKUP_CAPACITY {
            Ok(value)
        } else {
            Err(ERANGE)
        },
    }
}

/// The shadow owner that the outcome `lookup` of a lookup stands for.
pub open spec fn owner_from(lookup: Result<Seq<u8>, u16>) -> Result<(u32, u32), SyscallErrno> {
    match lookup {
        Ok(value) => match owner_of(value) {
            Some(owner) => Ok(owner),
            None => Err(SyscallErrno::Anyhow(ENOTSUP, Cause::MalformedRecord)),
        },
        Err(errno) => if errno == ENODATA {
            Ok((0, 0))
        } else {
            Err(SyscallErrno::RustixError(errno))
        },
    }
}

/// The outcome of a lookup with the value as a sequence of bytes.
pub open spec fn lookup_view(lookup: Result<Vec<u8>, u16>) -> Result<Seq<u8>, u16> {
    match lookup {
        Ok(value) => Ok(value@),
        Err(errno) => Err(errno),
    }
}

/// Decides how to set the `XA_USER_ROOTLESSCONTAINERS` attribute of a file.
/// If the uid and gid are both equal to 0 the attribute is removed, and
/// nothing is written after that.
pub fn set_xa_user(follow: bool, uid: u32, gid: u32) -> (call: XattrCall)
    ensures
        call@ == change_for(follow, uid, gid),
{
    if uid == 0 && gid == 0 {
        XattrCall::Remove { follow }
    } else {
        XattrCall::Store { follow, value: encode(uid, gid) }
    }
}

/// Reads the shadow owner from the outcome of a lookup of the
/// `XA_USER_ROOTLESSCONTAINERS` attribute: the value that was found, or the
/// error number of the lookup. If the attribute is not set the uid and gid
/// returned are both 0. A value that is no record gives `ENOTSUP`; any other
/// error of the lookup is passed on.
pub fn get_xa_user(lookup: Result<Vec<u8>, u16>) -> (owner: Result<(u32, u32), SyscallErrno>)
    ensures
        owner == owner_from(lookup_view(lookup)),
{
    match lookup {
        Ok(value) => match parse(value.as_slice()) {
            Some(owner) => Ok(owner),
            None => Err(SyscallErrno::Anyhow(ENOTSUP, Cause::MalformedRecord)),
        },
        Err(errno) => if errno == ENODATA {
            Ok((0, 0))
        } else {
            Err(SyscallErrno::RustixError(errno))
        },
    }
}

/// Round trip: after any owner but `(0, 0)` was set with success, a lookup
/// reads that owner back, whatever the attribute was before.
pub proof fn lemma_set_then_get(follow: bool, uid: u32, gid: u32, before: Option<Seq<u8>>)
    requires
        !(uid == 0 && gid == 0),
    ensures
        owner_from(lookup_of(attribute_after(change_for(follow, uid, gid), before))) == Ok::<
            (u32, u32),
            SyscallErrno,
        >((uid, gid)),
{
    lemma_record_len(uid, gid);
    lemma_record_round_trip(uid, gid);
}

/// Zero canonicalization: after the owner `(0, 0)` was set with success the
/// attribute is absent, and a lookup reads the owner `(0, 0)`.
pub proof fn lemma_zero_owner_is_absent(follow: bool, before: Option<Seq<u8>>)
    ensures
        attribute_after(change_for(follow, 0, 0), before) is None,
        owner_from(lookup_of(attribute_after(change_for(follow, 0, 0), before))) == Ok::<
            (u32, u32),
            SyscallErrno,
        >((0, 0)),
{
}

/// Idempotence: setting the same owner twice leaves the attribute as
/// setting it once does.
pub proof fn lemma_set_twice(follow: bool, uid: u32, gid: u32, before: Option<Seq<u8>>)
    ensures
        attribute_after(
            change_for(follow, uid, gid),
            attribute_after(change_for(follow, uid, gid), before),
        ) == attribute_after(change_for(follow, uid, gid), before),
{
}

} // verus!
