//! Wire format of the ownership record kept in the extended attribute.
//!
//! A record is a sequence of fields. A field is a tag followed by a value,
//! both written as base-128 varints. The tag `8` carries the user id, the tag
//! `16` the group id. A field whose value is zero is left out when writing.
//! When reading, fields may come in any order and may repeat, the last one
//! wins, and a missing field reads as zero. Any other tag is rejected.
use vstd::prelude::*;

verus! {

/// Tag of the field that holds the user id.
pub const TAG_UID: u8 = 8;

/// Tag of the field that holds the group id.
pub const TAG_GID: u8 = 16;

/// Largest number of bytes in a record written by `encode`.
pub const MAX_RECORD_LEN: usize = 12;

/// The varint of `value`: seven bits per byte, least significant group
/// first, the high bit set on every byte but the last.
pub open spec fn varint(value: nat) -> Seq<u8>
    decreases value,
{
    if value < 128 {
        seq![value as u8]
    } else {
        seq![(value % 128 + 128) as u8] + varint(value / 128)
    }
}

/// Reads the rest of a varint whose byte number `depth` is `bytes[depth]`.
/// Gives the value of these bytes, in units of `128^depth`, and the length
/// of the whole varint. The fifth byte may hold four bits at most, so that
/// the value fits 32 bits; `None` where the bytes end early or hold more.
pub open spec fn varint_tail(bytes: Seq<u8>, depth: nat) -> Option<(nat, nat)>
    decreases 5 - depth,
{
    if depth >= bytes.len() || depth > 4 {
        None
    } else if depth == 4 {
        if bytes[4] <= 0x0f {
            Some((bytes[4] as nat, 5nat))
        } else {
            None
        }
    } else if bytes[depth as int] < 0x80 {
        Some((bytes[depth as int] as nat, depth + 1))
    } else {
        match varint_tail(bytes, depth + 1) {
            Some((high, len)) => Some(((bytes[depth as int] - 128 + 128 * high) as nat, len)),
            None => None,
        }
    }
}

/// The 32-bit value of the varint at the start of `bytes`, with the number
/// of bytes it takes.
pub open spec fn read_varint(bytes: Seq<u8>) -> Option<(nat, nat)> {
    varint_tail(bytes, 0)
}

/// The values that a varint of five bytes at most can hold from byte number
/// `depth` on: all below this bound.
pub open spec fn tail_bound(depth: nat) -> nat {
    if depth == 0 {
        0x1_0000_0000
    } else if depth == 1 {
        0x200_0000
    } else if depth == 2 {
        0x4_0000
    } else if depth == 3 {
        0x800
    } else if depth == 4 {
        0x10
    } else {
        0
    }
}

/// A varint of a value below `tail_bound(depth)` has `5 - depth` bytes at
/// most, and at least one.
pub proof fn lemma_varint_len(value: nat, depth: nat)
    requires
        depth <= 4,
        value < tail_bound(depth),
    ensures
        1 <= varint(value).len() <= 5 - depth,
    decreases value,
{
    if value >= 128 {
        lemma_varint_len(value / 128, depth + 1);
    }
}

/// Whatever is read from a varint is below the bound of its depth, and its
/// length lies behind the depth and within five bytes.
pub proof fn lemma_varint_tail_bounds(bytes: Seq<u8>, depth: nat)
    requires
        varint_tail(bytes, depth) is Some,
    ensures
        varint_tail(bytes, depth).unwrap().0 < tail_bound(depth),
        depth < varint_tail(bytes, depth).unwrap().1 <= 5,
        varint_tail(bytes, depth).unwrap().1 <= bytes.len(),
    decreases 5 - depth,
{
    if depth < 4 && bytes[depth as int] >= 0x80 {
        lemma_varint_tail_bounds(bytes, depth + 1);
    }
}

/// Reading gives back what was written: where `bytes` holds the varint of
/// `value` from byte number `depth` on, reading from there gives `value` and
/// ends behind that varint.
pub proof fn lemma_varint_tail_of_varint(bytes: Seq<u8>, depth: nat, value: nat)
    requires
        depth <= 4,
        value < tail_bound(depth),
        depth + varint(value).len() <= bytes.len(),
        bytes.subrange(depth as int, depth + varint(value).len() as int) == varint(value),
    ensures
        varint_tail(bytes, depth) == Some((value, depth + varint(value).len())),
    decreases value,
{
    let written = varint(value);
    let start = depth as int;
    let end = start + written.len();
    assert(bytes[start] == bytes.subrange(start, end)[0]);
    if value >= 128 {
        let rest = varint(value / 128);
        assert(written.len() == 1 + rest.len());
        assert(bytes.subrange(start + 1, end) == rest) by {
            assert forall|i: int| 0 <= i < rest.len() implies bytes[start + 1 + i] == rest[i] by {
                assert(bytes[start + 1 + i] == bytes.subrange(start, end)[1 + i]);
                assert(written[1 + i] == rest[i]);
            }
        }
        lemma_varint_tail_of_varint(bytes, depth + 1, value / 128);
    }
}

/// Appends the varint of `value` to `out`.
pub fn write_varint(out: &mut Vec<u8>, value: u32)
    ensures
        final(out)@ == old(out)@ + varint(value as nat),
{
    let mut rest: u32 = value;
    while rest >= 128
        invariant
            out@ + varint(rest as nat) == old(out)@ + varint(value as nat),
        decreases rest,
    {
        let ghost before = out@;
        out.push((rest % 128 + 128) as u8);
        proof {
            assert(before + varint(rest as nat) == out@ + varint((rest / 128) as nat)) by {
                assert(before + (seq![(rest % 128 + 128) as u8] + varint((rest / 128) as nat))
                    =~= before.push((rest % 128 + 128) as u8) + varint((rest / 128) as nat));
            }
        }
        rest = rest / 128;
    }
    let ghost before = out@;
    out.push(rest as u8);
    proof {
        assert(before + varint(rest as nat) =~= out@);
    }
}

/// The varint that starts at `bytes[pos]`: its value and the position
/// behind it, or `None` where no varint of a 32-bit value stands there or
/// `pos` lies behind the end of `bytes`.
pub open spec fn varint_at(bytes: Seq<u8>, pos: int) -> Option<(nat, int)> {
    if 0 <= pos <= bytes.len() {
        match read_varint(bytes.skip(pos)) {
            Some((value, len)) => Some((value, pos + len)),
            None => None,
        }
    } else {
        None
    }
}

/// Reads the varint that starts at `bytes[pos]`. Gives its value and the
/// position behind it, or `None` where no varint of a 32-bit value stands
/// there.
pub fn take_varint(bytes: &[u8], pos: usize) -> (res: Option<(u32, usize)>)
    ensures
        match varint_at(bytes@, pos as int) {
            Some((value, behind)) => res matches Some((read, next)) && read == value && next
                == behind,
            None => res is None,
        },
        res matches Some((_, next)) ==> pos < next <= bytes@.len(),
{
    if pos > bytes.len() {
        return None;
    }
    let ghost tail = bytes@.skip(pos as int);
    let mut depth: usize = 0;
    let mut low: u32 = 0;
    let mut unit: u32 = 1;
    while depth < 4
        invariant
            pos <= bytes@.len(),
            tail == bytes@.skip(pos as int),
            depth <= 4,
            unit == tail_unit(depth as nat),
            low < unit,
            match varint_tail(tail, depth as nat) {
                Some((high, len)) => read_varint(tail) == Some(((low + unit * high) as nat, len)),
                None => read_varint(tail) is None,
            },
        decreases 4 - depth,
    {
        if depth >= bytes.len() - pos {
            return None;
        }
        let byte = bytes[pos + depth];
        assert(byte == tail[depth as int]);
        if byte < 0x80 {
            proof {
                lemma_varint_tail_bounds(tail, depth as nat);
                lemma_unit_times_bound(depth as nat, byte as nat);
            }
            return Some((low + unit * (byte as u32), pos + depth + 1));
        }
        proof {
            lemma_unit_step(
                depth as nat,
                low as nat,
                (byte - 128) as nat,
                varint_tail(tail, (depth + 1) as nat),
            );
        }
        low = low + unit * ((byte - 128) as u32);
        unit = unit * 128;
        depth = depth + 1;
    }
    if depth >= bytes.len() - pos {
        return None;
    }
    let byte = bytes[pos + depth];
    assert(byte == tail[4]);
    if byte > 0x0f {
        return None;
    }
    proof {
        lemma_unit_times_bound(4, byte as nat);
    }
    Some((low + unit * (byte as u32), pos + 5))
}

/// The weight of byte number `depth` in a varint: `128^depth`.
pub open spec fn tail_unit(depth: nat) -> nat {
    if depth == 0 {
        1
    } else if depth == 1 {
        0x80
    } else if depth == 2 {
        0x4000
    } else if depth == 3 {
        0x20_0000
    } else {
        0x1000_0000
    }
}

proof fn lemma_unit_times_bound(depth: nat, digit: nat)
    requires
        depth <= 4,
        digit < tail_bound(depth),
        digit < 128,
    ensures
        tail_unit(depth) * digit + tail_unit(depth) <= 0x1_0000_0000,
{
    assert(tail_unit(depth) * digit + tail_unit(depth) <= 0x1_0000_0000) by (nonlinear_arith)
        requires
            depth <= 4,
            digit < 128,
            depth == 4 ==> digit < 16,
            tail_unit(depth) == 1 || tail_unit(depth) == 0x80 || tail_unit(depth) == 0x4000
                || tail_unit(depth) == 0x20_0000 || (tail_unit(depth) == 0x1000_0000 && depth
                == 4),
    ;
}

proof fn lemma_unit_step(depth: nat, low: nat, digit: nat, rest: Option<(nat, nat)>)
    requires
        depth < 4,
        low < tail_unit(depth),
        digit < 128,
    ensures
        tail_unit(depth + 1) == tail_unit(depth) * 128,
        low + tail_unit(depth) * digit < tail_unit(depth + 1),
        low + tail_unit(depth) * digit <= u32::MAX,
        rest matches Some((high, _)) ==> low + tail_unit(depth) * (digit + 128 * high) == low
            + tail_unit(depth) * digit + tail_unit(depth + 1) * high,
{
    let unit = tail_unit(depth);
    assert(unit * digit <= unit * 127) by (nonlinear_arith)
        requires
            digit <= 127,
            unit >= 0,
    ;
    if let Some((high, _)) = rest {
        assert(unit * (digit + 128 * high) == unit * digit + (unit * 128) * high)
            by (nonlinear_arith);
    }
}


/// The bytes of one field: nothing where `value` is zero, else the tag and
/// the varint of the value.
pub open spec fn field(tag: u8, value: u32) -> Seq<u8> {
    if value == 0 {
        Seq::empty()
    } else {
        seq![tag] + varint(value as nat)
    }
}

/// The record that stands for the owner `(uid, gid)`.
pub open spec fn record(uid: u32, gid: u32) -> Seq<u8> {
    field(TAG_UID, uid) + field(TAG_GID, gid)
}

/// The owner that the fields in `bytes` give to a file whose owner was
/// `owner` before them, or `None` where `bytes` is no sequence of fields.
pub open spec fn owner_after(bytes: Seq<u8>, owner: (u32, u32)) -> Option<(u32, u32)>
    decreases bytes.len(),
{
    if bytes.len() == 0 {
        Some(owner)
    } else {
        match read_varint(bytes) {
            None => None,
            Some((tag, tag_len)) => if tag != TAG_UID && tag != TAG_GID {
                None
            } else {
                match read_varint(bytes.skip(tag_len as int)) {
                    None => None,
                    Some((value, value_len)) => {
                        let next = if tag == TAG_UID {
                            (value as u32, owner.1)
                        } else {
                            (owner.0, value as u32)
                        };
                        if 0 < tag_len + value_len <= bytes.len() {
                            owner_after(bytes.skip((tag_len + value_len) as int), next)
                        } else {
                            None
                        }
                    },
                }
            },
        }
    }
}

/// The owner that the record `bytes` stands for.
pub open spec fn owner_of(bytes: Seq<u8>) -> Option<(u32, u32)> {
    owner_after(bytes, (0, 0))
}

/// Writes the record of the owner `(uid, gid)`.
pub fn encode(uid: u32, gid: u32) -> (bytes: Vec<u8>)
    ensures
        bytes@ == record(uid, gid),
        bytes@.len() <= MAX_RECORD_LEN,
{
    let mut bytes: Vec<u8> = Vec::new();
    if uid != 0 {
        bytes.push(TAG_UID);
        write_varint(&mut bytes, uid);
    }
    assert(bytes@ =~= field(TAG_UID, uid));
    let ghost first = bytes@;
    if gid != 0 {
        bytes.push(TAG_GID);
        write_varint(&mut bytes, gid);
    }
    proof {
        assert(bytes@ =~= first + field(TAG_GID, gid));
        lemma_record_len(uid, gid);
    }
    bytes
}

/// Reads the owner that the record `bytes` stands for, or `None` where
/// `bytes` is no record.
pub fn parse(bytes: &[u8]) -> (owner: Option<(u32, u32)>)
    ensures
        owner == owner_of(bytes@),
{
    let mut pos: usize = 0;
    let mut uid: u32 = 0;
    let mut gid: u32 = 0;
    assert(bytes@.skip(0) =~= bytes@);
    while pos < bytes.len()
        invariant
            pos <= bytes@.len(),
            owner_after(bytes@.skip(pos as int), (uid, gid)) == owner_of(bytes@),
        decreases bytes@.len() - pos,
    {
        let ghost rest = bytes@.skip(pos as int);
        let (tag, value_pos) = match take_varint(bytes, pos) {
            Some(read) => read,
            None => {
                return None;
            },
        };
        if tag != TAG_UID as u32 && tag != TAG_GID as u32 {
            return None;
        }
        assert(rest.skip(value_pos - pos) =~= bytes@.skip(value_pos as int));
        let (value, next_pos) = match take_varint(bytes, value_pos) {
            Some(read) => read,
            None => {
                return None;
            },
        };
        assert(rest.skip(next_pos - pos) =~= bytes@.skip(next_pos as int));
        if tag == TAG_UID as u32 {
            uid = value;
        } else {
            gid = value;
        }
        pos = next_pos;
    }
    assert(bytes@.skip(pos as int).len() == 0);
    Some((uid, gid))
}

/// A record written by `encode` has `MAX_RECORD_LEN` bytes at most.
pub proof fn lemma_record_len(uid: u32, gid: u32)
    ensures
        record(uid, gid).len() <= MAX_RECORD_LEN,
{
    lemma_varint_len(uid as nat, 0);
    lemma_varint_len(gid as nat, 0);
}

/// A field that was written reads back: bytes that start with the field of
/// a value other than zero give that value to the user id or to the group id,
/// by the tag, and go on with what follows the field.
pub proof fn lemma_owner_after_field(tag: u8, value: u32, rest: Seq<u8>, owner: (u32, u32))
    requires
        tag == TAG_UID || tag == TAG_GID,
        value != 0,
    ensures
        owner_after(field(tag, value) + rest, owner) == owner_after(
            rest,
            if tag == TAG_UID {
                (value, owner.1)
            } else {
                (owner.0, value)
            },
        ),
{
    let written = varint(value as nat);
    let bytes = field(tag, value) + rest;
    lemma_varint_len(value as nat, 0);
    assert(bytes[0] == tag);
    assert(read_varint(bytes) == Some((tag as nat, 1nat)));
    let tail = bytes.skip(1);
    assert(tail.subrange(0, written.len() as int) =~= written);
    lemma_varint_tail_of_varint(tail, 0, value as nat);
    assert(bytes.skip((1 + written.len()) as int) =~= rest);
}

/// Reading a record gives back the owner it was written for.
pub proof fn lemma_record_round_trip(uid: u32, gid: u32)
    ensures
        owner_of(record(uid, gid)) == Some((uid, gid)),
{
    let empty = Seq::<u8>::empty();
    assert(owner_after(empty, (uid, gid)) == Some((uid, gid)));
    assert(field(TAG_GID, gid) + empty =~= field(TAG_GID, gid));
    if gid != 0 {
        lemma_owner_after_field(TAG_GID, gid, empty, (uid, 0));
    }
    assert(owner_after(field(TAG_GID, gid), (uid, 0)) == Some((uid, gid)));
    if uid != 0 {
        lemma_owner_after_field(TAG_UID, uid, field(TAG_GID, gid), (0, 0));
    } else {
        assert(record(uid, gid) =~= field(TAG_GID, gid));
    }
}


} // verus!
