use vstd::prelude::*;
use crate::bytes::{le16_at, le32_at, read_u16_le, read_u32_le, table_check};
use crate::error::ZKError;
use crate::time::{decode_time, unpack_time, DeviceTime};
use crate::user::User;

verus! {

/// Width of an attendance record in the layout that this library decodes.
pub const ATTENDANCE_RECORD_SIZE: usize = 8;

/// One entry of the device's attendance log.
#[derive(Clone, Copy, Debug, PartialEq, Eq, Structural)]
pub struct Attendance {
    pub uid: u32,
    /// The identifier shown for the entry: the user's `user_id`, or the uid itself.
    pub user_id: u32,
    pub timestamp: DeviceTime,
    /// Verify-method code.
    pub status: u8,
    pub punch: i32,
}

impl Attendance {
    pub fn new(user_id: u32, timestamp: DeviceTime, status: u8, punch: i32, uid: u32) -> (r: Self)
        ensures
            r == (Attendance { uid, user_id, timestamp, status, punch }),
    {
        Attendance { uid, user_id, timestamp, status, punch }
    }
}

/// The `user_id` of the first user in `users` whose slot is `uid`, or `uid` itself where
/// there is none.
pub open spec fn resolve_user_id(users: Seq<User>, uid: u16) -> u32
    decreases users.len(),
{
    if users.len() == 0 {
        uid as u32
    } else if users[0].uid == uid {
        users[0].user_id
    } else {
        resolve_user_id(users.drop_first(), uid)
    }
}

/// The entry that the 8-byte record `rec` describes, against the user table `users`.
pub open spec fn attendance_from_record(rec: Seq<u8>, users: Seq<User>) -> Attendance {
    let uid = le16_at(rec, 0) as u16;
    Attendance {
        uid: uid as u32,
        user_id: resolve_user_id(users, uid),
        timestamp: unpack_time(le32_at(rec, 3) as u32),
        status: rec[2],
        punch: rec[7] as i32,
    }
}

/// Where the users with slot `uid` all have `user_id == id`, and there is one, the entry
/// of a record for that slot shows `id`.
pub proof fn lemma_record_resolves_user(rec: Seq<u8>, users: Seq<User>, id: u32)
    requires
        rec.len() == ATTENDANCE_RECORD_SIZE,
        exists|k: int| 0 <= k < users.len() && #[trigger] users[k].uid == le16_at(rec, 0) as u16,
        forall|k: int|
            0 <= k < users.len() && #[trigger] users[k].uid == le16_at(rec, 0) as u16
                ==> users[k].user_id == id,
    ensures
        attendance_from_record(rec, users) == (Attendance {
            uid: le16_at(rec, 0) as u16 as u32,
            user_id: id,
            timestamp: unpack_time(le32_at(rec, 3) as u32),
            status: rec[2],
            punch: rec[7] as i32,
        }),
{
    lemma_resolve_known(users, le16_at(rec, 0) as u16, id);
}

/// Where no user has slot `uid`, the entry of a record for that slot shows the slot number
/// itself.
pub proof fn lemma_record_falls_back_to_uid(rec: Seq<u8>, users: Seq<User>)
    requires
        rec.len() == ATTENDANCE_RECORD_SIZE,
        forall|k: int| 0 <= k < users.len() ==> #[trigger] users[k].uid != le16_at(rec, 0) as u16,
    ensures
        attendance_from_record(rec, users).user_id == le16_at(rec, 0) as u16 as u32,
{
    lemma_resolve_unknown(users, le16_at(rec, 0) as u16);
}

proof fn lemma_resolve_known(users: Seq<User>, uid: u16, id: u32)
    requires
        exists|k: int| 0 <= k < users.len() && #[trigger] users[k].uid == uid,
        forall|k: int| 0 <= k < users.len() && #[trigger] users[k].uid == uid ==> users[k].user_id == id,
    ensures
        resolve_user_id(users, uid) == id,
    decreases users.len(),
{
    if users[0].uid != uid {
        let rest = users.drop_first();
        let k = choose|k: int| 0 <= k < users.len() && #[trigger] users[k].uid == uid;
        assert(rest[k - 1].uid == uid);
        assert forall|j: int| 0 <= j < rest.len() && #[trigger] rest[j].uid == uid implies rest[j].user_id == id by {
            assert(users[j + 1].uid == uid);
        }
        lemma_resolve_known(rest, uid, id);
    }
}

proof fn lemma_resolve_unknown(users: Seq<User>, uid: u16)
    requires
        forall|k: int| 0 <= k < users.len() ==> #[trigger] users[k].uid != uid,
    ensures
        resolve_user_id(users, uid) == uid as u32,
    decreases users.len(),
{
    if users.len() > 0 {
        let rest = users.drop_first();
        assert forall|j: int| 0 <= j < rest.len() implies #[trigger] rest[j].uid != uid by {
            assert(users[j + 1].uid != uid);
        }
        lemma_resolve_unknown(rest, uid);
    }
}

/// An attendance table whose size is 24 bytes per record is refused as an unknown layout,
/// whatever its bytes.
pub proof fn lemma_width_24_unsupported(data: Seq<u8>, records: int)
    requires
        records > 0,
        data.len() >= 4,
        le32_at(data, 0) == 24 * records,
    ensures
        table_check(data, records, ATTENDANCE_RECORD_SIZE as int) == Err::<(), ZKError>(
            ZKError::UnsupportedRecordSize,
        ),
{
    let total = le32_at(data, 0);
    assert(total % records == 0 && total / records == 24) by (nonlinear_arith)
        requires total == 24 * records, records > 0;
}

/// Finds the `user_id` shown for slot `uid`.
pub fn find_user_id(users: &[User], uid: u16) -> (r: u32)
    ensures
        r == resolve_user_id(users@, uid),
{
    let mut k: usize = 0;
    assert(users@.subrange(0, users@.len() as int) =~= users@);
    while k < users.len()
        invariant
            k <= users@.len(),
            resolve_user_id(users@.subrange(k as int, users@.len() as int), uid)
                == resolve_user_id(users@, uid),
        decreases users@.len() - k,
    {
        let ghost rest = users@.subrange(k as int, users@.len() as int);
        if users[k].uid == uid {
            return users[k].user_id;
        }
        assert(rest.drop_first() =~= users@.subrange(k + 1, users@.len() as int));
        k = k + 1;
    }
    assert(users@.subrange(k as int, users@.len() as int) =~= Seq::<User>::empty());
    uid as u32
}

/// Decodes the attendance log that a buffered transfer brought: a 4-byte size, then the
/// records. The width is the size divided by the device's record count; only 8 bytes is a
/// known layout. The checks are those of `table_check`.
pub fn decode_attendance(data: &[u8], records: usize, users: &[User]) -> (r: Result<
    Vec<Attendance>,
    ZKError,
>)
    ensures
        records == 0 ==> (r matches Ok(v) && v@.len() == 0),
        records > 0 && table_check(data@, records as int, 8) is Err ==> r == Err::<
            Vec<Attendance>,
            ZKError,
        >(table_check(data@, records as int, 8)->Err_0),
        records > 0 && table_check(data@, records as int, 8) is Ok ==> (r matches Ok(v) && v@.len()
            == records && forall|k: int|
            0 <= k < records ==> #[trigger] v@[k] == attendance_from_record(
                data@.subrange(4 + 8 * k, 4 + 8 * k + 8),
                users@,
            )),
{
    if records == 0 {
        return Ok(Vec::new());
    }
    if data.len() < 4 {
        return Err(ZKError::ResponseError);
    }
    let total = read_u32_le(data, 0) as usize;
    if total % records != 0 {
        return Err(ZKError::ResponseError);
    }
    if total / records != ATTENDANCE_RECORD_SIZE {
        return Err(ZKError::UnsupportedRecordSize);
    }
    if data.len() - 4 != total {
        return Err(ZKError::ResponseError);
    }
    assert(records * 8 == total) by (nonlinear_arith)
        requires total % records == 0, total / records == 8, records > 0;
    let dlen = data.len();
    let mut out: Vec<Attendance> = Vec::new();
    let mut k: usize = 0;
    while k < records
        invariant
            k <= records,
            records * 8 == total,
            total <= data@.len() - 4,
            dlen == data@.len(),
            out@.len() == k,
            forall|j: int|
                0 <= j < k ==> #[trigger] out@[j] == attendance_from_record(
                    data@.subrange(4 + 8 * j, 4 + 8 * j + 8),
                    users@,
                ),
        decreases records - k,
    {
        let at = 4 + 8 * k;
        let ghost rec = data@.subrange(at as int, at + 8);
        let uid = read_u16_le(data, at);
        let status = data[at + 2];
        let timestamp = decode_time(read_u32_le(data, at + 3));
        let punch = data[at + 7] as i32;
        let user_id = find_user_id(users, uid);
        out.push(Attendance::new(user_id, timestamp, status, punch, uid as u32));
        assert(out@[k as int] == attendance_from_record(rec, users@));
        k = k + 1;
    }
    Ok(out)
}

} // verus!
