use vstd::prelude::*;
use vstd::utf8::encode_utf8;
use crate::bytes::{
    le16_at, le32_at, padded, push_padded, push_u16_le, push_u32_le, push_u64_le, read_u16_le,
    read_u32_le, table_check, u16_bytes, u32_bytes, u64_bytes,
};
use crate::error::ZKError;
use crate::session::Session;
use crate::text::{decimal_chars, decimal_text, parse_u32, parse_u32_spec, read_text_field, text_field};

verus! {

/// Width of a user record in the short layout that this library decodes.
pub const USER_RECORD_SIZE: usize = 28;

/// A user enrolled on the device.
#[derive(Clone, Debug)]
pub struct User {
    /// Device-internal slot index.
    pub uid: u16,
    pub name: String,
    pub privilege: u16,
    pub password: String,
    pub group_id: String,
    /// The caller-facing identifier.
    pub user_id: u32,
    pub card: u64,
}

/// The group number written in the short layout: the group id read as a decimal number,
/// zero where it is not one.
pub open spec fn group_number(g: Seq<char>) -> u32 {
    match parse_u32_spec(g) {
        Some(n) => n,
        None => 0,
    }
}

/// The password field of the long layout: up to six bytes, a zero, the marker `0x77`, then
/// zeros, eight bytes in all.
pub open spec fn password_field73(b: Seq<u8>) -> Seq<u8> {
    let k = if b.len() < 6 { b.len() as int } else { 6 };
    Seq::new(8, |i: int| if i < k { b[i] } else if i == k + 1 { 0x77u8 } else { 0u8 })
}

/// The short-form encoding of a user.
pub open spec fn repack29_bytes(u: User) -> Seq<u8> {
    seq![2u8] + u16_bytes(u.uid) + u16_bytes(u.privilege) + padded(encode_utf8(u.password@), 5)
        + padded(encode_utf8(u.name@), 8) + u64_bytes(u.card) + u32_bytes(group_number(u.group_id@))
        + seq![0u8] + u32_bytes(u.user_id)
}

/// The long-form encoding of a user.
pub open spec fn repack73_bytes(u: User) -> Seq<u8> {
    seq![2u8] + u16_bytes(u.uid) + u16_bytes(u.privilege) + password_field73(encode_utf8(u.password@))
        + padded(encode_utf8(u.name@), 24) + u64_bytes(u.card) + seq![1u8]
        + padded(encode_utf8(u.group_id@), 7) + seq![0u8]
        + padded(encode_utf8(decimal_chars(u.user_id as nat)), 24)
}

/// `u` is what the 28-byte record `rec` describes.
pub open spec fn user_from_record(u: User, rec: Seq<u8>) -> bool {
    &&& u.uid == le16_at(rec, 0)
    &&& u.privilege == rec[2]
    &&& u.password@ == text_field(rec.subrange(3, 8))
    &&& u.name@ == text_field(rec.subrange(8, 16))
    &&& u.card == le32_at(rec, 16)
    &&& u.group_id@ == decimal_chars(rec[20] as nat)
    &&& u.user_id == le32_at(rec, 24)
}

impl User {
    pub fn new(
        uid: u16,
        name: String,
        privilege: u16,
        password: String,
        group_id: String,
        user_id: u32,
        card: u64,
    ) -> (r: Self)
        ensures
            r.uid == uid,
            r.name == name,
            r.privilege == privilege,
            r.password == password,
            r.group_id == group_id,
            r.user_id == user_id,
            r.card == card,
    {
        User { uid, name, privilege, password, group_id, user_id, card }
    }

    /// Short-form encoding; oversized text fields are cut to their width.
    pub fn repack29(&self) -> (r: Vec<u8>)
        ensures
            r@ == repack29_bytes(*self),
    {
        let mut buf: Vec<u8> = Vec::new();
        buf.push(2u8);
        push_u16_le(&mut buf, self.uid);
        push_u16_le(&mut buf, self.privilege);
        push_padded(&mut buf, self.password.as_str().as_bytes(), 5);
        push_padded(&mut buf, self.name.as_str().as_bytes(), 8);
        push_u64_le(&mut buf, self.card);
        let group = match parse_u32(self.group_id.as_str()) {
            Some(n) => n,
            None => 0,
        };
        push_u32_le(&mut buf, group);
        buf.push(0u8);
        push_u32_le(&mut buf, self.user_id);
        assert(buf@ =~= repack29_bytes(*self));
        buf
    }

    /// Long-form encoding; oversized text fields are cut to their width.
    pub fn repack73(&self) -> (r: Vec<u8>)
        ensures
            r@ == repack73_bytes(*self),
    {
        let mut buf: Vec<u8> = Vec::new();
        buf.push(2u8);
        push_u16_le(&mut buf, self.uid);
        push_u16_le(&mut buf, self.privilege);
        let pw = self.password.as_str().as_bytes();
        let k: usize = if pw.len() < 6 {
            pw.len()
        } else {
            6
        };
        let ghost before = buf@;
        let mut i: usize = 0;
        while i < 8
            invariant
                i <= 8,
                k <= 6,
                k <= pw@.len(),
                k == (if pw@.len() < 6 { pw@.len() as int } else { 6 }),
                buf@ == before + password_field73(pw@).subrange(0, i as int),
            decreases 8 - i,
        {
            if i < k {
                buf.push(pw[i]);
            } else if i == k + 1 {
                buf.push(0x77u8);
            } else {
                buf.push(0u8);
            }
            i = i + 1;
            assert(buf@ =~= before + password_field73(pw@).subrange(0, i as int));
        }
        assert(password_field73(pw@).subrange(0, 8) =~= password_field73(pw@));
        push_padded(&mut buf, self.name.as_str().as_bytes(), 24);
        push_u64_le(&mut buf, self.card);
        buf.push(1u8);
        push_padded(&mut buf, self.group_id.as_str().as_bytes(), 7);
        buf.push(0u8);
        let id_text = decimal_text(self.user_id);
        push_padded(&mut buf, id_text.as_str().as_bytes(), 24);
        assert(buf@ =~= repack73_bytes(*self));
        buf
    }

    pub fn is_disabled(&self) -> (r: bool)
        ensures
            r == (self.privilege % 2 == 1),
    {
        let p = self.privilege;
        assert((p & 1 != 0) == (p % 2 == 1)) by (bit_vector);
        (p & 1) != 0
    }

    pub fn is_enabled(&self) -> (r: bool)
        ensures
            r == (self.privilege % 2 == 0),
    {
        !self.is_disabled()
    }

    /// The role bits of the privilege field.
    pub fn usertype(&self) -> (r: u16)
        ensures
            r == self.privilege & 0xE,
    {
        self.privilege & 0xE
    }
}

/// Decodes the 28-byte user record at `at`.
pub fn decode_user(b: &[u8], at: usize) -> (r: User)
    requires
        at + 28 <= b@.len(),
        b@.len() <= usize::MAX,
    ensures
        user_from_record(r, b@.subrange(at as int, at + 28)),
{
    let ghost rec = b@.subrange(at as int, at + 28);
    let uid = read_u16_le(b, at);
    let privilege = b[at + 2] as u16;
    let password = read_text_field(b, at + 3, at + 8);
    let name = read_text_field(b, at + 8, at + 16);
    let card = read_u32_le(b, at + 16) as u64;
    let group_id = decimal_text(b[at + 20] as u32);
    let user_id = read_u32_le(b, at + 24);
    assert(rec.subrange(3, 8) =~= b@.subrange(at + 3, at + 8));
    assert(rec.subrange(8, 16) =~= b@.subrange(at + 8, at + 16));
    User::new(uid, name, privilege, password, group_id, user_id, card)
}

impl Session {
    /// Decodes the user table that a buffered transfer brought: a 4-byte size, then the
    /// records. The width is the size divided by the device's user count, and is kept as
    /// `user_packet_size` once it divides evenly. The checks are those of `table_check`.
    pub fn decode_users(&mut self, data: &[u8]) -> (r: Result<Vec<User>, ZKError>)
        ensures
            final(self).session_id == old(self).session_id,
            final(self).reply_id == old(self).reply_id,
            final(self).is_connect == old(self).is_connect,
            final(self).users == old(self).users,
            final(self).records == old(self).records,
            old(self).users == 0 ==> (r matches Ok(v) && v@.len() == 0)
                && final(self).user_packet_size == old(self).user_packet_size,
            old(self).users > 0 && table_check(data@, old(self).users as int, 28) is Err ==> r
                == Err::<Vec<User>, ZKError>(table_check(data@, old(self).users as int, 28)->Err_0),
            old(self).users > 0 && table_check(data@, old(self).users as int, 28) is Ok ==> (
            r matches Ok(v) && v@.len() == old(self).users && forall|k: int|
                0 <= k < old(self).users ==> user_from_record(
                    #[trigger] v@[k],
                    data@.subrange(4 + 28 * k, 4 + 28 * k + 28),
                )),
            old(self).users > 0 && data@.len() >= 4 && le32_at(data@, 0) % (old(self).users as int)
                == 0 ==> final(self).user_packet_size == le32_at(data@, 0) / (old(self).users as int),
            !(old(self).users > 0 && data@.len() >= 4 && le32_at(data@, 0) % (
            old(self).users as int) == 0) ==> final(self).user_packet_size
                == old(self).user_packet_size,
    {
        if self.users == 0 {
            return Ok(Vec::new());
        }
        if data.len() < 4 {
            return Err(ZKError::ResponseError);
        }
        let total = read_u32_le(data, 0) as usize;
        if total % self.users != 0 {
            return Err(ZKError::ResponseError);
        }
        self.user_packet_size = total / self.users;
        if self.user_packet_size != USER_RECORD_SIZE {
            return Err(ZKError::UnsupportedRecordSize);
        }
        if data.len() - 4 != total {
            return Err(ZKError::ResponseError);
        }
        let n = self.users;
        assert(n * 28 == total) by (nonlinear_arith)
            requires total % n == 0, total / n == 28, n > 0;
        let mut users: Vec<User> = Vec::new();
        let dlen = data.len();
        let mut k: usize = 0;
        while k < n
            invariant
                k <= n,
                dlen == data@.len(),
                n * 28 == total,
                total <= data@.len() - 4,
                users@.len() == k,
                forall|j: int|
                    0 <= j < k ==> user_from_record(
                        #[trigger] users@[j],
                        data@.subrange(4 + 28 * j, 4 + 28 * j + 28),
                    ),
            decreases n - k,
        {
            assert(4 + 28 * k + 28 <= data@.len()) by (nonlinear_arith)
                requires k < n, n * 28 == total, total <= data@.len() - 4;
            let u = decode_user(data, 4 + 28 * k);
            users.push(u);
            k = k + 1;
        }
        Ok(users)
    }
}

} // verus!
