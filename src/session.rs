use vstd::prelude::*;
use crate::bytes::{le32_signed_at, push_all, push_u16_le, read_i32_le, u16_bytes};
use crate::consts::HEADER_SIZE;
use crate::error::ZKError;
use crate::frame::{checksum_of, create_checksum, status_ok, Response};

verus! {

/// The reply id that follows `r`: one more, wrapping to zero past `0xFFFE`.
pub open spec fn next_reply_id(r: u16) -> u16 {
    if r >= 0xFFFE {
        0
    } else {
        (r + 1) as u16
    }
}

/// The header with a zero placeholder for the checksum, followed by the payload.
pub open spec fn unsealed_frame(command: u16, session_id: u16, reply_id: u16, payload: Seq<u8>) -> Seq<u8> {
    u16_bytes(command) + seq![0u8, 0u8] + u16_bytes(session_id) + u16_bytes(reply_id) + payload
}

/// A complete frame: header with its checksum, then the payload.
pub open spec fn frame_bytes(command: u16, session_id: u16, reply_id: u16, payload: Seq<u8>) -> Seq<u8> {
    let cs = checksum_of(unsealed_frame(command, session_id, reply_id, payload)) as u16;
    u16_bytes(command) + u16_bytes(cs) + u16_bytes(session_id) + u16_bytes(reply_id) + payload
}

/// The protocol state of one client session with a device.
#[derive(Debug)]
pub struct Session {
    pub session_id: u16,
    pub reply_id: u16,
    pub is_connect: bool,
    pub user_packet_size: usize,
    pub users: usize,
    pub records: usize,
}

impl Session {
    /// The reply id stays within `0..=0xFFFE`.
    pub open spec fn wf(&self) -> bool {
        self.reply_id <= 0xFFFE
    }

    /// A session before the device has assigned it an id.
    pub fn new() -> (r: Session)
        ensures
            r.wf(),
            r.session_id == 0,
            r.reply_id == 0xFFFE,
            !r.is_connect,
            r.user_packet_size == 28,
            r.users == 0,
            r.records == 0,
    {
        Session {
            session_id: 0,
            reply_id: 0xFFFE,
            is_connect: false,
            user_packet_size: 28,
            users: 0,
            records: 0,
        }
    }

    /// Builds the frame for `command` with `payload` and advances the reply id.
    pub fn create_header(&mut self, command: u16, payload: &[u8]) -> (r: Vec<u8>)
        requires
            payload@.len() + HEADER_SIZE <= usize::MAX,
        ensures
            r@ == frame_bytes(command, old(self).session_id, old(self).reply_id, payload@),
            final(self).reply_id == next_reply_id(old(self).reply_id),
            final(self).wf(),
            final(self).session_id == old(self).session_id,
            final(self).is_connect == old(self).is_connect,
            final(self).user_packet_size == old(self).user_packet_size,
            final(self).users == old(self).users,
            final(self).records == old(self).records,
    {
        let mut buf: Vec<u8> = Vec::new();
        push_u16_le(&mut buf, command);
        push_u16_le(&mut buf, 0);
        push_u16_le(&mut buf, self.session_id);
        push_u16_le(&mut buf, self.reply_id);
        push_all(&mut buf, payload);
        assert(buf@ =~= unsealed_frame(command, self.session_id, self.reply_id, payload@));
        let checksum = create_checksum(buf.as_slice());
        self.reply_id = if self.reply_id >= 0xFFFE {
            0
        } else {
            self.reply_id + 1
        };
        buf.set(2, (checksum % 256) as u8);
        buf.set(3, (checksum / 256) as u8);
        assert(buf@ =~= frame_bytes(command, self.session_id, old(self).reply_id, payload@));
        buf
    }

    /// Takes the user and record counts from the reply to a free-sizes query: the 5th and
    /// 9th of the twenty little-endian signed integers of its payload.
    ///
    /// A refused status is an error; a payload too short to hold the counts leaves them as
    /// they were.
    pub fn read_sizes(&mut self, resp: &Response) -> (r: Result<(), ZKError>)
        ensures
            final(self).session_id == old(self).session_id,
            final(self).reply_id == old(self).reply_id,
            final(self).is_connect == old(self).is_connect,
            final(self).user_packet_size == old(self).user_packet_size,
            !status_ok(resp.status) ==> r == Err::<(), ZKError>(ZKError::ResponseError)
                && *final(self) == *old(self),
            status_ok(resp.status) && resp.payload@.len() < 80 ==> r == Ok::<(), ZKError>(())
                && *final(self) == *old(self),
            status_ok(resp.status) && resp.payload@.len() >= 80 ==> r == Ok::<(), ZKError>(())
                && final(self).users == le32_signed_at(resp.payload@, 16) as i32 as usize
                && final(self).records == le32_signed_at(resp.payload@, 32) as i32 as usize,
    {
        if !resp.is_success() {
            return Err(ZKError::ResponseError);
        }
        if resp.payload.len() < 80 {
            return Ok(());
        }
        let users = read_i32_le(resp.payload.as_slice(), 16);
        let records = read_i32_le(resp.payload.as_slice(), 32);
        self.users = users as usize;
        self.records = records as usize;
        Ok(())
    }
}

} // verus!
