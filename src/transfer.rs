use vstd::prelude::*;
use crate::bytes::{le16_at, le32_at, push_all, push_u16_le, push_u32_le, read_u16_le, read_u32_le, u16_bytes, u32_bytes};
use crate::consts::{
    CMD_DATA, CMD_FREE_DATA, CMD_PREPARE_BUFFER, CMD_PREPARE_DATA, CMD_READ_BUFFER, FRAGMENT_SIZE,
    HEADER_SIZE, MAX_CHUNK,
};
use crate::error::ZKError;
use crate::frame::{parse_response, status_ok};
use crate::session::{frame_bytes, next_reply_id, Session};

verus! {

/// Capacity of the receive that closes a streamed chunk.
pub const ACK_SIZE: usize = 16;

/// Capacity of the reply to the first request of a transfer.
pub const PREPARE_REPLY_SIZE: usize = 1024;

/// Where a buffered transfer stands.
#[derive(Clone, Copy, Debug, PartialEq, Eq, Structural)]
pub enum Stage {
    /// Waiting for the reply to the prepare-buffer request.
    Prepare,
    /// Waiting for the reply to a read-buffer request.
    Chunk,
    /// Receiving the streamed fragments of a chunk.
    Fragments,
    /// Waiting for the acknowledgement that closes a streamed chunk.
    Ack,
    /// Waiting for the reply to the free-data request.
    Free,
    /// Done or failed; nothing more to do.
    Finished,
}

/// What the caller does next for a buffered transfer.
#[derive(Debug)]
pub enum Action {
    /// Send `frame`, receive a reply of at most `capacity` bytes and hand it back.
    Send { frame: Vec<u8>, capacity: usize },
    /// Receive one datagram of at most `capacity` bytes and hand it back.
    Receive { capacity: usize },
    /// The transfer is complete: the bytes and their declared total length.
    Done { data: Vec<u8>, size: usize },
    /// The transfer failed.
    Fail(ZKError),
}

/// The control payload that asks the device to prepare a buffered transfer.
pub open spec fn prepare_payload(command: u16, fct: u32, ext: u32) -> Seq<u8> {
    seq![1u8] + u16_bytes(command) + u32_bytes(fct) + u32_bytes(ext)
}

/// The control payload that asks for `len` bytes from offset `start`.
pub open spec fn read_payload(start: u32, len: u32) -> Seq<u8> {
    u32_bytes(start) + u32_bytes(len)
}

/// The length of the chunk that begins at `start`.
pub open spec fn chunk_len(total: int, start: int) -> int {
    if total - start < MAX_CHUNK {
        total - start
    } else {
        MAX_CHUNK as int
    }
}

/// `a` sends `command` with `payload` in a frame built from session `s0`, which becomes `s1`.
pub open spec fn sends(
    a: Action,
    s0: Session,
    s1: Session,
    command: u16,
    payload: Seq<u8>,
    capacity: int,
) -> bool {
    &&& a matches Action::Send { frame, capacity: c } && frame@ == frame_bytes(
        command,
        s0.session_id,
        s0.reply_id,
        payload,
    ) && c == capacity
    &&& s1 == Session { reply_id: next_reply_id(s0.reply_id), ..s0 }
}

/// `a` fails with `e`, the transfer `b` is finished, and the session is as it was.
pub open spec fn fails(a: Action, b: BufferedRead, s0: Session, s1: Session, e: ZKError) -> bool {
    a == Action::Fail(e) && b.stage == Stage::Finished && s1 == s0
}

/// `a` asks for the next chunk of `b`, or, once every chunk came, frees the device's buffer.
pub open spec fn requests_next(a: Action, b: BufferedRead, s0: Session, s1: Session) -> bool {
    if b.start < b.total {
        &&& b.stage == Stage::Chunk
        &&& b.chunk == chunk_len(b.total as int, b.start as int)
        &&& sends(
            a,
            s0,
            s1,
            CMD_READ_BUFFER,
            read_payload(b.start as u32, b.chunk as u32),
            b.chunk + HEADER_SIZE,
        )
    } else {
        &&& b.stage == Stage::Free
        &&& sends(a, s0, s1, CMD_FREE_DATA, Seq::empty(), HEADER_SIZE as int)
    }
}

/// `a` receives the next fragment of a streamed chunk, or its closing acknowledgement once
/// nothing remains.
pub open spec fn receives_next(a: Action, b: BufferedRead) -> bool {
    if b.remaining == 0 {
        b.stage == Stage::Ack && a == (Action::Receive { capacity: ACK_SIZE })
    } else {
        b.stage == Stage::Fragments && a == (Action::Receive { capacity: FRAGMENT_SIZE })
    }
}

/// A payload larger than one datagram, fetched from the device in chunks.
#[derive(Debug)]
pub struct BufferedRead {
    pub stage: Stage,
    /// The total size that the device declared.
    pub total: usize,
    /// Offset of the chunk under way; every byte before it has arrived.
    pub start: usize,
    /// Length of the chunk under way.
    pub chunk: usize,
    /// Bytes of a streamed chunk still to come.
    pub remaining: usize,
    /// The bytes received so far, in order.
    pub data: Vec<u8>,
}

impl BufferedRead {
    pub open spec fn wf(&self) -> bool {
        &&& self.total <= u32::MAX
        &&& self.start <= self.total
        &&& (self.stage == Stage::Chunk || self.stage == Stage::Fragments || self.stage
            == Stage::Ack) ==> self.chunk == chunk_len(self.total as int, self.start as int)
            && self.start < self.total
        &&& self.stage == Stage::Chunk ==> self.data@.len() == self.start
        &&& self.stage == Stage::Fragments ==> self.data@.len() + self.remaining == self.start
            + self.chunk
        &&& self.stage == Stage::Ack ==> self.data@.len() == self.start + self.chunk
        &&& self.stage == Stage::Free ==> self.data@.len() == self.total && self.start
            == self.total
    }

    /// The transition on the reply to the prepare-buffer request.
    pub open spec fn after_prepare(
        b0: BufferedRead,
        b1: BufferedRead,
        s0: Session,
        s1: Session,
        reply: Seq<u8>,
        a: Action,
    ) -> bool {
        let payload = reply.subrange(8, reply.len() as int);
        if reply.len() < 8 || !status_ok(le16_at(reply, 0) as u16) {
            fails(a, b1, s0, s1, ZKError::ResponseError)
        } else if le16_at(reply, 0) == CMD_DATA {
            &&& a matches Action::Done { data, size } && data@ == payload && size == payload.len()
            &&& b1.stage == Stage::Finished
            &&& s1 == s0
        } else if payload.len() < 5 {
            fails(a, b1, s0, s1, ZKError::ResponseError)
        } else {
            &&& b1.total == le32_at(payload, 1)
            &&& b1.start == 0
            &&& b1.data@ == Seq::<u8>::empty()
            &&& requests_next(a, b1, s0, s1)
        }
    }

    /// The transition on the reply to a read-buffer request.
    pub open spec fn after_chunk(
        b0: BufferedRead,
        b1: BufferedRead,
        s0: Session,
        s1: Session,
        reply: Seq<u8>,
        a: Action,
    ) -> bool {
        let payload = reply.subrange(8, reply.len() as int);
        if reply.len() < 8 {
            fails(a, b1, s0, s1, ZKError::ResponseError)
        } else if le16_at(reply, 0) == CMD_DATA && payload.len() == b0.chunk {
            &&& b1.total == b0.total
            &&& b1.start == b0.start + b0.chunk
            &&& b1.data@ == b0.data@ + payload
            &&& requests_next(a, b1, s0, s1)
        } else if le16_at(reply, 0) == CMD_PREPARE_DATA && payload.len() >= 4 && le32_at(
            payload,
            0,
        ) == b0.chunk {
            &&& b1.total == b0.total
            &&& b1.start == b0.start
            &&& b1.chunk == b0.chunk
            &&& b1.remaining == le32_at(payload, 0)
            &&& b1.data@ == b0.data@
            &&& receives_next(a, b1)
            &&& s1 == s0
        } else {
            fails(a, b1, s0, s1, ZKError::ResponseError)
        }
    }

    /// The transition on one streamed fragment.
    pub open spec fn after_fragment(
        b0: BufferedRead,
        b1: BufferedRead,
        s0: Session,
        s1: Session,
        reply: Seq<u8>,
        a: Action,
    ) -> bool {
        let body = reply.subrange(8, reply.len() as int);
        if reply.len() < 8 || le16_at(reply, 0) != CMD_DATA || body.len() > b0.remaining {
            fails(a, b1, s0, s1, ZKError::ResponseError)
        } else {
            &&& b1.total == b0.total
            &&& b1.start == b0.start
            &&& b1.chunk == b0.chunk
            &&& b1.remaining == b0.remaining - body.len()
            &&& b1.data@ == b0.data@ + body
            &&& receives_next(a, b1)
            &&& s1 == s0
        }
    }

    /// The transition on the acknowledgement that closes a streamed chunk.
    pub open spec fn after_ack(
        b0: BufferedRead,
        b1: BufferedRead,
        s0: Session,
        s1: Session,
        a: Action,
    ) -> bool {
        &&& b1.total == b0.total
        &&& b1.start == b0.start + b0.chunk
        &&& b1.data@ == b0.data@
        &&& requests_next(a, b1, s0, s1)
    }

    /// The transition on the reply to the free-data request.
    pub open spec fn after_free(
        b0: BufferedRead,
        b1: BufferedRead,
        s0: Session,
        s1: Session,
        reply: Seq<u8>,
        a: Action,
    ) -> bool {
        if reply.len() >= 8 && status_ok(le16_at(reply, 0) as u16) {
            &&& a matches Action::Done { data, size } && data@ == b0.data@ && size == b0.total
                && data@.len() == size
            &&& b1.stage == Stage::Finished
            &&& s1 == s0
        } else {
            fails(a, b1, s0, s1, ZKError::ResponseError)
        }
    }

    /// Starts a transfer of what `command` reads, with its `fct` and `ext` arguments.
    pub fn start(session: &mut Session, command: u16, fct: u32, ext: u32) -> (r: (
        BufferedRead,
        Action,
    ))
        requires
            old(session).wf(),
        ensures
            r.0.wf(),
            r.0.stage == Stage::Prepare,
            r.0.data@ == Seq::<u8>::empty(),
            sends(
                r.1,
                *old(session),
                *final(session),
                CMD_PREPARE_BUFFER,
                prepare_payload(command, fct, ext),
                PREPARE_REPLY_SIZE as int,
            ),
    {
        let mut payload: Vec<u8> = Vec::new();
        payload.push(1u8);
        push_u16_le(&mut payload, command);
        push_u32_le(&mut payload, fct);
        push_u32_le(&mut payload, ext);
        assert(payload@ =~= prepare_payload(command, fct, ext));
        let frame = session.create_header(CMD_PREPARE_BUFFER, payload.as_slice());
        let b = BufferedRead {
            stage: Stage::Prepare,
            total: 0,
            start: 0,
            chunk: 0,
            remaining: 0,
            data: Vec::new(),
        };
        (b, Action::Send { frame, capacity: PREPARE_REPLY_SIZE })
    }

    fn finish(&mut self, e: ZKError) -> (a: Action)
        ensures
            a == Action::Fail(e),
            final(self).stage == Stage::Finished,
            final(self).total == old(self).total,
            final(self).start == old(self).start,
            final(self).chunk == old(self).chunk,
            final(self).data@ == old(self).data@,
    {
        self.stage = Stage::Finished;
        Action::Fail(e)
    }

    fn take_data(&mut self) -> (d: Vec<u8>)
        ensures
            d@ == old(self).data@,
            final(self).stage == Stage::Finished,
            final(self).total == old(self).total,
            final(self).start == old(self).start,
    {
        let mut d: Vec<u8> = Vec::new();
        std::mem::swap(&mut d, &mut self.data);
        self.stage = Stage::Finished;
        d
    }

    /// Asks for the chunk at `start`, or frees the device's buffer once all have come.
    fn request_next(&mut self, session: &mut Session) -> (a: Action)
        requires
            old(session).wf(),
            old(self).total <= u32::MAX,
            old(self).start <= old(self).total,
            old(self).data@.len() == old(self).start,
        ensures
            final(session).wf(),
            final(self).wf(),
            final(self).total == old(self).total,
            final(self).start == old(self).start,
            final(self).data@ == old(self).data@,
            requests_next(a, *final(self), *old(session), *final(session)),
    {
        if self.start < self.total {
            let len: usize = if self.total - self.start < MAX_CHUNK {
                self.total - self.start
            } else {
                MAX_CHUNK
            };
            self.chunk = len;
            self.stage = Stage::Chunk;
            let mut payload: Vec<u8> = Vec::new();
            push_u32_le(&mut payload, self.start as u32);
            push_u32_le(&mut payload, len as u32);
            assert(payload@ =~= read_payload(self.start as u32, len as u32));
            let frame = session.create_header(CMD_READ_BUFFER, payload.as_slice());
            Action::Send { frame, capacity: len + HEADER_SIZE }
        } else {
            self.stage = Stage::Free;
            let payload: Vec<u8> = Vec::new();
            assert(payload@ =~= Seq::<u8>::empty());
            let frame = session.create_header(CMD_FREE_DATA, payload.as_slice());
            Action::Send { frame, capacity: HEADER_SIZE }
        }
    }

    /// Advances the transfer with what the last action received.
    ///
    /// Each chunk must bring exactly the bytes requested: an inline chunk of another length,
    /// a streamed chunk that declares another size, or a fragment longer than what is still
    /// owed fails the transfer, so a completed transfer holds exactly its declared size.
    pub fn step(&mut self, session: &mut Session, reply: &[u8]) -> (a: Action)
        requires
            old(session).wf(),
            old(self).wf(),
        ensures
            final(session).wf(),
            final(self).wf(),
            old(self).stage == Stage::Prepare ==> Self::after_prepare(
                *old(self),
                *final(self),
                *old(session),
                *final(session),
                reply@,
                a,
            ),
            old(self).stage == Stage::Chunk ==> Self::after_chunk(
                *old(self),
                *final(self),
                *old(session),
                *final(session),
                reply@,
                a,
            ),
            old(self).stage == Stage::Fragments ==> Self::after_fragment(
                *old(self),
                *final(self),
                *old(session),
                *final(session),
                reply@,
                a,
            ),
            old(self).stage == Stage::Ack ==> Self::after_ack(
                *old(self),
                *final(self),
                *old(session),
                *final(session),
                a,
            ),
            old(self).stage == Stage::Free ==> Self::after_free(
                *old(self),
                *final(self),
                *old(session),
                *final(session),
                reply@,
                a,
            ),
            old(self).stage == Stage::Finished ==> fails(
                a,
                *final(self),
                *old(session),
                *final(session),
                ZKError::ResponseError,
            ),
    {
        match self.stage {
            Stage::Prepare => {
                let resp = match parse_response(reply) {
                    Ok(resp) => resp,
                    Err(e) => return self.finish(e),
                };
                if !resp.is_success() {
                    return self.finish(ZKError::ResponseError);
                }
                if resp.status == CMD_DATA {
                    self.stage = Stage::Finished;
                    let size = resp.payload.len();
                    return Action::Done { data: resp.payload, size };
                }
                if resp.payload.len() < 5 {
                    return self.finish(ZKError::ResponseError);
                }
                self.total = read_u32_le(resp.payload.as_slice(), 1) as usize;
                self.start = 0;
                self.data = Vec::new();
                self.request_next(session)
            },
            Stage::Chunk => {
                let resp = match parse_response(reply) {
                    Ok(resp) => resp,
                    Err(e) => return self.finish(e),
                };
                if resp.status == CMD_DATA && resp.payload.len() == self.chunk {
                    push_all(&mut self.data, resp.payload.as_slice());
                    self.start = self.start + self.chunk;
                    self.request_next(session)
                } else if resp.status == CMD_PREPARE_DATA && resp.payload.len() >= 4
                    && read_u32_le(resp.payload.as_slice(), 0) as usize == self.chunk {
                    self.remaining = self.chunk;
                    self.next_receive()
                } else {
                    self.finish(ZKError::ResponseError)
                }
            },
            Stage::Fragments => {
                if reply.len() < HEADER_SIZE || read_u16_le(reply, 0) != CMD_DATA || reply.len()
                    - HEADER_SIZE > self.remaining {
                    return self.finish(ZKError::ResponseError);
                }
                let body_len = reply.len() - HEADER_SIZE;
                let ghost before = self.data@;
                let ghost b0 = *self;
                let mut k: usize = HEADER_SIZE;
                while k < reply.len()
                    invariant
                        HEADER_SIZE <= k <= reply@.len(),
                        b0.wf(),
                        before == b0.data@,
                        self.stage == b0.stage,
                        self.total == b0.total,
                        self.start == b0.start,
                        self.chunk == b0.chunk,
                        self.remaining == b0.remaining,
                        self.data@ == before + reply@.subrange(8, k as int),
                    decreases reply@.len() - k,
                {
                    self.data.push(reply[k]);
                    k = k + 1;
                    assert(self.data@ =~= before + reply@.subrange(8, k as int));
                }
                self.remaining = self.remaining - body_len;
                self.next_receive()
            },
            Stage::Ack => {
                self.start = self.start + self.chunk;
                self.request_next(session)
            },
            Stage::Free => {
                let ok = match parse_response(reply) {
                    Ok(resp) => resp.is_success(),
                    Err(_) => false,
                };
                if ok {
                    let size = self.total;
                    let data = self.take_data();
                    Action::Done { data, size }
                } else {
                    self.finish(ZKError::ResponseError)
                }
            },
            Stage::Finished => self.finish(ZKError::ResponseError),
        }
    }

    fn next_receive(&mut self) -> (a: Action)
        ensures
            final(self).total == old(self).total,
            final(self).start == old(self).start,
            final(self).chunk == old(self).chunk,
            final(self).remaining == old(self).remaining,
            final(self).data@ == old(self).data@,
            receives_next(a, *final(self)),
    {
        if self.remaining == 0 {
            self.stage = Stage::Ack;
            Action::Receive { capacity: ACK_SIZE }
        } else {
            self.stage = Stage::Fragments;
            Action::Receive { capacity: FRAGMENT_SIZE }
        }
    }
}

} // verus!
