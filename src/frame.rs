use vstd::prelude::*;
use crate::bytes::{copy_range, le16_at, read_u16_le};
use crate::consts::{CMD_ACK_OK, CMD_DATA, CMD_PREPARE_DATA, HEADER_SIZE};
use crate::error::ZKError;

verus! {

/// Brings a running sum back under `0x10000` by repeated subtraction of `0xFFFF`.
pub open spec fn fold_carry(a: int) -> int
    decreases a,
{
    if a > 0xFFFF {
        fold_carry(a - 0xFFFF)
    } else {
        a
    }
}

/// The running ones'-complement sum over the little-endian words of `s`, starting from `acc`;
/// a trailing odd byte is added as a plain value.
pub open spec fn word_fold(acc: int, s: Seq<u8>) -> int
    decreases s.len(),
{
    if s.len() == 0 {
        fold_carry(acc)
    } else if s.len() == 1 {
        fold_carry(acc + s[0])
    } else {
        let a = acc + s[0] + 256 * s[1];
        word_fold(if a > 0xFFFF { a - 0xFFFF } else { a }, s.subrange(2, s.len() as int))
    }
}

/// The frame checksum of `s`: the complement of its folded word sum.
pub open spec fn checksum_of(s: Seq<u8>) -> int {
    0xFFFF - word_fold(0, s)
}

/// The plain sum of the little-endian words of `s`, a trailing odd byte as a plain value.
pub open spec fn word_sum(s: Seq<u8>) -> int
    decreases s.len(),
{
    if s.len() == 0 {
        0
    } else if s.len() == 1 {
        s[0] as int
    } else {
        s[0] + 256 * s[1] + word_sum(s.subrange(2, s.len() as int))
    }
}

proof fn lemma_fold_carry(a: int)
    requires
        a >= 0,
    ensures
        0 <= fold_carry(a) <= 0xFFFF,
        fold_carry(a) % 0xFFFF == a % 0xFFFF,
    decreases a,
{
    if a > 0xFFFF {
        lemma_fold_carry(a - 0xFFFF);
    }
}

proof fn lemma_word_fold(acc: int, s: Seq<u8>)
    requires
        0 <= acc <= 0xFFFF,
    ensures
        0 <= word_fold(acc, s) <= 0xFFFF,
        word_fold(acc, s) % 0xFFFF == (acc + word_sum(s)) % 0xFFFF,
    decreases s.len(),
{
    if s.len() == 0 {
        lemma_fold_carry(acc);
    } else if s.len() == 1 {
        lemma_fold_carry(acc + s[0]);
    } else {
        let a = acc + s[0] + 256 * s[1];
        let next = if a > 0xFFFF { a - 0xFFFF } else { a };
        lemma_word_fold(next, s.subrange(2, s.len() as int));
    }
}

proof fn lemma_word_sum_update(s: Seq<u8>, i: int, v: u8)
    requires
        0 <= i < s.len(),
    ensures
        word_sum(s.update(i, v)) == word_sum(s) + (v - s[i]) * (if i % 2 == 0 { 1int } else { 256int }),
    decreases s.len(),
{
    let t = s.update(i, v);
    if s.len() >= 2 {
        if i < 2 {
            assert(t.subrange(2, t.len() as int) =~= s.subrange(2, s.len() as int));
        } else {
            let rest = s.subrange(2, s.len() as int);
            assert(t.subrange(2, t.len() as int) =~= rest.update(i - 2, v));
            lemma_word_sum_update(rest, i - 2, v);
        }
    }
}

/// Changing any one byte of a buffer changes its checksum.
pub proof fn lemma_checksum_detects_byte_change(s: Seq<u8>, i: int, v: u8)
    requires
        0 <= i < s.len(),
        v != s[i],
    ensures
        checksum_of(s.update(i, v)) != checksum_of(s),
{
    let t = s.update(i, v);
    lemma_word_sum_update(s, i, v);
    lemma_word_fold(0, s);
    lemma_word_fold(0, t);
    let d = word_sum(t) - word_sum(s);
    assert(0 < d < 0xFFFF || -0xFFFF < d < 0);
}

/// The checksum of a frame buffer, placeholder bytes included as they stand.
pub fn create_checksum(buf: &[u8]) -> (r: u16)
    ensures
        r == checksum_of(buf@),
{
    let mut checksum: u32 = 0;
    let mut i: usize = 0;
    assert(buf@.subrange(0, buf@.len() as int) =~= buf@);
    while i < buf.len() && buf.len() - i >= 2
        invariant
            i <= buf@.len(),
            checksum <= 0xFFFF,
            word_fold(checksum as int, buf@.subrange(i as int, buf@.len() as int)) == word_fold(
                0,
                buf@,
            ),
        decreases buf@.len() - i,
    {
        let ghost rest = buf@.subrange(i as int, buf@.len() as int);
        let val = read_u16_le(buf, i);
        checksum = checksum + val as u32;
        if checksum > 0xFFFF {
            checksum = checksum - 0xFFFF;
        }
        assert(rest.subrange(2, rest.len() as int) =~= buf@.subrange(
            i + 2,
            buf@.len() as int,
        ));
        i = i + 2;
    }
    if i < buf.len() {
        checksum = checksum + buf[i] as u32;
    }
    let ghost partial = checksum as int;
    assert(fold_carry(partial) == word_fold(0, buf@));
    while checksum > 0xFFFF
        invariant
            fold_carry(checksum as int) == fold_carry(partial),
        decreases checksum,
    {
        checksum = checksum - 0xFFFF;
    }
    (0xFFFF - checksum) as u16
}

/// Whether a reply status counts as success.
pub open spec fn status_ok(status: u16) -> bool {
    status == CMD_ACK_OK || status == CMD_DATA || status == CMD_PREPARE_DATA
}

/// A classified reply: its status code and the bytes after its header.
pub struct Response {
    pub status: u16,
    pub payload: Vec<u8>,
}

impl Response {
    pub fn is_success(&self) -> (r: bool)
        ensures
            r == status_ok(self.status),
    {
        self.status == CMD_ACK_OK || self.status == CMD_DATA || self.status == CMD_PREPARE_DATA
    }
}

/// Whether `reply` carries the reply id of the request `frame`; for callers that want
/// to refuse stale or out-of-order replies.
pub fn reply_answers(reply: &[u8], frame: &[u8]) -> (r: bool)
    ensures
        r == (reply@.len() >= HEADER_SIZE && frame@.len() >= HEADER_SIZE && le16_at(reply@, 6)
            == le16_at(frame@, 6)),
{
    if reply.len() < HEADER_SIZE || frame.len() < HEADER_SIZE {
        return false;
    }
    read_u16_le(reply, 6) == read_u16_le(frame, 6)
}

/// Splits a received reply into status and payload; a reply shorter than a header is refused.
pub fn parse_response(reply: &[u8]) -> (r: Result<Response, ZKError>)
    ensures
        reply@.len() < HEADER_SIZE ==> r == Err::<Response, ZKError>(ZKError::ResponseError),
        reply@.len() >= HEADER_SIZE ==> (r matches Ok(resp) && resp.status == le16_at(reply@, 0)
            && resp.payload@ == reply@.subrange(8, reply@.len() as int)),
{
    if reply.len() < HEADER_SIZE {
        return Err(ZKError::ResponseError);
    }
    let status = read_u16_le(reply, 0);
    let payload = copy_range(reply, HEADER_SIZE, reply.len());
    Ok(Response { status, payload })
}

} // verus!
