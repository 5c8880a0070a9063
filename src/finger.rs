use vstd::prelude::*;
use vstd::string::StringExecFns;
use crate::bytes::{copy_range, push_all, push_u16_le, u16_bytes};

verus! {

/// The lower-case hexadecimal digit for `d < 16`.
pub open spec fn hex_digit(d: int) -> char {
    seq!['0', '1', '2', '3', '4', '5', '6', '7', '8', '9', 'a', 'b', 'c', 'd', 'e', 'f'][d]
}

/// Two lower-case hexadecimal digits for each byte, the high half first.
pub open spec fn hex_chars(b: Seq<u8>) -> Seq<char> {
    Seq::new(
        2 * b.len(),
        |i: int| if i % 2 == 0 { hex_digit(b[i / 2] as int / 16) } else { hex_digit(b[i / 2] as int % 16) },
    )
}

/// The preview of a template: the hex of its first and last eight bytes, joined by `...`.
pub open spec fn mark_of(t: Seq<u8>) -> Seq<char> {
    let head = if t.len() < 8 { t.len() as int } else { 8 };
    let tail = if t.len() < 8 { 0 } else { t.len() - 8 };
    hex_chars(t.subrange(0, head)) + seq!['.', '.', '.'] + hex_chars(t.subrange(tail, t.len() as int))
}

/// The full wire record of a fingerprint template.
pub open spec fn finger_record(f: Finger) -> Seq<u8> {
    u16_bytes(((f.size + 6) % 0x10000) as u16) + u16_bytes(f.uid) + seq![f.fid, f.valid] + f.template@
}

/// The body-only wire record of a fingerprint template.
pub open spec fn finger_body(f: Finger) -> Seq<u8> {
    u16_bytes((f.size % 0x10000) as u16) + f.template@
}

/// Relies on `hex::encode`: two lower-case hex digits per byte, high half first.
#[verifier::external_body]
fn hex_text(b: &[u8]) -> (r: String)
    ensures
        r@ == hex_chars(b@),
{
    hex::encode(b)
}

/// A fingerprint template of one finger of one user.
#[derive(Clone, Debug)]
pub struct Finger {
    pub uid: u16,
    /// Finger index.
    pub fid: u8,
    pub valid: u8,
    pub template: Vec<u8>,
    pub size: usize,
    /// Diagnostic preview of the template; never transmitted.
    pub mark: String,
}

impl Finger {
    /// `size` is the template's length.
    pub open spec fn wf(&self) -> bool {
        self.size == self.template@.len()
    }

    pub fn new(uid: u16, fid: u8, valid: u8, template: Vec<u8>) -> (r: Self)
        ensures
            r.wf(),
            r.uid == uid,
            r.fid == fid,
            r.valid == valid,
            r.template@ == template@,
            r.mark@ == mark_of(template@),
    {
        let size = template.len();
        let head: usize = if size < 8 {
            size
        } else {
            8
        };
        let tail: usize = if size < 8 {
            0
        } else {
            size - 8
        };
        let first = copy_range(template.as_slice(), 0, head);
        let last = copy_range(template.as_slice(), tail, size);
        let first_hex = hex_text(first.as_slice());
        let last_hex = hex_text(last.as_slice());
        let sep = "...";
        proof {
            reveal_strlit("...");
        }
        let mut mark = first_hex;
        mark.append(sep);
        mark.append(last_hex.as_str());
        assert(mark@ =~= mark_of(template@));
        Finger { uid, fid, valid, template, size, mark }
    }

    /// The full record: total length (template plus six), uid, finger index, valid flag,
    /// template.
    pub fn repack(&self) -> (r: Vec<u8>)
        ensures
            r@ == finger_record(*self),
    {
        let mut buf: Vec<u8> = Vec::new();
        let len = ((self.size % 0x10000 + 6) % 0x10000) as u16;
        assert(len == (self.size + 6) % 0x10000);
        push_u16_le(&mut buf, len);
        push_u16_le(&mut buf, self.uid);
        buf.push(self.fid);
        buf.push(self.valid);
        push_all(&mut buf, self.template.as_slice());
        assert(buf@ =~= finger_record(*self));
        buf
    }

    /// The body-only record: template length, template.
    pub fn repack_only(&self) -> (r: Vec<u8>)
        ensures
            r@ == finger_body(*self),
    {
        let mut buf: Vec<u8> = Vec::new();
        push_u16_le(&mut buf, (self.size % 0x10000) as u16);
        push_all(&mut buf, self.template.as_slice());
        assert(buf@ =~= finger_body(*self));
        buf
    }
}

impl PartialEq for Finger {
    fn eq(&self, other: &Finger) -> (r: bool) {
        if self.uid != other.uid || self.fid != other.fid || self.valid != other.valid
            || self.template.len() != other.template.len() {
            return false;
        }
        let n = self.template.len();
        let mut k: usize = 0;
        while k < n
            invariant
                k <= n,
                n == self.template@.len(),
                n == other.template@.len(),
                self.template@.subrange(0, k as int) == other.template@.subrange(0, k as int),
            decreases n - k,
        {
            if self.template[k] != other.template[k] {
                assert(self.template@[k as int] != other.template@[k as int]);
                return false;
            }
            assert(self.template@.subrange(0, k + 1) =~= self.template@.subrange(0, k as int).push(
                self.template@[k as int],
            ));
            assert(other.template@.subrange(0, k + 1) =~= other.template@.subrange(
                0,
                k as int,
            ).push(other.template@[k as int]));
            k = k + 1;
        }
        assert(self.template@ =~= self.template@.subrange(0, n as int));
        assert(other.template@ =~= other.template@.subrange(0, n as int));
        true
    }
}

impl vstd::std_specs::cmp::PartialEqSpecImpl for Finger {
    open spec fn obeys_eq_spec() -> bool {
        true
    }

    /// Two templates are equal when owner, finger, flag and bytes agree.
    open spec fn eq_spec(&self, other: &Finger) -> bool {
        &&& self.uid == other.uid
        &&& self.fid == other.fid
        &&& self.valid == other.valid
        &&& self.template@ == other.template@
    }
}

} // verus!
