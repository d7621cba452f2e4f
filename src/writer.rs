use vstd::prelude::*;

use crate::atom::AtomBody;
use crate::encoding::{le_bytes, le_encode, lemma_le_bytes_len, zeros};
use crate::identifiers::MappedURIDs;

verus! {

/// Bytes of an atom header: the body's length, then its type identifier.
pub const HEADER_SIZE: usize = 8;

/// Boundary to which an aligned write pads.
pub const ALIGNMENT: usize = 8;

/// The header of an atom whose body has `size` bytes and type `id`.
pub open spec fn header_bytes(size: nat, id: nat) -> Seq<u8> {
    le_bytes(size, 4) + le_bytes(id, 4)
}

/// Bytes that take `end` to the next alignment boundary.
pub open spec fn padding(end: nat) -> nat {
    if end % 8 == 0 {
        0
    } else {
        (8 - end % 8) as nat
    }
}

/// `s` with the bytes from `at` on replaced by `data`.
pub open spec fn splice(s: Seq<u8>, at: nat, data: Seq<u8>) -> Seq<u8> {
    s.subrange(0, at as int) + data + s.subrange((at + data.len()) as int, s.len() as int)
}

/// A bounds-checked cursor over a byte buffer that it owns.
pub struct RawWriter {
    buf: Vec<u8>,
    pos: usize,
}

impl RawWriter {
    #[verifier::type_invariant]
    spec fn in_bounds(self) -> bool {
        self.pos <= self.buf.len()
    }

    /// The whole buffer.
    pub closed spec fn spec_bytes(self) -> Seq<u8> {
        self.buf@
    }

    /// Where the next write starts.
    pub closed spec fn spec_cursor(self) -> nat {
        self.pos as nat
    }

    /// The bytes a write of `body` leaves at the cursor: the body, then zeros up
    /// to the alignment boundary if `align` is set.
    pub open spec fn sized_data(self, body: Seq<u8>, align: bool) -> Seq<u8> {
        body + zeros(
            if align {
                padding(self.spec_cursor() + body.len())
            } else {
                0
            },
        )
    }

    pub fn new(buf: Vec<u8>) -> (w: RawWriter)
        ensures
            w.spec_bytes() == buf@,
            w.spec_cursor() == 0,
    {
        RawWriter { buf, pos: 0 }
    }

    pub fn position(&self) -> (r: usize)
        ensures
            r == self.spec_cursor(),
            r <= self.spec_bytes().len(),
    {
        proof {
            use_type_invariant(self);
        }
        self.pos
    }

    pub fn capacity(&self) -> (r: usize)
        ensures
            r == self.spec_bytes().len(),
    {
        self.buf.len()
    }

    pub fn as_bytes(&self) -> (r: &[u8])
        ensures
            r@ == self.spec_bytes(),
    {
        self.buf.as_slice()
    }

    /// Copies `data` to the cursor and moves the cursor past it.
    fn put(&mut self, data: &[u8])
        requires
            old(self).spec_cursor() + data@.len() <= old(self).spec_bytes().len(),
        ensures
            final(self).spec_bytes() == splice(old(self).spec_bytes(), old(self).spec_cursor(), data@),
            final(self).spec_cursor() == old(self).spec_cursor() + data@.len(),
    {
        proof {
            use_type_invariant(&*self);
        }
        let ghost start = self.buf@;
        assert(self.buf@.len() <= usize::MAX);
        let mut i: usize = 0;
        while i < data.len()
            invariant
                self.pos == old(self).pos,
                self.pos + data@.len() <= self.buf@.len(),
                self.buf@.len() <= usize::MAX,
                start == old(self).buf@,
                self.buf@.len() == start.len(),
                i <= data@.len(),
                forall|k: int| 0 <= k < self.pos ==> self.buf@[k] == start[k],
                forall|k: int| 0 <= k < i ==> self.buf@[self.pos + k] == data@[k],
                forall|k: int| self.pos + i <= k < start.len() ==> self.buf@[k] == start[k],
            decreases data@.len() - i,
        {
            let at = self.pos + i;
            self.buf[at] = data[i];
            i = i + 1;
        }
        assert(self.buf@ =~= splice(start, self.pos as nat, data@));
        self.pos = self.pos + data.len();
    }

    /// Writes an atom header for `A`: the size of its body, then its identifier
    /// in `urids`. Fails, changing nothing, when fewer than `HEADER_SIZE` bytes
    /// are left.
    pub fn push_atom_header<A: AtomBody>(&mut self, urids: &MappedURIDs) -> (r: Result<(), ()>)
        ensures
            r.is_ok() == (old(self).spec_cursor() + HEADER_SIZE <= old(self).spec_bytes().len()),
            r.is_ok() ==> {
                &&& final(self).spec_bytes() == splice(
                    old(self).spec_bytes(),
                    old(self).spec_cursor(),
                    header_bytes(
                        A::spec_kind().spec_body_size(),
                        urids.spec_resolve(A::spec_kind()).spec_raw() as nat,
                    ),
                )
                &&& final(self).spec_cursor() == old(self).spec_cursor() + HEADER_SIZE
            },
            r.is_err() ==> *final(self) == *old(self),
    {
        proof {
            use_type_invariant(&*self);
        }
        if self.buf.len() - self.pos < HEADER_SIZE {
            return Err(());
        }
        let size = A::kind().body_size();
        let id = A::get_urid(urids).get();
        let mut header = le_encode(size as u64, 4);
        let mut id_bytes = le_encode(id as u64, 4);
        proof {
            lemma_le_bytes_len(size as nat, 4);
            lemma_le_bytes_len(id as nat, 4);
        }
        header.append(&mut id_bytes);
        self.put(header.as_slice());
        Ok(())
    }

    /// Copies `body` to the cursor and, if `align` is set, zeros up to the next
    /// alignment boundary. Returns where the copy starts and how many bytes were
    /// written. Fails, changing nothing, when the buffer cannot hold them all.
    pub fn write_sized(&mut self, body: &[u8], align: bool) -> (r: Result<(usize, usize), ()>)
        ensures
            r.is_ok() == (old(self).spec_cursor() + old(self).sized_data(body@, align).len()
                <= old(self).spec_bytes().len()),
            r.is_ok() ==> {
                &&& r == Ok::<(usize, usize), ()>(
                    (
                        old(self).spec_cursor() as usize,
                        old(self).sized_data(body@, align).len() as usize,
                    ),
                )
                &&& final(self).spec_bytes() == splice(
                    old(self).spec_bytes(),
                    old(self).spec_cursor(),
                    old(self).sized_data(body@, align),
                )
                &&& final(self).spec_cursor() == old(self).spec_cursor() + old(self).sized_data(
                    body@,
                    align,
                ).len()
            },
            r.is_err() ==> *final(self) == *old(self),
    {
        proof {
            use_type_invariant(&*self);
        }
        let start = self.pos;
        let remaining = self.buf.len() - self.pos;
        if body.len() > remaining {
            return Err(());
        }
        let end = start + body.len();
        let pad: usize = if align && end % ALIGNMENT != 0 {
            ALIGNMENT - end % ALIGNMENT
        } else {
            0
        };
        if pad > remaining - body.len() {
            return Err(());
        }
        let mut data: Vec<u8> = Vec::new();
        let mut i: usize = 0;
        while i < body.len()
            invariant
                i <= body@.len(),
                data@ == body@.subrange(0, i as int),
            decreases body@.len() - i,
        {
            data.push(body[i]);
            i = i + 1;
        }
        let mut k: usize = 0;
        while k < pad
            invariant
                k <= pad,
                data@ == body@ + zeros(k as nat),
            decreases pad - k,
        {
            data.push(0u8);
            k = k + 1;
            assert(data@ =~= body@ + zeros(k as nat));
        }
        assert(data@ =~= self.sized_data(body@, align));
        self.put(data.as_slice());
        Ok((start, body.len() + pad))
    }
}

} // verus!
