use vstd::prelude::*;

use crate::atom::ScalarAtomBody;
use crate::encoding::{le_bytes, lemma_le_bytes_len, zeros};
use crate::identifiers::MappedURIDs;
use crate::writer::{header_bytes, padding, splice, RawWriter, ALIGNMENT, HEADER_SIZE};

verus! {

/// The header of an atom holding `value`, with its identifier from `urids`.
pub open spec fn atom_header<A: ScalarAtomBody>(value: A, urids: MappedURIDs) -> Seq<u8> {
    header_bytes(
        A::spec_kind().spec_body_size(),
        urids.spec_resolve(A::spec_kind()).spec_raw() as nat,
    )
}

/// The bytes an atom holding `value` takes when written at `cursor`: header,
/// body, and zeros up to the next alignment boundary.
pub open spec fn atom_data<A: ScalarAtomBody>(value: A, urids: MappedURIDs, cursor: nat) -> Seq<
    u8,
> {
    atom_header(value, urids) + value.spec_body() + zeros(
        padding(cursor + HEADER_SIZE as nat + value.spec_body().len()),
    )
}

/// The host-facing end of an output buffer, to which whole atoms are written.
pub struct AtomOutputPort {
    writer: RawWriter,
    finalized: bool,
}

impl AtomOutputPort {
    /// The whole buffer.
    pub closed spec fn spec_bytes(self) -> Seq<u8> {
        self.writer.spec_bytes()
    }

    /// Where the next atom starts.
    pub closed spec fn spec_cursor(self) -> nat {
        self.writer.spec_cursor()
    }

    /// Whether the port takes no more atoms.
    pub closed spec fn spec_finalized(self) -> bool {
        self.finalized
    }

    /// Whether `write_atom` of `value` succeeds on this port.
    pub open spec fn can_write<A: ScalarAtomBody>(self, value: A, urids: MappedURIDs) -> bool {
        !self.spec_finalized() && self.spec_cursor() + atom_data(value, urids, self.spec_cursor()).len()
            <= self.spec_bytes().len()
    }

    pub fn new(buf: Vec<u8>) -> (p: AtomOutputPort)
        ensures
            p.spec_bytes() == buf@,
            p.spec_cursor() == 0,
            !p.spec_finalized(),
    {
        AtomOutputPort { writer: RawWriter::new(buf), finalized: false }
    }

    /// Closes the port: later writes fail. The buffer stays as it is.
    pub fn finalize(&mut self)
        ensures
            final(self).spec_bytes() == old(self).spec_bytes(),
            final(self).spec_cursor() == old(self).spec_cursor(),
            final(self).spec_finalized(),
    {
        self.finalized = true;
    }

    pub fn is_finalized(&self) -> (r: bool)
        ensures
            r == self.spec_finalized(),
    {
        self.finalized
    }

    pub fn position(&self) -> (r: usize)
        ensures
            r == self.spec_cursor(),
            r <= self.spec_bytes().len(),
    {
        self.writer.position()
    }

    pub fn as_bytes(&self) -> (r: &[u8])
        ensures
            r@ == self.spec_bytes(),
    {
        self.writer.as_bytes()
    }

    /// Writes `value` as an atom at the cursor: a header with its body size and
    /// its identifier in `urids`, then its body, then zeros to the alignment
    /// boundary. Returns where the body starts. Fails, leaving the port as it
    /// was, when the port is finalized or the rest of its buffer cannot hold
    /// the whole atom.
    pub fn write_atom<A: ScalarAtomBody>(&mut self, value: &A, urids: &MappedURIDs) -> (r: Result<
        usize,
        (),
    >)
        ensures
            r.is_ok() == old(self).can_write(*value, *urids),
            r.is_ok() ==> {
                &&& r == Ok::<usize, ()>((old(self).spec_cursor() + HEADER_SIZE) as usize)
                &&& final(self).spec_bytes() == splice(
                    old(self).spec_bytes(),
                    old(self).spec_cursor(),
                    atom_data(*value, *urids, old(self).spec_cursor()),
                )
                &&& final(self).spec_cursor() == old(self).spec_cursor() + atom_data(
                    *value,
                    *urids,
                    old(self).spec_cursor(),
                ).len()
                &&& !final(self).spec_finalized()
            },
            r.is_err() ==> *final(self) == *old(self),
    {
        if self.finalized {
            return Err(());
        }
        let c = self.writer.position();
        let remaining = self.writer.capacity() - c;
        let size = A::kind().body_size() as usize;
        proof {
            value.lemma_body_size();
            lemma_le_bytes_len(A::spec_kind().spec_body_size(), 4);
            lemma_le_bytes_len(urids.spec_resolve(A::spec_kind()).spec_raw() as nat, 4);
        }
        if remaining < HEADER_SIZE + size {
            return Err(());
        }
        let end = c + HEADER_SIZE + size;
        let pad: usize = if end % ALIGNMENT != 0 {
            ALIGNMENT - end % ALIGNMENT
        } else {
            0
        };
        if remaining - HEADER_SIZE - size < pad {
            return Err(());
        }
        let ghost before = self.writer;
        match self.writer.push_atom_header::<A>(urids) {
            Ok(()) => {},
            Err(()) => {
                return Err(());
            },
        }
        let ghost mid = self.writer;
        match A::construct_body(&mut self.writer, value) {
            Ok(at) => {
                proof {
                    let h = atom_header(*value, *urids);
                    let d = mid.sized_data(value.spec_body(), true);
                    assert(atom_data(*value, *urids, before.spec_cursor()) =~= h + d);
                    assert(self.writer.spec_bytes() =~= splice(
                        before.spec_bytes(),
                        before.spec_cursor(),
                        h + d,
                    ));
                }
                Ok(at)
            },
            Err(()) => {
                return Err(());
            },
        }
    }
}

/// An atom written at `cursor` is laid out as the header (body size, then
/// identifier, four little-endian bytes each), the value's body bytes, then
/// zero padding, and it ends on an alignment boundary.
pub proof fn lemma_atom_layout<A: ScalarAtomBody>(value: A, urids: MappedURIDs, cursor: nat)
    ensures
        ({
            let d = atom_data(value, urids, cursor);
            let size = A::spec_kind().spec_body_size();
            &&& d.subrange(0, HEADER_SIZE as int) == le_bytes(size, 4) + le_bytes(
                urids.spec_resolve(A::spec_kind()).spec_raw() as nat,
                4,
            )
            &&& d.subrange(HEADER_SIZE as int, HEADER_SIZE + size) == value.spec_body()
            &&& forall|i: int| HEADER_SIZE + size <= i < d.len() ==> d[i] == 0u8
            &&& HEADER_SIZE + size <= d.len() < HEADER_SIZE + size + ALIGNMENT
            &&& (cursor + d.len()) % (ALIGNMENT as nat) == 0
        }),
{
    let size = A::spec_kind().spec_body_size();
    value.lemma_body_size();
    lemma_le_bytes_len(size, 4);
    lemma_le_bytes_len(urids.spec_resolve(A::spec_kind()).spec_raw() as nat, 4);
    let d = atom_data(value, urids, cursor);
    let h = atom_header(value, urids);
    let z = zeros(padding(cursor + HEADER_SIZE as nat + value.spec_body().len()));
    assert(d == h + value.spec_body() + z);
    assert(d.subrange(0, HEADER_SIZE as int) =~= h);
    assert(d.subrange(HEADER_SIZE as int, HEADER_SIZE + size) =~= value.spec_body());
    assert forall|i: int| HEADER_SIZE + size <= i < d.len() implies d[i] == 0u8 by {
        assert(d[i] == z[i - HEADER_SIZE - size]);
    }
}

/// A port with fewer than `HEADER_SIZE` bytes left takes no atom; `write_atom`
/// then fails and leaves the port as it was.
pub proof fn lemma_no_room_for_header<A: ScalarAtomBody>(
    port: AtomOutputPort,
    value: A,
    urids: MappedURIDs,
)
    requires
        port.spec_cursor() + HEADER_SIZE > port.spec_bytes().len(),
    ensures
        !port.can_write(value, urids),
{
    lemma_le_bytes_len(A::spec_kind().spec_body_size(), 4);
    lemma_le_bytes_len(urids.spec_resolve(A::spec_kind()).spec_raw() as nat, 4);
}

/// A port with room for a header but not for the body after it takes no atom:
/// no header is left behind without its body.
pub proof fn lemma_no_room_for_body<A: ScalarAtomBody>(
    port: AtomOutputPort,
    value: A,
    urids: MappedURIDs,
)
    requires
        port.spec_cursor() + HEADER_SIZE <= port.spec_bytes().len(),
        port.spec_bytes().len() < port.spec_cursor() + HEADER_SIZE
            + A::spec_kind().spec_body_size(),
    ensures
        !port.can_write(value, urids),
{
    lemma_atom_layout(value, urids, port.spec_cursor());
}

} // verus!
