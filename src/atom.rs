use vstd::prelude::*;

use crate::identifiers::{MappedURIDs, ScalarKind, Urid};
use crate::encoding::{le_bytes, le_encode, lemma_le_bytes_len, twos_complement};
use crate::writer::{splice, RawWriter};

verus! {

/// A type whose values can be written as atoms: it has a kind, hence a URI and
/// an identifier.
pub trait AtomBody {
    spec fn spec_kind() -> ScalarKind;

    fn kind() -> (r: ScalarKind)
        ensures
            r == Self::spec_kind(),
    ;

    /// The canonical, null-terminated URI of this type.
    fn get_uri() -> (r: &'static str)
        ensures
            r@ == Self::spec_kind().spec_uri(),
    {
        Self::kind().uri()
    }

    /// This type's identifier in `urids`.
    fn get_urid(urids: &MappedURIDs) -> (r: Urid)
        ensures
            r == urids.spec_resolve(Self::spec_kind()),
    {
        urids.resolve(Self::kind())
    }
}

} // verus!

verus! {

/// A value of this type is written as an atom whose body is a fixed number of
/// bytes, its binary representation.
pub trait ScalarAtomBody: AtomBody + Sized {
    /// The body bytes of this value.
    spec fn spec_body(&self) -> Seq<u8>;

    proof fn lemma_body_size(&self)
        ensures
            self.spec_body().len() == Self::spec_kind().spec_body_size(),
    ;

    fn body_bytes(&self) -> (r: Vec<u8>)
        ensures
            r@ == self.spec_body(),
    ;

    /// Writes the body of `value`, padded to the alignment boundary, at the
    /// writer's cursor; returns where the copy starts. Fails, changing nothing,
    /// when the writer cannot hold it.
    fn construct_body(writer: &mut RawWriter, value: &Self) -> (r: Result<usize, ()>)
        ensures
            r.is_ok() == (old(writer).spec_cursor() + old(writer).sized_data(value.spec_body(), true).len()
                <= old(writer).spec_bytes().len()),
            r.is_ok() ==> {
                &&& r == Ok::<usize, ()>(old(writer).spec_cursor() as usize)
                &&& final(writer).spec_bytes() == splice(
                    old(writer).spec_bytes(),
                    old(writer).spec_cursor(),
                    old(writer).sized_data(value.spec_body(), true),
                )
                &&& final(writer).spec_cursor() == old(writer).spec_cursor() + old(writer).sized_data(
                    value.spec_body(),
                    true,
                ).len()
            },
            r.is_err() ==> *final(writer) == *old(writer),
    {
        let body = value.body_bytes();
        match writer.write_sized(body.as_slice(), true) {
            Ok((at, _)) => Ok(at),
            Err(()) => Err(()),
        }
    }
}

/// A 32-bit float, held as its IEEE 754 bits.
#[derive(Clone, Copy, Debug, PartialEq, Eq)]
pub struct Float {
    pub bits: u32,
}

/// A 64-bit float, held as its IEEE 754 bits.
#[derive(Clone, Copy, Debug, PartialEq, Eq)]
pub struct Double {
    pub bits: u64,
}

impl AtomBody for i32 {
    open spec fn spec_kind() -> ScalarKind {
        ScalarKind::Int
    }

    fn kind() -> (r: ScalarKind) {
        ScalarKind::Int
    }
}

impl ScalarAtomBody for i32 {
    open spec fn spec_body(&self) -> Seq<u8> {
        le_bytes(twos_complement(*self as int, 0x1_0000_0000), 4)
    }

    proof fn lemma_body_size(&self) {
        lemma_le_bytes_len(twos_complement(*self as int, 0x1_0000_0000), 4);
    }

    fn body_bytes(&self) -> (r: Vec<u8>) {
        let v = *self;
        let bits: u64 = if v >= 0 {
            v as u64
        } else {
            (v as i64 + 0x1_0000_0000i64) as u64
        };
        le_encode(bits, 4)
    }
}

impl AtomBody for i64 {
    open spec fn spec_kind() -> ScalarKind {
        ScalarKind::Long
    }

    fn kind() -> (r: ScalarKind) {
        ScalarKind::Long
    }
}

impl ScalarAtomBody for i64 {
    open spec fn spec_body(&self) -> Seq<u8> {
        le_bytes(twos_complement(*self as int, 0x1_0000_0000_0000_0000), 8)
    }

    proof fn lemma_body_size(&self) {
        lemma_le_bytes_len(twos_complement(*self as int, 0x1_0000_0000_0000_0000), 8);
    }

    fn body_bytes(&self) -> (r: Vec<u8>) {
        let v = *self;
        let bits: u64 = if v >= 0 {
            v as u64
        } else {
            u64::MAX - ((-(v + 1)) as u64)
        };
        le_encode(bits, 8)
    }
}

impl AtomBody for Float {
    open spec fn spec_kind() -> ScalarKind {
        ScalarKind::Float
    }

    fn kind() -> (r: ScalarKind) {
        ScalarKind::Float
    }
}

impl ScalarAtomBody for Float {
    open spec fn spec_body(&self) -> Seq<u8> {
        le_bytes(self.bits as nat, 4)
    }

    proof fn lemma_body_size(&self) {
        lemma_le_bytes_len(self.bits as nat, 4);
    }

    fn body_bytes(&self) -> (r: Vec<u8>) {
        le_encode(self.bits as u64, 4)
    }
}

impl AtomBody for Double {
    open spec fn spec_kind() -> ScalarKind {
        ScalarKind::Double
    }

    fn kind() -> (r: ScalarKind) {
        ScalarKind::Double
    }
}

impl ScalarAtomBody for Double {
    open spec fn spec_body(&self) -> Seq<u8> {
        le_bytes(self.bits as nat, 8)
    }

    proof fn lemma_body_size(&self) {
        lemma_le_bytes_len(self.bits as nat, 8);
    }

    fn body_bytes(&self) -> (r: Vec<u8>) {
        le_encode(self.bits, 8)
    }
}

impl AtomBody for Urid {
    open spec fn spec_kind() -> ScalarKind {
        ScalarKind::Urid
    }

    fn kind() -> (r: ScalarKind) {
        ScalarKind::Urid
    }
}

impl ScalarAtomBody for Urid {
    open spec fn spec_body(&self) -> Seq<u8> {
        le_bytes(self.spec_raw() as nat, 4)
    }

    proof fn lemma_body_size(&self) {
        lemma_le_bytes_len(self.spec_raw() as nat, 4);
    }

    fn body_bytes(&self) -> (r: Vec<u8>) {
        le_encode(self.get() as u64, 4)
    }
}

impl AtomBody for bool {
    open spec fn spec_kind() -> ScalarKind {
        ScalarKind::Bool
    }

    fn kind() -> (r: ScalarKind) {
        ScalarKind::Bool
    }
}

impl ScalarAtomBody for bool {
    open spec fn spec_body(&self) -> Seq<u8> {
        seq![if *self { 1u8 } else { 0u8 }]
    }

    proof fn lemma_body_size(&self) {
    }

    fn body_bytes(&self) -> (r: Vec<u8>) {
        vec![if *self { 1u8 } else { 0u8 }]
    }
}

} // verus!
