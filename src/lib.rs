//! Typed scalar atoms: values tagged with a runtime-resolved type identifier
//! and written, header first, into a bounds-checked output buffer.

mod atom;
mod encoding;
mod identifiers;
mod port;
mod writer;

pub use atom::{AtomBody, Double, Float, ScalarAtomBody};
pub use encoding::{le_bytes, le_encode, twos_complement, zeros};
pub use identifiers::{
    lemma_resolve_stable, lemma_tables_self_coherent, pairwise_distinct, MappedURIDs, ScalarKind,
    Urid,
};
pub use port::{
    atom_data, atom_header, lemma_atom_layout, lemma_no_room_for_body, lemma_no_room_for_header,
    AtomOutputPort,
};
pub use writer::{header_bytes, padding, splice, RawWriter, ALIGNMENT, HEADER_SIZE};
