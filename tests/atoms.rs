use lv2_atom_scalar::{
    le_encode, AtomBody, AtomOutputPort, Double, Float, MappedURIDs, RawWriter, ScalarAtomBody,
    ScalarKind, Urid, HEADER_SIZE,
};

fn id(raw: u32) -> Urid {
    Urid::new(raw).unwrap()
}

fn table(ids: [u32; 6]) -> MappedURIDs {
    MappedURIDs::new(id(ids[0]), id(ids[1]), id(ids[2]), id(ids[3]), id(ids[4]), id(ids[5]))
        .unwrap()
}

fn standard_table() -> MappedURIDs {
    table([7, 8, 9, 10, 11, 12])
}

fn write_alone<A: ScalarAtomBody>(value: A, capacity: usize) -> (Result<usize, ()>, AtomOutputPort) {
    let mut port = AtomOutputPort::new(vec![0xAAu8; capacity]);
    let r = port.write_atom(&value, &standard_table());
    (r, port)
}

#[test]
fn int_atom_in_a_64_byte_buffer() {
    let (r, port) = write_alone(0x0102_0304i32, 64);
    assert_eq!(r, Ok(8));
    let bytes = port.as_bytes();
    assert_eq!(&bytes[0..8], &[4, 0, 0, 0, 7, 0, 0, 0]);
    assert_eq!(&bytes[8..12], &0x0102_0304i32.to_le_bytes());
    assert_eq!(&bytes[12..16], &[0, 0, 0, 0]);
    assert!(bytes[16..].iter().all(|b| *b == 0xAA));
    assert_eq!(port.position(), 16);
}

#[test]
fn four_byte_buffer_takes_no_atom() {
    let (r, port) = write_alone(5i32, 4);
    assert_eq!(r, Err(()));
    assert_eq!(port.as_bytes(), &[0xAA; 4]);
    assert_eq!(port.position(), 0);
}

#[test]
fn every_kind_fails_without_room_for_a_header() {
    for cap in 0..HEADER_SIZE {
        assert_eq!(write_alone(1i32, cap).0, Err(()));
        assert_eq!(write_alone(1i64, cap).0, Err(()));
        assert_eq!(write_alone(Float { bits: 1.5f32.to_bits() }, cap).0, Err(()));
        assert_eq!(write_alone(Double { bits: 1.5f64.to_bits() }, cap).0, Err(()));
        assert_eq!(write_alone(id(3), cap).0, Err(()));
        let (r, port) = write_alone(true, cap);
        assert_eq!(r, Err(()));
        assert_eq!(port.as_bytes(), vec![0xAAu8; cap].as_slice());
    }
}

#[test]
fn header_without_room_for_body_is_not_written() {
    for cap in HEADER_SIZE..HEADER_SIZE + 4 {
        let (r, port) = write_alone(-1i32, cap);
        assert_eq!(r, Err(()));
        assert_eq!(port.as_bytes(), vec![0xAAu8; cap].as_slice());
        assert_eq!(port.position(), 0);
    }
    for cap in HEADER_SIZE..HEADER_SIZE + 8 {
        let (r, port) = write_alone(-1i64, cap);
        assert_eq!(r, Err(()));
        assert_eq!(port.as_bytes(), vec![0xAAu8; cap].as_slice());
        let (r, _) = write_alone(Double { bits: 0 }, cap);
        assert_eq!(r, Err(()));
    }
    let (r, port) = write_alone(false, HEADER_SIZE);
    assert_eq!(r, Err(()));
    assert_eq!(port.as_bytes(), vec![0xAAu8; HEADER_SIZE].as_slice());
}

#[test]
fn atom_without_room_for_padding_is_not_written() {
    let (r, port) = write_alone(9i32, 15);
    assert_eq!(r, Err(()));
    assert_eq!(port.as_bytes(), vec![0xAAu8; 15].as_slice());
    let (r, _) = write_alone(9i32, 16);
    assert_eq!(r, Ok(8));
}

#[test]
fn long_atom_is_twos_complement_little_endian() {
    let (r, port) = write_alone(-2i64, 16);
    assert_eq!(r, Ok(8));
    assert_eq!(&port.as_bytes()[0..8], &[8, 0, 0, 0, 8, 0, 0, 0]);
    assert_eq!(&port.as_bytes()[8..16], &[0xFE, 0xFF, 0xFF, 0xFF, 0xFF, 0xFF, 0xFF, 0xFF]);
    assert_eq!(port.position(), 16);
}

#[test]
fn negative_int_body() {
    let (_, port) = write_alone(-1i32, 16);
    assert_eq!(&port.as_bytes()[8..12], &[0xFF, 0xFF, 0xFF, 0xFF]);
}

#[test]
fn float_atoms_carry_their_bits() {
    let (r, port) = write_alone(Float { bits: 1.5f32.to_bits() }, 16);
    assert_eq!(r, Ok(8));
    assert_eq!(&port.as_bytes()[0..8], &[4, 0, 0, 0, 9, 0, 0, 0]);
    assert_eq!(&port.as_bytes()[8..12], &1.5f32.to_le_bytes());
    let (r, port) = write_alone(Double { bits: (-0.25f64).to_bits() }, 16);
    assert_eq!(r, Ok(8));
    assert_eq!(&port.as_bytes()[0..8], &[8, 0, 0, 0, 10, 0, 0, 0]);
    assert_eq!(&port.as_bytes()[8..16], &(-0.25f64).to_le_bytes());
}

#[test]
fn urid_and_bool_atoms() {
    let (r, port) = write_alone(id(0x0A0B), 16);
    assert_eq!(r, Ok(8));
    assert_eq!(&port.as_bytes()[0..12], &[4, 0, 0, 0, 11, 0, 0, 0, 0x0B, 0x0A, 0, 0]);
    let (r, port) = write_alone(true, 16);
    assert_eq!(r, Ok(8));
    assert_eq!(&port.as_bytes()[0..9], &[1, 0, 0, 0, 12, 0, 0, 0, 1]);
    assert_eq!(&port.as_bytes()[9..16], &[0; 7]);
    assert_eq!(port.position(), 16);
}

#[test]
fn atoms_follow_one_another() {
    let t = standard_table();
    let mut port = AtomOutputPort::new(vec![0u8; 32]);
    assert_eq!(port.write_atom(&3i32, &t), Ok(8));
    assert_eq!(port.write_atom(&true, &t), Ok(24));
    assert_eq!(port.position(), 32);
    assert_eq!(&port.as_bytes()[16..25], &[1, 0, 0, 0, 12, 0, 0, 0, 1]);
    assert_eq!(port.write_atom(&false, &t), Err(()));
    assert_eq!(port.position(), 32);
}

#[test]
fn finalized_port_takes_no_atom() {
    let mut port = AtomOutputPort::new(vec![0u8; 64]);
    port.finalize();
    assert!(port.is_finalized());
    assert_eq!(port.write_atom(&3i32, &standard_table()), Err(()));
    assert_eq!(port.as_bytes(), &[0u8; 64]);
}

#[test]
fn resolve_is_stable() {
    let t = standard_table();
    for kind in [
        ScalarKind::Int,
        ScalarKind::Long,
        ScalarKind::Float,
        ScalarKind::Double,
        ScalarKind::Urid,
        ScalarKind::Bool,
    ] {
        assert_eq!(t.resolve(kind), t.resolve(kind));
    }
    assert_eq!(t.resolve(ScalarKind::Int).get(), 7);
    assert_eq!(t.resolve(ScalarKind::Bool).get(), 12);
    assert_eq!(i32::get_urid(&t).get(), 7);
    assert_eq!(bool::get_urid(&t).get(), 12);
}

#[test]
fn tables_are_coherent_each_on_its_own() {
    let a = table([1, 2, 3, 4, 5, 6]);
    let b = table([60, 50, 40, 30, 20, 10]);
    assert_ne!(a.resolve(ScalarKind::Int), a.resolve(ScalarKind::Long));
    assert_ne!(b.resolve(ScalarKind::Int), b.resolve(ScalarKind::Long));
    assert_eq!(a.resolve(ScalarKind::Int).get(), 1);
    assert_eq!(b.resolve(ScalarKind::Int).get(), 60);
}

#[test]
fn table_with_a_shared_identifier_is_refused() {
    assert!(MappedURIDs::new(id(1), id(2), id(3), id(4), id(5), id(1)).is_none());
    assert!(MappedURIDs::new(id(1), id(2), id(3), id(3), id(5), id(6)).is_none());
}

#[test]
fn zero_is_no_identifier() {
    assert!(Urid::new(0).is_none());
    assert_eq!(Urid::new(42).map(|u| u.get()), Some(42));
}

#[test]
fn kinds_name_their_uris() {
    assert_eq!(i32::get_uri(), "http://lv2plug.in/ns/ext/atom#Int\0");
    assert_eq!(i64::get_uri(), "http://lv2plug.in/ns/ext/atom#Long\0");
    assert_eq!(Float::get_uri(), "http://lv2plug.in/ns/ext/atom#Float\0");
    assert_eq!(Double::get_uri(), "http://lv2plug.in/ns/ext/atom#Double\0");
    assert_eq!(Urid::get_uri(), "http://lv2plug.in/ns/ext/atom#URID\0");
    assert_eq!(bool::get_uri(), "http://lv2plug.in/ns/ext/atom#Bool\0");
    assert_eq!(ScalarKind::Long.body_size(), 8);
    assert_eq!(ScalarKind::Bool.body_size(), 1);
}

#[test]
fn little_endian_encoding() {
    assert_eq!(le_encode(0x0102_0304, 4), vec![4, 3, 2, 1]);
    assert_eq!(le_encode(0x1_0000_00FF, 2), vec![0xFF, 0]);
    assert_eq!(le_encode(7, 0), Vec::<u8>::new());
}

#[test]
fn raw_writer_pushes_header_then_body() {
    let t = standard_table();
    let mut w = RawWriter::new(vec![0xAAu8; 16]);
    assert_eq!(w.push_atom_header::<i64>(&t), Ok(()));
    assert_eq!(w.position(), 8);
    assert_eq!(w.write_sized(&[1, 2, 3], false), Ok((8, 3)));
    assert_eq!(w.position(), 11);
    assert_eq!(w.write_sized(&[9], true), Ok((11, 5)));
    assert_eq!(w.position(), 16);
    assert_eq!(w.as_bytes(), &[8, 0, 0, 0, 8, 0, 0, 0, 1, 2, 3, 9, 0, 0, 0, 0]);
    assert_eq!(w.write_sized(&[1], false), Err(()));
    assert_eq!(w.push_atom_header::<i32>(&t), Err(()));
    assert_eq!(w.capacity(), 16);
}

#[test]
fn construct_body_writes_value_aligned() {
    let mut w = RawWriter::new(vec![0xAAu8; 8]);
    assert_eq!(i32::construct_body(&mut w, &-2), Ok(0));
    assert_eq!(w.as_bytes(), &[0xFE, 0xFF, 0xFF, 0xFF, 0, 0, 0, 0]);
    assert_eq!(bool::construct_body(&mut w, &true), Err(()));
    assert_eq!(7i32.body_bytes(), vec![7, 0, 0, 0]);
}

#[test]
fn identifiers_from_a_registry_fill_a_coherent_table() {
    let map = urid::HashURIDMapper::new();
    let mut ids: Vec<Urid> = Vec::new();
    for kind in [
        ScalarKind::Int,
        ScalarKind::Long,
        ScalarKind::Float,
        ScalarKind::Double,
        ScalarKind::Urid,
        ScalarKind::Bool,
    ] {
        let uri = kind.uri();
        let raw = urid::Map::map_str(&map, &uri[..uri.len() - 1]).unwrap().get();
        ids.push(Urid::new(raw).unwrap());
    }
    let t = MappedURIDs::new(ids[0], ids[1], ids[2], ids[3], ids[4], ids[5]).unwrap();
    assert_eq!(t.resolve(ScalarKind::Int).get(), 1);
    assert_eq!(t.resolve(ScalarKind::Bool).get(), 6);
}
