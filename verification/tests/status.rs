use mpi::datatype::EquivalentDatatype;
use mpi::point_to_point::{RawStatus, Status, UNDEFINED};
use mpi::raw::DatatypeHandle;
use mpi::topology::Rank;
use mpi::{Tag, SUCCESS};

fn raw(bytes: usize) -> RawStatus {
    RawStatus { source: Rank::Process(3), tag: Tag::Value(11), error: 0, bytes }
}

#[test]
fn status_keeps_what_the_transport_reported() {
    let status = Status::from_raw(RawStatus {
        source: Rank::Process(2),
        tag: Tag::Value(42),
        error: 13,
        bytes: 24,
    });
    assert_eq!(status.source_rank(), Rank::Process(2));
    assert_eq!(status.tag(), Tag::Value(42));
    assert_eq!(status.error(), 13);
}

#[test]
fn status_of_the_null_process() {
    let status = Status::null_process();
    assert_eq!(status.source_rank(), Rank::NullProcess);
    assert_eq!(status.tag(), Tag::Any);
    assert_eq!(status.error(), SUCCESS);
    assert_eq!(status.count(u64::equivalent_datatype()), 0);
    assert_eq!(status.count(u8::equivalent_datatype()), 0);
}

#[test]
fn count_divides_the_bytes_by_the_element_size() {
    let status = Status::from_raw(raw(24));
    assert_eq!(status.count(u8::equivalent_datatype()), 24);
    assert_eq!(status.count(u16::equivalent_datatype()), 12);
    assert_eq!(status.count(i32::equivalent_datatype()), 6);
    assert_eq!(status.count(u64::equivalent_datatype()), 3);
}

#[test]
fn count_of_an_empty_message_is_zero() {
    let status = Status::from_raw(raw(0));
    assert_eq!(status.count(u64::equivalent_datatype()), 0);
}

#[test]
fn count_is_undefined_for_a_broken_element() {
    let status = Status::from_raw(raw(7));
    assert_eq!(status.count(u32::equivalent_datatype()), UNDEFINED);
    assert_eq!(status.count(u64::equivalent_datatype()), UNDEFINED);
    assert_eq!(status.count(u8::equivalent_datatype()), 7);
}

#[test]
fn count_with_elements_of_no_size() {
    let nothing = DatatypeHandle { id: 100, size: 0 };
    assert_eq!(Status::from_raw(raw(0)).count(nothing), 0);
    assert_eq!(Status::from_raw(raw(5)).count(nothing), UNDEFINED);
}

#[test]
fn count_is_undefined_beyond_what_a_count_can_express() {
    let most: usize = 0x7fff_ffff;
    assert_eq!(Status::from_raw(raw(most)).count(u8::equivalent_datatype()), 0x7fff_ffff);
    assert_eq!(Status::from_raw(raw(most + 1)).count(u8::equivalent_datatype()), UNDEFINED);
    assert_eq!(Status::from_raw(raw(2 * most)).count(u16::equivalent_datatype()), 0x7fff_ffff);
    assert_eq!(Status::from_raw(raw(2 * most + 2)).count(u16::equivalent_datatype()), UNDEFINED);
}

#[test]
fn undefined_is_negative() {
    assert!(UNDEFINED < 0);
}

#[test]
fn slots_are_the_count_as_a_size() {
    assert_eq!(mpi::point_to_point::slots::<u64>(&Status::from_raw(raw(40))), Some(5));
    assert_eq!(mpi::point_to_point::slots::<u8>(&Status::from_raw(raw(40))), Some(40));
    assert_eq!(mpi::point_to_point::slots::<u64>(&Status::from_raw(raw(0))), Some(0));
    assert_eq!(mpi::point_to_point::slots::<u64>(&Status::null_process()), Some(0));
}

#[test]
fn no_slots_for_an_undefined_count() {
    assert_eq!(mpi::point_to_point::slots::<u64>(&Status::from_raw(raw(41))), None);
    assert_eq!(mpi::point_to_point::slots::<u8>(&Status::from_raw(raw(0x8000_0000))), None);
}
