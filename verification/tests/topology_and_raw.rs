use mpi::datatype::{Buffer, BufferMut, EquivalentDatatype};
use mpi::raw::{AsRaw, AsRawMut, CommHandle, DatatypeHandle, MessageHandle, RequestHandle};
use mpi::request::PlainRequest;
use mpi::point_to_point::Message;
use mpi::topology::{Rank, SystemCommunicator};
use mpi::Tag;

#[test]
fn communicator_needs_a_rank_inside_its_size() {
    assert!(SystemCommunicator::new(CommHandle(1), 4, 0).is_some());
    assert!(SystemCommunicator::new(CommHandle(1), 4, 3).is_some());
    assert!(SystemCommunicator::new(CommHandle(1), 4, 4).is_none());
    assert!(SystemCommunicator::new(CommHandle(1), 4, -1).is_none());
    assert!(SystemCommunicator::new(CommHandle(1), 0, 0).is_none());
}

#[test]
fn communicator_reports_handle_size_and_rank() {
    let world = SystemCommunicator::new(CommHandle(17), 8, 5).unwrap();
    assert_eq!(world.as_raw(), CommHandle(17));
    assert_eq!(world.size(), 8);
    assert_eq!(world.rank(), 5);
}

#[test]
fn process_at_rank_only_inside_the_communicator() {
    let world = SystemCommunicator::new(CommHandle(2), 3, 1).unwrap();
    let last = world.process_at_rank(2).unwrap();
    assert_eq!(last.rank(), Rank::Process(2));
    assert_eq!(last.as_raw(), CommHandle(2));
    assert!(world.process_at_rank(3).is_none());
    assert!(world.process_at_rank(-1).is_none());
}

#[test]
fn null_process_belongs_to_its_communicator() {
    let world = SystemCommunicator::new(CommHandle(9), 2, 0).unwrap();
    let nobody = world.null_process();
    assert_eq!(nobody.rank(), Rank::NullProcess);
    assert_eq!(nobody.as_raw(), CommHandle(9));
}

#[test]
fn a_reference_identifies_as_what_it_points_to() {
    let world = SystemCommunicator::new(CommHandle(33), 2, 1).unwrap();
    let borrowed = &world;
    assert_eq!(AsRaw::as_raw(&borrowed), CommHandle(33));
}

#[test]
fn wildcard_rank_takes_every_sender() {
    assert!(Rank::AnySource.takes(0));
    assert!(Rank::AnySource.takes(41));
    assert!(Rank::Process(3).takes(3));
    assert!(!Rank::Process(3).takes(4));
    assert!(!Rank::NullProcess.takes(0));
}

#[test]
fn wildcard_tag_takes_every_label() {
    assert!(Tag::Any.takes(0));
    assert!(Tag::Any.takes(99));
    assert!(Tag::Value(7).takes(7));
    assert!(!Tag::Value(7).takes(8));
}

#[test]
fn default_tag_is_zero() {
    assert_eq!(Tag::default(), Tag::Value(0));
}

#[test]
fn request_lends_its_handle_for_overwriting() {
    let mut request = PlainRequest(RequestHandle(5));
    assert_eq!(request.as_raw(), RequestHandle(5));
    *request.as_raw_mut() = RequestHandle(6);
    assert_eq!(request.as_raw(), RequestHandle(6));
}

#[test]
fn message_lends_its_handle_for_overwriting() {
    let mut message = Message::from_raw(MessageHandle::Reserved(12));
    assert_eq!(message.as_raw(), MessageHandle::Reserved(12));
    *message.as_raw_mut() = MessageHandle::Null;
    assert_eq!(message.as_raw(), MessageHandle::Null);
    assert!(message.release().is_ok());
}

#[test]
fn descriptors_give_the_size_of_one_element() {
    assert_eq!(bool::equivalent_datatype().size, 1);
    assert_eq!(u8::equivalent_datatype().size, 1);
    assert_eq!(i8::equivalent_datatype().size, 1);
    assert_eq!(u16::equivalent_datatype().size, 2);
    assert_eq!(i16::equivalent_datatype().size, 2);
    assert_eq!(u32::equivalent_datatype().size, 4);
    assert_eq!(i32::equivalent_datatype().size, 4);
    assert_eq!(u64::equivalent_datatype().size, 8);
    assert_eq!(i64::equivalent_datatype().size, 8);
}

#[test]
fn descriptors_of_different_types_differ() {
    let all = [
        bool::equivalent_datatype(),
        u8::equivalent_datatype(),
        i8::equivalent_datatype(),
        u16::equivalent_datatype(),
        i16::equivalent_datatype(),
        u32::equivalent_datatype(),
        i32::equivalent_datatype(),
        u64::equivalent_datatype(),
        i64::equivalent_datatype(),
    ];
    for i in 0..all.len() {
        for j in 0..all.len() {
            assert_eq!(i == j, all[i] == all[j]);
        }
    }
}

#[test]
fn a_descriptor_identifies_as_itself() {
    let d = DatatypeHandle { id: 6, size: 4 };
    assert_eq!(d.as_raw(), d);
}

#[test]
fn a_single_value_is_a_buffer_of_one_element() {
    let x: u64 = 77;
    assert_eq!(x.count(), 1);
    assert_eq!(x.datatype(), u64::equivalent_datatype());
}

#[test]
fn a_vec_is_a_buffer_of_its_elements() {
    let v: Vec<i16> = vec![1, 2, 3];
    assert_eq!(v.count(), 3);
    assert_eq!(v.datatype(), i16::equivalent_datatype());
    let empty: Vec<i16> = Vec::new();
    assert_eq!(empty.count(), 0);
}

#[test]
fn a_slice_is_a_buffer_of_its_elements() {
    let v: Vec<u32> = vec![1, 2, 3, 4];
    assert_eq!(v[1..].count(), 3);
    assert_eq!(v[..].datatype(), u32::equivalent_datatype());
}

#[test]
fn storing_into_a_single_value_replaces_it() {
    let mut x: i32 = 5;
    x.store(vec![9]);
    assert_eq!(x, 9);
    x.store(vec![]);
    assert_eq!(x, 9);
}

#[test]
fn storing_into_a_vec_overwrites_the_front() {
    let mut v: Vec<u8> = vec![1, 2, 3, 4];
    v.store(vec![9, 8]);
    assert_eq!(v, vec![9, 8, 3, 4]);
    v.store(vec![]);
    assert_eq!(v, vec![9, 8, 3, 4]);
    v.store(vec![5, 6, 7, 8]);
    assert_eq!(v, vec![5, 6, 7, 8]);
}

#[test]
fn storing_into_a_slice_overwrites_the_front() {
    let mut v: Vec<u16> = vec![1, 2, 3, 4, 5];
    v[1..4].store(vec![70, 80]);
    assert_eq!(v, vec![1, 70, 80, 4, 5]);
    v[..].store(vec![9, 9, 9, 9, 9]);
    assert_eq!(v, vec![9, 9, 9, 9, 9]);
}
