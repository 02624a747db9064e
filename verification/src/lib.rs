//! Point-to-point message passing between ranked processes, written so that
//! every decision the messaging layer takes is stated and proved.
//!
//! The layer never touches the wire itself.  Each operation is split into the
//! request it puts to the transport (a [`point_to_point::Call`]) and the
//! reading of what the transport answered.  Whoever owns the wire performs the
//! call and hands the answer back as plain values.

use vstd::prelude::*;

pub mod raw;
pub mod datatype;
pub mod topology;
pub mod request;
pub mod point_to_point;

verus! {

/// An error code of the transport.  Zero is success.
pub type Error = libc::c_int;

/// The code that stands for success.
pub const SUCCESS: Error = 0;

/// The label that an application puts on a message to tell it apart from
/// others between the same two processes.
///
/// `Any` matches every label and is meaningful only where a message is
/// received or probed.
#[derive(Clone, Copy, Debug, PartialEq, Eq, Structural)]
pub enum Tag {
    Value(i32),
    Any,
}

impl Tag {
    /// Whether a receive or probe posted for `self` takes a message that
    /// was sent with the label `label`: the wildcard takes every label, a
    /// label only itself.
    pub open spec fn accepts(self, label: i32) -> bool {
        self is Any || self == Tag::Value(label)
    }

    /// Whether a receive or probe posted for `self` takes a message that
    /// was sent with the label `label`.
    pub fn takes(&self, label: i32) -> (b: bool)
        ensures
            b == self.accepts(label),
    {
        match *self {
            Tag::Any => true,
            Tag::Value(value) => value == label,
        }
    }
}

impl Default for Tag {
    fn default() -> (tag: Tag)
        ensures
            tag == Tag::Value(0),
    {
        Tag::Value(0)
    }
}

} // verus!
