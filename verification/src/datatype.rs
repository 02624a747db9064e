//! How application values describe themselves to the transport: which
//! datatype an element has, how many elements a buffer holds, and how a
//! delivered payload is stored into a buffer.

use vstd::prelude::*;
use crate::raw::DatatypeHandle;

verus! {

/// A number of elements, as the transport counts them.
pub type Count = libc::c_int;

/// The largest number of elements that one message can be described with.
pub open spec fn max_count() -> int {
    0x7fff_ffff
}

/// A value type that can travel as one element of a message.
pub trait EquivalentDatatype: Sized {
    /// The descriptor of this type, as contracts see it.
    spec fn descriptor() -> DatatypeHandle;

    /// The descriptor of this type.
    fn equivalent_datatype() -> (d: DatatypeHandle)
        ensures
            d == Self::descriptor(),
    ;
}

impl EquivalentDatatype for bool {
    open spec fn descriptor() -> DatatypeHandle {
        DatatypeHandle { id: 1, size: 1 }
    }

    fn equivalent_datatype() -> (d: DatatypeHandle) {
        DatatypeHandle { id: 1, size: 1 }
    }
}

impl EquivalentDatatype for u8 {
    open spec fn descriptor() -> DatatypeHandle {
        DatatypeHandle { id: 2, size: 1 }
    }

    fn equivalent_datatype() -> (d: DatatypeHandle) {
        DatatypeHandle { id: 2, size: 1 }
    }
}

impl EquivalentDatatype for i8 {
    open spec fn descriptor() -> DatatypeHandle {
        DatatypeHandle { id: 3, size: 1 }
    }

    fn equivalent_datatype() -> (d: DatatypeHandle) {
        DatatypeHandle { id: 3, size: 1 }
    }
}

impl EquivalentDatatype for u16 {
    open spec fn descriptor() -> DatatypeHandle {
        DatatypeHandle { id: 4, size: 2 }
    }

    fn equivalent_datatype() -> (d: DatatypeHandle) {
        DatatypeHandle { id: 4, size: 2 }
    }
}

impl EquivalentDatatype for i16 {
    open spec fn descriptor() -> DatatypeHandle {
        DatatypeHandle { id: 5, size: 2 }
    }

    fn equivalent_datatype() -> (d: DatatypeHandle) {
        DatatypeHandle { id: 5, size: 2 }
    }
}

impl EquivalentDatatype for u32 {
    open spec fn descriptor() -> DatatypeHandle {
        DatatypeHandle { id: 6, size: 4 }
    }

    fn equivalent_datatype() -> (d: DatatypeHandle) {
        DatatypeHandle { id: 6, size: 4 }
    }
}

impl EquivalentDatatype for i32 {
    open spec fn descriptor() -> DatatypeHandle {
        DatatypeHandle { id: 7, size: 4 }
    }

    fn equivalent_datatype() -> (d: DatatypeHandle) {
        DatatypeHandle { id: 7, size: 4 }
    }
}

impl EquivalentDatatype for u64 {
    open spec fn descriptor() -> DatatypeHandle {
        DatatypeHandle { id: 8, size: 8 }
    }

    fn equivalent_datatype() -> (d: DatatypeHandle) {
        DatatypeHandle { id: 8, size: 8 }
    }
}

impl EquivalentDatatype for i64 {
    open spec fn descriptor() -> DatatypeHandle {
        DatatypeHandle { id: 9, size: 8 }
    }

    fn equivalent_datatype() -> (d: DatatypeHandle) {
        DatatypeHandle { id: 9, size: 8 }
    }
}

/// A region of application memory that a message can be read from.
pub trait Buffer {
    /// The type of one element.
    type Elem: EquivalentDatatype;

    /// The elements held, in order.
    spec fn contents(&self) -> Seq<Self::Elem>;

    /// The number of elements held.  A buffer with more elements than a
    /// `Count` can express cannot be described to the transport.
    fn count(&self) -> (n: Count)
        requires
            self.contents().len() <= max_count(),
        ensures
            n == self.contents().len(),
    ;

    /// The datatype of each element.
    fn datatype(&self) -> (d: DatatypeHandle)
        ensures
            d == <Self::Elem as EquivalentDatatype>::descriptor(),
    ;
}

/// A region of application memory that a message can be written into.
pub trait BufferMut: Buffer {
    /// Stores a delivered payload at the front of the buffer.  What lies
    /// behind the payload keeps its value.  A payload longer than the buffer
    /// must have been rejected before it gets here.
    fn store(&mut self, payload: Vec<Self::Elem>)
        requires
            payload@.len() <= old(self).contents().len(),
        ensures
            final(self).contents() == stored(old(self).contents(), payload@),
    ;
}

/// What a buffer holds after `payload` was stored at its front.
pub open spec fn stored<T>(before: Seq<T>, payload: Seq<T>) -> Seq<T> {
    payload + before.skip(payload.len() as int)
}

impl<T: EquivalentDatatype> Buffer for T {
    type Elem = T;

    open spec fn contents(&self) -> Seq<T> {
        seq![*self]
    }

    fn count(&self) -> (n: Count) {
        1
    }

    fn datatype(&self) -> (d: DatatypeHandle) {
        T::equivalent_datatype()
    }
}

impl<T: EquivalentDatatype> BufferMut for T {
    fn store(&mut self, payload: Vec<T>) {
        let mut payload = payload;
        let ghost before = *self;
        match payload.pop() {
            Some(value) => {
                *self = value;
                assert(seq![value] =~= stored(seq![before], seq![value]));
                assert(old(self).contents() == seq![before]);
                assert(payload@.len() == 0);
            },
            None => {
                assert(seq![before] =~= stored(seq![before], Seq::<T>::empty()));
            },
        }
    }
}

impl<T: EquivalentDatatype> Buffer for Vec<T> {
    type Elem = T;

    open spec fn contents(&self) -> Seq<T> {
        self@
    }

    fn count(&self) -> (n: Count) {
        self.len() as Count
    }

    fn datatype(&self) -> (d: DatatypeHandle) {
        T::equivalent_datatype()
    }
}

impl<T: EquivalentDatatype> BufferMut for Vec<T> {
    fn store(&mut self, payload: Vec<T>) {
        let ghost delivered = payload@;
        let mut front = payload;
        let mut rest = self.split_off(front.len());
        front.append(&mut rest);
        *self = front;
        assert(self@ =~= stored(old(self)@, delivered));
    }
}

impl<T: EquivalentDatatype> Buffer for [T] {
    type Elem = T;

    open spec fn contents(&self) -> Seq<T> {
        self@
    }

    fn count(&self) -> (n: Count) {
        self.len() as Count
    }

    fn datatype(&self) -> (d: DatatypeHandle) {
        T::equivalent_datatype()
    }
}

impl<T: EquivalentDatatype> BufferMut for [T] {
    fn store(&mut self, payload: Vec<T>) {
        let ghost before = self@;
        let ghost delivered = payload@;
        let mut rest = payload;
        let mut i: usize = rest.len();
        while i > 0
            invariant
                i == rest@.len(),
                i <= delivered.len() <= self@.len(),
                self@.len() == before.len(),
                rest@ =~= delivered.take(i as int),
                forall|k: int| 0 <= k < i ==> self@[k] == before[k],
                forall|k: int| i <= k < delivered.len() ==> self@[k] == delivered[k],
                forall|k: int| delivered.len() <= k < before.len() ==> self@[k] == before[k],
            decreases i,
        {
            match rest.pop() {
                Some(value) => {
                    i = i - 1;
                    self[i] = value;
                },
                None => {},
            }
        }
        assert(self@ =~= stored(before, delivered));
    }
}

} // verus!
