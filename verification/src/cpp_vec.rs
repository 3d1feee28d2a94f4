//! A byte vector in the representation the foreign component expects,
//! created inside a container of any strategy.

use vstd::prelude::*;

use crate::container::Container;
use crate::moveable::Moveable;

verus! {

/// A contiguous run of bytes, as the foreign component's character vector
/// holds it.
#[derive(Debug)]
pub struct VecChar {
    data: Vec<u8>,
}

impl VecChar {
    /// The bytes the vector holds, in order.
    pub closed spec fn bytes(&self) -> Seq<u8> {
        self.data@
    }

    /// How many bytes the vector holds.
    pub fn len(&self) -> (n: usize)
        ensures
            n == self.bytes().len(),
    {
        self.data.len()
    }

    /// Allocates a new character vector holding the given bytes, inside a
    /// container created from the given allocator.
    pub fn from_bytes_in<C: Container<Inner = VecChar>>(allocator: C::Allocator, data: &[u8]) -> (c:
        C)
        ensures
            c.inner_value().bytes() == data@,
    {
        let mut copied: Vec<u8> = Vec::new();
        let mut i: usize = 0;
        while i < data.len()
            invariant
                i <= data@.len(),
                copied@ == data@.take(i as int),
            decreases data@.len() - i,
        {
            copied.push(data[i]);
            proof {
                assert(copied@ =~= data@.take(i + 1));
            }
            i = i + 1;
        }
        proof {
            assert(data@.take(data@.len() as int) =~= data@);
        }
        C::init_value(allocator, VecChar { data: copied })
    }

    /// Same as [`VecChar::from_bytes_in`], with the allocator taken from
    /// its `Default` implementation.
    pub fn from_bytes<C: Container<Inner = VecChar>>(bytes: &[u8]) -> (c: C) where
        C::Allocator: Default,

        ensures
            c.inner_value().bytes() == bytes@,
    {
        Self::from_bytes_in(C::Allocator::default(), bytes)
    }
}

impl Moveable for VecChar {
    fn mv(self) -> (r: Self) {
        self
    }
}

} // verus!
