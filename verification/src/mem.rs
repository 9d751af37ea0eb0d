//! The memory that values take: the size of the value itself plus what it owns on the heap.

use vstd::prelude::*;
use vstd::layout::size_of;

use std::rc::Rc;
use std::sync::Arc;

verus! {

/// Values whose memory use can be told.
pub trait MemSize {
    /// The memory the value takes, in bytes.
    spec fn spec_mem_size(&self) -> nat;

    /// Returns the memory the value takes, in bytes.
    fn mem_size(&self) -> (r: usize)
        requires
            self.spec_mem_size() <= usize::MAX,
        ensures
            r == self.spec_mem_size(),
    ;
}

impl MemSize for () {
    open spec fn spec_mem_size(&self) -> nat {
        size_of::<()>()
    }

    fn mem_size(&self) -> (r: usize) {
        core::mem::size_of::<()>()
    }
}

impl MemSize for bool {
    open spec fn spec_mem_size(&self) -> nat {
        size_of::<bool>()
    }

    fn mem_size(&self) -> (r: usize) {
        core::mem::size_of::<bool>()
    }
}

impl MemSize for u8 {
    open spec fn spec_mem_size(&self) -> nat {
        size_of::<u8>()
    }

    fn mem_size(&self) -> (r: usize) {
        core::mem::size_of::<u8>()
    }
}

impl MemSize for u16 {
    open spec fn spec_mem_size(&self) -> nat {
        size_of::<u16>()
    }

    fn mem_size(&self) -> (r: usize) {
        core::mem::size_of::<u16>()
    }
}

impl MemSize for u32 {
    open spec fn spec_mem_size(&self) -> nat {
        size_of::<u32>()
    }

    fn mem_size(&self) -> (r: usize) {
        core::mem::size_of::<u32>()
    }
}

impl MemSize for u64 {
    open spec fn spec_mem_size(&self) -> nat {
        size_of::<u64>()
    }

    fn mem_size(&self) -> (r: usize) {
        core::mem::size_of::<u64>()
    }
}

impl MemSize for u128 {
    open spec fn spec_mem_size(&self) -> nat {
        size_of::<u128>()
    }

    fn mem_size(&self) -> (r: usize) {
        core::mem::size_of::<u128>()
    }
}

impl MemSize for i8 {
    open spec fn spec_mem_size(&self) -> nat {
        size_of::<i8>()
    }

    fn mem_size(&self) -> (r: usize) {
        core::mem::size_of::<i8>()
    }
}

impl MemSize for i16 {
    open spec fn spec_mem_size(&self) -> nat {
        size_of::<i16>()
    }

    fn mem_size(&self) -> (r: usize) {
        core::mem::size_of::<i16>()
    }
}

impl MemSize for i32 {
    open spec fn spec_mem_size(&self) -> nat {
        size_of::<i32>()
    }

    fn mem_size(&self) -> (r: usize) {
        core::mem::size_of::<i32>()
    }
}

impl MemSize for i64 {
    open spec fn spec_mem_size(&self) -> nat {
        size_of::<i64>()
    }

    fn mem_size(&self) -> (r: usize) {
        core::mem::size_of::<i64>()
    }
}

impl MemSize for i128 {
    open spec fn spec_mem_size(&self) -> nat {
        size_of::<i128>()
    }

    fn mem_size(&self) -> (r: usize) {
        core::mem::size_of::<i128>()
    }
}

impl MemSize for char {
    open spec fn spec_mem_size(&self) -> nat {
        size_of::<char>()
    }

    fn mem_size(&self) -> (r: usize) {
        core::mem::size_of::<char>()
    }
}

impl MemSize for usize {
    open spec fn spec_mem_size(&self) -> nat {
        size_of::<usize>()
    }

    fn mem_size(&self) -> (r: usize) {
        core::mem::size_of::<usize>()
    }
}

impl MemSize for isize {
    open spec fn spec_mem_size(&self) -> nat {
        size_of::<isize>()
    }

    fn mem_size(&self) -> (r: usize) {
        core::mem::size_of::<isize>()
    }
}

impl MemSize for String {
    /// The string itself and its bytes.
    open spec fn spec_mem_size(&self) -> nat {
        size_of::<String>() + vstd::utf8::encode_utf8(self@).len()
    }

    fn mem_size(&self) -> (r: usize) {
        core::mem::size_of::<String>() + self.as_str().as_bytes().len()
    }
}

impl<T: MemSize> MemSize for Rc<T> {
    /// The pointer and the value it points to.
    open spec fn spec_mem_size(&self) -> nat {
        size_of::<Rc<T>>() + (**self).spec_mem_size()
    }

    fn mem_size(&self) -> (r: usize) {
        let val: &T = &**self;
        core::mem::size_of::<Rc<T>>() + val.mem_size()
    }
}

impl<T: MemSize> MemSize for Arc<T> {
    /// The pointer and the value it points to.
    open spec fn spec_mem_size(&self) -> nat {
        size_of::<Arc<T>>() + (**self).spec_mem_size()
    }

    fn mem_size(&self) -> (r: usize) {
        let val: &T = &**self;
        core::mem::size_of::<Arc<T>>() + val.mem_size()
    }
}

/// The memory that the values take together.
pub open spec fn sizes_sum<T: MemSize>(s: Seq<T>) -> nat
    decreases s.len(),
{
    if s.len() == 0 {
        0
    } else {
        sizes_sum(s.drop_last()) + s.last().spec_mem_size()
    }
}

/// The memory of a prefix of values is at most that of all.
proof fn lemma_sizes_sum_prefix<T: MemSize>(s: Seq<T>, i: int)
    requires
        0 <= i <= s.len(),
    ensures
        sizes_sum(s.take(i)) <= sizes_sum(s),
    decreases s.len() - i,
{
    if i < s.len() {
        lemma_sizes_sum_prefix(s, i + 1);
        assert(s.take(i + 1).drop_last() =~= s.take(i));
    } else {
        assert(s.take(i) =~= s);
    }
}

impl<T: MemSize> MemSize for Vec<T> {
    /// The vector itself and its elements.
    open spec fn spec_mem_size(&self) -> nat {
        size_of::<Vec<T>>() + sizes_sum(self@)
    }

    fn mem_size(&self) -> (r: usize) {
        let mut total: usize = 0;
        let mut i: usize = 0;
        while i < self.len()
            invariant
                i <= self@.len(),
                total == sizes_sum(self@.take(i as int)),
                size_of::<Vec<T>>() + sizes_sum(self@) <= usize::MAX,
            decreases self@.len() - i,
        {
            proof {
                assert(self@.take(i + 1).drop_last() =~= self@.take(i as int));
                lemma_sizes_sum_prefix(self@, i + 1);
            }
            total = total + self[i].mem_size();
            i += 1;
        }
        proof {
            assert(self@.take(i as int) =~= self@);
        }
        core::mem::size_of::<Vec<T>>() + total
    }
}

impl<T: MemSize> MemSize for Option<T> {
    /// The option itself and the value it holds, if any.
    open spec fn spec_mem_size(&self) -> nat {
        size_of::<Option<T>>() + match self {
            Some(e) => e.spec_mem_size(),
            None => 0,
        }
    }

    fn mem_size(&self) -> (r: usize) {
        let stack = core::mem::size_of::<Option<T>>();
        match self {
            Some(e) => stack + e.mem_size(),
            None => stack,
        }
    }
}

impl<A: MemSize> MemSize for (A,) {
    /// The tuple itself and what its element owns.
    open spec fn spec_mem_size(&self) -> nat {
        size_of::<(A,)>() + self.0.spec_mem_size()
    }

    fn mem_size(&self) -> (r: usize) {
        core::mem::size_of::<(A,)>() + self.0.mem_size()
    }
}

impl<A: MemSize, B: MemSize> MemSize for (A, B) {
    /// The tuple itself and what its elements own.
    open spec fn spec_mem_size(&self) -> nat {
        size_of::<(A, B)>() + self.0.spec_mem_size() + self.1.spec_mem_size()
    }

    fn mem_size(&self) -> (r: usize) {
        core::mem::size_of::<(A, B)>() + self.0.mem_size() + self.1.mem_size()
    }
}

impl<A: MemSize, B: MemSize, C: MemSize> MemSize for (A, B, C) {
    /// The tuple itself and what its elements own.
    open spec fn spec_mem_size(&self) -> nat {
        size_of::<(A, B, C)>() + self.0.spec_mem_size() + self.1.spec_mem_size()
            + self.2.spec_mem_size()
    }

    fn mem_size(&self) -> (r: usize) {
        core::mem::size_of::<(A, B, C)>() + self.0.mem_size() + self.1.mem_size()
            + self.2.mem_size()
    }
}

} // verus!
