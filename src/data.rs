//! Typed host data that supplies the raw bytes of a buffer upload.
use vstd::prelude::*;

verus! {

/// Anything that can hand out its contents as raw bytes for an upload.
pub trait BatchDataTrait {
    fn get_data_bytes(&self) -> &[u8];
}

/// A contiguous array of plain values.
pub struct BatchData<T> {
    pub array: Vec<T>,
}

impl<T> BatchData<T> {
    /// The array's size in bytes.
    pub open spec fn byte_len(&self) -> nat {
        self.array@.len() * vstd::layout::size_of::<T>()
    }

    /// The number of bytes the array occupies.
    pub fn size_of(&self) -> (r: usize)
        requires
            self.byte_len() <= usize::MAX,
        ensures
            r as nat == self.byte_len(),
    {
        let n = self.array.len();
        let w = core::mem::size_of::<T>();
        proof {
            vstd::arithmetic::mul::lemma_mul_upper_bound(n as int, n as int, w as int, w as int);
        }
        n * w
    }
}

} // verus!
