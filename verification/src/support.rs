//! Small supporting utilities: the floating-point-mode guard records kept
//! around the solver's hot loops, the scalar marker trait, and simultaneous
//! two-index access into a vector.

use vstd::prelude::*;

verus! {

/// Marker trait of the scalar type the solver computes with.
pub trait WReal: Sized {
    /// The scalar zero.
    fn w_zero() -> Self;

    /// The scalar one.
    fn w_one() -> Self;
}

impl WReal for i64 {
    fn w_zero() -> (r: i64)
        ensures
            r == 0,
    {
        0
    }

    fn w_one() -> (r: i64)
        ensures
            r as int == crate::fx::FX_ONE as int,
    {
        crate::fx::FX_ONE
    }
}

/// Record of the machine's denormal-handling mode around a solver pass. The
/// solver's fixed-point arithmetic has no denormals, so nothing is changed
/// and nothing has to be restored: the recorded previous mode is empty.
#[derive(Clone, Debug, PartialEq, Eq, Structural)]
pub struct FlushToZeroDenormalsAreZeroFlags {
    /// The mode word in force before this record was taken.
    pub original_flags: u32,
}

impl FlushToZeroDenormalsAreZeroFlags {
    /// Enters flush-to-zero mode for the scope of the returned record.
    pub fn flush_denormal_to_zero() -> (r: FlushToZeroDenormalsAreZeroFlags)
        ensures
            r.original_flags == 0,
    {
        FlushToZeroDenormalsAreZeroFlags { original_flags: 0 }
    }
}

/// Record of the machine's floating-point-exception mode around a solver
/// pass; as with denormals, fixed-point arithmetic raises none, so the
/// record is empty.
#[derive(Clone, Debug, PartialEq, Eq, Structural)]
pub struct DisableFloatingPointExceptionsFlags {
    /// The mode word in force before this record was taken.
    pub original_flags: u32,
}

impl DisableFloatingPointExceptionsFlags {
    /// Disables floating point exceptions as long as this object is kept.
    pub fn disable_floating_point_exceptions() -> (r: DisableFloatingPointExceptionsFlags)
        ensures
            r.original_flags == 0,
    {
        DisableFloatingPointExceptionsFlags { original_flags: 0 }
    }
}

/// Methods for simultaneously reading a container at two distinct indices.
pub trait IndexMut2 {
    /// The element type.
    type Output;

    /// The number of elements the container holds.
    spec fn dom2(&self) -> int;

    /// The element at an index.
    spec fn at2(&self, i: int) -> Self::Output;

    /// Reads the elements at two distinct indices.
    fn index2(&self, i: usize, j: usize) -> (r: (Self::Output, Self::Output))
        requires
            i != j,
            (i as int) < self.dom2(),
            (j as int) < self.dom2(),
        ensures
            r.0 == self.at2(i as int),
            r.1 == self.at2(j as int),
    ;
}

impl<T: Copy> IndexMut2 for Vec<T> {
    type Output = T;

    open spec fn dom2(&self) -> int {
        self@.len() as int
    }

    open spec fn at2(&self, i: int) -> T {
        self@[i]
    }

    /// Reads the elements at two distinct indices.
    fn index2(&self, i: usize, j: usize) -> (r: (T, T)) {
        (self[i], self[j])
    }
}

} // verus!
