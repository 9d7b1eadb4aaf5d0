//! Articulated multibodies: a kinematic tree of links sharing generalized
//! coordinates, an augmented mass matrix kept in LDL^T-factorised form, and
//! the generic velocity constraints that act on the generalized lambda
//! vector through a shared dense Jacobian buffer.

use vstd::prelude::*;

use crate::fx::{fx_add, fx_add_v, fx_mul, fx_mul_v, fx_sub, fx_sub_v, inv, inv_v};

verus! {

/// An LDL^T factorisation of a symmetric positive-definite matrix: a unit
/// lower triangle `l` (row-major, diagonal ignored) and a diagonal `d`.
pub struct LdltFactor {
    /// Dimension of the factored matrix.
    pub dim: usize,
    /// Row-major strict lower triangle of `L`.
    pub l: Vec<i64>,
    /// Diagonal of `D`.
    pub d: Vec<i64>,
}

/// Well-formedness of a factor: storage sized to its dimension.
pub open spec fn ldlt_wf(f: LdltFactor, n: int) -> bool {
    &&& f.dim == n
    &&& f.l@.len() == n * n
    &&& f.d@.len() == n
}

/// The exact partial dot product of the strict lower part of row `r` of `L`
/// against `y`, over columns `[0, c)`.
pub open spec fn row_dot_lower_s(l: Seq<i64>, n: int, r: int, y: Seq<i64>, c: int) -> int
    decreases c,
{
    if c <= 0 {
        0
    } else {
        fx_add_v(
            row_dot_lower_s(l, n, r, y, c - 1),
            fx_mul_v(l[r * n + (c - 1)] as int, y[c - 1] as int),
        )
    }
}

/// The exact state of the forward substitution after its first `k` rows.
pub open spec fn fwd_rows_s(l: Seq<i64>, n: int, b: Seq<i64>, k: int) -> Seq<i64>
    decreases k,
{
    if k <= 0 {
        b
    } else {
        let prev = fwd_rows_s(l, n, b, k - 1);
        prev.update(
            k - 1,
            fx_sub_v(prev[k - 1] as int, row_dot_lower_s(l, n, k - 1, prev, k - 1)) as i64,
        )
    }
}

/// The exact state of the diagonal scaling after its first `k` rows: each
/// entry multiplied by the inverse of the corresponding diagonal element.
pub open spec fn diag_rows_s(d: Seq<i64>, y: Seq<i64>, k: int) -> Seq<i64>
    decreases k,
{
    if k <= 0 {
        y
    } else {
        let prev = diag_rows_s(d, y, k - 1);
        prev.update(k - 1, fx_mul_v(prev[k - 1] as int, inv_v(d[k - 1] as int)) as i64)
    }
}

/// The exact partial dot product of the strict lower part of column `r` of
/// `L` against `x`, over rows `[r + 1, c)`.
pub open spec fn col_dot_upper_s(l: Seq<i64>, n: int, r: int, x: Seq<i64>, c: int) -> int
    decreases c - r,
{
    if c <= r + 1 {
        0
    } else {
        fx_add_v(
            col_dot_upper_s(l, n, r, x, c - 1),
            fx_mul_v(l[(c - 1) * n + r] as int, x[c - 1] as int),
        )
    }
}

/// The exact state of the backward substitution after its first `k` rows,
/// processed from the last row upward.
pub open spec fn back_rows_s(l: Seq<i64>, n: int, z: Seq<i64>, k: int) -> Seq<i64>
    decreases k,
{
    if k <= 0 {
        z
    } else {
        let prev = back_rows_s(l, n, z, k - 1);
        let r = n - k;
        prev.update(r, fx_sub_v(prev[r] as int, col_dot_upper_s(l, n, r, prev, n)) as i64)
    }
}

/// The exact solution of `L D L^T x = b` by forward substitution, diagonal
/// scaling and backward substitution.
pub open spec fn ldlt_solve_s(l: Seq<i64>, d: Seq<i64>, n: int, b: Seq<i64>) -> Seq<i64> {
    back_rows_s(l, n, diag_rows_s(d, fwd_rows_s(l, n, b, n), n), n)
}

impl LdltFactor {
    /// The factorisation of a diagonal matrix: `L` is the identity.
    pub fn from_diagonal(d: Vec<i64>) -> (r: LdltFactor)
        requires
            d@.len() * d@.len() <= usize::MAX,
        ensures
            ldlt_wf(r, d@.len() as int),
            r.d == d,
            forall|k: int| 0 <= k < r.l@.len() ==> r.l@[k] == 0i64,
    {
        let n = d.len();
        proof {
            assert(n * n <= usize::MAX) by (nonlinear_arith)
                requires
                    n == d@.len(),
                    d@.len() * d@.len() <= usize::MAX,
            ;
        }
        let mut l: Vec<i64> = Vec::new();
        let mut k: usize = 0;
        while k < n * n
            invariant
                n * n <= usize::MAX,
                k <= n * n,
                l@.len() == k,
                forall|j: int| 0 <= j < k ==> l@[j] == 0i64,
            decreases n * n - k,
        {
            l.push(0);
            k += 1;
        }
        LdltFactor { dim: n, l, d }
    }

    /// Solves `L D L^T x = b` in place.
    pub fn solve(&self, b: &mut Vec<i64>)
        requires
            ldlt_wf(*self, self.dim as int),
            old(b)@.len() == self.dim,
        ensures
            final(b)@ == ldlt_solve_s(self.l@, self.d@, self.dim as int, old(b)@),
            final(b)@.len() == old(b)@.len(),
    {
        let n = self.dim;
        let nn = self.l.len();
        let ghost b0 = b@;
        // Forward substitution.
        let mut r: usize = 0;
        while r < n
            invariant
                r <= n,
                ldlt_wf(*self, n as int),
                self.dim == n,
                nn == self.l@.len(),
                b@.len() == n,
                b@ == fwd_rows_s(self.l@, n as int, b0, r as int),
            decreases n - r,
        {
            let mut acc: i64 = 0;
            let mut c: usize = 0;
            while c < r
                invariant
                    c <= r < n,
                    ldlt_wf(*self, n as int),
                    self.dim == n,
                    nn == self.l@.len(),
                    b@.len() == n,
                    acc as int == row_dot_lower_s(self.l@, n as int, r as int, b@, c as int),
                decreases r - c,
            {
                proof {
                    assert(r * n + c < n * n) by (nonlinear_arith)
                        requires
                            r < n,
                            c < n,
                    ;
                    assert(n * n == self.l@.len());
                }
                acc = fx_add(acc, fx_mul(self.l[r * n + c], b[c]));
                c += 1;
            }
            let v = fx_sub(b[r], acc);
            b.set(r, v);
            r += 1;
        }
        let ghost y = b@;
        // Diagonal scaling.
        let mut r2: usize = 0;
        while r2 < n
            invariant
                r2 <= n,
                ldlt_wf(*self, n as int),
                self.dim == n,
                b@.len() == n,
                b@ == diag_rows_s(self.d@, y, r2 as int),
            decreases n - r2,
        {
            let v = fx_mul(b[r2], inv(self.d[r2]));
            b.set(r2, v);
            r2 += 1;
        }
        let ghost z = b@;
        // Backward substitution.
        let mut k: usize = 0;
        while k < n
            invariant
                k <= n,
                ldlt_wf(*self, n as int),
                self.dim == n,
                nn == self.l@.len(),
                b@.len() == n,
                b@ == back_rows_s(self.l@, n as int, z, k as int),
            decreases n - k,
        {
            let r3 = n - 1 - k;
            let mut acc: i64 = 0;
            let mut c: usize = r3 + 1;
            while c < n
                invariant
                    r3 < n,
                    r3 + 1 <= c <= n,
                    ldlt_wf(*self, n as int),
                    self.dim == n,
                    nn == self.l@.len(),
                    b@.len() == n,
                    acc as int == col_dot_upper_s(self.l@, n as int, r3 as int, b@, c as int),
                decreases n - c,
            {
                proof {
                    assert(c * n + r3 < n * n) by (nonlinear_arith)
                        requires
                            c < n,
                            r3 < n,
                    ;
                    assert(n * n == self.l@.len());
                }
                acc = fx_add(acc, fx_mul(self.l[c * n + r3], b[c]));
                c += 1;
            }
            let v = fx_sub(b[r3], acc);
            b.set(r3, v);
            k += 1;
        }
    }
}

/// One link of an articulated chain.
#[derive(Clone, Copy, PartialEq, Eq, Structural, Debug)]
pub struct MultibodyLink {
    /// Index of the parent link; a root link is its own parent.
    pub parent: usize,
    /// Number of degrees of freedom of the joint carrying this link.
    pub ndofs: usize,
    /// Column offset of this link into the multibody's generalized state.
    pub assembly_id: usize,
    /// Identifier of this link inside its multibody.
    pub id: usize,
}

/// An articulated chain of links with shared generalized coordinates.
pub struct Multibody {
    /// The links, in chain order.
    pub links: Vec<MultibodyLink>,
    /// Total number of generalized degrees of freedom.
    pub ndofs: usize,
    /// Row offset of this multibody into the island's generic lambda vector.
    pub solver_id: usize,
    /// Generalized velocities, one per degree of freedom.
    pub velocities: Vec<i64>,
    /// The LDL^T-factorised augmented mass matrix, rebuilt each step.
    pub inv_augmented_mass: LdltFactor,
}

/// Well-formedness of a multibody: storage sized to its degrees of freedom
/// and each link's generalized block in range.
pub open spec fn multibody_wf(m: Multibody) -> bool {
    &&& m.velocities@.len() == m.ndofs
    &&& ldlt_wf(m.inv_augmented_mass, m.ndofs as int)
    &&& forall|i: int|
        0 <= i < m.links@.len() ==> (#[trigger] m.links@[i]).assembly_id + m.links@[i].ndofs
            <= m.ndofs
}

impl Multibody {
    /// Total number of generalized degrees of freedom.
    pub fn ndofs(&self) -> (r: usize)
        ensures
            r == self.ndofs,
    {
        self.ndofs
    }

    /// The factorised augmented mass.
    pub fn inv_augmented_mass(&self) -> (r: &LdltFactor)
        ensures
            r == &self.inv_augmented_mass,
    {
        &self.inv_augmented_mass
    }

    /// The generalized velocities of one link's joint, as a copy of its
    /// block of this multibody's state.
    pub fn joint_velocity(&self, link: &MultibodyLink) -> (r: Vec<i64>)
        requires
            multibody_wf(*self),
            link.assembly_id + link.ndofs <= self.ndofs,
        ensures
            r@ == self.velocities@.subrange(
                link.assembly_id as int,
                link.assembly_id + link.ndofs,
            ),
    {
        let vlen = self.velocities.len();
        let mut r: Vec<i64> = Vec::new();
        let mut k: usize = 0;
        while k < link.ndofs
            invariant
                k <= link.ndofs,
                vlen == self.velocities@.len(),
                link.assembly_id + link.ndofs <= self.velocities@.len(),
                r@ == self.velocities@.subrange(
                    link.assembly_id as int,
                    link.assembly_id + k,
                ),
            decreases link.ndofs - k,
        {
            r.push(self.velocities[link.assembly_id + k]);
            k += 1;
        }
        r
    }
}

/// Location of a rigid body inside a multibody: which multibody, and which
/// of its links.
#[derive(Clone, Copy, PartialEq, Eq, Structural, Debug)]
pub struct MultibodyLinkId {
    /// Index of the multibody in the set.
    pub multibody: usize,
    /// Index of the link inside that multibody.
    pub id: usize,
}

/// The set of multibodies, with the mapping from rigid-body handles to the
/// links standing for them.
pub struct MultibodyJointSet {
    /// The multibodies.
    pub multibodies: Vec<Multibody>,
    /// For each attached rigid body, its handle and its link location.
    pub attachments: Vec<(crate::body::RigidBodyHandle, MultibodyLinkId)>,
}

/// Well-formedness of the set: every attachment points at an existing link
/// of a well-formed multibody.
pub open spec fn multibody_set_wf(s: MultibodyJointSet) -> bool {
    &&& forall|i: int|
        0 <= i < s.multibodies@.len() ==> multibody_wf(#[trigger] s.multibodies@[i])
    &&& forall|i: int|
        0 <= i < s.attachments@.len() ==> {
            let loc = (#[trigger] s.attachments@[i]).1;
            &&& loc.multibody < s.multibodies@.len()
            &&& loc.id < s.multibodies@[loc.multibody as int].links@.len()
        }
}

/// Whether some attachment of the set maps `h` to a link.
pub open spec fn set_has_link_s(s: MultibodyJointSet, h: crate::body::RigidBodyHandle) -> bool {
    exists|i: int| 0 <= i < s.attachments@.len() && (#[trigger] s.attachments@[i]).0 == h
}

/// The first attachment from index `i` on that carries `h`, if any.
pub open spec fn link_from_s(
    att: Seq<(crate::body::RigidBodyHandle, MultibodyLinkId)>,
    h: crate::body::RigidBodyHandle,
    i: int,
) -> Option<MultibodyLinkId>
    decreases att.len() - i,
{
    if i < 0 || i >= att.len() {
        None
    } else if att[i].0 == h {
        Some(att[i].1)
    } else {
        link_from_s(att, h, i + 1)
    }
}

/// The link standing for `h` in the set: the first attachment carrying its
/// handle.
pub open spec fn link_of_s(
    s: MultibodyJointSet,
    h: crate::body::RigidBodyHandle,
) -> Option<MultibodyLinkId> {
    link_from_s(s.attachments@, h, 0)
}

impl MultibodyJointSet {
    /// An empty set.
    pub fn new() -> (r: MultibodyJointSet)
        ensures
            multibody_set_wf(r),
            r.multibodies@.len() == 0,
            r.attachments@.len() == 0,
    {
        MultibodyJointSet { multibodies: Vec::new(), attachments: Vec::new() }
    }

    /// The link standing for a rigid body, if that body is part of a
    /// multibody: the first attachment carrying its handle.
    pub fn rigid_body_link(&self, h: crate::body::RigidBodyHandle) -> (r: Option<MultibodyLinkId>)
        ensures
            r == link_of_s(*self, h),
            r is Some ==> set_has_link_s(*self, h),
            r is None ==> !set_has_link_s(*self, h),
            r is Some ==> exists|i: int|
                0 <= i < self.attachments@.len() && (#[trigger] self.attachments@[i]).0 == h
                    && self.attachments@[i].1 == r->0,
    {
        let n = self.attachments.len();
        let mut i: usize = 0;
        while i < n
            invariant
                i <= n,
                n == self.attachments@.len(),
                link_of_s(*self, h) == link_from_s(self.attachments@, h, i as int),
                forall|k: int| 0 <= k < i ==> (#[trigger] self.attachments@[k]).0 != h,
            decreases n - i,
        {
            let (handle, loc) = self.attachments[i];
            if handle.index == h.index && handle.generation == h.generation {
                proof {
                    assert(self.attachments@[i as int].0 == h);
                }
                return Some(loc);
            }
            i += 1;
        }
        None
    }
}

} // verus!
