//! Function signatures as the harness sees them: an ordered sequence of
//! parameter kinds and an ordered sequence of result kinds. Two signatures
//! are compatible only if both sequences match exactly; there is no coercion.

use vstd::prelude::*;

verus! {

/// The primitive kind of one guest-level parameter or result.
///
/// The harness only ever calls integer-typed exports, so the two integer
/// kinds are the ones it distinguishes precisely; the remaining kinds exist
/// so that every export an engine reports can be recorded and compared.
#[derive(Clone, Copy, Debug, PartialEq, Eq, Structural)]
pub enum ValKind {
    /// A 32-bit integer.
    I32,
    /// A 64-bit integer.
    I64,
    /// A 32-bit floating-point value.
    F32,
    /// A 64-bit floating-point value.
    F64,
    /// Any other kind (vectors, references).
    Other,
}

/// The shape of a callable export: parameter kinds, then result kinds,
/// both in order.
#[derive(Debug)]
pub struct FuncSig {
    pub params: Vec<ValKind>,
    pub results: Vec<ValKind>,
}

/// The mathematical view of a `FuncSig`.
pub struct SigV {
    pub params: Seq<ValKind>,
    pub results: Seq<ValKind>,
}

impl View for FuncSig {
    type V = SigV;

    open spec fn view(&self) -> SigV {
        SigV { params: self.params@, results: self.results@ }
    }
}

/// Exact equality of two kind sequences.
fn kinds_eq(a: &Vec<ValKind>, b: &Vec<ValKind>) -> (r: bool)
    ensures
        r == (a@ == b@),
{
    if a.len() != b.len() {
        return false;
    }
    let n = a.len();
    let mut i: usize = 0;
    while i < n
        invariant
            n == a.len() == b.len(),
            0 <= i <= n,
            forall|j: int| 0 <= j < i ==> a@[j] == b@[j],
        decreases n - i,
    {
        if a[i] != b[i] {
            return false;
        }
        i += 1;
    }
    proof {
        assert(a@ =~= b@);
    }
    true
}

impl FuncSig {
    /// Two signatures are compatible only if the parameter kinds and the
    /// result kinds match exactly, element for element.
    pub fn matches(&self, other: &FuncSig) -> (r: bool)
        ensures
            r == (self@.params == other@.params && self@.results == other@.results),
    {
        kinds_eq(&self.params, &other.params) && kinds_eq(&self.results, &other.results)
    }
}

} // verus!
