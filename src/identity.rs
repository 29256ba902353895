use vstd::prelude::*;

verus! {

/// A 256-bit participant or record identity, held as two 128-bit halves.
///
/// The all-zero identity marks a record slot that has not been written yet.
#[derive(Clone, Copy, PartialEq, Eq, Structural, Debug)]
pub struct Identity {
    pub hi: u128,
    pub lo: u128,
}

impl Identity {
    pub fn new(hi: u128, lo: u128) -> (r: Identity)
        ensures
            r.hi == hi,
            r.lo == lo,
    {
        Identity { hi, lo }
    }

    /// The identity of an unwritten record.
    pub fn zero() -> (r: Identity)
        ensures
            r == Identity::spec_zero(),
    {
        Identity { hi: 0, lo: 0 }
    }

    pub open spec fn spec_zero() -> Identity {
        Identity { hi: 0, lo: 0 }
    }

    pub fn is_zero(&self) -> (r: bool)
        ensures
            r == (*self == Identity::spec_zero()),
    {
        self.hi == 0 && self.lo == 0
    }
}

/// Whether `x` occurs in `v`.
pub fn contains_identity(v: &Vec<Identity>, x: Identity) -> (r: bool)
    ensures
        r == v@.contains(x),
{
    match position_of(v, x) {
        Some(_) => true,
        None => false,
    }
}

/// The first position of `x` in `v`, if any.
pub fn position_of(v: &Vec<Identity>, x: Identity) -> (r: Option<usize>)
    ensures
        match r {
            Some(i) => i < v@.len() && v@[i as int] == x && forall|j: int|
                0 <= j < i ==> v@[j] != x,
            None => !v@.contains(x),
        },
{
    let mut i: usize = 0;
    while i < v.len()
        invariant
            0 <= i <= v@.len(),
            forall|j: int| 0 <= j < i ==> v@[j] != x,
        decreases v@.len() - i,
    {
        if v[i] == x {
            return Some(i);
        }
        i += 1;
    }
    None
}

/// Whether no identity occurs twice in `v`.
pub fn all_distinct(v: &Vec<Identity>) -> (r: bool)
    ensures
        r == v@.no_duplicates(),
{
    let n = v.len();
    let mut i: usize = 0;
    while i < n
        invariant
            n == v@.len(),
            0 <= i <= n,
            forall|a: int, b: int| 0 <= a < i && 0 <= b < i && a != b ==> v@[a] != v@[b],
        decreases n - i,
    {
        let mut j: usize = 0;
        while j < i
            invariant
                n == v@.len(),
                0 <= j <= i < n,
                forall|b: int| 0 <= b < j ==> v@[b] != v@[i as int],
            decreases i - j,
        {
            if v[j] == v[i] {
                return false;
            }
            j += 1;
        }
        i += 1;
    }
    true
}

} // verus!
