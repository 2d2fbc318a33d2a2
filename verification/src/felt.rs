//! Field elements as the library holds them: thirty-two bytes, most significant first.

use vstd::prelude::*;

verus! {

/// A Starknet field element, kept as its big-endian bytes.
///
/// The bytes are carried as they were given. Two values are the same element
/// for this library exactly when their bytes agree.
#[derive(Clone, Copy, Debug, PartialEq, Eq)]
pub struct Felt {
    pub bytes: [u8; 32],
}

impl View for Felt {
    type V = Seq<u8>;

    open spec fn view(&self) -> Seq<u8> {
        self.bytes@
    }
}

/// The bytes of the element zero.
pub open spec fn zero_bytes() -> Seq<u8> {
    Seq::new(32, |i: int| 0u8)
}

/// The bytes of an optional element.
pub open spec fn opt_felt(f: Option<Felt>) -> Option<Seq<u8>> {
    match f {
        Some(v) => Some(v@),
        None => None,
    }
}

/// The views of a list of elements, in order.
pub open spec fn felts_view(v: Seq<Felt>) -> Seq<Seq<u8>> {
    Seq::new(v.len(), |i: int| v[i]@)
}

impl Felt {
    /// The element zero.
    pub fn zero() -> (r: Felt)
        ensures
            r@ == zero_bytes(),
    {
        let r = Felt { bytes: [0u8; 32] };
        assert(r@ =~= zero_bytes());
        r
    }

    /// Whether every byte is zero.
    pub fn is_zero(&self) -> (r: bool)
        ensures
            r == (self@ == zero_bytes()),
    {
        let mut i: usize = 0;
        while i < 32
            invariant
                i <= 32,
                forall|j: int| 0 <= j < i ==> self.bytes@[j] == 0u8,
            decreases 32 - i,
        {
            if self.bytes[i] != 0 {
                assert(self@[i as int] != zero_bytes()[i as int]);
                return false;
            }
            i += 1;
        }
        assert(self@ =~= zero_bytes());
        true
    }

    /// Whether two elements have the same bytes.
    pub fn same(&self, other: &Felt) -> (r: bool)
        ensures
            r == (self@ == other@),
    {
        let mut i: usize = 0;
        while i < 32
            invariant
                i <= 32,
                forall|j: int| 0 <= j < i ==> self.bytes@[j] == other.bytes@[j],
            decreases 32 - i,
        {
            if self.bytes[i] != other.bytes[i] {
                assert(self@[i as int] != other@[i as int]);
                return false;
            }
            i += 1;
        }
        assert(self@ =~= other@);
        true
    }
}

/// Whether two lists hold the same elements in the same order.
pub fn same_felts(a: &Vec<Felt>, b: &Vec<Felt>) -> (r: bool)
    ensures
        r == (felts_view(a@) == felts_view(b@)),
{
    if a.len() != b.len() {
        assert(felts_view(a@).len() != felts_view(b@).len());
        return false;
    }
    let mut i: usize = 0;
    while i < a.len()
        invariant
            i <= a.len(),
            a.len() == b.len(),
            forall|j: int| 0 <= j < i ==> a@[j]@ == b@[j]@,
        decreases a.len() - i,
    {
        if !a[i].same(&b[i]) {
            assert(felts_view(a@)[i as int] != felts_view(b@)[i as int]);
            return false;
        }
        i += 1;
    }
    assert(felts_view(a@) =~= felts_view(b@));
    true
}

/// A copy of a list of elements.
pub fn copy_felts(v: &Vec<Felt>) -> (r: Vec<Felt>)
    ensures
        r@ == v@,
        felts_view(r@) == felts_view(v@),
{
    let mut r: Vec<Felt> = Vec::new();
    let mut i: usize = 0;
    while i < v.len()
        invariant
            i <= v.len(),
            r@ == v@.take(i as int),
        decreases v.len() - i,
    {
        r.push(v[i]);
        assert(r@ =~= v@.take(i + 1));
        i += 1;
    }
    assert(r@ =~= v@);
    r
}

} // verus!
