use std::cmp::Ordering;
use vstd::prelude::*;

verus! {

/// A 32-byte public identifier naming an account.
#[derive(Clone, Copy, Debug, Hash)]
pub struct Address {
    pub bytes: [u8; 32],
}

/// Why a pair of addresses could not be put in order.
#[derive(Clone, Copy, Debug, PartialEq, Eq, Structural)]
pub enum PairError {
    /// Both sides of the pair name the same address.
    Equal,
}

/// `a` comes strictly before `b` in lexicographic byte order: the two agree
/// on a prefix and differ first at a position where `a` holds the smaller byte.
pub open spec fn lex_less(a: Seq<u8>, b: Seq<u8>) -> bool {
    exists|i: int|
        0 <= i < a.len() && i < b.len() && a.subrange(0, i) == b.subrange(0, i) && a[i] < b[i]
}

proof fn lemma_first_difference(a: Seq<u8>, b: Seq<u8>, i: int)
    requires
        a.len() == b.len(),
        0 <= i < a.len(),
        a.subrange(0, i) == b.subrange(0, i),
        a[i] < b[i],
    ensures
        lex_less(a, b),
        !lex_less(b, a),
{
    assert forall|j: int|
        0 <= j < a.len() && b.subrange(0, j) == a.subrange(0, j) implies !(b[j] < a[j]) by {
        if j > i {
            assert(b.subrange(0, j)[i] == b[i]);
            assert(a.subrange(0, j)[i] == a[i]);
        } else if j < i {
            assert(a.subrange(0, i)[j] == a[j]);
            assert(b.subrange(0, i)[j] == b[j]);
        }
    }
}

impl Address {
    /// Compares the two addresses' bytes in lexicographic order.
    pub fn compare(&self, other: &Address) -> (r: Ordering)
        ensures
            r == Ordering::Less <==> lex_less(self.bytes@, other.bytes@),
            r == Ordering::Equal <==> self.bytes@ == other.bytes@,
            r == Ordering::Greater <==> lex_less(other.bytes@, self.bytes@),
    {
        let ghost a = self.bytes@;
        let ghost b = other.bytes@;
        let mut i: usize = 0;
        while i < 32
            invariant
                0 <= i <= 32,
                a == self.bytes@,
                b == other.bytes@,
                a.len() == 32,
                b.len() == 32,
                a.subrange(0, i as int) == b.subrange(0, i as int),
            decreases 32 - i,
        {
            let x = self.bytes[i];
            let y = other.bytes[i];
            if x < y {
                proof {
                    lemma_first_difference(a, b, i as int);
                    assert(a[i as int] != b[i as int]);
                }
                return Ordering::Less;
            }
            if x > y {
                proof {
                    lemma_first_difference(b, a, i as int);
                    assert(a[i as int] != b[i as int]);
                }
                return Ordering::Greater;
            }
            proof {
                assert(a.subrange(0, i + 1) =~= a.subrange(0, i as int).push(x));
                assert(b.subrange(0, i + 1) =~= b.subrange(0, i as int).push(y));
            }
            i = i + 1;
        }
        proof {
            assert(a =~= a.subrange(0, 32));
            assert(b =~= b.subrange(0, 32));
            assert(!lex_less(a, b)) by {
                assert forall|j: int| 0 <= j < 32 && a.subrange(0, j) == b.subrange(0, j)
                    implies !(a[j] < b[j]) by {
                    assert(a[j] == b[j]);
                }
            }
            assert(!lex_less(b, a)) by {
                assert forall|j: int| 0 <= j < 32 && b.subrange(0, j) == a.subrange(0, j)
                    implies !(b[j] < a[j]) by {
                    assert(a[j] == b[j]);
                }
            }
        }
        Ordering::Equal
    }
}

impl PartialEq for Address {
    fn eq(&self, other: &Address) -> (r: bool) {
        match self.compare(other) {
            Ordering::Equal => true,
            _ => false,
        }
    }
}

impl vstd::std_specs::cmp::PartialEqSpecImpl for Address {
    open spec fn obeys_eq_spec() -> bool {
        true
    }

    open spec fn eq_spec(&self, other: &Address) -> bool {
        self.bytes@ == other.bytes@
    }
}

impl Eq for Address {

}

/// Orders a pair of distinct addresses, smaller first; a pair of equal
/// addresses is refused.
pub fn sort_token_pair(pair: (Address, Address)) -> (r: Result<(Address, Address), PairError>)
    ensures
        r is Err <==> pair.0.bytes@ == pair.1.bytes@,
        r is Ok && lex_less(pair.0.bytes@, pair.1.bytes@) ==> r == Ok::<_, PairError>(pair),
        r is Ok && !lex_less(pair.0.bytes@, pair.1.bytes@) ==> r == Ok::<_, PairError>(
            (pair.1, pair.0),
        ),
        r is Ok ==> lex_less(r->Ok_0.0.bytes@, r->Ok_0.1.bytes@),
{
    let (a, b) = pair;
    match a.compare(&b) {
        Ordering::Less => Ok((a, b)),
        Ordering::Equal => Err(PairError::Equal),
        Ordering::Greater => Ok((b, a)),
    }
}

} // verus!
