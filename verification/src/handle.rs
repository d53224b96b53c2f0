//! The borrowed view of a foreign array: a length and an element accessor.

use core::marker::PhantomData;
use vstd::prelude::*;

verus! {

/// A foreign array as this library sees it: the length it reports and the
/// capability to read the element at an index below that length.
///
/// The array itself stays with its owner. A handle only reads, and is meant
/// to live no longer than one import.
#[verifier::reject_recursive_types(A)]
pub struct ArrayHandle<A, G: Fn(usize) -> A> {
    len: usize,
    get: G,
    elem: PhantomData<A>,
}

impl<A, G: Fn(usize) -> A> ArrayHandle<A, G> {
    /// Every index below the reported length is accessible.
    #[verifier::type_invariant]
    closed spec fn accessible(&self) -> bool {
        forall|i: usize| i < self.len ==> call_requires(self.get, (i,))
    }

    /// The length the array reports.
    pub closed spec fn spec_len(&self) -> nat {
        self.len as nat
    }

    /// `a` is a value that reading index `i` may give.
    pub closed spec fn yields(&self, i: int, a: A) -> bool {
        0 <= i < self.len && call_ensures(self.get, (i as usize,), a)
    }

    /// The array reads as `elems`: it has their length, and reading index `i`
    /// gives `elems[i]` and nothing else.
    pub open spec fn holds(&self, elems: Seq<A>) -> bool {
        &&& elems.len() == self.spec_len()
        &&& forall|i: int, a: A| #[trigger] self.yields(i, a) ==> a == elems[i]
    }

    /// Reading an index gives one value only, however often it is read.
    pub open spec fn stable(&self) -> bool {
        forall|i: int, a: A, b: A|
            #[trigger] self.yields(i, a) && #[trigger] self.yields(i, b) ==> a == b
    }

    /// Nothing is read outside the reported length.
    pub proof fn lemma_yields_in_range(&self)
        ensures
            forall|i: int, a: A| #[trigger] self.yields(i, a) ==> 0 <= i < self.spec_len(),
    {
    }

    /// Binds a reported length to an accessor that is callable below it.
    pub fn new(len: usize, get: G) -> (handle: Self)
        requires
            forall|i: usize| i < len ==> call_requires(get, (i,)),
        ensures
            handle.spec_len() == len,
            forall|i: int, a: A|
                handle.yields(i, a) <==> 0 <= i < len && call_ensures(get, (i as usize,), a),
    {
        ArrayHandle { len, get, elem: PhantomData }
    }

    /// The reported length.
    pub fn len(&self) -> (n: usize)
        ensures
            n == self.spec_len(),
    {
        self.len
    }

    /// Reads the element at `i`.
    pub fn get(&self, i: usize) -> (a: A)
        requires
            i < self.spec_len(),
        ensures
            self.yields(i as int, a),
    {
        proof {
            use_type_invariant(self);
        }
        (self.get)(i)
    }
}

} // verus!
