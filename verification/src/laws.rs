//! What holds of every import, stated over the contracts of the import
//! functions and proved from them.
//!
//! The import functions speak of what the accessor and the conversion *may*
//! return. Where both are functions in the mathematical sense, an array that
//! reads as `elems` and a conversion that computes `conv`, the import is a
//! function too, and these laws say which.

use crate::handle::ArrayHandle;
use crate::import::{
    accepts, converts, decodes, imports, imports_decoded, refused_at, total_on, tried,
};
use vstd::prelude::*;
use vstd::std_specs::convert::FromSpec;

verus! {

/// `f` computes `conv`: whatever `f` returns for `a` is `conv(a)`.
pub open spec fn computes<A, T, F: Fn(A) -> T>(f: F, conv: spec_fn(A) -> T) -> bool {
    forall|a: A, t: T| #[trigger] call_ensures(f, (a,), t) ==> t == conv(a)
}

/// `f` returns one value only for each argument, however often it is called.
pub open spec fn deterministic<A, T, F: Fn(A) -> T>(f: F) -> bool {
    forall|a: A, t: T, u: T|
        #[trigger] call_ensures(f, (a,), t) && #[trigger] call_ensures(f, (a,), u) ==> t == u
}

/// An import has the array's length, and its item at `i` is the conversion
/// of the array's element at `i`.
pub proof fn lemma_import_by_index<A, T, G: Fn(usize) -> A, F: Fn(A) -> T>(
    array: &ArrayHandle<A, G>,
    f: F,
    elems: Seq<A>,
    conv: spec_fn(A) -> T,
    out: Seq<T>,
)
    requires
        array.holds(elems),
        computes(f, conv),
        imports(array, f, out),
    ensures
        out.len() == elems.len(),
        forall|i: int| 0 <= i < elems.len() ==> #[trigger] out[i] == conv(elems[i]),
{
    assert forall|i: int| 0 <= i < elems.len() implies #[trigger] out[i] == conv(elems[i]) by {
        assert(converts(array, f, i, out[i]));
    }
}

/// An import is the element-wise map of the array: nothing is reordered,
/// dropped or duplicated.
pub proof fn lemma_import_is_map<A, T, G: Fn(usize) -> A, F: Fn(A) -> T>(
    array: &ArrayHandle<A, G>,
    f: F,
    elems: Seq<A>,
    conv: spec_fn(A) -> T,
    out: Seq<T>,
)
    requires
        array.holds(elems),
        computes(f, conv),
        imports(array, f, out),
    ensures
        out == elems.map_values(conv),
{
    lemma_import_by_index(array, f, elems, conv, out);
    assert(out =~= elems.map_values(conv));
}

/// A `From` that keeps to its `from_spec` computes it, so that an import
/// through `T::from` is the element-wise map by `from_spec`.
pub proof fn lemma_from_computes_from_spec<Caml, T: From<Caml>>()
    requires
        T::obeys_from_spec(),
    ensures
        computes(T::from, |c: Caml| T::from_spec(c)),
{
}

/// An import of generic values is the element-wise map of the array by
/// decoding and then `from_spec`, where `T`'s `From` keeps to it.
pub proof fn lemma_decoded_import_is_map<V, Caml, T: From<Caml>, G: Fn(usize) -> V, D: Fn(V) -> Caml>(
    array: &ArrayHandle<V, G>,
    decode: D,
    elems: Seq<V>,
    dec: spec_fn(V) -> Caml,
    out: Seq<T>,
)
    requires
        array.holds(elems),
        computes(decode, dec),
        T::obeys_from_spec(),
        imports_decoded(array, decode, out),
    ensures
        out == elems.map_values(|v: V| T::from_spec(dec(v))),
{
    assert forall|i: int| 0 <= i < elems.len() implies out[i] == T::from_spec(dec(elems[i])) by {
        assert(decodes(array, decode, i, out[i]));
    }
    assert(out =~= elems.map_values(|v: V| T::from_spec(dec(v))));
}

/// The import of an empty array is empty.
pub proof fn lemma_import_of_empty<A, T, G: Fn(usize) -> A, F: Fn(A) -> T>(
    array: &ArrayHandle<A, G>,
    f: F,
    out: Seq<T>,
)
    requires
        array.spec_len() == 0,
        imports(array, f, out),
    ensures
        out == Seq::<T>::empty(),
{
    assert(out =~= Seq::<T>::empty());
}

/// An empty array asks nothing of the conversion: every `f` is total on it,
/// also one that can never be called. So importing it calls `f` not once.
pub proof fn lemma_empty_asks_nothing<A, T, G: Fn(usize) -> A, F: Fn(A) -> T>(
    array: &ArrayHandle<A, G>,
    f: F,
)
    requires
        array.spec_len() == 0,
    ensures
        total_on(array, f),
{
    array.lemma_yields_in_range();
}

/// Importing twice gives the same sequence, where the array reads the same
/// both times and the conversion is deterministic.
pub proof fn lemma_import_repeatable<A, T, G: Fn(usize) -> A, F: Fn(A) -> T>(
    array: &ArrayHandle<A, G>,
    f: F,
    first: Seq<T>,
    second: Seq<T>,
)
    requires
        array.stable(),
        deterministic(f),
        imports(array, f, first),
        imports(array, f, second),
    ensures
        first == second,
{
    assert forall|i: int| 0 <= i < first.len() implies first[i] == second[i] by {
        assert(converts(array, f, i, first[i]));
        assert(converts(array, f, i, second[i]));
    }
    assert(first =~= second);
}

/// Where the conversion refuses the element at `k` and none before it, the
/// fallible import returns that refusal, and no vector.
pub proof fn lemma_first_refusal_is_returned<A, T, E, G: Fn(usize) -> A, F: Fn(A) -> Result<T, E>>(
    array: &ArrayHandle<A, G>,
    f: F,
    elems: Seq<A>,
    conv: spec_fn(A) -> Result<T, E>,
    k: int,
    res: Result<Vec<T>, E>,
)
    requires
        array.holds(elems),
        computes(f, conv),
        0 <= k < elems.len(),
        conv(elems[k]) is Err,
        forall|j: int| 0 <= j < k ==> conv(#[trigger] elems[j]) is Ok,
        tried(array, f, res),
    ensures
        res matches Err(e) && conv(elems[k]) == Err::<T, E>(e),
{
    lemma_refusal_leaves_no_result(array, f, elems, conv, k, res);
    let e = res->Err_0;
    let at = choose|at: int| #[trigger] refused_at(array, f, at, e);
    if at < k {
        assert(conv(elems[at]) is Ok);
    }
    if k < at {
        assert(accepts(array, f, k));
    }
}

/// Where the conversion refuses any element, the fallible import returns no
/// vector, not even a partial one.
pub proof fn lemma_refusal_leaves_no_result<A, T, E, G: Fn(usize) -> A, F: Fn(A) -> Result<T, E>>(
    array: &ArrayHandle<A, G>,
    f: F,
    elems: Seq<A>,
    conv: spec_fn(A) -> Result<T, E>,
    k: int,
    res: Result<Vec<T>, E>,
)
    requires
        array.holds(elems),
        computes(f, conv),
        0 <= k < elems.len(),
        conv(elems[k]) is Err,
        tried(array, f, res),
    ensures
        res is Err,
{
    if res is Ok {
        let out = res->Ok_0@;
        assert(converts(array, f, k, Ok::<T, E>(out[k])));
    }
}

/// Where the conversion refuses no element, the fallible import returns the
/// element-wise map of the array.
pub proof fn lemma_no_refusal_is_map<A, T, E, G: Fn(usize) -> A, F: Fn(A) -> Result<T, E>>(
    array: &ArrayHandle<A, G>,
    f: F,
    elems: Seq<A>,
    conv: spec_fn(A) -> Result<T, E>,
    res: Result<Vec<T>, E>,
)
    requires
        array.holds(elems),
        computes(f, conv),
        forall|i: int| 0 <= i < elems.len() ==> conv(#[trigger] elems[i]) is Ok,
        tried(array, f, res),
    ensures
        res matches Ok(vec) && vec@ == elems.map_values(|a: A| conv(a)->Ok_0),
{
    if res is Err {
        let e = res->Err_0;
        let at = choose|at: int| #[trigger] refused_at(array, f, at, e);
        assert(conv(elems[at]) is Ok);
    } else {
        let out = res->Ok_0@;
        assert forall|i: int| 0 <= i < elems.len() implies out[i] == conv(elems[i])->Ok_0 by {
            assert(converts(array, f, i, Ok::<T, E>(out[i])));
        }
        assert(out =~= elems.map_values(|a: A| conv(a)->Ok_0));
    }
}

} // verus!
