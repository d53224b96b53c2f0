//! The import itself: read every element in index order, convert it, and
//! collect the results into a new `Vec`.

use crate::handle::ArrayHandle;
use vstd::prelude::*;
use vstd::std_specs::convert::FromSpec;

verus! {

/// `f` accepts every value that `array` may hold.
pub open spec fn total_on<A, T, G: Fn(usize) -> A, F: Fn(A) -> T>(
    array: &ArrayHandle<A, G>,
    f: F,
) -> bool {
    forall|i: int, a: A| #[trigger] array.yields(i, a) ==> call_requires(f, (a,))
}

/// `t` is a value that `f` may give for the element of `array` at `i`.
pub open spec fn converts<A, T, G: Fn(usize) -> A, F: Fn(A) -> T>(
    array: &ArrayHandle<A, G>,
    f: F,
    i: int,
    t: T,
) -> bool {
    exists|a: A| #[trigger] array.yields(i, a) && call_ensures(f, (a,), t)
}

/// `out` is an import of `array` through `f`: as long as the array, and at
/// each index a conversion of the array's element at that index.
pub open spec fn imports<A, T, G: Fn(usize) -> A, F: Fn(A) -> T>(
    array: &ArrayHandle<A, G>,
    f: F,
    out: Seq<T>,
) -> bool {
    &&& out.len() == array.spec_len()
    &&& forall|i: int| 0 <= i < out.len() ==> converts(array, f, i, #[trigger] out[i])
}

/// Imports `array`, converting each element with `f`.
///
/// The result has one item per element, in index order. Room for all of them
/// is reserved before the first element is read. An empty array gives an
/// empty vector; since nothing is then asked of `f`, it is not called.
pub fn from_array_<A, T, G: Fn(usize) -> A, F: Fn(A) -> T>(
    array: &ArrayHandle<A, G>,
    f: F,
) -> (vec: Vec<T>)
    requires
        total_on(array, f),
    ensures
        imports(array, f, vec@),
        array.spec_len() == 0 ==> vec@ == Seq::<T>::empty(),
{
    let len = array.len();
    let mut vec: Vec<T> = Vec::with_capacity(len);
    for i in 0..len
        invariant
            len == array.spec_len(),
            total_on(array, f),
            vec@.len() == i,
            forall|k: int| 0 <= k < i ==> converts(array, f, k, #[trigger] vec@[k]),
    {
        let elem = array.get(i);
        vec.push(f(elem));
    }
    vec
}

/// `t` is `T::from_spec` of a value that `array` may hold at `i`.
pub open spec fn converts_by_from<Caml, T: From<Caml>, G: Fn(usize) -> Caml>(
    array: &ArrayHandle<Caml, G>,
    i: int,
    t: T,
) -> bool {
    exists|c: Caml| #[trigger] array.yields(i, c) && t == T::from_spec(c)
}

/// Imports `array`, converting each element with the target type's own
/// `From`.
///
/// This is [`from_array_`] with `T::from` as the conversion. Where `T` keeps
/// to its `from_spec`, each item is `from_spec` of the element at its index.
pub fn from_array<Caml, T: From<Caml>, G: Fn(usize) -> Caml>(
    array: &ArrayHandle<Caml, G>,
) -> (vec: Vec<T>)
    ensures
        imports(array, T::from, vec@),
        T::obeys_from_spec() ==> forall|i: int|
            0 <= i < vec@.len() ==> converts_by_from(array, i, #[trigger] vec@[i]),
        array.spec_len() == 0 ==> vec@ == Seq::<T>::empty(),
{
    let vec = from_array_(array, T::from);
    proof {
        assert forall|i: int| 0 <= i < vec@.len() && T::obeys_from_spec() implies converts_by_from(
            array,
            i,
            #[trigger] vec@[i],
        ) by {
            assert(converts(array, T::from, i, vec@[i]));
        }
    }
    vec
}

/// `t` is a value that decoding the element of `array` at `i` with `decode`
/// and converting the outcome with `T`'s `From` may give.
pub open spec fn decodes<V, Caml, T: From<Caml>, G: Fn(usize) -> V, D: Fn(V) -> Caml>(
    array: &ArrayHandle<V, G>,
    decode: D,
    i: int,
    t: T,
) -> bool {
    exists|v: V, c: Caml| #[trigger]
        array.yields(i, v) && #[trigger] call_ensures(decode, (v,), c) && call_ensures(
            T::from,
            (c,),
            t,
        )
}

/// `out` is an import of `array` through `decode` and then `T`'s `From`: as
/// long as the array, and at each index what the array's element at that
/// index may be decoded and converted to.
pub open spec fn imports_decoded<V, Caml, T: From<Caml>, G: Fn(usize) -> V, D: Fn(V) -> Caml>(
    array: &ArrayHandle<V, G>,
    decode: D,
    out: Seq<T>,
) -> bool {
    &&& out.len() == array.spec_len()
    &&& forall|i: int| 0 <= i < out.len() ==> decodes(array, decode, i, #[trigger] out[i])
}

/// Imports an array of generic foreign values: each element is first decoded
/// into its foreign representation with `decode`, and that is converted with
/// the target type's own `From`.
///
/// `decode` must accept every value the array may hold; a value it would
/// refuse is the caller's to keep out.
pub fn from_value_array<V, Caml, T: From<Caml>, G: Fn(usize) -> V, D: Fn(V) -> Caml>(
    array: &ArrayHandle<V, G>,
    decode: D,
) -> (vec: Vec<T>)
    requires
        total_on(array, decode),
    ensures
        imports_decoded(array, decode, vec@),
        array.spec_len() == 0 ==> vec@ == Seq::<T>::empty(),
{
    let by_ref = &decode;
    let convert = |x: V| -> (t: T)
        requires
            call_requires(by_ref, (x,)),
        ensures
            exists|c: Caml| #[trigger] call_ensures(by_ref, (x,), c) && call_ensures(T::from, (c,), t),
        { by_ref(x).into() };
    let vec = from_array_(array, convert);
    proof {
        assert forall|i: int| 0 <= i < vec@.len() implies decodes(
            array,
            decode,
            i,
            #[trigger] vec@[i],
        ) by {
            assert(converts(array, convert, i, vec@[i]));
        }
    }
    vec
}

/// `f` may accept the element of `array` at `i`.
pub open spec fn accepts<A, T, E, G: Fn(usize) -> A, F: Fn(A) -> Result<T, E>>(
    array: &ArrayHandle<A, G>,
    f: F,
    i: int,
) -> bool {
    exists|t: T| #[trigger] converts(array, f, i, Ok::<T, E>(t))
}

/// `out` is an import of `array` through a conversion `f` that may refuse:
/// as long as the array, and at each index what `f` accepted the array's
/// element at that index as.
pub open spec fn imports_accepted<A, T, E, G: Fn(usize) -> A, F: Fn(A) -> Result<T, E>>(
    array: &ArrayHandle<A, G>,
    f: F,
    out: Seq<T>,
) -> bool {
    &&& out.len() == array.spec_len()
    &&& forall|i: int|
        0 <= i < out.len() ==> converts(array, f, i, Ok::<T, E>(#[trigger] out[i]))
}

/// `f` may refuse the element of `array` at `k` with `e`, and may accept
/// every element before it.
pub open spec fn refused_at<A, T, E, G: Fn(usize) -> A, F: Fn(A) -> Result<T, E>>(
    array: &ArrayHandle<A, G>,
    f: F,
    k: int,
    e: E,
) -> bool {
    &&& 0 <= k < array.spec_len()
    &&& converts(array, f, k, Err::<T, E>(e))
    &&& forall|j: int| 0 <= j < k ==> #[trigger] accepts(array, f, j)
}

/// `f` may refuse some element of `array` with `e`, and may accept every
/// element before that one.
pub open spec fn refused<A, T, E, G: Fn(usize) -> A, F: Fn(A) -> Result<T, E>>(
    array: &ArrayHandle<A, G>,
    f: F,
    e: E,
) -> bool {
    exists|k: int| #[trigger] refused_at(array, f, k, e)
}

/// What [`try_from_array_`] may return for `array` and `f`: the whole import,
/// or the first refusal.
pub open spec fn tried<A, T, E, G: Fn(usize) -> A, F: Fn(A) -> Result<T, E>>(
    array: &ArrayHandle<A, G>,
    f: F,
    res: Result<Vec<T>, E>,
) -> bool {
    &&& res matches Ok(vec) ==> imports_accepted(array, f, vec@)
    &&& res matches Err(e) ==> refused(array, f, e)
}

/// Imports `array` with a conversion that may refuse an element.
///
/// Elements are converted in index order. The first refusal ends the import
/// and is returned as it came from `f`; what was converted before it is
/// dropped and no later element is read. With no refusal the result is the
/// whole import.
pub fn try_from_array_<A, T, E, G: Fn(usize) -> A, F: Fn(A) -> Result<T, E>>(
    array: &ArrayHandle<A, G>,
    f: F,
) -> (res: Result<Vec<T>, E>)
    requires
        total_on(array, f),
    ensures
        tried(array, f, res),
        array.spec_len() == 0 ==> res is Ok,
{
    let len = array.len();
    let mut vec: Vec<T> = Vec::with_capacity(len);
    for i in 0..len
        invariant
            len == array.spec_len(),
            total_on(array, f),
            vec@.len() == i,
            forall|k: int| 0 <= k < i ==> converts(array, f, k, Ok::<T, E>(#[trigger] vec@[k])),
    {
        let elem = array.get(i);
        match f(elem) {
            Ok(t) => {
                vec.push(t);
            },
            Err(e) => {
                proof {
                    assert forall|j: int| 0 <= j < i implies #[trigger] accepts(array, f, j) by {
                        assert(converts(array, f, j, Ok::<T, E>(vec@[j])));
                    }
                    assert(refused_at(array, f, i as int, e));
                }
                return Err(e);
            },
        }
    }
    Ok(vec)
}

} // verus!
