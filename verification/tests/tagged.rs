use caml_vector::ArrayHandle;
use caml_vector::{from_array_, from_value_array};
use ocaml::{FromValue, Value};

#[derive(Debug, PartialEq)]
struct Count(i64);

impl From<isize> for Count {
    fn from(n: isize) -> Count {
        Count(n as i64)
    }
}

#[test]
fn tagged_integers_are_decoded_then_converted() {
    let words: Vec<Value> = vec![Value::int(10), Value::int(-20), Value::int(0)];
    let array = ArrayHandle::new(words.len(), |i: usize| words[i]);
    let out: Vec<Count> = from_value_array(&array, |v: Value| isize::from_value(v));
    assert_eq!(out, vec![Count(10), Count(-20), Count(0)]);
}

#[test]
fn tagged_booleans_are_converted_with_a_function() {
    let words: Vec<Value> = vec![Value::int(1), Value::int(0)];
    let array = ArrayHandle::new(words.len(), |i: usize| words[i]);
    let out = from_array_(&array, |v: Value| !bool::from_value(v));
    assert_eq!(out, vec![false, true]);
}
