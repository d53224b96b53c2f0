use caml_vector::ArrayHandle;
use caml_vector::{from_array, from_array_, from_value_array};
use std::cell::{Cell, RefCell};

#[test]
fn add_one_to_each_element() {
    let data: Vec<i64> = vec![10, 20, 30];
    let array = ArrayHandle::new(data.len(), |i: usize| data[i]);
    let out = from_array_(&array, |x: i64| x + 1);
    assert_eq!(out, vec![11, 21, 31]);
}

#[test]
fn empty_array_gives_empty_vec_and_calls_nothing() {
    let reads = Cell::new(0usize);
    let calls = Cell::new(0usize);
    let array = ArrayHandle::new(0, |_i: usize| -> i64 {
        reads.set(reads.get() + 1);
        0
    });
    let out: Vec<String> = from_array_(&array, |x: i64| {
        calls.set(calls.get() + 1);
        x.to_string()
    });
    assert!(out.is_empty());
    assert_eq!(reads.get(), 0);
    assert_eq!(calls.get(), 0);
}

#[test]
fn empty_array_accepts_a_conversion_that_cannot_run() {
    let array = ArrayHandle::new(0, |_i: usize| -> u8 { unreachable!() });
    let out: Vec<u8> = from_array_(&array, |_x: u8| -> u8 { unreachable!() });
    assert_eq!(out, Vec::<u8>::new());
}

#[test]
fn result_has_the_length_and_each_converted_element() {
    let data: Vec<u32> = vec![7, 0, 42, 9, 9, 1];
    let array = ArrayHandle::new(data.len(), |i: usize| data[i]);
    let f = |x: u32| u64::from(x) * 3;
    let out = from_array_(&array, f);
    assert_eq!(out.len(), data.len());
    for i in 0..data.len() {
        assert_eq!(out[i], f(data[i]));
    }
}

#[test]
fn order_and_duplicates_are_kept() {
    let data: Vec<&str> = vec!["c", "a", "c", "b", "a"];
    let array = ArrayHandle::new(data.len(), |i: usize| data[i]);
    let out = from_array_(&array, |s: &str| s.to_uppercase());
    assert_eq!(out, vec!["C", "A", "C", "B", "A"]);
}

#[test]
fn elements_are_read_once_each_in_ascending_order() {
    let data: Vec<i32> = vec![5, 6, 7, 8];
    let seen = RefCell::new(Vec::new());
    let array = ArrayHandle::new(data.len(), |i: usize| {
        seen.borrow_mut().push(i);
        data[i]
    });
    let out = from_array_(&array, |x: i32| -x);
    assert_eq!(out, vec![-5, -6, -7, -8]);
    assert_eq!(*seen.borrow(), vec![0, 1, 2, 3]);
}

#[test]
fn each_element_is_converted_before_the_next_is_read() {
    let data: Vec<char> = vec!['x', 'y', 'z'];
    let log = RefCell::new(Vec::new());
    let array = ArrayHandle::new(data.len(), |i: usize| {
        log.borrow_mut().push(format!("read {}", i));
        data[i]
    });
    let out = from_array_(&array, |c: char| {
        log.borrow_mut().push(format!("convert {}", c));
        c as u32
    });
    assert_eq!(out, vec![120, 121, 122]);
    assert_eq!(
        *log.borrow(),
        vec!["read 0", "convert x", "read 1", "convert y", "read 2", "convert z"]
    );
}

#[test]
fn importing_twice_gives_equal_vectors() {
    let data: Vec<i16> = vec![-3, 0, 3, 300];
    let array = ArrayHandle::new(data.len(), |i: usize| data[i]);
    let first = from_array_(&array, |x: i16| i32::from(x) * i32::from(x));
    let second = from_array_(&array, |x: i16| i32::from(x) * i32::from(x));
    assert_eq!(first, vec![9, 0, 9, 90000]);
    assert_eq!(first, second);
}

#[test]
fn room_for_every_element_is_reserved() {
    let data: Vec<u64> = (0..100).collect();
    let array = ArrayHandle::new(data.len(), |i: usize| data[i]);
    let out = from_array_(&array, |x: u64| x);
    assert_eq!(out, data);
    assert!(out.capacity() >= data.len());
}

#[test]
fn the_result_is_owned_and_outlives_the_handle() {
    let out = {
        let data: Vec<String> = vec!["one".to_string(), "two".to_string()];
        let array = ArrayHandle::new(data.len(), |i: usize| data[i].clone());
        from_array_(&array, |s: String| s + "!")
    };
    assert_eq!(out, vec!["one!".to_string(), "two!".to_string()]);
}

#[test]
fn handle_reports_its_length_and_elements() {
    let data: Vec<u8> = vec![4, 5, 6];
    let array = ArrayHandle::new(data.len(), |i: usize| data[i]);
    assert_eq!(array.len(), 3);
    assert_eq!(array.get(0), 4);
    assert_eq!(array.get(2), 6);
    let none = ArrayHandle::new(0, |_i: usize| 0u8);
    assert_eq!(none.len(), 0);
}

#[test]
fn from_array_uses_the_target_types_from() {
    let data: Vec<u8> = vec![0, 1, 255];
    let array = ArrayHandle::new(data.len(), |i: usize| data[i]);
    let out: Vec<u32> = from_array(&array);
    assert_eq!(out, vec![0u32, 1, 255]);
}

#[derive(Debug, PartialEq)]
struct Celsius(i64);

struct Kelvin(i64);

impl From<Kelvin> for Celsius {
    fn from(k: Kelvin) -> Celsius {
        Celsius(k.0 - 273)
    }
}

#[test]
fn from_array_with_a_from_of_ones_own() {
    let data: Vec<i64> = vec![273, 373, 0];
    let array = ArrayHandle::new(data.len(), |i: usize| Kelvin(data[i]));
    let out: Vec<Celsius> = from_array(&array);
    assert_eq!(out, vec![Celsius(0), Celsius(100), Celsius(-273)]);
}

#[test]
fn from_array_of_empty_is_empty() {
    let array = ArrayHandle::new(0, |_i: usize| 0u8);
    let out: Vec<u64> = from_array(&array);
    assert!(out.is_empty());
}

#[test]
fn from_value_array_decodes_then_converts() {
    let words: Vec<&str> = vec!["273", "373"];
    let array = ArrayHandle::new(words.len(), |i: usize| words[i]);
    let decode = |w: &str| Kelvin(w.parse::<i64>().unwrap());
    let out: Vec<Celsius> = from_value_array(&array, decode);
    assert_eq!(out, vec![Celsius(0), Celsius(100)]);
}

#[test]
fn from_value_array_of_empty_decodes_nothing() {
    let decoded = Cell::new(0usize);
    let array = ArrayHandle::new(0, |_i: usize| "");
    let out: Vec<Celsius> = from_value_array(&array, |_w: &str| {
        decoded.set(decoded.get() + 1);
        Kelvin(0)
    });
    assert!(out.is_empty());
    assert_eq!(decoded.get(), 0);
}
