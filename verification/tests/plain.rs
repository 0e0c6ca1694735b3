use ffi_patterns::anything::describe;
use ffi_patterns::api::{example1, example2_1, example2_2};

#[test]
fn identity_on_numbers() {
    assert_eq!(example1(0), 0);
    assert_eq!(example1(41), 41);
    assert_eq!(example1(u32::MAX), u32::MAX);
}

#[test]
fn vector_for_a_number_holds_only_that_number() {
    assert_eq!(example2_1(6), vec![6u32]);
    assert_eq!(example2_1(0), vec![0u32]);
}

#[test]
fn number_in_a_slice_is_its_first_item() {
    assert_eq!(example2_2(&[4, 5, 6]), 4);
    assert_eq!(example2_2(&[u32::MAX]), u32::MAX);
}

#[test]
fn plain_round_trip() {
    for x in [0u32, 1, 77, u32::MAX] {
        assert_eq!(example2_2(&example2_1(x)), x);
    }
}

#[test]
fn sentence_names_both_parts() {
    assert_eq!(
        describe("Ada", "1.5"),
        "The value of Anything includes the name: Ada, and something_else: 1.5"
    );
}

#[test]
fn sentence_with_empty_parts() {
    assert_eq!(
        describe("", ""),
        "The value of Anything includes the name: , and something_else: "
    );
}

#[test]
fn sentence_with_a_rendered_float() {
    let number: f64 = 2.25;
    assert_eq!(
        describe("pi-ish", &number.to_string()),
        format!("The value of Anything includes the name: {}, and something_else: {}", "pi-ish", number)
    );
    let whole: f64 = 3.0;
    assert_eq!(
        describe("three", &whole.to_string()),
        "The value of Anything includes the name: three, and something_else: 3"
    );
}
