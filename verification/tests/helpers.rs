use rust_tutorial::array_type::{modify_str_array_by_mutable_slice, write_array2};
use rust_tutorial::references_borrowing::{
    calculate_length, change_string, get_length, modified_string,
};
use rust_tutorial::text::{same_text, text_len};
use rust_tutorial::user_input::{age_message, is_adult, ADULT_AGE};
use rust_tutorial::vector_type::write_vector;

#[test]
fn calculate_length_counts_bytes() {
    assert_eq!(calculate_length(&String::from("Hello")), 5);
    assert_eq!(calculate_length(&String::new()), 0);
    assert_eq!(calculate_length(&String::from("h\u{e9}llo")), 6);
    assert_eq!(get_length(&String::from("Hello Blockchain!")), 17);
    assert_eq!(get_length(&String::from("\u{1f980}")), 4);
    assert_eq!(text_len("\u{3a9}"), 2);
}

#[test]
fn change_string_appends_world() {
    let mut s = String::from("Mutable");
    change_string(&mut s);
    assert_eq!(s, "Mutable world!");
    let mut empty = String::new();
    change_string(&mut empty);
    assert_eq!(empty, " world!");
}

#[test]
fn modified_string_appends_blockchain() {
    let mut s = String::from("Hello");
    modified_string(&mut s);
    assert_eq!(s, "Hello Blockchain!");
    assert_eq!(get_length(&s), 17);
}

#[test]
fn same_text_compares_characters() {
    assert!(same_text("", ""));
    assert!(same_text("rock", "rock"));
    assert!(!same_text("rock", "Rock"));
    assert!(!same_text("rock", "rocks"));
    assert!(!same_text("rock", "roc"));
    assert!(!same_text("rock", "rack"));
    assert!(same_text("\u{3a9}x", "\u{3a9}x"));
    assert!(!same_text("\u{3a9}", "\u{3c9}"));
}

#[test]
fn write_vector_replaces_the_last_element() {
    let mut v = vec![1, 2, 3, 4, 5];
    write_vector(&mut v);
    assert_eq!(v, vec![1, 2, 3, 4, 6]);
    let mut one = vec![9];
    write_vector(&mut one);
    assert_eq!(one, vec![6]);
    let mut none: Vec<i32> = Vec::new();
    write_vector(&mut none);
    assert_eq!(none, vec![6]);
}

#[test]
fn modify_slice_overwrites_the_first_two() {
    let mut two = ["Initial", "Value"];
    modify_str_array_by_mutable_slice(&mut two);
    assert_eq!(two, ["Modified", "Slice"]);
    let mut three = ["a", "b", "c"];
    modify_str_array_by_mutable_slice(&mut three);
    assert_eq!(three, ["Modified", "Slice", "c"]);
    let mut one = ["a"];
    modify_str_array_by_mutable_slice(&mut one);
    assert_eq!(one, ["Modified"]);
    let mut none: [&str; 0] = [];
    modify_str_array_by_mutable_slice(&mut none);
    assert_eq!(none.len(), 0);
}

#[test]
fn adults_start_at_eighteen() {
    assert_eq!(ADULT_AGE, 18);
    assert!(!is_adult(0));
    assert!(!is_adult(17));
    assert!(is_adult(18));
    assert!(is_adult(u32::MAX));
    assert_eq!(age_message(17), "You are a minor.");
    assert_eq!(age_message(18), "You are an adult.");
}

#[test]
fn write_array2_overwrites_both_elements() {
    let mut arr = ["Hello", "Blockchain!"];
    write_array2(&mut arr);
    assert_eq!(arr, ["Hello, Buddy!", "Enjoy Blockchain!"]);
}
