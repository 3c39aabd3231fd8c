use std::collections::HashMap;

use shpat::prelude::Apply;

#[test]
fn build_hashmap() {
    let left = HashMap::with_capacity(3)
        .apply(|m| m.insert("foo", 101))
        .apply(|m| m.insert("bar", 42))
        .apply(|m| m.insert("baz", 1969));

    let right = {
        let mut tmp = HashMap::with_capacity(3);
        tmp.insert("foo", 101);
        tmp.insert("bar", 42);
        tmp.insert("baz", 1969);
        tmp
    };
    assert_eq!(left, right);
}

#[test]
fn replace_value_in_hashmap() {
    let tmp = HashMap::new().apply(|m| m.insert(42, '!'));

    let (left_map, inner_value) = tmp.apply_keep(|m| m.insert(42, '_'));
    let right_map = HashMap::new().apply(|m| m.insert(42, '_'));

    assert_eq!(left_map, right_map);
    assert_eq!(inner_value, Some('!'));
}

#[test]
fn unwrap_non_panic_path() {
    let tmp = HashMap::new().apply(|m| m.insert(42, '!'));
    let left = tmp.apply_unwrap(|m| m.insert(42, '~'));
    let right = HashMap::new().apply(|m| m.insert(42, '~'));

    assert_eq!(left, right);
}

#[test]
#[should_panic]
fn unwrap_panic_path() {
    let _ = Vec::<()>::new().apply_unwrap(|v| v.pop());
}

#[test]
fn apply_returns_the_receiver_as_the_callback_left_it() {
    let v = vec![1, 2, 3];
    let v_pushed = v.apply(|v| v.push(4));

    assert_eq!(v_pushed, [1, 2, 3, 4]);
}

#[test]
fn apply_agrees_with_a_direct_call_on_a_copy() {
    let start = vec![7u32, 1, 5];

    let mut scratch = start.clone();
    scratch.sort();

    let chained = start.apply(|v| v.sort());

    assert_eq!(chained, scratch);
    assert_eq!(chained, [1, 5, 7]);
}

#[test]
fn apply_drops_the_by_product() {
    let v: Vec<u8> = vec![1, 2, 3].apply(|v| v.pop());

    assert_eq!(v, [1, 2]);
}

#[test]
fn apply_on_an_empty_receiver() {
    let v: Vec<u8> = Vec::new().apply(|v| v.pop());

    assert!(v.is_empty());
}

#[test]
fn apply_keep_returns_receiver_first_and_by_product_second() {
    let v = vec![1, 2, 3, 4];
    let (new_v, popped) = v.apply_keep(|v| v.pop());

    assert_eq!(new_v, [1, 2, 3]);
    assert_eq!(popped, Some(4));
}

#[test]
fn apply_keep_keeps_a_by_product_of_the_receivers_own_type() {
    let (after, before) = 10u32.apply_keep(|n| {
        let seen = *n;
        *n += 1;
        seen
    });

    assert_eq!(after, 11);
    assert_eq!(before, 10);
}

#[test]
fn apply_keep_keeps_a_failed_by_product() {
    let (v, popped) = Vec::<u8>::new().apply_keep(|v| v.pop());

    assert!(v.is_empty());
    assert_eq!(popped, None);
}

#[test]
fn chained_calls_run_in_program_order() {
    let chained = String::new()
        .apply(|s| s.push('a'))
        .apply(|s| s.push_str("bc"))
        .apply(|s| s.insert(0, '>'))
        .apply(|s| s.pop());

    let mut in_place = String::new();
    in_place.push('a');
    in_place.push_str("bc");
    in_place.insert(0, '>');
    in_place.pop();

    assert_eq!(chained, in_place);
    assert_eq!(chained, ">ab");
}

#[test]
fn each_callback_sees_what_the_one_before_left() {
    let (v, seen) = vec![1u8]
        .apply(|v| v.push(2))
        .apply(|v| v.push(3))
        .apply_keep(|v| v.clone());

    assert_eq!(seen, [1, 2, 3]);
    assert_eq!(v, [1, 2, 3]);
}

#[test]
fn chained_calls_on_disjoint_fields() {
    let (a, b, c) = (0u8, 0u8, 0u8)
        .apply(|t| t.0 = 1)
        .apply(|t| t.1 = 2)
        .apply(|t| t.2 = 3);

    assert_eq!((a, b, c), (1, 2, 3));
}

#[test]
fn callback_runs_exactly_once() {
    let calls = 0u32
        .apply(|n| *n += 1)
        .apply_keep(|n| *n += 1)
        .0
        .apply_unwrap(|n| {
            *n += 1;
            Some(())
        });

    assert_eq!(calls, 3);
}

struct Token {
    uses: u32,
}

#[test]
fn receiver_needs_no_clone() {
    let token = Token { uses: 0 }.apply(|t| t.uses += 1);
    let (token, before) = token.apply_keep(|t| {
        let before = t.uses;
        t.uses += 1;
        before
    });

    assert_eq!(before, 1);
    assert_eq!(token.uses, 2);
}

#[test]
fn callback_may_move_out_of_its_environment() {
    let tail = vec![String::from("b"), String::from("c")];
    let all = vec![String::from("a")].apply(move |v| v.extend(tail));

    assert_eq!(all, ["a", "b", "c"]);
}

#[test]
fn apply_takes_a_function_by_name() {
    let v = vec![3u8, 1, 2].apply(Vec::pop).apply(Vec::clear);

    assert!(v.is_empty());
}

#[test]
fn apply_unwrap_keeps_the_mutation_and_drops_the_payload() {
    let v = vec![1, 2, 3];
    let v = v
        .apply_unwrap(Vec::pop)
        .apply_unwrap(Vec::pop);

    assert_eq!(v, [1]);
}

#[test]
fn apply_unwrap_takes_a_result() {
    let parsed = Vec::new().apply_unwrap(|v: &mut Vec<u32>| {
        "1969".parse::<u32>().map(|n| v.push(n))
    });

    assert_eq!(parsed, [1969]);
}

#[test]
fn apply_unwrap_empties_a_receiver_to_its_last_element() {
    let v = vec![2].apply_unwrap(Vec::pop);

    assert!(v.is_empty());
}
