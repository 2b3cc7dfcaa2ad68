use nerve_runtime::arithmetic;
use nerve_runtime::digest;
use nerve_runtime::ordered;
use nerve_runtime::ordered::OrderedMap;
use nerve_runtime::ordered::OrderedSet;
use nerve_runtime::sequence;
use nerve_runtime::text;
use nerve_runtime::text::Message;

fn texts(list: &[&str]) -> Vec<String> {
    list.iter().map(|item| item.to_string()).collect()
}

#[test]
fn numbers_are_written_in_decimal() {
    assert_eq!(text::decimal_text(0), "0");
    assert_eq!(text::decimal_text(10), "10");
    assert_eq!(text::decimal_text(u128::MAX), u128::MAX.to_string());
}

#[test]
fn clones_hold_what_was_cloned() {
    let map = OrderedMap::from_entries(vec![
        ("b".to_string(), 2usize),
        ("a".to_string(), 1),
        ("b".to_string(), 3),
    ]);
    let mut copy = map.clone();
    assert_eq!(copy, map);
    copy.insert("c".to_string(), 4);
    assert_eq!(map.get(&"c".to_string()), None);
    assert_eq!(copy.get(&"c".to_string()), Some(&4));
    let mut set: OrderedSet<String> = OrderedSet::new();
    set.insert("x".to_string());
    assert_eq!(set.clone(), set);
}

#[test]
fn messages_are_put_together() {
    let message = Message::new("a ")
        .number(7)
        .text(" ")
        .number_u64(u64::MAX)
        .text(" ")
        .sum(usize::MAX, 1)
        .text(" ")
        .quoted("say \"no\"\n")
        .text(" ")
        .quoted_option(&Some("x".to_string()))
        .text(" ")
        .quoted_option(&None)
        .text(" ")
        .number_option(Some(3))
        .text(" ")
        .number_option(None)
        .text(" ")
        .number_list(&vec![1, 22, 3])
        .number_list(&vec![])
        .number_list_option(&Some(vec![4]))
        .number_list_option(&None)
        .done();
    let expected = format!(
        "a 7 {} {} {:?} {:?} {:?} {:?} {:?} {:?}{:?}{:?}{:?}",
        u64::MAX,
        usize::MAX as u128 + 1,
        "say \"no\"\n",
        Some("x"),
        None::<&str>,
        Some(3),
        None::<usize>,
        vec![1, 22, 3],
        Vec::<usize>::new(),
        Some(vec![4]),
        None::<Vec<usize>>
    );
    assert_eq!(message, expected);
}

#[test]
fn texts_are_taken_apart() {
    assert_eq!(text::strip_prefix("shared_from:a.b", "shared_from:"), Some("a.b"));
    assert_eq!(text::strip_prefix("shared", "shared_from:"), None);
    assert_eq!(text::rsplit_once("a.b.c", '.'), Some(("a.b", "c")));
    assert_eq!(text::rsplit_once("abc", '.'), None);
    assert!(text::contains("one two", "e t"));
    assert!(!text::contains("one", "one two"));
    assert!(text::contains("", ""));
    assert_eq!(text::characters("a\u{e9}"), vec!['a', '\u{e9}']);
}

#[test]
fn texts_are_ordered_as_strings_are() {
    let list = ["", "a", "ab", "b", "B", "10", "9", "\u{e9}", "z"];
    for one in list {
        for other in list {
            assert_eq!(text::is_before(one, other), one < other);
        }
    }
}

#[test]
fn common_divisors_and_multiples() {
    assert_eq!(arithmetic::greatest_common_divisor(12, 18), 6);
    assert_eq!(arithmetic::greatest_common_divisor(7, 0), 7);
    assert_eq!(arithmetic::least_common_multiple(4, 6), Some(12));
    assert_eq!(arithmetic::least_common_multiple(usize::MAX, 2), None);
}

#[test]
fn powers_of_two_are_told() {
    assert!(!arithmetic::is_power_of_two(0));
    assert!(arithmetic::is_power_of_two(1));
    assert!(arithmetic::is_power_of_two(4096));
    assert!(!arithmetic::is_power_of_two(48));
}

#[test]
fn products_and_quotients() {
    assert_eq!(arithmetic::product(&vec![2, 3, 4]), Some(24));
    assert_eq!(arithmetic::product(&vec![]), Some(1));
    assert_eq!(arithmetic::product(&vec![usize::MAX, 2]), None);
    assert_eq!(arithmetic::product_from(5, &vec![3]), Some(15));
    assert_eq!(arithmetic::ceiling_division(7, 3), 3);
    assert_eq!(arithmetic::ceiling_division(6, 3), 2);
    assert_eq!(arithmetic::ceiling_division(0, 3), 0);
}

#[test]
fn words_are_laid_out_in_bytes() {
    assert_eq!(
        arithmetic::little_endian(0x0102_0304),
        0x0102_0304u32.to_le_bytes().to_vec()
    );
    assert_eq!(
        arithmetic::big_endian(0x0102_0304_0506_0708),
        0x0102_0304_0506_0708u64.to_be_bytes().to_vec()
    );
}

#[test]
fn digests_are_sha256() {
    assert_eq!(
        digest::sha256_hex(b"abc"),
        "ba7816bf8f01cfea414140de5dae2223b00361a396177a9cb410ff61f20015ad"
    );
    assert_eq!(
        digest::sha256_hex(b""),
        "e3b0c44298fc1c149afbf4c8996fb92427ae41e4649b934ca495991b7852b855"
    );
    assert_eq!(digest::hex_text(&vec![0, 255, 16, 9], 3), "00ff10");
}

#[test]
fn maps_keep_their_keys_in_order() {
    let mut map: OrderedMap<String, usize> = OrderedMap::new();
    for (key, value) in [("b", 2), ("a", 1), ("c", 3), ("a", 10)] {
        map.insert(key.to_string(), value);
    }
    assert_eq!(
        map.entries,
        vec![
            ("a".to_string(), 10),
            ("b".to_string(), 2),
            ("c".to_string(), 3)
        ]
    );
    assert_eq!(map.get(&"b".to_string()), Some(&2));
    assert_eq!(map.get(&"d".to_string()), None);
    assert_eq!(map.remove(&"b".to_string()), Some(2));
    assert_eq!(map.remove(&"b".to_string()), None);
    assert_eq!(map.len(), 2);
    assert_eq!(map.into_values(), vec![10, 3]);
}

#[test]
fn later_entries_replace_earlier_ones() {
    let map = OrderedMap::from_entries(vec![
        ("x".to_string(), 1usize),
        ("a".to_string(), 2),
        ("x".to_string(), 3),
    ]);
    assert_eq!(
        map.entries,
        vec![("a".to_string(), 2), ("x".to_string(), 3)]
    );
    let keys = ordered::distinct_texts(&texts(&["x", "a", "x"]));
    assert!(map.has_keys(&keys));
    assert!(!map.has_keys(&ordered::distinct_texts(&texts(&["x"]))));
    assert!(!map.has_keys(&ordered::distinct_texts(&texts(&["x", "a", "b"]))));
}

#[test]
fn sets_keep_their_elements_in_order() {
    let mut set: OrderedSet<(usize, usize)> = OrderedSet::new();
    assert!(set.insert((2, 0)));
    assert!(set.insert((1, 9)));
    assert!(!set.insert((2, 0)));
    assert_eq!(set.elements, vec![(1, 9), (2, 0)]);
    assert!(set.contains(&(1, 9)));
    assert!(set.remove(&(1, 9)));
    assert!(!set.remove(&(1, 9)));
    assert_eq!(set.len(), 1);
}

#[test]
fn sorting_keeps_distinct_elements() {
    let set = ordered::distinct_texts(&texts(&["b", "a", "b", "10", "9"]));
    assert_eq!(set.elements, texts(&["10", "9", "a", "b"]));
    let more = ordered::insert_text(set.elements, &"aa".to_string());
    assert_eq!(more, texts(&["10", "9", "a", "aa", "b"]));
}

#[test]
fn subsets_are_told() {
    let small = ordered::distinct_texts(&texts(&["a"]));
    let large = ordered::distinct_texts(&texts(&["a", "b"]));
    assert!(small.is_subset(&large));
    assert!(!large.is_subset(&small));
    assert!(!large.is_same(&small));
    assert!(large.is_same(&ordered::distinct_texts(&texts(&["b", "a"]))));
}

#[test]
fn the_first_failure_is_collected() {
    let all: Vec<Result<usize, String>> = vec![Ok(1), Ok(2)];
    assert_eq!(sequence::collected(all), Ok(vec![1, 2]));
    let some: Vec<Result<usize, String>> =
        vec![Ok(1), Err("x".to_string()), Err("y".to_string())];
    assert_eq!(sequence::collected(some), Err("x".to_string()));
}

#[test]
fn texts_are_quoted_as_paths_are() {
    for c in '\0'..=char::MAX {
        for text in [format!("{c}"), format!("a{c}b"), format!("'{c}{c}")] {
            assert_eq!(
                Message::new("").quoted(&text).done(),
                format!("{:?}", std::path::Path::new(&text))
            );
        }
    }
}
