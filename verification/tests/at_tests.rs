use at::At;

#[test]
fn test_positive() {
    let mut v = vec![1, 2, 3];
    assert_eq!(v.at(0u8), 1);
    assert_eq!(v.ref_at(1i128), &2);
    assert_eq!(v.mut_at(2isize), &mut 3);
}

#[test]
fn test_negative() {
    let mut v = [4, 5, 6];
    assert_eq!(v.at(-1i8), 6);
    assert_eq!(v.ref_at(-2i128), &5);
    assert_eq!(v.mut_at(-3isize), &mut 4);
}

#[test]
#[should_panic(expected = "index out of bounds: the len is 1 but the index is -2")]
fn test_panic() {
    let s = ["hi"];
    let _: &str = match at::check_index(-2i32, s.len()) {
        Some(i) => s[i],
        None => panic!("{}", at::panic_bounds_check(-2i32, s.len())),
    };
}

#[test]
fn test_zst() {
    let giant = [(); usize::MAX];
    giant.at(-1);
    giant.at(usize::MAX - 1);
    giant.at(isize::MIN);
}

#[test]
fn doc_scenario() {
    let mut v = vec![8, 2, 1, 0];
    assert_eq!(v.at(-1), 0);
    assert_eq!(v.ref_at(2), &1);
    assert_eq!(v.mut_at(-3), &mut 2);
}

#[test]
fn reference_access_without_copy() {
    let words = [String::from("left"), String::from("right")];
    assert_eq!(words.ref_at(-1i32).as_str(), "right");
    assert_eq!(words.ref_at(0u64).as_str(), "left");
}

#[test]
fn stable_identity() {
    let mut v = vec![10u32, 20, 30];
    assert!(std::ptr::eq(v.ref_at(1i8), v.ref_at(-2i64)));
    *v.mut_at(-2i8) = 99;
    assert_eq!(v[1], 99);
    assert_eq!(v.at(1u8), 99);
    assert_eq!(v.ref_at(1u8), &99);
}
