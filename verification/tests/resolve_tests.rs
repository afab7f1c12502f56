use at::check_index;
use at::panic_bounds_check;

#[test]
fn check_index_resolution() {
    assert_eq!(check_index(0u8, 3), Some(0));
    assert_eq!(check_index(2u64, 3), Some(2));
    assert_eq!(check_index(3u16, 3), None);
    assert_eq!(check_index(-1i8, 3), Some(2));
    assert_eq!(check_index(-3i16, 3), Some(0));
    assert_eq!(check_index(-4i64, 3), None);
    assert_eq!(check_index(u128::MAX, usize::MAX), None);
    assert_eq!(check_index(0i8, 0), None);
    assert_eq!(check_index(-1i8, 0), None);
}

#[test]
fn check_index_max_length() {
    assert_eq!(check_index(-1i32, usize::MAX), Some(usize::MAX - 1));
    assert_eq!(check_index(usize::MAX - 1, usize::MAX), Some(usize::MAX - 1));
    assert_eq!(check_index(isize::MIN, usize::MAX), Some(isize::MAX as usize));
    // Below the native signed width nothing resolves, however long the
    // sequence is.
    assert_eq!(check_index((isize::MIN as i128) - 1, usize::MAX), None);
}

#[test]
fn cross_width_resolution() {
    assert_eq!(check_index(-1i8, 5), check_index(-1i128, 5));
    assert_eq!(check_index(-1i16, 5), check_index(-1isize, 5));
    assert_eq!(check_index(2u8, 5), check_index(2u128, 5));
    assert_eq!(check_index(4usize, 5), check_index(4i16, 5));
    assert_eq!(check_index(3u32, 5), check_index(3i64, 5));
}

#[test]
fn message_rendering() {
    assert_eq!(
        panic_bounds_check(0u8, 0),
        "index out of bounds: the len is 0 but the index is 0"
    );
    assert_eq!(
        panic_bounds_check(-100i32, 255),
        "index out of bounds: the len is 255 but the index is -100"
    );
    assert_eq!(
        panic_bounds_check(u128::MAX, 7),
        format!("index out of bounds: the len is 7 but the index is {}", u128::MAX)
    );
    assert_eq!(
        panic_bounds_check(i128::MIN, 7),
        format!("index out of bounds: the len is 7 but the index is {}", i128::MIN)
    );
    assert_eq!(
        panic_bounds_check(usize::MAX, 1),
        format!("index out of bounds: the len is 1 but the index is {}", usize::MAX)
    );
}
