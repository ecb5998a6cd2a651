use origami::iter::IteratorFoldExt;
use origami::wrappers::{All, Any, First, Last, Max, Min, Product, Sum};

#[test]
fn fold_monoid_of_empty_is_unit() {
    let nums: Vec<Sum<i32>> = vec![];
    assert_eq!(nums.into_iter().fold_monoid(), Sum(0));
}

#[test]
fn fold_monoid_adds_sums() {
    let nums = vec![Sum(1), Sum(2), Sum(3)];
    assert_eq!(nums.into_iter().fold_monoid(), Sum(6));
}

#[test]
fn fold_monoid_sum_wraps_around() {
    let nums = vec![Sum(u64::MAX), Sum(2u64)];
    assert_eq!(nums.into_iter().fold_monoid(), Sum(1u64));
}

#[test]
fn fold_nonempty_of_empty_is_none() {
    let nums: Vec<Product<i32>> = vec![];
    assert_eq!(nums.into_iter().fold_nonempty(), None);
}

#[test]
fn fold_nonempty_multiplies_products() {
    let nums = vec![Product(1), Product(2), Product(3)];
    assert_eq!(nums.into_iter().fold_nonempty(), Some(Product(6)));
}

#[test]
fn fold_map_all_of_booleans() {
    let nums = vec![true, false, true];
    let all_true = nums.into_iter().fold_map(All).0;
    assert_eq!(all_true, false);
}

#[test]
fn fold_map_any_of_booleans() {
    assert_eq!(vec![false, true, false].into_iter().fold_map(Any), Any(true));
    assert_eq!(vec![false, false].into_iter().fold_map(Any), Any(false));
    let none: Vec<bool> = vec![];
    assert_eq!(none.into_iter().fold_map(All), All(true));
}

#[test]
fn fold_map_nonempty_maps_then_combines() {
    let nums: Vec<i64> = vec![4, -2, 3];
    assert_eq!(nums.into_iter().fold_map_nonempty(Product), Some(Product(-24i64)));
    let none: Vec<i64> = vec![];
    assert_eq!(none.into_iter().fold_map_nonempty(Sum), None);
}

#[test]
fn fold_reduce_concatenates_text() {
    let names = vec!["Applejack", "Fluttershy", "Rarity"];
    let result = names.into_iter().fold_reduce::<String>();
    assert_eq!(result, "ApplejackFluttershyRarity");
}

#[test]
fn fold_reduce_of_empty_is_unit() {
    let names: Vec<&str> = vec![];
    assert_eq!(names.clone().into_iter().fold_reduce::<String>(), String::new());
    assert_eq!(names.into_iter().fold_reduce::<Option<String>>(), None);
}

#[test]
fn fold_reduce_through_option() {
    let names = vec!["ab", "", "c"];
    let result = names.into_iter().fold_reduce::<Option<String>>();
    assert_eq!(result, Some("abc".to_string()));
}

#[test]
fn fold_reduce_concatenates_slices() {
    let parts: Vec<&[u8]> = vec![&[1, 2], &[], &[3]];
    assert_eq!(parts.into_iter().fold_reduce::<Vec<u8>>(), vec![1u8, 2, 3]);
}

#[test]
fn fold_reduce_nonempty_signals_empty() {
    let names: Vec<&str> = vec![];
    assert_eq!(names.into_iter().fold_reduce_nonempty::<String>(), None);
    let names = vec!["x", "yz"];
    assert_eq!(names.into_iter().fold_reduce_nonempty::<String>(), Some("xyz".to_string()));
}

#[test]
fn fold_min_and_max() {
    assert_eq!(vec![Min(3), Min(1), Min(2)].into_iter().fold_monoid(), Min(1));
    assert_eq!(vec![Max(3), Max(1), Max(2)].into_iter().fold_monoid(), Max(3));
    let mins: Vec<Min<i32>> = vec![];
    assert_eq!(mins.into_iter().fold_monoid(), Min(i32::MAX));
    let maxes: Vec<Max<u64>> = vec![];
    assert_eq!(maxes.into_iter().fold_monoid(), Max(u64::MIN));
}

#[test]
fn fold_first_and_last() {
    let firsts = vec![First(1), First(2), First(3)];
    assert_eq!(firsts.into_iter().fold_nonempty(), Some(First(1)));
    let lasts = vec![Last(1), Last(2), Last(3)];
    assert_eq!(lasts.into_iter().fold_nonempty(), Some(Last(3)));
}
