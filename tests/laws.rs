use origami::traits::{Monoid, Reducer, Semigroup, Wrapper};
use origami::wrappers::{All, Any, First, Last, Max, Min, Product, Sum};

#[test]
fn sum_and_product_wrap_around() {
    assert_eq!(Sum(i32::MAX).combine(Sum(1)), Sum(i32::MIN));
    assert_eq!(Sum(u32::MAX).combine(Sum(3)), Sum(2u32));
    assert_eq!(Product(u32::MAX).combine(Product(2)), Product(u32::MAX - 1));
    assert_eq!(Product(i64::MIN).combine(Product(-1)), Product(i64::MIN));
    assert_eq!(Product(-3i32).combine(Product(5)), Product(-15));
}

#[test]
fn combine_is_associative_on_examples() {
    let (a, b, c) = (Sum(i64::MAX), Sum(5i64), Sum(-7i64));
    assert_eq!(a.combine(b).combine(c), a.combine(b.combine(c)));
    let (a, b, c) = (Product(70000u32), Product(90000u32), Product(3u32));
    assert_eq!(a.combine(b).combine(c), a.combine(b.combine(c)));
    let s = |x: &str| x.to_string();
    assert_eq!(
        s("ab").combine(s("c")).combine(s("de")),
        s("ab").combine(s("c").combine(s("de")))
    );
    let (a, b, c) = (Some(Sum(1)), None, Some(Sum(2)));
    assert_eq!(a.combine(b).combine(c), a.combine(b.combine(c)));
    let (a, b, c) = ((Min(4), All(true)), (Min(2), All(false)), (Min(3), All(true)));
    assert_eq!(a.combine(b).combine(c), a.combine(b.combine(c)));
    assert_eq!(a.combine(b).combine(c), (Min(2), All(false)));
}

#[test]
fn unit_is_an_identity_on_examples() {
    assert_eq!(Sum::<i32>::unit().combine(Sum(5)), Sum(5));
    assert_eq!(Product(7u64).combine(Product::unit()), Product(7u64));
    assert_eq!(<String as Monoid>::unit().combine("ab".to_string()), "ab");
    assert_eq!(vec![1, 2].combine(<Vec<i32> as Monoid>::unit()), vec![1, 2]);
    assert_eq!(<Option<Max<i32>> as Monoid>::unit().combine(Some(Max(9i32))), Some(Max(9)));
    assert_eq!(Some(Max(9i32)).combine(None), Some(Max(9)));
    assert_eq!(<(Sum<i32>, All, Any)>::unit(), (Sum(0), All(true), Any(false)));
    assert_eq!(<(Min<u32>,)>::unit(), (Min(u32::MAX),));
    assert_eq!(<()>::unit().combine(()), ());
}

#[test]
fn option_combines_inner_values() {
    assert_eq!(Some(Sum(2)).combine(Some(Sum(3))), Some(Sum(5)));
    assert_eq!(None.combine(Some(Sum(3))), Some(Sum(3)));
    assert_eq!(None::<Sum<i32>>.combine(None), None);
}

#[test]
fn text_and_lists_concatenate() {
    assert_eq!("foo".to_string().combine("bar".to_string()), "foobar");
    assert_eq!(vec![1, 2].combine(vec![3]), vec![1, 2, 3]);
}

#[test]
fn first_and_last_keep_one_side() {
    assert_eq!(First("a").combine(First("b")), First("a"));
    assert_eq!(Last("a").combine(Last("b")), Last("b"));
}

#[test]
fn reducer_steps_match_combining_with_the_injection() {
    let acc = "ab".to_string();
    assert_eq!(acc.clone().combine_right("cd"), acc.clone().combine(<String as Reducer<&str>>::unit("cd")));
    assert_eq!(acc.clone().combine_right("cd"), "abcd");
    assert_eq!(acc.clone().combine_left("cd"), <String as Reducer<&str>>::unit("cd").combine(acc));
    assert_eq!("ab".to_string().combine_left("cd"), "cdab");
    let v = vec![1u8, 2];
    let part: &[u8] = &[3, 4];
    assert_eq!(v.clone().combine_right(part), vec![1, 2, 3, 4]);
    assert_eq!(v.clone().combine_left(part), vec![3, 4, 1, 2]);
    assert_eq!(<Vec<u8> as Reducer<&[u8]>>::unit(part), vec![3, 4]);
    let none: Option<String> = None;
    assert_eq!(none.clone().combine_right("x"), Some("x".to_string()));
    assert_eq!(none.combine_left("x"), Some("x".to_string()));
    assert_eq!(Some("a".to_string()).combine_left("x"), Some("xa".to_string()));
    assert_eq!(Some("a".to_string()).combine_right("x"), Some("ax".to_string()));
}

#[test]
fn wrappers_round_trip() {
    assert_eq!(Sum::from_inner(5).into_inner(), 5);
    assert_eq!(Product::from_inner(-2i64).into_inner(), -2);
    assert_eq!(All::from_inner(false).into_inner(), false);
    assert_eq!(Any::from_inner(true), Any(true));
    assert_eq!(Min(3u32).into_inner(), 3);
    assert_eq!(Max::from_inner(Max(1).into_inner()), Max(1));
    assert_eq!(First::from_inner("x").into_inner(), "x");
    assert_eq!(Last::from_inner(vec![1]).into_inner(), vec![1]);
}
