use factory_core::Sentinel;

#[derive(Clone, Copy, Default, PartialEq, Debug)]
struct TestId(i64);

impl Sentinel for TestId {
    fn spec_is_sentinel(&self) -> bool {
        self.0 == 0
    }
    fn sentinel() -> Self {
        TestId(0)
    }
    fn is_sentinel(&self) -> bool {
        self.0 == 0
    }
}

#[test]
fn test_sentinel_i64() {
    assert!(0_i64.is_sentinel());
    assert!(!1_i64.is_sentinel());
    assert!(!(-1_i64).is_sentinel());
}

#[test]
fn test_sentinel_option_none() {
    let none: Option<i64> = None;
    assert!(none.is_sentinel());
}

#[test]
fn test_sentinel_option_some_sentinel() {
    let some_zero: Option<i64> = Some(0);
    assert!(some_zero.is_sentinel());
}

#[test]
fn test_sentinel_option_some_non_sentinel() {
    let some_one: Option<i64> = Some(1);
    assert!(!some_one.is_sentinel());
}

#[test]
fn test_sentinel_custom_type() {
    assert!(TestId(0).is_sentinel());
    assert!(!TestId(1).is_sentinel());
    assert!(!TestId(999).is_sentinel());
}

#[test]
fn test_sentinel_option_custom_type() {
    let none: Option<TestId> = None;
    let some_zero: Option<TestId> = Some(TestId(0));
    let some_one: Option<TestId> = Some(TestId(1));

    assert!(none.is_sentinel());
    assert!(some_zero.is_sentinel());
    assert!(!some_one.is_sentinel());
}

#[test]
fn sentinel_of_every_type_recognises_itself() {
    assert!(<i64 as Sentinel>::sentinel().is_sentinel());
    assert!(<i32 as Sentinel>::sentinel().is_sentinel());
    assert!(<i16 as Sentinel>::sentinel().is_sentinel());
    assert!(<u64 as Sentinel>::sentinel().is_sentinel());
    assert!(<u32 as Sentinel>::sentinel().is_sentinel());
    assert!(<String as Sentinel>::sentinel().is_sentinel());
    assert!(<Option<i64> as Sentinel>::sentinel().is_sentinel());
    assert!(<Option<String> as Sentinel>::sentinel().is_sentinel());
    assert_eq!(<i64 as Sentinel>::sentinel(), 0);
    assert_eq!(<String as Sentinel>::sentinel(), String::new());
    assert_eq!(<Option<u32> as Sentinel>::sentinel(), None);
}

#[test]
fn numeric_sentinel_is_zero_only() {
    assert!(0_i32.is_sentinel());
    assert!(!(-1_i32).is_sentinel());
    assert!(!i32::MIN.is_sentinel());
    assert!(0_i16.is_sentinel());
    assert!(!(-7_i16).is_sentinel());
    assert!(!i16::MAX.is_sentinel());
    assert!(0_u64.is_sentinel());
    assert!(!u64::MAX.is_sentinel());
    assert!(0_u32.is_sentinel());
    assert!(!1_u32.is_sentinel());
    assert!(!i64::MIN.is_sentinel());
    assert!(!i64::MAX.is_sentinel());
}

#[test]
fn text_sentinel_is_empty_string() {
    assert!(String::new().is_sentinel());
    assert!(!String::from("a").is_sentinel());
    assert!(!String::from(" ").is_sentinel());
    assert!(Some(String::new()).is_sentinel());
    assert!(!Some(String::from("x")).is_sentinel());
}

#[test]
fn option_sentinel_follows_inner_value() {
    for x in [-3_i64, -1, 0, 1, 42] {
        assert_eq!(Some(x).is_sentinel(), x.is_sentinel());
    }
    let nested: Option<Option<i64>> = Some(None);
    assert!(nested.is_sentinel());
    let nested_set: Option<Option<i64>> = Some(Some(5));
    assert!(!nested_set.is_sentinel());
}

#[test]
fn recognition_is_stable_across_calls() {
    let v: Option<i64> = Some(0);
    let first = v.is_sentinel();
    let second = v.is_sentinel();
    assert_eq!(first, second);
    assert_eq!(v, Some(0));
    let s = String::from("key");
    assert_eq!(s.is_sentinel(), s.is_sentinel());
    assert_eq!(s, "key");
}
