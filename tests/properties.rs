use no_debug::{Ellipses, Msg, NoDebug, WithTypeInfo};
use std::collections::hash_map::DefaultHasher;
use std::hash::{Hash, Hasher};

fn hash_of<T: Hash>(obj: &T) -> u64 {
    let mut hasher = DefaultHasher::new();
    obj.hash(&mut hasher);
    hasher.finish()
}

struct Account {
    id: u32,
    password: NoDebug<String>,
}

#[test]
fn placeholder_is_the_same_for_different_values() {
    let a = NoDebug::new(3i32);
    let b = NoDebug::new(-1_000_000i32);
    assert_eq!(a.render("i32"), b.render("i32"));
    assert_eq!(a.render("i32"), "<no debug: i32>");
}

#[test]
fn placeholder_names_the_given_type() {
    let value = NoDebug::new(vec![1u8, 2, 3]);
    assert_eq!(value.render("alloc::vec::Vec<u8>"), "<no debug: alloc::vec::Vec<u8>>");
    assert_eq!(value.render(""), "<no debug: >");
}

#[test]
fn strategies_render_directly() {
    assert_eq!(<WithTypeInfo as Msg<u64>>::fmt(&7, "u64"), "<no debug: u64>");
    assert_eq!(<Ellipses as Msg<u64>>::fmt(&7, "u64"), "...");
}

#[test]
fn ellipses_ignore_value_and_type() {
    let text: NoDebug<String, Ellipses> = String::from("hunter2").into();
    assert_eq!(text.render("alloc::string::String"), "...");
    let number: NoDebug<u8, Ellipses> = 255u8.into();
    assert_eq!(number.render("u8"), "...");
    assert_eq!(number.render(""), "...");
}

#[test]
fn read_returns_wrapped_value() {
    let value = NoDebug::new(String::from("secret"));
    assert_eq!(value.as_str(), "secret");
    assert_eq!(*value, String::from("secret"));
}

#[test]
fn unequal_values_make_unequal_wrappers() {
    let a: NoDebug<i32, Ellipses> = 3.into();
    let b: NoDebug<i32, WithTypeInfo> = 4.into();
    assert!(a != b);
    assert!(a != 4);
    assert!(!(a == b));
}

#[test]
fn hash_follows_the_value() {
    let a: NoDebug<String, Ellipses> = String::from("x").into();
    let b = NoDebug::new(String::from("x"));
    assert_eq!(hash_of(&a), hash_of(&String::from("x")));
    assert_eq!(hash_of(&a), hash_of(&b));
}

#[test]
fn order_follows_the_value() {
    let a = NoDebug::new(5);
    let b: NoDebug<i32, Ellipses> = 5.into();
    let c = NoDebug::new(9);
    assert!(!(a < b));
    assert!(!(b < a));
    assert!(a <= b);
    assert!(c > a);
    assert!(!(c < 9));
    assert!(a < 6);
}

#[test]
fn structure_shows_siblings_and_hides_wrapped_field() {
    let account = Account { id: 3, password: NoDebug::new(String::from("hunter2")) };
    let shown = format!(
        "Account {{ id: {:?}, password: {} }}",
        account.id,
        account.password.render("alloc::string::String")
    );
    assert_eq!(shown, "Account { id: 3, password: <no debug: alloc::string::String> }");
    assert!(!shown.contains("hunter2"));
}

#[test]
fn write_access_changes_reads_not_rendering() {
    let mut value = NoDebug::new(3);
    let before = value.render("i32");
    assert_eq!(*value, 3);
    *value = 4;
    assert_eq!(*value, 4);
    assert_eq!(value.render("i32"), before);
}

#[test]
fn unwrap_returns_exact_value() {
    let value = NoDebug::new(3);
    assert_eq!(value.take(), 3);
    let text: NoDebug<String, Ellipses> = String::from("abc").into();
    assert_eq!(text.take(), "abc");
}

#[test]
fn clone_keeps_value() {
    let value: NoDebug<Vec<i32>, Ellipses> = vec![1, 2].into();
    let copy = value.clone();
    assert!(copy == value);
    assert_eq!(copy.take(), vec![1, 2]);
}

#[test]
fn display_placeholder_names_the_type() {
    let value: NoDebug<i32, Ellipses> = 3.into();
    assert_eq!(value.render_display("i32"), "<no display: i32>");
    let other = NoDebug::new(9i32);
    assert_eq!(other.render_display("i32"), value.render_display("i32"));
}
