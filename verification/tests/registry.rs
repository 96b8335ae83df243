use hvm_lang::DefNames;

#[test]
fn insert_returns_increasing_ids() {
    let mut names = DefNames::new();
    let a = names.insert("foo".to_string());
    let b = names.insert("bar".to_string());
    let c = names.insert("baz".to_string());
    assert_eq!(a, 0);
    assert_eq!(b, 1);
    assert_eq!(c, 2);
    assert!(a < b && b < c);
}

#[test]
fn lookups_round_trip_after_insert() {
    let mut names = DefNames::new();
    let a = names.insert("foo".to_string());
    let b = names.insert("bar".to_string());
    assert_eq!(names.def_id(&"foo".to_string()), Some(a));
    assert_eq!(names.def_id(&"bar".to_string()), Some(b));
    assert_eq!(names.name(a), Some("foo".to_string()));
    assert_eq!(names.name(b), Some("bar".to_string()));
}

#[test]
fn contains_checks() {
    let mut names = DefNames::new();
    assert!(!names.contains_name(&"foo".to_string()));
    assert!(!names.contains_def_id(0));
    let a = names.insert("foo".to_string());
    assert!(names.contains_name(&"foo".to_string()));
    assert!(names.contains_def_id(a));
    assert!(!names.contains_name(&"bar".to_string()));
    assert!(!names.contains_def_id(1));
}

#[test]
fn absent_lookups_return_none() {
    let mut names = DefNames::new();
    assert_eq!(names.name(0), None);
    assert_eq!(names.def_id(&"foo".to_string()), None);
    let _ = names.insert("foo".to_string());
    assert_eq!(names.name(7), None);
    assert_eq!(names.def_id(&"other".to_string()), None);
}
