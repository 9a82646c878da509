use rust_chat_server::params::{compare_params, Params};

#[test]
fn insert_replaces_in_place() {
    let mut p = Params::new();
    p.insert("a".to_string(), "1".to_string());
    p.insert("b".to_string(), "2".to_string());
    p.insert("a".to_string(), "3".to_string());
    assert_eq!(p.len(), 2);
    assert_eq!(p.entry_at(0), (&"a".to_string(), &"3".to_string()));
    assert!(p.contains_key("b"));
    assert!(p.get("c").is_none());
}

#[test]
fn compare_params_cases() {
    let mut a = Params::new();
    a.insert("k".to_string(), "v".to_string());
    let b = a.clone();
    assert!(compare_params(&None, &None));
    assert!(!compare_params(&Some(a.clone()), &None));
    assert!(!compare_params(&None, &Some(b.clone())));
    assert!(compare_params(&Some(a.clone()), &Some(b)));
    assert!(!compare_params(&Some(Params::new()), &Some(Params::new())));
}

#[test]
fn lookup_after_insert() {
    let mut p = Params::new();
    p.insert("a".to_string(), "1".to_string());
    p.insert("b".to_string(), "2".to_string());
    p.insert("b".to_string(), "5".to_string());
    assert_eq!(p.get("b").unwrap(), "5");
    assert_eq!(p.get("a").unwrap(), "1");
    assert_eq!(p.len(), 2);
}

#[test]
fn compare_params_symmetric_and_reflexive() {
    let mut a = Params::new();
    a.insert("k".to_string(), "v".to_string());
    a.insert("x".to_string(), "y".to_string());
    let mut b = Params::new();
    b.insert("x".to_string(), "y".to_string());
    b.insert("k".to_string(), "w".to_string());
    assert_eq!(
        compare_params(&Some(a.clone()), &Some(b.clone())),
        compare_params(&Some(b.clone()), &Some(a.clone()))
    );
    assert!(compare_params(&Some(a.clone()), &Some(a.clone())));
}
