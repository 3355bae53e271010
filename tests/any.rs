use rhai::{Any, AnyExt, Dynamic, TypeToken};

#[test]
fn wrapped_value_passes_identity_test_for_its_own_type_only() {
    let d = 42_i64.into_dynamic();
    assert!(d.is::<i64>());
    assert!(!d.is::<String>());
    assert!(!d.is::<bool>());
    assert!(!d.is::<char>());
    assert!(!d.is::<()>());

    let s = String::from("hello").into_dynamic();
    assert!(s.is::<String>());
    assert!(!s.is::<i64>());
}

#[test]
fn type_tokens_and_labels() {
    assert_eq!(42_i64.type_id(), TypeToken::Int);
    assert_eq!(true.type_id(), TypeToken::Bool);
    assert_eq!('x'.type_id(), TypeToken::Char);
    assert_eq!(().type_id(), TypeToken::Unit);
    assert_eq!(String::new().type_id(), TypeToken::Str);
    assert_eq!(<i64 as Any>::type_token(), TypeToken::Int);

    assert_eq!(7_i64.into_dynamic().type_label(), "i64");
    assert_eq!(false.into_dynamic().type_label(), "bool");
    assert_eq!('c'.into_dynamic().type_label(), "char");
    assert_eq!(().into_dynamic().type_label(), "()");
    assert_eq!(String::from("a").into_dynamic().type_label(), "alloc::string::String");
    assert_eq!(String::from("a").into_dynamic().type_id(), TypeToken::Str);
}

#[test]
fn duplicate_is_independent_of_original() {
    let mut original = 1_i64.into_dynamic();
    let duplicate = original.clone();
    *original.downcast_mut::<i64>().unwrap() = 1001;
    assert_eq!(*original.downcast_ref::<i64>().unwrap(), 1001);
    assert_eq!(*duplicate.downcast_ref::<i64>().unwrap(), 1);

    let mut text = String::from("abc").into_dynamic();
    let copy = text.clone();
    text.downcast_mut::<String>().unwrap().push_str("def");
    assert_eq!(text.downcast_ref::<String>().unwrap(), "abcdef");
    assert_eq!(copy.downcast_ref::<String>().unwrap(), "abc");
}

#[test]
fn checked_references_refuse_wrong_type() {
    let mut d = 'q'.into_dynamic();
    assert!(d.downcast_ref::<i64>().is_none());
    assert!(d.downcast_mut::<String>().is_none());
    assert_eq!(*d.downcast_ref::<char>().unwrap(), 'q');
    assert!(d.is::<char>());
}

#[test]
fn extraction_to_right_type_and_back_from_wrong_type() {
    let d = 42_u8 as i64;
    let d = d.into_dynamic();
    assert_eq!(*d.clone().downcast::<i64>().unwrap(), 42);

    let back = match d.downcast::<String>() {
        Ok(_) => panic!("extracted as the wrong type"),
        Err(back) => back,
    };
    assert!(back.is::<i64>());
    assert_eq!(*back.downcast::<i64>().unwrap(), 42);

    let s = String::from("xyz").into_dynamic();
    let s = s.downcast::<bool>().unwrap_err();
    assert_eq!(*s.downcast::<String>().unwrap(), "xyz");
}
