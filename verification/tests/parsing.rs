use act_zero_ext::parse::parse_function;
use act_zero_ext::sig::{ParamKind, VisKind};

#[test]
fn parses_structured_signature() {
    let src = "pub(crate) async fn greet<T>(&mut self, name: String, (a, b): (u8, u8)) -> T { name }";
    let sig = parse_function(&src.as_bytes().to_vec()).expect("well-formed input");
    assert!(sig.visibility.kind == VisKind::Restricted);
    assert_eq!(sig.visibility.restriction, b"crate".to_vec());
    assert!(sig.is_suspending);
    assert_eq!(sig.name, b"greet".to_vec());
    assert_eq!(sig.generics, b"<T>".to_vec());
    assert_eq!(sig.params.len(), 3);
    assert!(sig.params[0].kind == ParamKind::Receiver);
    assert_eq!(sig.params[0].binder, b"&mut self".to_vec());
    assert!(sig.params[1].kind == ParamKind::Ident);
    assert_eq!(sig.params[1].binder, b"name".to_vec());
    assert_eq!(sig.params[1].ident, b"name".to_vec());
    assert_eq!(sig.params[1].ty, b"String".to_vec());
    assert!(sig.params[2].kind == ParamKind::Patterned);
    assert_eq!(sig.params[2].binder, b"(a, b)".to_vec());
    assert_eq!(sig.params[2].ident, b"".to_vec());
    assert_eq!(sig.params[2].ty, b"(u8, u8)".to_vec());
    assert_eq!(sig.return_type, Some(b"T".to_vec()));
    assert_eq!(sig.body, b"{ name }".to_vec());
}

#[test]
fn absent_return_type_is_none() {
    let sig = parse_function(&"fn quiet(&self) { () }".as_bytes().to_vec()).expect("well-formed");
    assert!(sig.visibility.kind == VisKind::Private);
    assert!(!sig.is_suspending);
    assert_eq!(sig.return_type, None);
}

#[test]
fn body_copied_verbatim_with_nested_braces() {
    let src = "fn nested(&self) { if x { y } else { z } }";
    let sig = parse_function(&src.as_bytes().to_vec()).expect("well-formed");
    assert_eq!(sig.body, b"{ if x { y } else { z } }".to_vec());
}

#[test]
fn empty_parameter_list_accepted() {
    let sig = parse_function(&"fn free() -> u8 { 0 }".as_bytes().to_vec()).expect("well-formed");
    assert_eq!(sig.params.len(), 0);
    assert_eq!(sig.return_type, Some(b"u8".to_vec()));
}

#[test]
fn path_types_with_double_colon_accepted() {
    let src = "fn path_ty(&self, e: std::vec::Vec<u8>) -> module::Thing { e }";
    let sig = parse_function(&src.as_bytes().to_vec()).expect("well-formed");
    assert!(sig.params[1].kind == ParamKind::Ident);
    assert_eq!(sig.params[1].ty, b"std::vec::Vec<u8>".to_vec());
    assert_eq!(sig.return_type, Some(b"module::Thing".to_vec()));
}

#[test]
fn receiver_forms_accepted() {
    for recv in ["self", "&self", "&mut self", "mut self", "& mut self"] {
        let src = format!("fn r({recv}) {{}}");
        let sig = parse_function(&src.as_bytes().to_vec()).expect("well-formed");
        assert_eq!(sig.params.len(), 1);
        assert!(sig.params[0].kind == ParamKind::Receiver);
        assert_eq!(sig.params[0].binder, recv.as_bytes().to_vec());
    }
}

#[test]
fn name_starting_with_digit_refused() {
    assert!(parse_function(&"fn 9lives(&self) {}".as_bytes().to_vec()).is_err());
}
