use bindgen_parse::annotations::{
    get_bindgen_original_name_annotation, get_cpp_visibility, get_virtualness, has_attr,
    parse_layout, AutocxxBindgenAnnotations, CppVisibility, Virtualness,
};
use bindgen_parse::errors::{ConvertError, ConvertErrorWithContext, ErrorContext};
use bindgen_parse::ident::validate_ident_ok_for_cxx;
use bindgen_parse::text::{contains_double_underscore, ends_with, str_eq};
use bindgen_parse::tokens::{Attribute, Delim, Layout, Token};

fn plain(name: &str) -> Attribute {
    Attribute { path: vec![name.to_string()], args: None }
}

fn with_args(name: &str, args: Vec<Token>) -> Attribute {
    Attribute { path: vec![name.to_string()], args: Some(args) }
}

fn annotation(name: &str, body: Option<Vec<Token>>) -> Attribute {
    let mut args = vec![Token::Ident(name.to_string())];
    if let Some(b) = body {
        args.push(Token::Group(Delim::Paren, b));
    }
    Attribute { path: vec!["autocxx".to_string(), "bindgen_annotation".to_string()], args: Some(args) }
}

#[test]
fn untagged_declaration_is_public_and_not_virtual() {
    let attrs = vec![plain("doc"), plain("derive")];
    assert_eq!(get_cpp_visibility(&attrs), CppVisibility::Public);
    assert_eq!(get_virtualness(&attrs), Virtualness::NonVirtual);
    let anns = AutocxxBindgenAnnotations::new(&attrs);
    assert_eq!(anns.get_cpp_visibility(), CppVisibility::Public);
    assert_eq!(anns.get_virtualness(), Virtualness::NonVirtual);
    let empty: Vec<Attribute> = Vec::new();
    assert_eq!(get_cpp_visibility(&empty), CppVisibility::Public);
    assert_eq!(get_virtualness(&empty), Virtualness::NonVirtual);
}

#[test]
fn private_wins_over_protected() {
    let attrs = vec![plain("bindgen_visibility_protected"), plain("bindgen_visibility_private")];
    assert_eq!(get_cpp_visibility(&attrs), CppVisibility::Private);
    let attrs = vec![plain("bindgen_visibility_protected")];
    assert_eq!(get_cpp_visibility(&attrs), CppVisibility::Protected);
}

#[test]
fn pure_virtual_wins_over_virtual() {
    let attrs = vec![plain("bindgen_virtual"), plain("bindgen_pure_virtual")];
    assert_eq!(get_virtualness(&attrs), Virtualness::PureVirtual);
    let attrs = vec![plain("bindgen_virtual")];
    assert_eq!(get_virtualness(&attrs), Virtualness::Virtual);
}

#[test]
fn has_attr_needs_a_single_segment_path() {
    let attrs = vec![Attribute {
        path: vec!["x".to_string(), "bindgen_virtual".to_string()],
        args: None,
    }];
    assert!(!has_attr(&attrs, "bindgen_virtual"));
    assert!(has_attr(&vec![plain("bindgen_virtual")], "bindgen_virtual"));
}

#[test]
fn layout_is_read_from_its_payload() {
    let attrs = vec![with_args(
        "bindgen_layout",
        vec![Token::Int(16), Token::Punct(','), Token::Int(8), Token::Punct(','), Token::Bool(true)],
    )];
    let l = parse_layout(&attrs).unwrap();
    assert_eq!(l, Some(Layout { size: 16, align: 8, packed: true }));
    assert_eq!(parse_layout(&vec![plain("doc")]).unwrap(), None);
}

#[test]
fn malformed_layout_is_an_error() {
    let attrs = vec![with_args("bindgen_layout", vec![Token::Int(16)])];
    match parse_layout(&attrs) {
        Err(ConvertError::MalformedAnnotation(n)) => assert_eq!(n, "bindgen_layout"),
        other => panic!("unexpected {:?}", other),
    }
    match parse_layout(&vec![plain("bindgen_layout")]) {
        Err(ConvertError::MalformedAnnotation(n)) => assert_eq!(n, "bindgen_layout"),
        other => panic!("unexpected {:?}", other),
    }
}

#[test]
fn original_name_is_the_first_readable_one() {
    let attrs = vec![
        with_args("bindgen_original_name", vec![Token::Ident("notastring".to_string())]),
        with_args("bindgen_original_name", vec![Token::Str("Foo::Bar".to_string())]),
        with_args("bindgen_original_name", vec![Token::Str("Other".to_string())]),
    ];
    assert_eq!(get_bindgen_original_name_annotation(&attrs), Some("Foo::Bar".to_string()));
    assert_eq!(get_bindgen_original_name_annotation(&vec![plain("doc")]), None);
}

#[test]
fn fact_bundle_round_trips_through_annotations() {
    let attrs = vec![
        annotation("visibility_protected", None),
        annotation("arg_type_reference", Some(vec![Token::Ident("x".to_string())])),
        annotation("ret_type_reference", None),
    ];
    let anns = AutocxxBindgenAnnotations::new(&attrs);
    assert_eq!(anns.get_cpp_visibility(), CppVisibility::Protected);
    let (params, by_ref) = anns.get_reference_parameters_and_return().unwrap();
    assert_eq!(params, vec!["x".to_string()]);
    assert!(by_ref);
}

#[test]
fn reference_parameters_default_to_by_value() {
    let anns = AutocxxBindgenAnnotations::new(&vec![annotation("pure_virtual", None)]);
    let (params, by_ref) = anns.get_reference_parameters_and_return().unwrap();
    assert!(params.is_empty());
    assert!(!by_ref);
    assert_eq!(anns.get_virtualness(), Virtualness::PureVirtual);
}

#[test]
fn annotations_that_do_not_read_are_passed_over() {
    let bad = Attribute {
        path: vec!["bindgen_annotation".to_string()],
        args: Some(vec![Token::Ident("layout".to_string()), Token::Int(1), Token::Int(2)]),
    };
    let no_args = Attribute { path: vec!["bindgen_annotation".to_string()], args: None };
    let anns = AutocxxBindgenAnnotations::new(&vec![bad, no_args, annotation("bindgen_virtual", None)]);
    assert_eq!(anns.0.len(), 1);
    assert_eq!(anns.get_virtualness(), Virtualness::Virtual);
}

#[test]
fn annotation_layout_and_original_name() {
    let attrs = vec![
        annotation(
            "layout",
            Some(vec![Token::Int(4), Token::Punct(','), Token::Int(4), Token::Punct(','), Token::Bool(false)]),
        ),
        annotation("original_name", Some(vec![Token::Str("ns::T".to_string())])),
    ];
    let anns = AutocxxBindgenAnnotations::new(&attrs);
    assert_eq!(anns.get_layout().unwrap(), Some(Layout { size: 4, align: 4, packed: false }));
    assert_eq!(anns.get_original_name().unwrap(), Some("ns::T".to_string()));
    let bad = AutocxxBindgenAnnotations::new(&vec![annotation("original_name", None)]);
    assert!(matches!(bad.get_original_name(), Err(ConvertError::MalformedAnnotation(_))));
}

#[test]
fn move_constructor_is_spotted() {
    let mv = AutocxxBindgenAnnotations::new(&vec![annotation(
        "special_member",
        Some(vec![Token::Str("move_ctor".to_string())]),
    )]);
    assert!(mv.is_move_constructor().unwrap());
    let cp = AutocxxBindgenAnnotations::new(&vec![annotation(
        "special_member",
        Some(vec![Token::Str("copy_ctor".to_string())]),
    )]);
    assert!(!cp.is_move_constructor().unwrap());
    let none = AutocxxBindgenAnnotations::new(&vec![]);
    assert!(!none.is_move_constructor().unwrap());
}

#[test]
fn annotation_attributes_are_removed() {
    let mut attrs = vec![plain("doc"), annotation("bindgen_virtual", None), plain("repr")];
    let r = AutocxxBindgenAnnotations::remove_bindgen_attrs(&mut attrs, "S".to_string());
    assert!(r.is_ok());
    assert_eq!(attrs.len(), 2);
    assert_eq!(attrs[0].path, vec!["doc".to_string()]);
    assert_eq!(attrs[1].path, vec!["repr".to_string()]);
}

#[test]
fn unused_template_parameter_is_refused() {
    let mut attrs = vec![plain("doc"), annotation("unused_template_param", None)];
    let r = AutocxxBindgenAnnotations::remove_bindgen_attrs(&mut attrs, "T".to_string());
    match r {
        Err(ConvertErrorWithContext(ConvertError::UnusedTemplateParam, Some(ErrorContext::Item(id)))) => {
            assert_eq!(id, "T")
        }
        other => panic!("unexpected {:?}", other),
    }
    assert_eq!(attrs.len(), 2);
}

#[test]
fn identifiers_are_checked() {
    assert!(validate_ident_ok_for_cxx("Foo").is_ok());
    assert!(matches!(validate_ident_ok_for_cxx("fn"), Err(ConvertError::ReservedName(n)) if n == "fn"));
    assert!(matches!(validate_ident_ok_for_cxx("a b"), Err(ConvertError::ReservedName(_))));
    assert!(matches!(validate_ident_ok_for_cxx("a__b"), Err(ConvertError::TooManyUnderscores)));
}

#[test]
fn text_helpers() {
    assert!(ends_with("Foo__bindgen_vtable", "__bindgen_vtable"));
    assert!(!ends_with("vtable", "__bindgen_vtable"));
    assert!(contains_double_underscore("a__b"));
    assert!(!contains_double_underscore("a_b_"));
    assert!(str_eq("abc", "abc"));
    assert!(!str_eq("abc", "abd"));
}

#[test]
fn bracketed_payload_is_not_an_annotation() {
    let attr = Attribute {
        path: vec!["bindgen_annotation".to_string()],
        args: Some(vec![Token::Ident("layout".to_string()), Token::Group(Delim::Bracket, vec![Token::Int(1)])]),
    };
    let anns = AutocxxBindgenAnnotations::new(&vec![attr]);
    assert_eq!(anns.0.len(), 0);
}

#[test]
fn unreadable_reference_parameter_is_an_error() {
    let anns = AutocxxBindgenAnnotations::new(&vec![annotation(
        "arg_type_reference",
        Some(vec![Token::Int(1), Token::Punct('+'), Token::Int(2)]),
    )]);
    match anns.get_reference_parameters_and_return() {
        Err(ConvertError::MalformedAnnotation(n)) => assert_eq!(n, "arg_type_reference"),
        other => panic!("unexpected {:?}", other),
    }
    let bare = AutocxxBindgenAnnotations::new(&vec![annotation("arg_type_reference", None)]);
    assert!(bare.get_reference_parameters_and_return().is_err());
}

#[test]
fn reference_parameters_are_a_set() {
    let attrs = vec![
        annotation("arg_type_reference", Some(vec![Token::Ident("x".to_string())])),
        annotation("arg_type_reference", Some(vec![Token::Ident("y".to_string())])),
        annotation("arg_type_reference", Some(vec![Token::Ident("x".to_string())])),
    ];
    let (params, by_ref) = AutocxxBindgenAnnotations::new(&attrs).get_reference_parameters_and_return().unwrap();
    assert_eq!(params, vec!["x".to_string(), "y".to_string()]);
    assert!(!by_ref);
}
