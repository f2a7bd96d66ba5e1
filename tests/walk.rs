use bindgen_parse::api::{Api, Config, Decl, Field, RustFunConfig, RustTypeConfig, SubclassConfig, UseTail};
use bindgen_parse::errors::{ConvertError, ConvertErrorWithContext, ErrorContext};
use bindgen_parse::names::{Namespace, QualifiedName};
use bindgen_parse::pass::{find_items_in_root, ParseOutput};
use bindgen_parse::tokens::{Attribute, Token};
use bindgen_parse::walk::ParseBindgen;

fn qn(ns: &[&str], id: &str) -> QualifiedName {
    QualifiedName { ns: Namespace(ns.iter().map(|s| s.to_string()).collect()), id: id.to_string() }
}

fn config() -> Config {
    Config {
        exclude_utilities: true,
        blocklist: Vec::new(),
        must_generate: Vec::new(),
        subclasses: Vec::new(),
        extern_rust_funs: Vec::new(),
        rust_types: Vec::new(),
    }
}

fn strukt(name: &str, fields: &[&str]) -> Decl {
    Decl::Struct {
        ident: name.to_string(),
        fields: fields.iter().map(|f| Field { ident: Some(f.to_string()), ty: Vec::new() }).collect(),
        attrs: Vec::new(),
    }
}

fn module(name: &str, items: Vec<Decl>) -> Decl {
    Decl::Mod { ident: name.to_string(), items: Some(items) }
}

fn root(items: Vec<Decl>) -> Vec<Decl> {
    vec![module("root", items)]
}

fn run(cfg: Config, items: Vec<Decl>) -> Result<ParseOutput, ConvertError> {
    ParseBindgen::new(cfg).parse_items(items)
}

fn names(out: &ParseOutput) -> Vec<String> {
    out.apis
        .iter()
        .map(|a| {
            let n = a.name();
            let mut parts: Vec<String> = n.ns.0.clone();
            parts.push(n.id.clone());
            parts.join("::")
        })
        .collect()
}

fn rename_in(ns: &str, old: &str, new: &str) -> Vec<Decl> {
    root(vec![module(
        ns,
        vec![Decl::Use {
            segments: vec!["self".to_string(), "super".to_string()],
            tail: UseTail::Rename(old.to_string(), new.to_string()),
            attrs: Vec::new(),
        }],
    )])
}

#[test]
fn forward_declaration_in_namespace() {
    let out = run(config(), root(vec![module("a", vec![strukt("S", &["_unused"])])])).unwrap();
    assert_eq!(out.apis.len(), 1);
    assert!(matches!(&out.apis[0], Api::ForwardDeclaration { .. }));
    assert_eq!(names(&out), vec!["a::S".to_string()]);
    assert!(out.succeeded());
}

#[test]
fn utilities_come_first_unless_excluded() {
    let mut cfg = config();
    cfg.exclude_utilities = false;
    let out = run(cfg, root(vec![module("a", vec![strukt("S", &["_unused"])])])).unwrap();
    assert_eq!(names(&out), vec!["make_string".to_string(), "a::S".to_string()]);
    assert!(matches!(&out.apis[0], Api::StringConstructor { .. }));
}

#[test]
fn forward_declaration_never_struct() {
    let out = run(config(), root(vec![strukt("S", &["a", "_unused"])])).unwrap();
    assert_eq!(out.apis.len(), 1);
    assert!(matches!(&out.apis[0], Api::ForwardDeclaration { .. }));
}

#[test]
fn struct_carries_visibility_and_layout() {
    let s = Decl::Struct {
        ident: "S".to_string(),
        fields: vec![Field { ident: Some("x".to_string()), ty: Vec::new() }],
        attrs: vec![
            Attribute { path: vec!["bindgen_visibility_protected".to_string()], args: None },
            Attribute {
                path: vec!["bindgen_layout".to_string()],
                args: Some(vec![Token::Int(4), Token::Punct(','), Token::Int(4), Token::Punct(','), Token::Bool(false)]),
            },
        ],
    };
    let out = run(config(), root(vec![s])).unwrap();
    match &out.apis[0] {
        Api::Struct { vis, layout, .. } => {
            assert_eq!(*vis, bindgen_parse::annotations::CppVisibility::Protected);
            assert_eq!(layout.unwrap().size, 4);
        }
        other => panic!("unexpected {:?}", other),
    }
}

#[test]
fn dispatch_table_struct_gives_nothing() {
    let out = run(config(), root(vec![strukt("Foo__bindgen_vtable", &["x"])])).unwrap();
    assert!(out.apis.is_empty());
    assert!(out.diagnostics.is_empty());
}

#[test]
fn rename_reexport_gives_typedef() {
    let out = run(config(), rename_in("a", "foo", "bar")).unwrap();
    assert_eq!(out.apis.len(), 1);
    assert_eq!(names(&out), vec!["a::bar".to_string()]);
    match &out.apis[0] {
        Api::Typedef { old_tyname: Some(old), .. } => {
            assert_eq!(old.ns.0, vec!["a".to_string()]);
            assert_eq!(old.id, "foo");
        }
        other => panic!("unexpected {:?}", other),
    }
}

#[test]
fn self_referential_rename_fails() {
    let out = run(config(), rename_in("a", "foo", "foo")).unwrap();
    assert!(out.apis.is_empty());
    assert_eq!(out.diagnostics.len(), 1);
    match &out.diagnostics[0] {
        ConvertErrorWithContext(ConvertError::InfinitelyRecursiveTypedef(q), Some(ErrorContext::Item(id))) => {
            assert_eq!(q.id, "foo");
            assert_eq!(q.ns.0, vec!["a".to_string()]);
            assert_eq!(id, "foo");
        }
        other => panic!("unexpected {:?}", other),
    }
    assert!(!out.succeeded());
}

#[test]
fn self_referential_rename_fails_when_nested() {
    let items = root(vec![module("a", vec![module(
        "b",
        vec![Decl::Use {
            segments: vec!["self".to_string(), "super".to_string()],
            tail: UseTail::Rename("t".to_string(), "t".to_string()),
            attrs: Vec::new(),
        }],
    )])]);
    let out = run(config(), items).unwrap();
    assert!(matches!(
        &out.diagnostics[0],
        ConvertErrorWithContext(ConvertError::InfinitelyRecursiveTypedef(_), _)
    ));
}

#[test]
fn bare_reexport_of_root_is_discarded() {
    let u = Decl::Use {
        segments: vec!["self".to_string(), "super".to_string()],
        tail: UseTail::Name("root".to_string()),
        attrs: Vec::new(),
    };
    let out = run(config(), root(vec![u])).unwrap();
    assert!(out.apis.is_empty());
    assert!(out.diagnostics.is_empty());
}

#[test]
fn other_reexport_shape_is_an_error() {
    let u = Decl::Use { segments: vec!["self".to_string(), "x".to_string()], tail: UseTail::Other, attrs: Vec::new() };
    let out = run(config(), root(vec![u])).unwrap();
    match &out.diagnostics[0] {
        ConvertErrorWithContext(ConvertError::UnexpectedUseStatement(Some(last)), Some(ErrorContext::Item(id))) => {
            assert_eq!(last, "x");
            assert_eq!(id, "x");
        }
        other => panic!("unexpected {:?}", other),
    }
    let u = Decl::Use { segments: Vec::new(), tail: UseTail::Name("y".to_string()), attrs: Vec::new() };
    let out = run(config(), root(vec![u])).unwrap();
    assert!(matches!(
        &out.diagnostics[0],
        ConvertErrorWithContext(ConvertError::UnexpectedUseStatement(None), Some(ErrorContext::Item(_)))
    ));
}

#[test]
fn blocklisted_directive_is_missing() {
    let mut cfg = config();
    cfg.blocklist = vec![qn(&["a"], "S")];
    cfg.must_generate = vec![qn(&["a"], "S")];
    let r = run(cfg, root(vec![module("a", vec![strukt("S", &["x"])])]));
    match r {
        Err(ConvertError::DidNotGenerateAnything(q)) => assert_eq!(q.id, "S"),
        other => panic!("unexpected {:?}", other.map(|o| o.apis.len())),
    }
}

#[test]
fn directive_satisfied() {
    let mut cfg = config();
    cfg.must_generate = vec![qn(&["a"], "S")];
    let out = run(cfg, root(vec![module("a", vec![strukt("S", &["x"])])])).unwrap();
    assert_eq!(names(&out), vec!["a::S".to_string()]);
}

#[test]
fn malformed_sibling_does_not_stop_the_walk() {
    let out = run(config(), root(vec![strukt("a__b", &["x"]), strukt("Good", &["x"])])).unwrap();
    assert_eq!(names(&out), vec!["Good".to_string()]);
    assert_eq!(out.diagnostics.len(), 1);
    match &out.diagnostics[0] {
        ConvertErrorWithContext(ConvertError::TooManyUnderscores, Some(ErrorContext::Item(id))) => {
            assert_eq!(id, "a__b")
        }
        other => panic!("unexpected {:?}", other),
    }
}

#[test]
fn keyword_identifier_is_reported() {
    let out = run(config(), root(vec![Decl::Enum { ident: "match".to_string(), variants: Vec::new(), attrs: Vec::new() }]))
        .unwrap();
    assert!(out.apis.is_empty());
    assert!(matches!(
        &out.diagnostics[0],
        ConvertErrorWithContext(ConvertError::ReservedName(_), Some(ErrorContext::Item(_)))
    ));
}

#[test]
fn unexpected_declaration_is_reported() {
    let out = run(config(), root(vec![Decl::Other { ident: "m".to_string() }, strukt("S", &["x"])])).unwrap();
    assert_eq!(out.apis.len(), 1);
    match &out.diagnostics[0] {
        ConvertErrorWithContext(ConvertError::UnexpectedItemInMod, Some(ErrorContext::Item(id))) => assert_eq!(id, "m"),
        other => panic!("unexpected {:?}", other),
    }
}

#[test]
fn outer_shape_must_be_one_root() {
    assert!(matches!(run(config(), Vec::new()), Err(ConvertError::UnexpectedOuterItem)));
    assert!(matches!(run(config(), vec![Decl::Other { ident: "x".to_string() }]), Err(ConvertError::UnexpectedOuterItem)));
    assert!(matches!(
        run(config(), vec![module("root", Vec::new()), module("root", Vec::new())]),
        Err(ConvertError::UnexpectedOuterItem)
    ));
    assert!(matches!(run(config(), vec![module("other", Vec::new())]), Err(ConvertError::UnexpectedOuterItem)));
    assert!(matches!(
        run(config(), vec![Decl::Mod { ident: "root".to_string(), items: None }]),
        Err(ConvertError::UnexpectedOuterItem)
    ));
    assert_eq!(find_items_in_root(root(vec![Decl::Other { ident: "x".to_string() }])).unwrap().len(), 1);
}

#[test]
fn config_entries_come_before_walked_ones() {
    let mut cfg = config();
    cfg.subclasses = vec![SubclassConfig { subclass: "Sub".to_string(), superclass: qn(&["n"], "Base") }];
    cfg.extern_rust_funs = vec![RustFunConfig {
        ident: "rf".to_string(),
        path: vec!["m".to_string()],
        sig: vec![Token::Ident("fn".to_string()), Token::Ident("rf".to_string())],
    }];
    cfg.rust_types = vec![RustTypeConfig { path: vec!["m".to_string(), "RT".to_string()], ident: "RT".to_string() }];
    let out = run(cfg, root(vec![strukt("RT", &["x"]), module("n", vec![strukt("RT", &["x"])])])).unwrap();
    assert_eq!(
        names(&out),
        vec!["Sub".to_string(), "rf".to_string(), "RT".to_string(), "n::RT".to_string()]
    );
    assert!(matches!(&out.apis[0], Api::Subclass { .. }));
    assert!(matches!(&out.apis[1], Api::RustFn { .. }));
    assert!(matches!(&out.apis[2], Api::RustType { .. }));
}

#[test]
fn external_functions_are_finalized_per_namespace() {
    let items = root(vec![
        Decl::ForeignMod { fns: vec!["f".to_string(), "g".to_string()] },
        Decl::Impl { methods: vec!["g".to_string()] },
        module("inner", vec![Decl::ForeignMod { fns: vec!["h".to_string()] }]),
        strukt("S", &["x"]),
    ]);
    let out = run(config(), items).unwrap();
    assert_eq!(
        names(&out),
        vec!["inner::h".to_string(), "S".to_string(), "f".to_string(), "g".to_string()]
    );
    assert!(matches!(&out.apis[2], Api::Function { is_method: false, .. }));
    assert!(matches!(&out.apis[3], Api::Function { is_method: true, .. }));
}

#[test]
fn blocklist_filters_walked_entries() {
    let mut cfg = config();
    cfg.blocklist = vec![qn(&[], "E"), qn(&[], "f")];
    let items = root(vec![
        Decl::Enum { ident: "E".to_string(), variants: Vec::new(), attrs: Vec::new() },
        Decl::ForeignMod { fns: vec!["f".to_string(), "g".to_string()] },
        Decl::Const { ident: "C".to_string(), value: Vec::new(), attrs: Vec::new() },
    ]);
    let out = run(cfg, items).unwrap();
    assert_eq!(names(&out), vec!["C".to_string(), "g".to_string()]);
}

#[test]
fn type_alias_and_original_name() {
    let t = Decl::Type {
        ident: "T".to_string(),
        target: vec![Token::Ident("u32".to_string())],
        attrs: vec![Attribute {
            path: vec!["bindgen_original_name".to_string()],
            args: Some(vec![Token::Str("Tee".to_string())]),
        }],
    };
    let out = run(config(), root(vec![t])).unwrap();
    match &out.apis[0] {
        Api::Typedef { name, old_tyname: None, target: Some(_) } => {
            assert_eq!(name.cpp_name, Some("Tee".to_string()))
        }
        other => panic!("unexpected {:?}", other),
    }
}

#[test]
fn template_parameter_failure_is_attributed() {
    let s = Decl::Struct {
        ident: "Tmpl".to_string(),
        fields: Vec::new(),
        attrs: vec![Attribute {
            path: vec!["bindgen_annotation".to_string()],
            args: Some(vec![Token::Ident("unused_template_param".to_string())]),
        }],
    };
    let out = run(config(), root(vec![s, strukt("S", &["x"])])).unwrap();
    assert_eq!(out.apis.len(), 1);
    assert!(matches!(
        &out.diagnostics[0],
        ConvertErrorWithContext(ConvertError::UnusedTemplateParam, Some(ErrorContext::Item(_)))
    ));
}

#[test]
fn subclass_holder_in_root_is_a_rust_type() {
    let mut cfg = config();
    cfg.subclasses = vec![SubclassConfig { subclass: "Obs".to_string(), superclass: qn(&[], "Base") }];
    let out = run(cfg, root(vec![strukt("ObsHolder", &["x"]), module("n", vec![strukt("ObsHolder", &["x"])])])).unwrap();
    assert_eq!(names(&out), vec!["Obs".to_string(), "n::ObsHolder".to_string()]);
}

#[test]
fn root_rust_type_forward_declaration_is_kept() {
    let mut cfg = config();
    cfg.rust_types = vec![RustTypeConfig { path: vec!["RT".to_string()], ident: "RT".to_string() }];
    let out = run(cfg, root(vec![strukt("RT", &["_unused"])])).unwrap();
    assert_eq!(names(&out), vec!["RT".to_string(), "RT".to_string()]);
    assert!(matches!(&out.apis[1], Api::ForwardDeclaration { .. }));
}

#[test]
fn reexport_with_unusable_template_parameter_fails() {
    let u = Decl::Use {
        segments: vec!["self".to_string(), "super".to_string()],
        tail: UseTail::Rename("foo".to_string(), "bar".to_string()),
        attrs: vec![Attribute {
            path: vec!["bindgen_annotation".to_string()],
            args: Some(vec![Token::Ident("unused_template_param".to_string())]),
        }],
    };
    let out = run(config(), root(vec![u])).unwrap();
    assert!(out.apis.is_empty());
    match &out.diagnostics[0] {
        ConvertErrorWithContext(ConvertError::UnusedTemplateParam, Some(ErrorContext::Item(id))) => assert_eq!(id, "bar"),
        other => panic!("unexpected {:?}", other),
    }
}

#[test]
fn entries_carry_their_bodies() {
    let s = Decl::Struct {
        ident: "S".to_string(),
        fields: vec![Field { ident: Some("x".to_string()), ty: vec![Token::Ident("u8".to_string())] }],
        attrs: vec![Attribute { path: vec!["repr".to_string()], args: None }],
    };
    let e = Decl::Enum { ident: "E".to_string(), variants: vec!["A".to_string()], attrs: Vec::new() };
    let out = run(config(), root(vec![s, e])).unwrap();
    match &out.apis[0] {
        Api::Struct { fields, attrs, .. } => {
            assert_eq!(fields[0].ident, Some("x".to_string()));
            assert_eq!(attrs[0].path, vec!["repr".to_string()]);
        }
        other => panic!("unexpected {:?}", other),
    }
    match &out.apis[1] {
        Api::Enum { variants, .. } => assert_eq!(variants, &vec!["A".to_string()]),
        other => panic!("unexpected {:?}", other),
    }
}
