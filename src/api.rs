//! Declarations coming in, configuration, and API entries going out.
use vstd::prelude::*;
use crate::annotations::CppVisibility;
use crate::errors::{ConvertError, ConvertErrorWithContext, ErrorContext};
use crate::names::{ApiName, QualName, QualifiedName};
use crate::names::texts;
use crate::tokens::{attrs_view, tokens_view, AttrV, Attribute, Layout, Token, TokenV};

verus! {

/// A field of an aggregate declaration.
#[derive(Debug)]
pub struct Field {
    pub ident: Option<String>,
    pub ty: Vec<Token>,
}

/// How a re-export path ends, after its leading path segments.
pub enum UseTail {
    /// A bare name.
    Name(String),
    /// `old as new`.
    Rename(String, String),
    /// Any other shape (a glob, a group).
    Other,
}

/// One declaration of the stream that the header extractor emits.
pub enum Decl {
    /// An aggregate (record) type.
    Struct { ident: String, fields: Vec<Field>, attrs: Vec<Attribute> },
    /// An enumeration.
    Enum { ident: String, variants: Vec<String>, attrs: Vec<Attribute> },
    /// An implementation block: the names of the methods it declares.
    Impl { methods: Vec<String> },
    /// A group of externally linked functions: their names.
    ForeignMod { fns: Vec<String> },
    /// A nested namespace, with its declarations if it has a body.
    Mod { ident: String, items: Option<Vec<Decl>> },
    /// A re-export: its leading path segments and how it ends.
    Use { segments: Vec<String>, tail: UseTail, attrs: Vec<Attribute> },
    /// A constant.
    Const { ident: String, value: Vec<Token>, attrs: Vec<Attribute> },
    /// A direct type alias.
    Type { ident: String, target: Vec<Token>, attrs: Vec<Attribute> },
    /// Any other declaration, with the identity it is reported under.
    Other { ident: String },
}

/// A subclass declared in the configuration.
pub struct SubclassConfig {
    pub subclass: String,
    pub superclass: QualifiedName,
}

/// A function implemented on the Rust side, declared in the configuration.
pub struct RustFunConfig {
    pub ident: String,
    pub path: Vec<String>,
    pub sig: Vec<Token>,
}

/// A type implemented on the Rust side, declared in the configuration: its
/// path and its final identifier.
pub struct RustTypeConfig {
    pub path: Vec<String>,
    pub ident: String,
}

/// What the conversion reads from the configuration.
pub struct Config {
    pub exclude_utilities: bool,
    pub blocklist: Vec<QualifiedName>,
    pub must_generate: Vec<QualifiedName>,
    pub subclasses: Vec<SubclassConfig>,
    pub extern_rust_funs: Vec<RustFunConfig>,
    pub rust_types: Vec<RustTypeConfig>,
}

/// One API entry.
#[derive(Debug)]
pub enum Api {
    Struct {
        name: ApiName,
        vis: CppVisibility,
        layout: Option<Layout>,
        fields: Vec<Field>,
        attrs: Vec<Attribute>,
    },
    ForwardDeclaration { name: ApiName },
    Enum { name: ApiName, variants: Vec<String>, attrs: Vec<Attribute> },
    /// A direct alias (with its target) or a renaming re-export (with the
    /// qualified name it renames).
    Typedef { name: ApiName, target: Option<Vec<Token>>, old_tyname: Option<QualifiedName> },
    Const { name: ApiName, value: Vec<Token> },
    /// A function of an externally linked group; `is_method` when an
    /// implementation block of the same namespace declares it.
    Function { name: ApiName, is_method: bool },
    /// The utility that builds native strings.
    StringConstructor { name: ApiName },
    Subclass { name: ApiName, superclass: QualifiedName },
    RustType { name: ApiName, path: Vec<String> },
    RustFn { name: ApiName, path: Vec<String>, sig: Vec<Token> },
}

/// The view of an API name.
pub struct ApiNameV {
    pub name: QualName,
    pub cpp_name: Option<Seq<char>>,
}

impl View for ApiName {
    type V = ApiNameV;

    open spec fn view(&self) -> ApiNameV {
        ApiNameV {
            name: self.name@,
            cpp_name: match self.cpp_name {
                Some(s) => Some(s@),
                None => None,
            },
        }
    }
}

/// The view of a field.
pub struct FieldV {
    pub ident: Option<Seq<char>>,
    pub ty: Seq<TokenV>,
}

impl View for Field {
    type V = FieldV;

    open spec fn view(&self) -> FieldV {
        FieldV {
            ident: match self.ident {
                Some(s) => Some(s@),
                None => None,
            },
            ty: tokens_view(self.ty@),
        }
    }
}

/// The views of a list of fields.
pub open spec fn fields_view(s: Seq<Field>) -> Seq<FieldV> {
    s.map_values(|f: Field| f@)
}

/// The view of an API entry: its kind, its name, its decoded facts and the
/// declaration body it carries.
pub enum ApiV {
    Struct {
        name: ApiNameV,
        vis: CppVisibility,
        layout: Option<Layout>,
        fields: Seq<FieldV>,
        attrs: Seq<AttrV>,
    },
    ForwardDeclaration { name: ApiNameV },
    Enum { name: ApiNameV, variants: Seq<Seq<char>>, attrs: Seq<AttrV> },
    Typedef { name: ApiNameV, target: Option<Seq<TokenV>>, old_tyname: Option<QualName> },
    Const { name: ApiNameV, value: Seq<TokenV> },
    Function { name: ApiNameV, is_method: bool },
    StringConstructor { name: ApiNameV },
    Subclass { name: ApiNameV, superclass: QualName },
    RustType { name: ApiNameV, path: Seq<Seq<char>> },
    RustFn { name: ApiNameV, path: Seq<Seq<char>>, sig: Seq<TokenV> },
}

impl ApiV {
    /// The qualified name of an entry.
    pub open spec fn qname(self) -> QualName {
        match self {
            ApiV::Struct { name, .. } => name.name,
            ApiV::ForwardDeclaration { name } => name.name,
            ApiV::Enum { name, .. } => name.name,
            ApiV::Typedef { name, .. } => name.name,
            ApiV::Const { name, .. } => name.name,
            ApiV::Function { name, .. } => name.name,
            ApiV::StringConstructor { name } => name.name,
            ApiV::Subclass { name, .. } => name.name,
            ApiV::RustType { name, .. } => name.name,
            ApiV::RustFn { name, .. } => name.name,
        }
    }
}

impl View for Api {
    type V = ApiV;

    open spec fn view(&self) -> ApiV {
        match self {
            Api::Struct { name, vis, layout, fields, attrs } => ApiV::Struct {
                name: name@,
                vis: *vis,
                layout: *layout,
                fields: fields_view(fields@),
                attrs: attrs_view(attrs@),
            },
            Api::ForwardDeclaration { name } => ApiV::ForwardDeclaration { name: name@ },
            Api::Enum { name, variants, attrs } => ApiV::Enum {
                name: name@,
                variants: texts(variants@),
                attrs: attrs_view(attrs@),
            },
            Api::Typedef { name, target, old_tyname } => ApiV::Typedef {
                name: name@,
                target: match target {
                    Some(t) => Some(tokens_view(t@)),
                    None => None,
                },
                old_tyname: match old_tyname {
                    Some(q) => Some(q@),
                    None => None,
                },
            },
            Api::Const { name, value } => ApiV::Const { name: name@, value: tokens_view(value@) },
            Api::Function { name, is_method } => ApiV::Function { name: name@, is_method: *is_method },
            Api::StringConstructor { name } => ApiV::StringConstructor { name: name@ },
            Api::Subclass { name, superclass } => ApiV::Subclass { name: name@, superclass: superclass@ },
            Api::RustType { name, path } => ApiV::RustType { name: name@, path: texts(path@) },
            Api::RustFn { name, path, sig } => ApiV::RustFn {
                name: name@,
                path: texts(path@),
                sig: tokens_view(sig@),
            },
        }
    }
}

/// The views of a list of entries.
pub open spec fn apis_view(s: Seq<Api>) -> Seq<ApiV> {
    s.map_values(|a: Api| a@)
}

impl Api {
    /// The name of this entry.
    pub fn name(&self) -> (r: &QualifiedName)
        ensures
            r@ == self@.qname(),
    {
        match self {
            Api::Struct { name, .. } => &name.name,
            Api::ForwardDeclaration { name } => &name.name,
            Api::Enum { name, .. } => &name.name,
            Api::Typedef { name, .. } => &name.name,
            Api::Const { name, .. } => &name.name,
            Api::Function { name, .. } => &name.name,
            Api::StringConstructor { name } => &name.name,
            Api::Subclass { name, .. } => &name.name,
            Api::RustType { name, .. } => &name.name,
            Api::RustFn { name, .. } => &name.name,
        }
    }
}

/// The view of an error.
pub enum ErrorV {
    UnexpectedOuterItem,
    UnexpectedItemInMod,
    UnexpectedUseStatement(Option<Seq<char>>),
    InfinitelyRecursiveTypedef(QualName),
    DidNotGenerateAnything(QualName),
    UnusedTemplateParam,
    ReservedName(Seq<char>),
    TooManyUnderscores,
    MalformedAnnotation(Seq<char>),
}

impl View for ConvertError {
    type V = ErrorV;

    open spec fn view(&self) -> ErrorV {
        match self {
            ConvertError::UnexpectedOuterItem => ErrorV::UnexpectedOuterItem,
            ConvertError::UnexpectedItemInMod => ErrorV::UnexpectedItemInMod,
            ConvertError::UnexpectedUseStatement(s) => ErrorV::UnexpectedUseStatement(
                match s {
                    Some(x) => Some(x@),
                    None => None,
                },
            ),
            ConvertError::InfinitelyRecursiveTypedef(q) => ErrorV::InfinitelyRecursiveTypedef(q@),
            ConvertError::DidNotGenerateAnything(q) => ErrorV::DidNotGenerateAnything(q@),
            ConvertError::UnusedTemplateParam => ErrorV::UnusedTemplateParam,
            ConvertError::ReservedName(s) => ErrorV::ReservedName(s@),
            ConvertError::TooManyUnderscores => ErrorV::TooManyUnderscores,
            ConvertError::MalformedAnnotation(s) => ErrorV::MalformedAnnotation(s@),
        }
    }
}

/// The view of an attributed error: the error and the identity of the
/// declaration it is attributed to, if any.
pub struct DiagV {
    pub err: ErrorV,
    pub item: Option<Seq<char>>,
}

impl View for ConvertErrorWithContext {
    type V = DiagV;

    open spec fn view(&self) -> DiagV {
        DiagV {
            err: self.0@,
            item: match self.1 {
                Some(ErrorContext::Item(s)) => Some(s@),
                None => None,
            },
        }
    }
}

/// The views of a list of attributed errors.
pub open spec fn diags_view(s: Seq<ConvertErrorWithContext>) -> Seq<DiagV> {
    s.map_values(|d: ConvertErrorWithContext| d@)
}

} // verus!
