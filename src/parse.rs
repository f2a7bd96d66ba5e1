//! Walking the declaration tree and building API entries.
use vstd::prelude::*;
use crate::annotations::{
    anns_have, annotations_of, first_attr_args, get_bindgen_original_name_annotation,
    get_cpp_visibility, kept_attrs, layout_outcome, original_name_spec, parse_layout,
    visibility_from, attrs_have, AutocxxBindgenAnnotations,
};
use crate::api::{fields_view, Api, ApiNameV, ApiV, Config, Decl, DiagV, ErrorV, Field, UseTail};
use crate::errors::{ConvertError, ConvertErrorWithContext, ErrorContext};
use crate::ident::{ident_verdict, validate_ident_ok_for_cxx};
use crate::names::{is_listed, name_listed, texts, ApiName, Namespace, QualName, QualifiedName};
use crate::text::{ends_with, ends_with_spec, str_eq};
use crate::tokens::{attrs_view, tokens_view, AttrV, Attribute};
use vstd::string::StringExecFns;

verus! {

/// The name of an entry for identifier `id` in namespace `ns`, with the native
/// name that the attributes state.
pub open spec fn api_name_v(ns: Seq<Seq<char>>, id: Seq<char>, v: Seq<AttrV>) -> ApiNameV {
    ApiNameV { name: QualName { ns, id }, cpp_name: original_name_spec(v) }
}

/// Whether the annotations mark a template parameter that cannot be expressed.
pub open spec fn template_blocked(v: Seq<AttrV>) -> bool {
    anns_have(annotations_of(v), "unused_template_param"@)
}

/// Whether a field list marks a forward declaration: some field is named
/// `_unused`.
pub open spec fn is_forward_decl(fields: Seq<Field>) -> bool {
    exists|i: int|
        0 <= i < fields.len() && match #[trigger] fields[i].ident {
            Some(s) => s@ == "_unused"@,
            None => false,
        }
}

/// Whether the configuration declares `id` as a type implemented on the Rust
/// side: one of its Rust types, or the holder type of one of its subclasses
/// (the subclass's name followed by `Holder`).
pub open spec fn is_rust_type_spec(cfg: Config, id: Seq<char>) -> bool {
    ||| exists|i: int| 0 <= i < cfg.rust_types@.len() && (#[trigger] cfg.rust_types@[i]).ident@ == id
    ||| exists|i: int|
        0 <= i < cfg.subclasses@.len() && (#[trigger] cfg.subclasses@[i]).subclass@ + "Holder"@ == id
}

/// An entry that the walk built, after blocklist filtering.
pub open spec fn filtered(cfg: Config, a: ApiV) -> Result<Option<ApiV>, DiagV> {
    if name_listed(cfg.blocklist@, a.qname()) {
        Ok(None)
    } else {
        Ok(Some(a))
    }
}

/// An error attributed to the declaration called `id`.
pub open spec fn diag(err: ErrorV, id: Seq<char>) -> DiagV {
    DiagV { err, item: Some(id) }
}

/// The error that an identifier refused by `ident_verdict` gives.
pub open spec fn ident_error(id: Seq<char>) -> ErrorV {
    if ident_verdict(id) == Err::<(), bool>(true) {
        ErrorV::ReservedName(id)
    } else {
        ErrorV::TooManyUnderscores
    }
}

/// The last segment of a path, if it has any.
pub open spec fn last_seg(segs: Seq<String>) -> Option<Seq<char>> {
    if segs.len() == 0 {
        None
    } else {
        Some(segs.last()@)
    }
}

/// Whether a re-export path starts with `self::super`.
pub open spec fn starts_self_super(segs: Seq<String>) -> bool {
    segs.len() >= 2 && segs[0]@ == "self"@ && segs[1]@ == "super"@
}

/// The qualified name that a renaming re-export in namespace `ns` renames:
/// the path after `self::super`, read from `ns`, and the old identifier.
pub open spec fn renamed_from(ns: Seq<Seq<char>>, segs: Seq<String>, old_id: Seq<char>) -> QualName {
    QualName { ns: ns + texts(segs).skip(2), id: old_id }
}

/// The identity a re-export is reported under: the name it ends with, or
/// the last path segment where it ends otherwise.
pub open spec fn use_identity(segs: Seq<String>, tail: UseTail) -> Seq<char> {
    match tail {
        UseTail::Name(n) => n@,
        UseTail::Rename(_, new_id) => new_id@,
        UseTail::Other => match last_seg(segs) {
            Some(x) => x,
            None => Seq::empty(),
        },
    }
}

/// The identity that errors about a declaration are attributed to.
pub open spec fn decl_identity(d: Decl) -> Seq<char> {
    match d {
        Decl::Struct { ident, .. } => ident@,
        Decl::Enum { ident, .. } => ident@,
        Decl::Mod { ident, .. } => ident@,
        Decl::Use { segments, tail, .. } => use_identity(segments@, tail),
        Decl::Const { ident, .. } => ident@,
        Decl::Type { ident, .. } => ident@,
        Decl::Other { ident } => ident@,
        _ => Seq::empty(),
    }
}

/// What a re-export in namespace `ns` gives, once its attributes are
/// checked and `kept` is what is left of them.
pub open spec fn use_outcome(
    cfg: Config,
    segments: Seq<String>,
    tail: UseTail,
    kept: Seq<AttrV>,
    ns: Seq<Seq<char>>,
) -> Result<Option<ApiV>, DiagV> {
    let unexpected = diag(ErrorV::UnexpectedUseStatement(last_seg(segments)), use_identity(segments, tail));
    match tail {
        UseTail::Name(n) => if n@ == "root"@ {
            Ok(None)
        } else {
            Err(unexpected)
        },
        UseTail::Rename(old_id, new_id) => if starts_self_super(segments) {
            let old_q = renamed_from(ns, segments, old_id@);
            let new_q = QualName { ns, id: new_id@ };
            if old_q == new_q {
                Err(diag(ErrorV::InfinitelyRecursiveTypedef(new_q), new_id@))
            } else {
                filtered(
                    cfg,
                    ApiV::Typedef { name: api_name_v(ns, new_id@, kept), target: None, old_tyname: Some(old_q) },
                )
            }
        } else {
            Err(unexpected)
        },
        UseTail::Other => Err(unexpected),
    }
}

/// What the builder makes of one declaration in namespace `ns` that is not a
/// namespace, an implementation block or a group of external functions: no
/// entry, one entry, or an error attributed to the declaration. Annotation
/// attributes are checked first and stripped from what the entry carries.
pub open spec fn decl_outcome(cfg: Config, d: Decl, ns: Seq<Seq<char>>) -> Result<Option<ApiV>, DiagV> {
    match d {
        Decl::Struct { ident, fields, attrs } => {
            let v = attrs_view(attrs@);
            let kept = kept_attrs(v);
            if template_blocked(v) {
                Err(diag(ErrorV::UnusedTemplateParam, ident@))
            } else if ends_with_spec(ident@, "__bindgen_vtable"@) {
                Ok(None)
            } else if ident_verdict(ident@) is Err {
                Err(diag(ident_error(ident@), ident@))
            } else if is_forward_decl(fields@) {
                filtered(cfg, ApiV::ForwardDeclaration { name: api_name_v(ns, ident@, kept) })
            } else if ns.len() == 0 && is_rust_type_spec(cfg, ident@) {
                Ok(None)
            } else {
                match layout_outcome(first_attr_args(kept, "bindgen_layout"@)) {
                    Err(_) => Err(diag(ErrorV::MalformedAnnotation("bindgen_layout"@), ident@)),
                    Ok(layout) => filtered(
                        cfg,
                        ApiV::Struct {
                            name: api_name_v(ns, ident@, kept),
                            vis: visibility_from(
                                attrs_have(kept, "bindgen_visibility_private"@),
                                attrs_have(kept, "bindgen_visibility_protected"@),
                            ),
                            layout,
                            fields: fields_view(fields@),
                            attrs: kept,
                        },
                    ),
                }
            }
        },
        Decl::Enum { ident, variants, attrs } => {
            let v = attrs_view(attrs@);
            if template_blocked(v) {
                Err(diag(ErrorV::UnusedTemplateParam, ident@))
            } else if ident_verdict(ident@) is Err {
                Err(diag(ident_error(ident@), ident@))
            } else {
                filtered(
                    cfg,
                    ApiV::Enum {
                        name: api_name_v(ns, ident@, kept_attrs(v)),
                        variants: texts(variants@),
                        attrs: kept_attrs(v),
                    },
                )
            }
        },
        Decl::Use { segments, tail, attrs } => {
            let v = attrs_view(attrs@);
            if template_blocked(v) {
                Err(diag(ErrorV::UnusedTemplateParam, use_identity(segments@, tail)))
            } else {
                use_outcome(cfg, segments@, tail, kept_attrs(v), ns)
            }
        },
        Decl::Const { ident, value, attrs } => {
            let v = attrs_view(attrs@);
            if template_blocked(v) {
                Err(diag(ErrorV::UnusedTemplateParam, ident@))
            } else {
                filtered(
                    cfg,
                    ApiV::Const { name: api_name_v(ns, ident@, kept_attrs(v)), value: tokens_view(value@) },
                )
            }
        },
        Decl::Type { ident, target, attrs } => {
            let v = attrs_view(attrs@);
            if template_blocked(v) {
                Err(diag(ErrorV::UnusedTemplateParam, ident@))
            } else {
                filtered(
                    cfg,
                    ApiV::Typedef {
                        name: api_name_v(ns, ident@, kept_attrs(v)),
                        target: Some(tokens_view(target@)),
                        old_tyname: None,
                    },
                )
            }
        },
        Decl::Other { ident } => Err(diag(ErrorV::UnexpectedItemInMod, ident@)),
        _ => Ok(None),
    }
}

/// Whether an executable outcome matches its specification.
pub open spec fn outcome_matches(
    r: Result<Option<Api>, ConvertErrorWithContext>,
    o: Result<Option<ApiV>, DiagV>,
) -> bool {
    match (r, o) {
        (Ok(Some(a)), Ok(Some(b))) => a@ == b,
        (Ok(None), Ok(None)) => true,
        (Err(e), Err(d)) => e@ == d,
        _ => false,
    }
}

/// The name of an entry for `id` in `ns`, with the native name that the
/// attributes state.
pub fn api_name(ns: &Namespace, id: String, attrs: &Vec<Attribute>) -> (r: ApiName)
    ensures
        r@ == api_name_v(ns@, id@, attrs_view(attrs@)),
{
    let cpp_name = get_bindgen_original_name_annotation(attrs);
    ApiName { name: QualifiedName::new(ns, id), cpp_name }
}

/// The name of an entry for `id` in `ns`, once `id` is checked to be usable on
/// both sides of the bridge; an invalid identifier is an error attributed to it.
pub fn api_name_qualified(ns: &Namespace, id: String, attrs: &Vec<Attribute>) -> (r: Result<
    ApiName,
    ConvertErrorWithContext,
>)
    ensures
        match r {
            Ok(n) => ident_verdict(id@) is Ok && n@ == api_name_v(ns@, id@, attrs_view(attrs@)),
            Err(e) => ident_verdict(id@) is Err && e@ == diag(ident_error(id@), id@),
        },
{
    match validate_ident_ok_for_cxx(id.as_str()) {
        Err(e) => Err(ConvertErrorWithContext(e, Some(ErrorContext::Item(id)))),
        Ok(()) => Ok(api_name(ns, id, attrs)),
    }
}

/// Whether some field is named `_unused`, which marks a forward declaration.
pub fn spot_forward_declaration(fields: &Vec<Field>) -> (r: bool)
    ensures
        r == is_forward_decl(fields@),
{
    let mut i: usize = 0;
    while i < fields.len()
        invariant
            i <= fields.len(),
            forall|k: int|
                0 <= k < i ==> match #[trigger] fields@[k].ident {
                    Some(s) => s@ != "_unused"@,
                    None => true,
                },
        decreases fields.len() - i,
    {
        match &fields[i].ident {
            Some(s) => {
                if str_eq(s.as_str(), "_unused") {
                    return true;
                }
            },
            None => {},
        }
        i = i + 1;
    }
    false
}

impl Config {
    /// Whether `id` is declared as a type implemented on the Rust side.
    pub fn is_rust_type(&self, id: &str) -> (r: bool)
        ensures
            r == is_rust_type_spec(*self, id@),
    {
        let mut i: usize = 0;
        while i < self.rust_types.len()
            invariant
                i <= self.rust_types.len(),
                forall|k: int| 0 <= k < i ==> (#[trigger] self.rust_types@[k]).ident@ != id@,
            decreases self.rust_types.len() - i,
        {
            if str_eq(self.rust_types[i].ident.as_str(), id) {
                return true;
            }
            i = i + 1;
        }
        let mut j: usize = 0;
        while j < self.subclasses.len()
            invariant
                j <= self.subclasses.len(),
                forall|k: int| 0 <= k < self.rust_types@.len() ==> (#[trigger] self.rust_types@[k]).ident@ != id@,
                forall|k: int| 0 <= k < j ==> (#[trigger] self.subclasses@[k]).subclass@ + "Holder"@ != id@,
            decreases self.subclasses.len() - j,
        {
            let holder = String::from_str(self.subclasses[j].subclass.as_str()).concat("Holder");
            if str_eq(holder.as_str(), id) {
                return true;
            }
            j = j + 1;
        }
        false
    }

    /// Whether the blocklist names `n`.
    pub fn is_on_blocklist(&self, n: &QualifiedName) -> (r: bool)
        ensures
            r == name_listed(self.blocklist@, n@),
    {
        is_listed(&self.blocklist, n)
    }

    /// Drops an entry that the blocklist names.
    fn keep_unless_blocked(&self, api: Api) -> (r: Result<Option<Api>, ConvertErrorWithContext>)
        ensures
            outcome_matches(r, filtered(*self, api@)),
    {
        if self.is_on_blocklist(api.name()) {
            Ok(None)
        } else {
            Ok(Some(api))
        }
    }
}

/// Removes the annotation attributes of a declaration, failing where they mark
/// a template parameter that cannot be expressed.
fn strip_attrs(attrs: Vec<Attribute>, ident: &String) -> (r: Result<Vec<Attribute>, ConvertErrorWithContext>)
    ensures
        match r {
            Ok(kept) => !template_blocked(attrs_view(attrs@)) && attrs_view(kept@) == kept_attrs(
                attrs_view(attrs@),
            ),
            Err(e) => template_blocked(attrs_view(attrs@)) && e@ == diag(ErrorV::UnusedTemplateParam, ident@),
        },
{
    let mut attrs = attrs;
    match AutocxxBindgenAnnotations::remove_bindgen_attrs(&mut attrs, ident.clone()) {
        Err(e) => Err(e),
        Ok(()) => Ok(attrs),
    }
}

impl Config {
    /// Builds the entry for one declaration in namespace `ns`; namespaces,
    /// implementation blocks and groups of external functions give none here.
    pub fn build_api(&self, item: Decl, ns: &Namespace) -> (r: Result<Option<Api>, ConvertErrorWithContext>)
        ensures
            outcome_matches(r, decl_outcome(*self, item, ns@)),
    {
        match item {
            Decl::Struct { ident, fields, attrs } => {
                let attrs = match strip_attrs(attrs, &ident) {
                    Err(e) => {
                        return Err(e);
                    },
                    Ok(a) => a,
                };
                if ends_with(ident.as_str(), "__bindgen_vtable") {
                    return Ok(None);
                }
                let is_forward_declaration = spot_forward_declaration(&fields);
                let in_root_rust_type = ns.is_empty() && self.is_rust_type(ident.as_str());
                let name = match api_name_qualified(ns, ident, &attrs) {
                    Err(e) => {
                        return Err(e);
                    },
                    Ok(n) => n,
                };
                if is_forward_declaration {
                    self.keep_unless_blocked(Api::ForwardDeclaration { name })
                } else if in_root_rust_type {
                    Ok(None)
                } else {
                    let vis = get_cpp_visibility(&attrs);
                    match parse_layout(&attrs) {
                        Err(e) => {
                            let ctx = ErrorContext::Item(name.name.id);
                            Err(ConvertErrorWithContext(e, Some(ctx)))
                        },
                        Ok(layout) => self.keep_unless_blocked(Api::Struct { name, vis, layout, fields, attrs }),
                    }
                }
            },
            Decl::Enum { ident, variants, attrs } => {
                let attrs = match strip_attrs(attrs, &ident) {
                    Err(e) => {
                        return Err(e);
                    },
                    Ok(a) => a,
                };
                let name = match api_name_qualified(ns, ident, &attrs) {
                    Err(e) => {
                        return Err(e);
                    },
                    Ok(n) => n,
                };
                self.keep_unless_blocked(Api::Enum { name, variants, attrs })
            },
            Decl::Use { segments, tail, attrs } => {
                let identity = match &tail {
                    UseTail::Name(n) => n.clone(),
                    UseTail::Rename(_, new_id) => new_id.clone(),
                    UseTail::Other => match last_segment(&segments) {
                        Some(x) => x,
                        None => String::new(),
                    },
                };
                let attrs = match strip_attrs(attrs, &identity) {
                    Err(e) => {
                        return Err(e);
                    },
                    Ok(a) => a,
                };
                self.build_use(segments, tail, attrs, identity, ns)
            },
            Decl::Const { ident, value, attrs } => {
                let attrs = match strip_attrs(attrs, &ident) {
                    Err(e) => {
                        return Err(e);
                    },
                    Ok(a) => a,
                };
                let name = api_name(ns, ident, &attrs);
                self.keep_unless_blocked(Api::Const { name, value })
            },
            Decl::Type { ident, target, attrs } => {
                let attrs = match strip_attrs(attrs, &ident) {
                    Err(e) => {
                        return Err(e);
                    },
                    Ok(a) => a,
                };
                let name = api_name(ns, ident, &attrs);
                self.keep_unless_blocked(Api::Typedef { name, target: Some(target), old_tyname: None })
            },
            Decl::Other { ident } => Err(
                ConvertErrorWithContext(ConvertError::UnexpectedItemInMod, Some(ErrorContext::Item(ident))),
            ),
            _ => Ok(None),
        }
    }
}

impl Config {
    /// Builds the entry for a re-export whose attributes are checked and
    /// stripped; errors are attributed to `identity`.
    fn build_use(
        &self,
        segments: Vec<String>,
        tail: UseTail,
        attrs: Vec<Attribute>,
        identity: String,
        ns: &Namespace,
    ) -> (r: Result<Option<Api>, ConvertErrorWithContext>)
        requires
            identity@ == use_identity(segments@, tail),
        ensures
            outcome_matches(r, use_outcome(*self, segments@, tail, attrs_view(attrs@), ns@)),
    {
        let unexpected = ConvertErrorWithContext(
            ConvertError::UnexpectedUseStatement(last_segment(&segments)),
            Some(ErrorContext::Item(identity)),
        );
        match tail {
            UseTail::Name(n) => {
                if str_eq(n.as_str(), "root") {
                    Ok(None)
                } else {
                    Err(unexpected)
                }
            },
            UseTail::Rename(old_id, new_id) => {
                if segments.len() >= 2 && str_eq(segments[0].as_str(), "self") && str_eq(
                    segments[1].as_str(),
                    "super",
                ) {
                    let mut old_ns = crate::names::clone_strings(&ns.0);
                    let mut rest = strings_from(&segments, 2);
                    let ghost a = old_ns@;
                    let ghost b = rest@;
                    old_ns.append(&mut rest);
                    assert(texts(old_ns@) =~= texts(a) + texts(b));
                    let old_tyname = QualifiedName { ns: Namespace(old_ns), id: old_id };
                    let new_tyname = QualifiedName::new(ns, new_id.clone());
                    if new_tyname.same(&old_tyname) {
                        Err(
                            ConvertErrorWithContext(
                                ConvertError::InfinitelyRecursiveTypedef(new_tyname),
                                Some(ErrorContext::Item(new_id)),
                            ),
                        )
                    } else {
                        let name = api_name(ns, new_id, &attrs);
                        self.keep_unless_blocked(Api::Typedef { name, target: None, old_tyname: Some(old_tyname) })
                    }
                } else {
                    Err(unexpected)
                }
            },
            UseTail::Other => Err(unexpected),
        }
    }
}

/// The last segment of a path, if it has any.
fn last_segment(segs: &Vec<String>) -> (r: Option<String>)
    ensures
        match r {
            Some(s) => last_seg(segs@) == Some(s@),
            None => last_seg(segs@) is None,
        },
{
    let n = segs.len();
    if n == 0 {
        None
    } else {
        Some(segs[n - 1].clone())
    }
}

/// Copies the strings of `v` from index `from` on.
fn strings_from(v: &Vec<String>, from: usize) -> (r: Vec<String>)
    requires
        from <= v.len(),
    ensures
        texts(r@) == texts(v@).skip(from as int),
{
    let mut r: Vec<String> = Vec::new();
    let mut i: usize = from;
    while i < v.len()
        invariant
            from <= i <= v.len(),
            texts(r@) == texts(v@).subrange(from as int, i as int),
        decreases v.len() - i,
    {
        let ghost prev = r@;
        r.push(v[i].clone());
        assert(texts(r@) =~= texts(prev).push(v@[i as int]@));
        assert(texts(v@).subrange(from as int, i + 1) =~= texts(v@).subrange(from as int, i as int).push(
            v@[i as int]@,
        ));
        i = i + 1;
    }
    assert(texts(v@).subrange(from as int, i as int) =~= texts(v@).skip(from as int));
    r
}

} // verus!
