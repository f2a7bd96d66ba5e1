//! Laws that hold of the decoder, the builder and the pass.
use vstd::prelude::*;
use crate::annotations::{
    anns_have, attrs_have, path_is, visibility_from, virtualness_from, AnnotationV, CppVisibility,
    Virtualness,
};
use crate::api::{ApiV, Config, Decl, DiagV, ErrorV, Field, UseTail};
use crate::ident::ident_verdict;
use crate::names::{name_listed, texts, QualName};
use crate::parse::{
    api_name_v, decl_identity, decl_outcome, diag, is_forward_decl, renamed_from,
    starts_self_super, template_blocked,
};
use crate::text::ends_with_spec;
use crate::tokens::{attrs_view, AttrV, Attribute, TokenV};
use crate::walk::{foreign_fns, impl_methods, item_effect, mod_output, walk_items, function_entries};

verus! {

/// Whether a path names one of the tags that the decoder reads.
pub open spec fn is_recognized_tag(path: Seq<Seq<char>>) -> bool {
    ||| path_is(path, "bindgen_visibility_private"@)
    ||| path_is(path, "bindgen_visibility_protected"@)
    ||| path_is(path, "bindgen_pure_virtual"@)
    ||| path_is(path, "bindgen_virtual"@)
    ||| path_is(path, "bindgen_layout"@)
    ||| path_is(path, "bindgen_original_name"@)
}

/// A declaration with no recognized tag is public and not virtual.
pub proof fn lemma_untagged_defaults(v: Seq<AttrV>)
    requires
        forall|i: int| 0 <= i < v.len() ==> !is_recognized_tag(#[trigger] v[i].path),
    ensures
        visibility_from(
            attrs_have(v, "bindgen_visibility_private"@),
            attrs_have(v, "bindgen_visibility_protected"@),
        ) == CppVisibility::Public,
        virtualness_from(attrs_have(v, "bindgen_pure_virtual"@), attrs_have(v, "bindgen_virtual"@))
            == Virtualness::NonVirtual,
{
}

/// A set of annotations with none of the visibility or virtualness
/// annotations is public and not virtual.
pub proof fn lemma_unannotated_defaults(s: Seq<AnnotationV>)
    requires
        forall|i: int|
            0 <= i < s.len() ==> {
                let n = (#[trigger] s[i]).name;
                n != "visibility_private"@ && n != "visibility_protected"@ && n != "pure_virtual"@ && n
                    != "bindgen_virtual"@
            },
    ensures
        visibility_from(anns_have(s, "visibility_private"@), anns_have(s, "visibility_protected"@))
            == CppVisibility::Public,
        virtualness_from(anns_have(s, "pure_virtual"@), anns_have(s, "bindgen_virtual"@))
            == Virtualness::NonVirtual,
{
}

/// An aggregate with an `_unused` field never becomes a struct entry: where it
/// gives an entry, that entry is a forward declaration, and it gives one
/// whenever nothing else rules it out (in the root namespace too, whether or
/// not the configuration declares it a Rust type).
pub proof fn lemma_forward_declaration_not_struct(
    cfg: Config,
    ident: String,
    fields: Vec<Field>,
    attrs: Vec<Attribute>,
    ns: Seq<Seq<char>>,
)
    requires
        is_forward_decl(fields@),
    ensures
        match decl_outcome(cfg, Decl::Struct { ident, fields, attrs }, ns) {
            Ok(Some(a)) => a is ForwardDeclaration,
            _ => true,
        },
        !template_blocked(attrs_view(attrs@)) && !ends_with_spec(ident@, "__bindgen_vtable"@)
            && ident_verdict(ident@) is Ok && !name_listed(cfg.blocklist@, QualName { ns, id: ident@ }) ==> decl_outcome(
            cfg,
            Decl::Struct { ident, fields, attrs },
            ns,
        ) == Ok::<Option<ApiV>, DiagV>(
            Some(
                ApiV::ForwardDeclaration {
                    name: api_name_v(ns, ident@, crate::annotations::kept_attrs(attrs_view(attrs@))),
                },
            ),
        ),
{
}

/// An aggregate whose identifier ends in the dispatch-table suffix gives no
/// entry, and no error either unless it carries an unusable template parameter.
pub proof fn lemma_vtable_gives_nothing(
    cfg: Config,
    ident: String,
    fields: Vec<Field>,
    attrs: Vec<Attribute>,
    ns: Seq<Seq<char>>,
)
    requires
        ends_with_spec(ident@, "__bindgen_vtable"@),
    ensures
        item_effect(cfg, Decl::Struct { ident, fields, attrs }, ns).0.len() == 0,
        !template_blocked(attrs_view(attrs@)) ==> item_effect(cfg, Decl::Struct { ident, fields, attrs }, ns)
            == (Seq::<ApiV>::empty(), Seq::<DiagV>::empty()),
{
}

/// A renaming re-export renames itself exactly when nothing follows
/// `self::super` and the two identifiers are equal, at any depth.
pub proof fn lemma_self_rename_shape(ns: Seq<Seq<char>>, segs: Seq<String>, old_id: Seq<char>, new_id: Seq<char>)
    requires
        segs.len() >= 2,
    ensures
        (renamed_from(ns, segs, old_id) == QualName { ns, id: new_id }) <==> (segs.len() == 2 && old_id
            == new_id),
{
    let rest = texts(segs).skip(2);
    if renamed_from(ns, segs, old_id) == (QualName { ns, id: new_id }) {
        assert((ns + rest).len() == ns.len());
    }
    if segs.len() == 2 {
        assert(ns + rest =~= ns);
    }
}

/// A renaming re-export whose old and new qualified names are equal always
/// fails and gives no entry, in any namespace; without an unusable template
/// parameter the error is the self-reference, attributed to the new identifier.
pub proof fn lemma_self_rename_fails(
    cfg: Config,
    segments: Vec<String>,
    old_id: String,
    new_id: String,
    attrs: Vec<Attribute>,
    ns: Seq<Seq<char>>,
)
    requires
        starts_self_super(segments@),
        renamed_from(ns, segments@, old_id@) == (QualName { ns, id: new_id@ }),
    ensures
        decl_outcome(cfg, Decl::Use { segments, tail: UseTail::Rename(old_id, new_id), attrs }, ns) is Err,
        !template_blocked(attrs_view(attrs@)) ==> decl_outcome(
            cfg,
            Decl::Use { segments, tail: UseTail::Rename(old_id, new_id), attrs },
            ns,
        ) == Err::<Option<ApiV>, DiagV>(
            diag(ErrorV::InfinitelyRecursiveTypedef(QualName { ns, id: new_id@ }), new_id@),
        ),
        item_effect(cfg, Decl::Use { segments, tail: UseTail::Rename(old_id, new_id), attrs }, ns).0.len()
            == 0,
{
}

/// A bare re-export that ends at the root gives neither an entry nor an error
/// (where it carries no unusable template parameter, which fails first).
pub proof fn lemma_root_reexport_discarded(
    cfg: Config,
    segments: Vec<String>,
    n: String,
    attrs: Vec<Attribute>,
    ns: Seq<Seq<char>>,
)
    requires
        n@ == "root"@,
        !template_blocked(attrs_view(attrs@)),
    ensures
        item_effect(cfg, Decl::Use { segments, tail: UseTail::Name(n), attrs }, ns) == (
            Seq::<ApiV>::empty(),
            Seq::<DiagV>::empty(),
        ),
{
}

/// Every error that the builder gives is attributed to the declaration it
/// comes from.
pub proof fn lemma_errors_attributed(cfg: Config, d: Decl, ns: Seq<Seq<char>>)
    ensures
        match decl_outcome(cfg, d, ns) {
            Err(e) => e.item == Some(decl_identity(d)),
            _ => true,
        },
{
}

/// Of two sibling declarations, a first that fails to convert (an invalid
/// identifier, say) and a second that builds an entry, the namespace gives
/// that entry and exactly one error, attributed to the first.
pub proof fn lemma_error_isolated(cfg: Config, first: Decl, second: Decl, ns: Seq<Seq<char>>)
    requires
        decl_outcome(cfg, first, ns) is Err,
        decl_outcome(cfg, second, ns) matches Ok(Some(_)),
        !(first is Mod || first is Impl || first is ForeignMod),
        !(second is Mod || second is Impl || second is ForeignMod),
    ensures
        mod_output(cfg, seq![first, second], ns).0 == seq![decl_outcome(cfg, second, ns)->Ok_0->Some_0],
        mod_output(cfg, seq![first, second], ns).1 == seq![decl_outcome(cfg, first, ns)->Err_0],
        decl_outcome(cfg, first, ns)->Err_0.item == Some(decl_identity(first)),
{
    lemma_errors_attributed(cfg, first, ns);
    let a = decl_outcome(cfg, second, ns)->Ok_0->Some_0;
    let e = decl_outcome(cfg, first, ns)->Err_0;
    let items = seq![first, second];
    assert(items.drop_last() =~= seq![first]);
    assert(seq![first].drop_last() =~= Seq::<Decl>::empty());
    reveal_with_fuel(walk_items, 3);
    reveal_with_fuel(foreign_fns, 3);
    reveal_with_fuel(impl_methods, 3);
    let w = walk_items(cfg, items, ns);
    assert(w.0 =~= seq![a]);
    assert(w.1 =~= seq![e]);
    assert(foreign_fns(items) =~= Seq::<Seq<char>>::empty());
    assert(w.0 + function_entries(cfg, ns, foreign_fns(items), impl_methods(items)) =~= seq![a]);
}

/// No external-function entry is one that the blocklist names.
pub proof fn lemma_functions_unlisted(
    cfg: Config,
    ns: Seq<Seq<char>>,
    fns: Seq<Seq<char>>,
    methods: Seq<Seq<char>>,
)
    ensures
        forall|j: int|
            0 <= j < function_entries(cfg, ns, fns, methods).len() ==> !name_listed(
                cfg.blocklist@,
                (#[trigger] function_entries(cfg, ns, fns, methods)[j]).qname(),
            ),
    decreases fns.len(),
{
    if fns.len() > 0 {
        lemma_functions_unlisted(cfg, ns, fns.drop_last(), methods);
        let prev = function_entries(cfg, ns, fns.drop_last(), methods);
        let e = crate::walk::function_entry(ns, fns.last(), methods);
        assert(e.qname() == QualName { ns, id: fns.last() });
        if !name_listed(cfg.blocklist@, QualName { ns, id: fns.last() }) {
            assert forall|j: int| 0 <= j < prev.push(e).len() implies !name_listed(
                cfg.blocklist@,
                #[trigger] prev.push(e)[j].qname(),
            ) by {
                if j < prev.len() {
                    assert(prev.push(e)[j] == prev[j]);
                }
            }
        }
    }
}

/// No entry that walking a namespace gives is one that the blocklist names.
pub proof fn lemma_walk_unlisted(cfg: Config, items: Seq<Decl>, ns: Seq<Seq<char>>)
    ensures
        forall|j: int|
            0 <= j < walk_items(cfg, items, ns).0.len() ==> !name_listed(
                cfg.blocklist@,
                (#[trigger] walk_items(cfg, items, ns).0[j]).qname(),
            ),
    decreases items,
{
    if items.len() > 0 {
        lemma_walk_unlisted(cfg, items.drop_last(), ns);
        lemma_item_unlisted(cfg, items[items.len() - 1], ns);
        let p = walk_items(cfg, items.drop_last(), ns).0;
        let e = item_effect(cfg, items[items.len() - 1], ns).0;
        assert forall|j: int| 0 <= j < (p + e).len() implies !name_listed(
            cfg.blocklist@,
            #[trigger] (p + e)[j].qname(),
        ) by {
            if j >= p.len() {
                assert((p + e)[j] == e[j - p.len()]);
            }
        }
    }
}

/// No entry that one declaration gives is one that the blocklist names.
pub proof fn lemma_item_unlisted(cfg: Config, d: Decl, ns: Seq<Seq<char>>)
    ensures
        forall|j: int|
            0 <= j < item_effect(cfg, d, ns).0.len() ==> !name_listed(
                cfg.blocklist@,
                (#[trigger] item_effect(cfg, d, ns).0[j]).qname(),
            ),
    decreases d,
{
    match d {
        Decl::Mod { ident, items } => match items {
            Some(v) => {
                let inner = ns.push(ident@);
                lemma_walk_unlisted(cfg, v@, inner);
                lemma_functions_unlisted(cfg, inner, foreign_fns(v@), impl_methods(v@));
                let p = walk_items(cfg, v@, inner).0;
                let e = function_entries(cfg, inner, foreign_fns(v@), impl_methods(v@));
                assert forall|j: int| 0 <= j < (p + e).len() implies !name_listed(
                    cfg.blocklist@,
                    #[trigger] (p + e)[j].qname(),
                ) by {
                    if j >= p.len() {
                        assert((p + e)[j] == e[j - p.len()]);
                    }
                }
            },
            None => {},
        },
        _ => {},
    }
}

/// Where some name of `must` names no entry, the first missing one exists.
pub proof fn lemma_missing_found(apis: Seq<ApiV>, must: Seq<crate::names::QualifiedName>, i: int)
    requires
        0 <= i < must.len(),
        !crate::pass::generated(apis, must[i]@),
    ensures
        crate::pass::first_missing(apis, must) is Some,
    decreases must.len(),
{
    if i > 0 && crate::pass::generated(apis, must[0]@) {
        assert(must.skip(1)[i - 1] == must[i]);
        lemma_missing_found(apis, must.skip(1), i - 1);
    }
}

/// A name that must be generated and that the blocklist also names makes the
/// pass fail with a missing-name error, whatever the walk built for it, unless
/// an entry from before the walk (earlier entries, utilities or the
/// configuration, which the blocklist does not filter) carries it.
pub proof fn lemma_blocklist_beats_directive(
    cfg: Config,
    items: Seq<Decl>,
    before: Seq<ApiV>,
    diags_before: Seq<DiagV>,
    i: int,
)
    requires
        0 <= i < cfg.must_generate@.len(),
        name_listed(cfg.blocklist@, cfg.must_generate@[i]@),
        !crate::pass::generated(
            before + crate::pass::utility_entries(cfg) + crate::pass::config_entries(cfg),
            cfg.must_generate@[i]@,
        ),
        crate::pass::root_items(items) is Some,
    ensures
        crate::pass::pass_output(cfg, items, before, diags_before) matches Err(
            ErrorV::DidNotGenerateAnything(_),
        ),
{
    let v = crate::pass::root_items(items).unwrap();
    let q = cfg.must_generate@[i]@;
    let ns = Seq::<Seq<char>>::empty();
    let m = mod_output(cfg, v, ns);
    lemma_walk_unlisted(cfg, v, ns);
    lemma_functions_unlisted(cfg, ns, foreign_fns(v), impl_methods(v));
    let head = before + crate::pass::utility_entries(cfg) + crate::pass::config_entries(cfg);
    let w = walk_items(cfg, v, ns).0;
    let f = function_entries(cfg, ns, foreign_fns(v), impl_methods(v));
    assert(m.0 == w + f);
    let apis = head + m.0;
    assert(!crate::pass::generated(apis, q)) by {
        assert forall|j: int| 0 <= j < apis.len() implies (#[trigger] apis[j]).qname() != q by {
            if j < head.len() {
                assert(apis[j] == head[j]);
            } else if j < head.len() + w.len() {
                assert(apis[j] == w[j - head.len()]);
            } else {
                assert(apis[j] == f[j - head.len() - w.len()]);
            }
        }
    }
    lemma_missing_found(apis, cfg.must_generate@, i);
}

/// An annotation without payload.
pub open spec fn bare_tag(name: Seq<char>) -> AnnotationV {
    AnnotationV { name, body: None }
}

/// The annotations that state a visibility.
pub open spec fn visibility_tags(vis: CppVisibility) -> Seq<AnnotationV> {
    match vis {
        CppVisibility::Public => Seq::empty(),
        CppVisibility::Protected => seq![bare_tag("visibility_protected"@)],
        CppVisibility::Private => seq![bare_tag("visibility_private"@)],
    }
}

/// The annotations that mark parameters as passed by reference.
pub open spec fn param_tags(params: Seq<Seq<char>>) -> Seq<AnnotationV> {
    params.map_values(
        |p: Seq<char>| AnnotationV { name: "arg_type_reference"@, body: Some(seq![TokenV::Ident(p)]) },
    )
}

/// The annotation that marks a return by reference, if it is one.
pub open spec fn return_tags(by_ref: bool) -> Seq<AnnotationV> {
    if by_ref {
        seq![bare_tag("ret_type_reference"@)]
    } else {
        Seq::empty()
    }
}

/// The annotations that state a bundle of facts.
pub open spec fn encode_facts(vis: CppVisibility, params: Seq<Seq<char>>, by_ref: bool) -> Seq<AnnotationV> {
    visibility_tags(vis) + param_tags(params) + return_tags(by_ref)
}

/// A prefix that marks no parameter changes nothing of what follows it.
pub proof fn lemma_ref_params_prefix(v: Seq<AnnotationV>, p: Seq<AnnotationV>)
    requires
        crate::annotations::ref_params_of(v) == Seq::<Seq<char>>::empty(),
    ensures
        crate::annotations::ref_params_of(v + p) == crate::annotations::ref_params_of(p),
    decreases p.len(),
{
    if p.len() == 0 {
        assert(v + p =~= v);
    } else {
        lemma_ref_params_prefix(v, p.drop_last());
        assert((v + p).drop_last() =~= v + p.drop_last());
        assert((v + p).last() == p.last());
    }
}

/// The parameters read from the parameter annotations are the parameters,
/// where each is listed once.
pub proof fn lemma_param_tags(params: Seq<Seq<char>>)
    requires
        params.no_duplicates(),
    ensures
        crate::annotations::ref_params_of(param_tags(params)) == params,
    decreases params.len(),
{
    reveal_strlit("arg_type_reference");
    if params.len() > 0 {
        lemma_param_tags(params.drop_last());
        assert(param_tags(params).drop_last() =~= param_tags(params.drop_last()));
        assert(!params.drop_last().contains(params.last())) by {
            if params.drop_last().contains(params.last()) {
                let k = choose|k: int| 0 <= k < params.drop_last().len() && params.drop_last()[k] == params.last();
                assert(params[k] == params[params.len() - 1]);
            }
        }
        assert(params.drop_last().push(params.last()) =~= params);
    } else {
        assert(param_tags(params) =~= Seq::<AnnotationV>::empty());
    }
}

/// Encoding a visibility, a set of reference parameters (listed once each)
/// and a return-by-reference fact as annotations and decoding them gives the
/// same facts back.
pub proof fn lemma_facts_round_trip(vis: CppVisibility, params: Seq<Seq<char>>, by_ref: bool)
    requires
        params.no_duplicates(),
    ensures
        visibility_from(
            anns_have(encode_facts(vis, params, by_ref), "visibility_private"@),
            anns_have(encode_facts(vis, params, by_ref), "visibility_protected"@),
        ) == vis,
        crate::annotations::ref_params_of(encode_facts(vis, params, by_ref)) == params,
        anns_have(encode_facts(vis, params, by_ref), "ret_type_reference"@) == by_ref,
        !crate::annotations::has_unreadable_ref_param(encode_facts(vis, params, by_ref)),
{
    reveal_strlit("visibility_private");
    reveal_strlit("visibility_protected");
    reveal_strlit("arg_type_reference");
    reveal_strlit("ret_type_reference");
    let v = visibility_tags(vis);
    let p = param_tags(params);
    let r = return_tags(by_ref);
    let e = encode_facts(vis, params, by_ref);
    assert("visibility_private"@.len() != "visibility_protected"@.len());
    assert("visibility_private"@[0] != "arg_type_reference"@[0]);
    assert("visibility_private"@[0] != "ret_type_reference"@[0]);
    assert("visibility_protected"@[0] != "arg_type_reference"@[0]);
    assert("visibility_protected"@[0] != "ret_type_reference"@[0]);
    assert("arg_type_reference"@[0] != "ret_type_reference"@[0]);
    assert(e == v + p + r);
    assert forall|i: int| 0 <= i < e.len() implies {
        &&& i < v.len() ==> e[i] == v[i]
        &&& v.len() <= i < v.len() + p.len() ==> e[i] == p[i - v.len()]
        &&& v.len() + p.len() <= i ==> e[i] == r[i - v.len() - p.len()]
    } by {}
    assert forall|i: int| 0 <= i < e.len() implies !crate::annotations::unreadable_ref_param(
        #[trigger] e[i],
    ) by {
        if v.len() <= i < v.len() + p.len() {
            assert(e[i] == p[i - v.len()]);
            assert(crate::tokens::ident_of(seq![TokenV::Ident(params[i - v.len()])]) is Some);
        }
    }
    match vis {
        CppVisibility::Private => {
            assert(e[0].name == "visibility_private"@);
        },
        CppVisibility::Protected => {
            assert(e[0].name == "visibility_protected"@);
        },
        CppVisibility::Public => {},
    }
    if by_ref {
        assert(e[e.len() - 1].name == "ret_type_reference"@);
    }
    lemma_param_tags(params);
    reveal_with_fuel(crate::annotations::ref_params_of, 2);
    assert(v.len() <= 1 && r.len() <= 1);
    if v.len() == 1 {
        assert(v.drop_last() =~= Seq::<AnnotationV>::empty());
    }
    if r.len() == 1 {
        assert(r.drop_last() =~= Seq::<AnnotationV>::empty());
    }
    assert(crate::annotations::ref_params_of(v) =~= Seq::<Seq<char>>::empty());
    assert(crate::annotations::ref_params_of(r) =~= Seq::<Seq<char>>::empty());
    lemma_ref_params_prefix(v, p);
    assert(e.drop_last() =~= v + p || r.len() == 0);
    if r.len() == 0 {
        assert(e =~= v + p);
    } else {
        assert(e.drop_last() =~= v + p);
        assert(e.last() == r[0]);
    }
    assert(crate::annotations::ref_params_of(e) =~= params);
}

} // verus!
