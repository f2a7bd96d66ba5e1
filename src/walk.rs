//! The namespace walk and the whole pass.
use vstd::prelude::*;
use crate::api::{apis_view, diags_view, Api, ApiNameV, ApiV, Config, Decl, DiagV};
use crate::errors::ConvertErrorWithContext;
use crate::names::{contains_text, name_listed, texts, ApiName, Namespace, QualName, QualifiedName};
use crate::parse::decl_outcome;

verus! {

broadcast use vstd::std_specs::vec::group_vec_axioms;

/// The entries and errors that one outcome of the builder adds.
pub open spec fn outcome_effect(o: Result<Option<ApiV>, DiagV>) -> (Seq<ApiV>, Seq<DiagV>) {
    match o {
        Ok(Some(a)) => (seq![a], Seq::empty()),
        Ok(None) => (Seq::empty(), Seq::empty()),
        Err(d) => (Seq::empty(), seq![d]),
    }
}

/// The external functions that one declaration declares.
pub open spec fn decl_fns(d: Decl) -> Seq<Seq<char>> {
    match d {
        Decl::ForeignMod { fns } => texts(fns@),
        _ => Seq::empty(),
    }
}

/// The implementation-block methods that one declaration declares.
pub open spec fn decl_methods(d: Decl) -> Seq<Seq<char>> {
    match d {
        Decl::Impl { methods } => texts(methods@),
        _ => Seq::empty(),
    }
}

/// The external functions that the declarations of one namespace declare, in order.
pub open spec fn foreign_fns(items: Seq<Decl>) -> Seq<Seq<char>>
    decreases items.len(),
{
    if items.len() == 0 {
        Seq::empty()
    } else {
        foreign_fns(items.drop_last()) + decl_fns(items.last())
    }
}

/// The methods that the implementation blocks of one namespace declare, in order.
pub open spec fn impl_methods(items: Seq<Decl>) -> Seq<Seq<char>>
    decreases items.len(),
{
    if items.len() == 0 {
        Seq::empty()
    } else {
        impl_methods(items.drop_last()) + decl_methods(items.last())
    }
}

/// The entry for external function `f` of namespace `ns`.
pub open spec fn function_entry(ns: Seq<Seq<char>>, f: Seq<char>, methods: Seq<Seq<char>>) -> ApiV {
    ApiV::Function { name: ApiNameV { name: QualName { ns, id: f }, cpp_name: None }, is_method: methods.contains(f) }
}

/// The entries for the external functions of one namespace, in order, less
/// those that the blocklist names.
pub open spec fn function_entries(
    cfg: Config,
    ns: Seq<Seq<char>>,
    fns: Seq<Seq<char>>,
    methods: Seq<Seq<char>>,
) -> Seq<ApiV>
    decreases fns.len(),
{
    if fns.len() == 0 {
        Seq::empty()
    } else {
        let prev = function_entries(cfg, ns, fns.drop_last(), methods);
        if name_listed(cfg.blocklist@, QualName { ns, id: fns.last() }) {
            prev
        } else {
            prev.push(function_entry(ns, fns.last(), methods))
        }
    }
}

/// The entries and errors that walking the declarations `items` of namespace
/// `ns` adds, before the namespace's external functions are finalized.
pub open spec fn walk_items(cfg: Config, items: Seq<Decl>, ns: Seq<Seq<char>>) -> (Seq<ApiV>, Seq<DiagV>)
    decreases items,
{
    if items.len() == 0 {
        (Seq::empty(), Seq::empty())
    } else {
        let p = walk_items(cfg, items.drop_last(), ns);
        let e = item_effect(cfg, items[items.len() - 1], ns);
        (p.0 + e.0, p.1 + e.1)
    }
}

/// The entries and errors that one declaration of namespace `ns` adds; a
/// nested namespace adds everything its walk adds, then its external functions.
pub open spec fn item_effect(cfg: Config, d: Decl, ns: Seq<Seq<char>>) -> (Seq<ApiV>, Seq<DiagV>)
    decreases d,
{
    match d {
        Decl::Mod { ident, items } => match items {
            Some(v) => {
                let inner = ns.push(ident@);
                let w = walk_items(cfg, v@, inner);
                (w.0 + function_entries(cfg, inner, foreign_fns(v@), impl_methods(v@)), w.1)
            },
            None => (Seq::empty(), Seq::empty()),
        },
        Decl::Impl { .. } => (Seq::empty(), Seq::empty()),
        Decl::ForeignMod { .. } => (Seq::empty(), Seq::empty()),
        _ => outcome_effect(decl_outcome(cfg, d, ns)),
    }
}

/// The entries and errors that one whole namespace adds.
pub open spec fn mod_output(cfg: Config, items: Seq<Decl>, ns: Seq<Seq<char>>) -> (Seq<ApiV>, Seq<DiagV>) {
    let w = walk_items(cfg, items, ns);
    (w.0 + function_entries(cfg, ns, foreign_fns(items), impl_methods(items)), w.1)
}

/// The external functions and implementation-block methods that one
/// namespace has declared so far; finalized into function entries when the
/// namespace is done.
pub struct ForeignModGroup {
    pub ns: Namespace,
    pub fns: Vec<String>,
    pub methods: Vec<String>,
}

impl ForeignModGroup {
    /// An empty group for namespace `ns`.
    pub fn new(ns: Namespace) -> (r: ForeignModGroup)
        ensures
            r.ns@ == ns@,
            r.fns@.len() == 0,
            r.methods@.len() == 0,
    {
        ForeignModGroup { ns, fns: Vec::new(), methods: Vec::new() }
    }

    /// Takes in the functions of one group of external functions.
    pub fn convert_foreign_mod_items(&mut self, fns: Vec<String>)
        ensures
            final(self).ns == old(self).ns,
            final(self).methods == old(self).methods,
            texts(final(self).fns@) == texts(old(self).fns@) + texts(fns@),
    {
        let ghost added = fns@;
        let mut fns = fns;
        self.fns.append(&mut fns);
        assert(texts(self.fns@) =~= texts(old(self).fns@) + texts(added));
    }

    /// Takes in the methods of one implementation block.
    pub fn convert_impl_items(&mut self, methods: Vec<String>)
        ensures
            final(self).ns == old(self).ns,
            final(self).fns == old(self).fns,
            texts(final(self).methods@) == texts(old(self).methods@) + texts(methods@),
    {
        let ghost added = methods@;
        let mut methods = methods;
        self.methods.append(&mut methods);
        assert(texts(self.methods@) =~= texts(old(self).methods@) + texts(added));
    }

    /// Appends one function entry per external function, in order; an entry
    /// is a method where an implementation block declared its name.
    pub fn finished(&self, cfg: &Config, apis: &mut Vec<Api>)
        ensures
            apis_view(final(apis)@) == apis_view(old(apis)@) + function_entries(
                *cfg,
                self.ns@,
                texts(self.fns@),
                texts(self.methods@),
            ),
    {
        let ghost start = apis_view(apis@);
        let ghost fns = texts(self.fns@);
        let ghost methods = texts(self.methods@);
        let mut i: usize = 0;
        while i < self.fns.len()
            invariant
                i <= self.fns.len(),
                fns == texts(self.fns@),
                methods == texts(self.methods@),
                apis_view(apis@) == start + function_entries(*cfg, self.ns@, fns.subrange(0, i as int), methods),
            decreases self.fns.len() - i,
        {
            let name = ApiName { name: QualifiedName::new(&self.ns, self.fns[i].clone()), cpp_name: None };
            assert(fns.subrange(0, i + 1).drop_last() =~= fns.subrange(0, i as int));
            assert(fns.subrange(0, i + 1).last() == fns[i as int]);
            if !cfg.is_on_blocklist(&name.name) {
                let is_method = contains_text(&self.methods, &self.fns[i]);
                let ghost prev = apis@;
                apis.push(Api::Function { name, is_method });
                assert(apis_view(apis@) =~= apis_view(prev).push(function_entry(self.ns@, fns[i as int], methods)));
            }
            i = i + 1;
        }
        assert(fns.subrange(0, i as int) =~= fns);
    }
}

/// Appending nothing leaves a sequence as it was.
proof fn lemma_nothing_added<A>(s: Seq<A>)
    ensures
        s + Seq::<A>::empty() == s,
{
    assert(s + Seq::<A>::empty() =~= s);
}

/// The state of one pass: the configuration, the entries built so far, and
/// the errors attributed to single declarations so far.
pub struct ParseBindgen {
    pub config: Config,
    pub apis: Vec<Api>,
    pub diagnostics: Vec<ConvertErrorWithContext>,
}

impl ParseBindgen {
    /// A pass over `config` with nothing built yet.
    pub fn new(config: Config) -> (r: ParseBindgen)
        ensures
            r.config == config,
            r.apis@.len() == 0,
            r.diagnostics@.len() == 0,
    {
        ParseBindgen { config, apis: Vec::new(), diagnostics: Vec::new() }
    }

    /// Walks the declarations of namespace `ns`, then finalizes its external
    /// functions; an error in one declaration is recorded and the walk goes on.
    pub fn parse_mod_items(&mut self, items: Vec<Decl>, ns: Namespace)
        ensures
            final(self).config == old(self).config,
            apis_view(final(self).apis@) == apis_view(old(self).apis@) + mod_output(
                old(self).config,
                items@,
                ns@,
            ).0,
            diags_view(final(self).diagnostics@) == diags_view(old(self).diagnostics@) + mod_output(
                old(self).config,
                items@,
                ns@,
            ).1,
        decreases items,
    {
        let ghost items0 = items;
        let ghost orig = items@;
        let ghost cfg0 = self.config;
        let ghost a0 = apis_view(self.apis@);
        let ghost d0 = diags_view(self.diagnostics@);
        let mut group = ForeignModGroup::new(ns.copy());
        let mut rest = items;
        let total: usize = rest.len();
        let mut k: usize = 0;
        assert(orig.skip(0) =~= orig);
        assert(orig.subrange(0, 0) =~= Seq::<Decl>::empty());
        while rest.len() > 0
            invariant
                k + rest@.len() == total,
                total == orig.len(),
                rest@ == orig.skip(k as int),
                items0@ == orig,
                items0 == items,
                self.config == cfg0,
                apis_view(self.apis@) == a0 + walk_items(cfg0, orig.subrange(0, k as int), ns@).0,
                diags_view(self.diagnostics@) == d0 + walk_items(cfg0, orig.subrange(0, k as int), ns@).1,
                group.ns@ == ns@,
                texts(group.fns@) == foreign_fns(orig.subrange(0, k as int)),
                texts(group.methods@) == impl_methods(orig.subrange(0, k as int)),
            decreases rest@.len(),
        {
            let ghost before = rest@;
            let item = rest.remove(0);
            proof {
                assert(item == orig[k as int]) by {
                    assert(before[0] == orig.skip(k as int)[0]);
                }
                assert(rest@ =~= orig.skip(k + 1)) by {
                    assert(rest@ =~= before.subrange(1, before.len() as int));
                }
                vstd::std_specs::vec::axiom_vec_index_decreases(items0, k as int);
                assert(items0[k as int] == item);
                assert(decreases_to!(items0 => item));
                assert(orig.subrange(0, k + 1).drop_last() =~= orig.subrange(0, k as int));
                assert(orig.subrange(0, k + 1)[k as int] == orig[k as int]);
                assert(orig.subrange(0, k + 1).last() == orig[k as int]);
            }
            self.parse_item(item, &mut group, &ns);
            k = k + 1;
        }
        assert(orig.subrange(0, k as int) =~= orig);
        group.finished(&self.config, &mut self.apis);
    }

    /// Handles one declaration of namespace `ns`: a nested namespace is
    /// walked, external functions and implementation blocks go to the
    /// namespace's group, anything else is built and its entry or error
    /// recorded.
    fn parse_item(&mut self, item: Decl, group: &mut ForeignModGroup, ns: &Namespace)
        ensures
            final(self).config == old(self).config,
            apis_view(final(self).apis@) == apis_view(old(self).apis@) + item_effect(
                old(self).config,
                item,
                ns@,
            ).0,
            diags_view(final(self).diagnostics@) == diags_view(old(self).diagnostics@) + item_effect(
                old(self).config,
                item,
                ns@,
            ).1,
            final(group).ns == old(group).ns,
            texts(final(group).fns@) == texts(old(group).fns@) + decl_fns(item),
            texts(final(group).methods@) == texts(old(group).methods@) + decl_methods(item),
        decreases item,
    {
        proof {
            lemma_nothing_added(apis_view(self.apis@));
            lemma_nothing_added(diags_view(self.diagnostics@));
            lemma_nothing_added(texts(group.fns@));
            lemma_nothing_added(texts(group.methods@));
        }
        match item {
            Decl::ForeignMod { fns } => {
                group.convert_foreign_mod_items(fns);
            },
            Decl::Impl { methods } => {
                group.convert_impl_items(methods);
            },
            Decl::Mod { ident, items } => {
                match items {
                    Some(v) => {
                        let new_ns = ns.push(ident);
                        self.parse_mod_items(v, new_ns);
                    },
                    None => {
                    },
                }
            },
            other => {
                let ghost a = apis_view(self.apis@);
                let ghost d = diags_view(self.diagnostics@);
                let r = self.config.build_api(other, ns);
                match r {
                    Ok(Some(api)) => {
                        self.apis.push(api);
                        assert(apis_view(self.apis@) =~= a + seq![api@]);
                    },
                    Ok(None) => {
                    },
                    Err(e) => {
                        self.diagnostics.push(e);
                        assert(diags_view(self.diagnostics@) =~= d + seq![e@]);
                    },
                }
            },
        }
    }
}

} // verus!
