//! The whole pass: root unwrapping, entries from the configuration, the walk,
//! and the check that every name that must be generated was.
use vstd::prelude::*;
use crate::api::{
    apis_view, diags_view, Api, ApiNameV, ApiV, Config, Decl, DiagV, ErrorV, RustFunConfig,
    RustTypeConfig, SubclassConfig,
};
use crate::errors::{ConvertError, ConvertErrorWithContext};
use crate::names::{clone_strings, texts, ApiName, Namespace, QualName, QualifiedName};
use crate::tokens::tokens_view;
use crate::text::str_eq;
use crate::walk::{mod_output, ParseBindgen};

verus! {

/// The declarations inside the root: the tree must be exactly one namespace
/// called `root` that has a body.
pub open spec fn root_items(items: Seq<Decl>) -> Option<Seq<Decl>> {
    if items.len() == 1 {
        match items[0] {
            Decl::Mod { ident, items: Some(v) } => if ident@ == "root"@ {
                Some(v@)
            } else {
                None
            },
            _ => None,
        }
    } else {
        None
    }
}

/// The name `id` in the root namespace, with no separate native name.
pub open spec fn root_name(id: Seq<char>) -> ApiNameV {
    ApiNameV { name: QualName { ns: Seq::empty(), id }, cpp_name: None }
}

/// The utility entries, unless the configuration suppresses them.
pub open spec fn utility_entries(cfg: Config) -> Seq<ApiV> {
    if cfg.exclude_utilities {
        Seq::empty()
    } else {
        seq![ApiV::StringConstructor { name: root_name("make_string"@) }]
    }
}

/// The entries that the configuration declares: subclasses, then functions
/// implemented on the Rust side, then types implemented on the Rust side.
pub open spec fn config_entries(cfg: Config) -> Seq<ApiV> {
    subclass_entries(cfg) + rust_fn_entries(cfg) + rust_type_entries(cfg)
}

/// The entries for the subclasses that the configuration declares.
pub open spec fn subclass_entries(cfg: Config) -> Seq<ApiV> {
    cfg.subclasses@.map_values(
        |sc: SubclassConfig| ApiV::Subclass { name: root_name(sc.subclass@), superclass: sc.superclass@ },
    )
}

/// The entries for the functions implemented on the Rust side.
pub open spec fn rust_fn_entries(cfg: Config) -> Seq<ApiV> {
    cfg.extern_rust_funs@.map_values(
        |f: RustFunConfig| ApiV::RustFn { name: root_name(f.ident@), path: texts(f.path@), sig: tokens_view(f.sig@) },
    )
}

/// The entries for the types implemented on the Rust side.
pub open spec fn rust_type_entries(cfg: Config) -> Seq<ApiV> {
    cfg.rust_types@.map_values(|t: RustTypeConfig| ApiV::RustType { name: root_name(t.ident@), path: texts(t.path@) })
}

/// Whether some entry is called `q`.
pub open spec fn generated(apis: Seq<ApiV>, q: QualName) -> bool {
    exists|j: int| 0 <= j < apis.len() && (#[trigger] apis[j]).qname() == q
}

/// The first name of `must` that no entry is called, if any.
pub open spec fn first_missing(apis: Seq<ApiV>, must: Seq<QualifiedName>) -> Option<QualName>
    decreases must.len(),
{
    if must.len() == 0 {
        None
    } else if !generated(apis, must[0]@) {
        Some(must[0]@)
    } else {
        first_missing(apis, must.skip(1))
    }
}

/// What a pass over the tree `items` gives, after the entries `before`
/// and errors `diags_before`: a structural error, a missing name, or the
/// entries and the attributed errors.
pub open spec fn pass_output(
    cfg: Config,
    items: Seq<Decl>,
    before: Seq<ApiV>,
    diags_before: Seq<DiagV>,
) -> Result<(Seq<ApiV>, Seq<DiagV>), ErrorV> {
    match root_items(items) {
        None => Err(ErrorV::UnexpectedOuterItem),
        Some(v) => {
            let m = mod_output(cfg, v, Seq::empty());
            let apis = before + utility_entries(cfg) + config_entries(cfg) + m.0;
            match first_missing(apis, cfg.must_generate@) {
                Some(q) => Err(ErrorV::DidNotGenerateAnything(q)),
                None => Ok((apis, diags_before + m.1)),
            }
        },
    }
}

/// The entries and the attributed errors of a pass.
pub struct ParseOutput {
    pub apis: Vec<Api>,
    pub diagnostics: Vec<ConvertErrorWithContext>,
}

impl ParseOutput {
    /// Whether the pass went through without an attributed error.
    pub fn succeeded(&self) -> (r: bool)
        ensures
            r == (self.diagnostics@.len() == 0),
    {
        self.diagnostics.len() == 0
    }
}

/// The declarations inside the root namespace.
pub fn find_items_in_root(items: Vec<Decl>) -> (r: Result<Vec<Decl>, ConvertError>)
    ensures
        match r {
            Ok(v) => root_items(items@) == Some(v@),
            Err(e) => root_items(items@) is None && e is UnexpectedOuterItem,
        },
{
    let ghost orig = items@;
    let mut items = items;
    if items.len() != 1 {
        return Err(ConvertError::UnexpectedOuterItem);
    }
    let d = items.remove(0);
    assert(d == orig[0]);
    match d {
        Decl::Mod { ident, items: Some(v) } => {
            if str_eq(ident.as_str(), "root") {
                Ok(v)
            } else {
                Err(ConvertError::UnexpectedOuterItem)
            }
        },
        _ => Err(ConvertError::UnexpectedOuterItem),
    }
}

/// The name `id` in the root namespace.
fn name_in_root(id: String) -> (r: ApiName)
    ensures
        r@ == root_name(id@),
{
    let ns = Namespace::new();
    ApiName { name: QualifiedName::new(&ns, id), cpp_name: None }
}

impl ParseBindgen {
    /// Appends the utility entries.
    fn generate_utilities(&mut self)
        ensures
            final(self).config == old(self).config,
            final(self).diagnostics == old(self).diagnostics,
            apis_view(final(self).apis@) == apis_view(old(self).apis@) + seq![
                ApiV::StringConstructor { name: root_name("make_string"@) },
            ],
    {
        let ghost a = apis_view(self.apis@);
        let name = name_in_root("make_string".to_owned());
        self.apis.push(Api::StringConstructor { name });
        assert(apis_view(self.apis@) =~= a + seq![ApiV::StringConstructor { name: root_name("make_string"@) }]);
    }

    /// Appends the entries that the configuration declares.
    fn add_apis_from_config(&mut self)
        ensures
            final(self).config == old(self).config,
            final(self).diagnostics == old(self).diagnostics,
            apis_view(final(self).apis@) == apis_view(old(self).apis@) + config_entries(old(self).config),
    {
        let ghost cfg = self.config;
        let ghost a0 = apis_view(self.apis@);
        let ghost subs = subclass_entries(cfg);
        let ghost funs = rust_fn_entries(cfg);
        let ghost tys = rust_type_entries(cfg);
        let mut i: usize = 0;
        while i < self.config.subclasses.len()
            invariant
                self.config == cfg,
                self.diagnostics == old(self).diagnostics,
                i <= cfg.subclasses@.len(),
                subs == subclass_entries(cfg),
                apis_view(self.apis@) == a0 + subs.subrange(0, i as int),
            decreases cfg.subclasses@.len() - i,
        {
            let sc = &self.config.subclasses[i];
            let api = Api::Subclass { name: name_in_root(sc.subclass.clone()), superclass: sc.superclass.copy() };
            let ghost prev = apis_view(self.apis@);
            self.apis.push(api);
            assert(apis_view(self.apis@) =~= prev.push(subs[i as int]));
            assert(subs.subrange(0, i + 1) =~= subs.subrange(0, i as int).push(subs[i as int]));
            i = i + 1;
        }
        assert(subs.subrange(0, i as int) =~= subs);
        let ghost a1 = apis_view(self.apis@);
        let mut i: usize = 0;
        while i < self.config.extern_rust_funs.len()
            invariant
                self.config == cfg,
                self.diagnostics == old(self).diagnostics,
                i <= cfg.extern_rust_funs@.len(),
                funs == rust_fn_entries(cfg),
                apis_view(self.apis@) == a1 + funs.subrange(0, i as int),
            decreases cfg.extern_rust_funs@.len() - i,
        {
            let f = &self.config.extern_rust_funs[i];
            let api = Api::RustFn {
                name: name_in_root(f.ident.clone()),
                path: clone_strings(&f.path),
                sig: crate::tokens::copy_tokens(&f.sig),
            };
            let ghost prev = apis_view(self.apis@);
            self.apis.push(api);
            assert(apis_view(self.apis@) =~= prev.push(funs[i as int]));
            assert(funs.subrange(0, i + 1) =~= funs.subrange(0, i as int).push(funs[i as int]));
            i = i + 1;
        }
        assert(funs.subrange(0, i as int) =~= funs);
        let ghost a2 = apis_view(self.apis@);
        let mut i: usize = 0;
        while i < self.config.rust_types.len()
            invariant
                self.config == cfg,
                self.diagnostics == old(self).diagnostics,
                i <= cfg.rust_types@.len(),
                tys == rust_type_entries(cfg),
                apis_view(self.apis@) == a2 + tys.subrange(0, i as int),
            decreases cfg.rust_types@.len() - i,
        {
            let t = &self.config.rust_types[i];
            let api = Api::RustType { name: name_in_root(t.ident.clone()), path: clone_strings(&t.path) };
            let ghost prev = apis_view(self.apis@);
            self.apis.push(api);
            assert(apis_view(self.apis@) =~= prev.push(tys[i as int]));
            assert(tys.subrange(0, i + 1) =~= tys.subrange(0, i as int).push(tys[i as int]));
            i = i + 1;
        }
        assert(tys.subrange(0, i as int) =~= tys);
        assert(apis_view(self.apis@) =~= a0 + config_entries(cfg));
    }

    /// Whether some entry is called `q`.
    fn is_generated(&self, q: &QualifiedName) -> (r: bool)
        ensures
            r == generated(apis_view(self.apis@), q@),
    {
        let ghost v = apis_view(self.apis@);
        let mut j: usize = 0;
        while j < self.apis.len()
            invariant
                v == apis_view(self.apis@),
                j <= self.apis.len(),
                forall|k: int| 0 <= k < j ==> (#[trigger] v[k]).qname() != q@,
            decreases self.apis.len() - j,
        {
            if self.apis[j].name().same(q) {
                assert(v[j as int].qname() == q@);
                return true;
            }
            j = j + 1;
        }
        false
    }

    /// Checks that every name that must be generated names some entry; the
    /// error names the first that does not.
    pub fn confirm_all_generate_directives_obeyed(&self) -> (r: Result<(), ConvertError>)
        ensures
            match (r, first_missing(apis_view(self.apis@), self.config.must_generate@)) {
                (Ok(()), None) => true,
                (Err(ConvertError::DidNotGenerateAnything(q)), Some(m)) => q@ == m,
                _ => false,
            },
    {
        let ghost apis = apis_view(self.apis@);
        let ghost must = self.config.must_generate@;
        assert(must.skip(0) =~= must);
        let mut i: usize = 0;
        while i < self.config.must_generate.len()
            invariant
                apis == apis_view(self.apis@),
                must == self.config.must_generate@,
                i <= must.len(),
                first_missing(apis, must) == first_missing(apis, must.skip(i as int)),
            decreases must.len() - i,
        {
            assert(must.skip(i as int)[0] == must[i as int]);
            assert(must.skip(i as int).skip(1) =~= must.skip(i + 1));
            let q = &self.config.must_generate[i];
            if !self.is_generated(q) {
                return Err(ConvertError::DidNotGenerateAnything(q.copy()));
            }
            i = i + 1;
        }
        assert(must.skip(i as int).len() == 0);
        Ok(())
    }

    /// Runs the whole pass over the declaration tree `items`.
    pub fn parse_items(self, items: Vec<Decl>) -> (r: Result<ParseOutput, ConvertError>)
        ensures
            match (r, pass_output(self.config, items@, apis_view(self.apis@), diags_view(self.diagnostics@))) {
                (Ok(o), Ok((a, d))) => apis_view(o.apis@) == a && diags_view(o.diagnostics@) == d,
                (Err(e), Err(ev)) => e@ == ev,
                _ => false,
            },
    {
        let ghost cfg = self.config;
        let ghost a0 = apis_view(self.apis@);
        let ghost d0 = diags_view(self.diagnostics@);
        let mut this = self;
        let items = match find_items_in_root(items) {
            Ok(v) => v,
            Err(e) => {
                return Err(e);
            },
        };
        if !this.config.exclude_utilities {
            this.generate_utilities();
        }
        this.add_apis_from_config();
        let root_ns = Namespace::new();
        let ghost v = items@;
        this.parse_mod_items(items, root_ns);
        let ghost m = mod_output(cfg, v, Seq::empty());
        assert(apis_view(this.apis@) =~= a0 + utility_entries(cfg) + config_entries(cfg) + m.0);
        match this.confirm_all_generate_directives_obeyed() {
            Err(e) => Err(e),
            Ok(()) => Ok(ParseOutput { apis: this.apis, diagnostics: this.diagnostics }),
        }
    }
}

} // verus!
