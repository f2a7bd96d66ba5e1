//! Decoding the metadata tags attached to a declaration.
use vstd::prelude::*;
use crate::errors::{ConvertError, ConvertErrorWithContext, ErrorContext};
use crate::text::str_eq;
use crate::names::contains_text;
use crate::tokens::{
    attrs_view, ident_of, layout_of, lit_str_of, parse_ident, parse_layout_tokens,
    parse_lit_str, tokens_view, AttrV, Attribute, Delim, Layout, Token, TokenV,
};

verus! {

/// The native visibility of a declaration.
#[derive(Clone, Copy, Debug, PartialEq, Eq, Structural)]
pub enum CppVisibility {
    Public,
    Protected,
    Private,
}

/// Whether, and how, a native method is virtual.
#[derive(Clone, Copy, Debug, PartialEq, Eq, Structural)]
pub enum Virtualness {
    NonVirtual,
    Virtual,
    PureVirtual,
}

/// The visibility that two tag facts give; private wins over protected.
pub open spec fn visibility_from(private: bool, protected: bool) -> CppVisibility {
    if private {
        CppVisibility::Private
    } else if protected {
        CppVisibility::Protected
    } else {
        CppVisibility::Public
    }
}

/// The virtualness that two tag facts give; pure virtual wins over virtual.
pub open spec fn virtualness_from(pure_virtual: bool, is_virtual: bool) -> Virtualness {
    if pure_virtual {
        Virtualness::PureVirtual
    } else if is_virtual {
        Virtualness::Virtual
    } else {
        Virtualness::NonVirtual
    }
}

/// Whether a path is the single identifier `name`.
pub open spec fn path_is(path: Seq<Seq<char>>, name: Seq<char>) -> bool {
    path.len() == 1 && path[0] == name
}

/// Whether some attribute's path is the single identifier `name`.
pub open spec fn attrs_have(v: Seq<AttrV>, name: Seq<char>) -> bool {
    exists|i: int| 0 <= i < v.len() && path_is(#[trigger] v[i].path, name)
}

/// Whether `i` is the first attribute whose path is `name`.
pub open spec fn first_attr(v: Seq<AttrV>, name: Seq<char>, i: int) -> bool {
    &&& 0 <= i < v.len()
    &&& path_is(v[i].path, name)
    &&& forall|k: int| 0 <= k < i ==> !path_is(#[trigger] v[k].path, name)
}

/// The arguments of the first attribute whose path is `name`, if there is one.
pub open spec fn first_attr_args(v: Seq<AttrV>, name: Seq<char>) -> Option<Option<Seq<TokenV>>> {
    if exists|i: int| first_attr(v, name, i) {
        Some(v[choose|i: int| first_attr(v, name, i)].args)
    } else {
        None
    }
}

/// What a layout tag gives: nothing without a tag, else its payload read as a
/// layout, or a failure when that payload cannot be read.
pub open spec fn layout_outcome(args: Option<Option<Seq<TokenV>>>) -> Result<Option<Layout>, ()> {
    match args {
        None => Ok(None),
        Some(Some(t)) => match layout_of(t) {
            Some(l) => Ok(Some(l)),
            None => Err(()),
        },
        Some(None) => Err(()),
    }
}

/// What a string tag gives: nothing without a tag, else its string literal, or a
/// failure when the payload is not one string literal.
pub open spec fn string_outcome(args: Option<Option<Seq<TokenV>>>) -> Result<Option<Seq<char>>, ()> {
    match args {
        None => Ok(None),
        Some(Some(t)) => match lit_str_of(t) {
            Some(s) => Ok(Some(s)),
            None => Err(()),
        },
        Some(None) => Err(()),
    }
}

/// Whether an executable layout result matches its specification, the error
/// naming the tag.
pub open spec fn layout_result_matches(
    r: Result<Option<Layout>, ConvertError>,
    o: Result<Option<Layout>, ()>,
    tag: Seq<char>,
) -> bool {
    match (r, o) {
        (Ok(a), Ok(b)) => a == b,
        (Err(ConvertError::MalformedAnnotation(n)), Err(_)) => n@ == tag,
        _ => false,
    }
}

/// Whether an executable string result matches its specification, the error
/// naming the tag.
pub open spec fn string_result_matches(
    r: Result<Option<String>, ConvertError>,
    o: Result<Option<Seq<char>>, ()>,
    tag: Seq<char>,
) -> bool {
    match (r, o) {
        (Ok(Some(a)), Ok(Some(b))) => a@ == b,
        (Ok(None), Ok(None)) => true,
        (Err(ConvertError::MalformedAnnotation(n)), Err(_)) => n@ == tag,
        _ => false,
    }
}

/// Whether a path is the single identifier `name`.
pub fn path_is_ident(path: &Vec<String>, name: &str) -> (r: bool)
    ensures
        r == path_is(crate::names::texts(path@), name@),
{
    path.len() == 1 && str_eq(path[0].as_str(), name)
}

/// The index of the first attribute whose path is `name`.
pub fn find_attr(attrs: &Vec<Attribute>, name: &str) -> (r: Option<usize>)
    ensures
        match r {
            Some(i) => first_attr(attrs_view(attrs@), name@, i as int),
            None => !attrs_have(attrs_view(attrs@), name@),
        },
{
    let ghost v = attrs_view(attrs@);
    let mut i: usize = 0;
    while i < attrs.len()
        invariant
            v == attrs_view(attrs@),
            i <= attrs.len(),
            forall|k: int| 0 <= k < i ==> !path_is(#[trigger] v[k].path, name@),
        decreases attrs.len() - i,
    {
        if path_is_ident(&attrs[i].path, name) {
            return Some(i);
        }
        i = i + 1;
    }
    None
}

/// The first-attribute index is unique.
pub proof fn lemma_first_attr_unique(v: Seq<AttrV>, name: Seq<char>, i: int, j: int)
    requires
        first_attr(v, name, i),
        first_attr(v, name, j),
    ensures
        i == j,
{
    if i < j {
        assert(!path_is(v[i].path, name));
    } else if j < i {
        assert(!path_is(v[j].path, name));
    }
}

/// Whether an attribute whose path is the identifier `attr_name` is present.
pub fn has_attr(attrs: &Vec<Attribute>, attr_name: &str) -> (r: bool)
    ensures
        r == attrs_have(attrs_view(attrs@), attr_name@),
{
    find_attr(attrs, attr_name).is_some()
}

/// The native visibility that the attributes state; public by default.
pub fn get_cpp_visibility(attrs: &Vec<Attribute>) -> (r: CppVisibility)
    ensures
        r == visibility_from(
            attrs_have(attrs_view(attrs@), "bindgen_visibility_private"@),
            attrs_have(attrs_view(attrs@), "bindgen_visibility_protected"@),
        ),
{
    if has_attr(attrs, "bindgen_visibility_private") {
        CppVisibility::Private
    } else if has_attr(attrs, "bindgen_visibility_protected") {
        CppVisibility::Protected
    } else {
        CppVisibility::Public
    }
}

/// The virtualness that the attributes state; not virtual by default.
pub fn get_virtualness(attrs: &Vec<Attribute>) -> (r: Virtualness)
    ensures
        r == virtualness_from(
            attrs_have(attrs_view(attrs@), "bindgen_pure_virtual"@),
            attrs_have(attrs_view(attrs@), "bindgen_virtual"@),
        ),
{
    if has_attr(attrs, "bindgen_pure_virtual") {
        Virtualness::PureVirtual
    } else if has_attr(attrs, "bindgen_virtual") {
        Virtualness::Virtual
    } else {
        Virtualness::NonVirtual
    }
}

/// The layout that the first layout attribute states.
pub fn parse_layout(attrs: &Vec<Attribute>) -> (r: Result<Option<Layout>, ConvertError>)
    ensures
        layout_result_matches(
            r,
            layout_outcome(first_attr_args(attrs_view(attrs@), "bindgen_layout"@)),
            "bindgen_layout"@,
        ),
{
    let ghost v = attrs_view(attrs@);
    match find_attr(attrs, "bindgen_layout") {
        None => Ok(None),
        Some(i) => {
            proof {
                let j = choose|j: int| first_attr(v, "bindgen_layout"@, j);
                lemma_first_attr_unique(v, "bindgen_layout"@, i as int, j);
            }
            match &attrs[i].args {
                Some(t) => match parse_layout_tokens(t) {
                    Some(l) => Ok(Some(l)),
                    None => Err(ConvertError::MalformedAnnotation("bindgen_layout".to_owned())),
                },
                None => Err(ConvertError::MalformedAnnotation("bindgen_layout".to_owned())),
            }
        },
    }
}

/// The native name that an original-name attribute states, if any: the first
/// such attribute whose payload is one string literal.
pub open spec fn original_name_at(a: AttrV) -> Option<Seq<char>> {
    if path_is(a.path, "bindgen_original_name"@) {
        match a.args {
            Some(t) => lit_str_of(t),
            None => None,
        }
    } else {
        None
    }
}

/// The first native name that the attributes state.
pub open spec fn original_name_spec(v: Seq<AttrV>) -> Option<Seq<char>>
    decreases v.len(),
{
    if v.len() == 0 {
        None
    } else {
        match original_name_at(v[0]) {
            Some(s) => Some(s),
            None => original_name_spec(v.skip(1)),
        }
    }
}

/// The native name that the first readable original-name attribute states.
pub fn get_bindgen_original_name_annotation(attrs: &Vec<Attribute>) -> (r: Option<String>)
    ensures
        match r {
            Some(s) => original_name_spec(attrs_view(attrs@)) == Some(s@),
            None => original_name_spec(attrs_view(attrs@)) is None,
        },
{
    let ghost v = attrs_view(attrs@);
    assert(v.skip(0) =~= v);
    let mut i: usize = 0;
    while i < attrs.len()
        invariant
            v == attrs_view(attrs@),
            i <= attrs.len(),
            original_name_spec(v) == original_name_spec(v.skip(i as int)),
        decreases attrs.len() - i,
    {
        assert(v.skip(i as int)[0] == v[i as int]);
        assert(v.skip(i as int).skip(1) =~= v.skip(i + 1));
        if path_is_ident(&attrs[i].path, "bindgen_original_name") {
            match &attrs[i].args {
                Some(t) => match parse_lit_str(t) {
                    Some(s) => {
                        return Some(s);
                    },
                    None => {},
                },
                None => {},
            }
        }
        i = i + 1;
    }
    assert(v.skip(i as int).len() == 0);
    None
}

/// The view of one annotation: its name and its payload.
pub struct AnnotationV {
    pub name: Seq<char>,
    pub body: Option<Seq<TokenV>>,
}

/// How the arguments of an annotation attribute read: a name, optionally
/// followed by one parenthesized payload, and nothing else (a bracketed or
/// braced group does not read).
pub open spec fn parse_annotation(t: Seq<TokenV>) -> Option<AnnotationV> {
    if t.len() == 1 {
        match t[0] {
            TokenV::Ident(n) => Some(AnnotationV { name: n, body: None }),
            _ => None,
        }
    } else if t.len() == 2 {
        match (t[0], t[1]) {
            (TokenV::Ident(n), TokenV::Group(Delim::Paren, b)) => Some(AnnotationV { name: n, body: Some(b) }),
            _ => None,
        }
    } else {
        None
    }
}

/// Whether an attribute is an annotation: its path ends in `bindgen_annotation`.
pub open spec fn is_annotation_attr(a: AttrV) -> bool {
    a.path.len() > 0 && a.path.last() == "bindgen_annotation"@
}

/// The annotation that an attribute holds, if it is one that reads.
pub open spec fn annotation_of(a: AttrV) -> Option<AnnotationV> {
    if is_annotation_attr(a) {
        match a.args {
            Some(t) => parse_annotation(t),
            None => None,
        }
    } else {
        None
    }
}

/// The annotations that a list of attributes holds, in order.
pub open spec fn annotations_of(v: Seq<AttrV>) -> Seq<AnnotationV>
    decreases v.len(),
{
    if v.len() == 0 {
        Seq::empty()
    } else {
        let prev = annotations_of(v.drop_last());
        match annotation_of(v.last()) {
            Some(x) => prev.push(x),
            None => prev,
        }
    }
}

/// One annotation: a name and an optional payload.
pub struct AutocxxBindgenAttribute {
    pub annotation_name: String,
    pub body: Option<Vec<Token>>,
}

impl View for AutocxxBindgenAttribute {
    type V = AnnotationV;

    open spec fn view(&self) -> AnnotationV {
        AnnotationV {
            name: self.annotation_name@,
            body: match self.body {
                Some(v) => Some(tokens_view(v@)),
                None => None,
            },
        }
    }
}

impl AutocxxBindgenAttribute {
    /// Whether this annotation is called `name`.
    pub fn is_ident(&self, name: &str) -> (r: bool)
        ensures
            r == (self@.name == name@),
    {
        str_eq(self.annotation_name.as_str(), name)
    }

    /// Reads the arguments of an annotation attribute.
    pub fn parse(t: &Vec<Token>) -> (r: Option<AutocxxBindgenAttribute>)
        ensures
            match r {
                Some(a) => parse_annotation(tokens_view(t@)) == Some(a@),
                None => parse_annotation(tokens_view(t@)) is None,
            },
    {
        proof {
            reveal_with_fuel(crate::tokens::tokens_view, 3);
        }
        if t.len() == 1 {
            assert(t@.drop_last().len() == 0);
            match &t[0] {
                Token::Ident(n) => Some(AutocxxBindgenAttribute { annotation_name: n.clone(), body: None }),
                _ => None,
            }
        } else if t.len() == 2 {
            assert(t@.drop_last().drop_last().len() == 0);
            match (&t[0], &t[1]) {
                (Token::Ident(n), Token::Group(Delim::Paren, b)) => {
                    let body = crate::tokens::copy_tokens(b);
                    Some(AutocxxBindgenAttribute { annotation_name: n.clone(), body: Some(body) })
                },
                _ => None,
            }
        } else {
            None
        }
    }
}

/// Whether some annotation is called `name`.
pub open spec fn anns_have(s: Seq<AnnotationV>, name: Seq<char>) -> bool {
    exists|i: int| 0 <= i < s.len() && (#[trigger] s[i]).name == name
}

/// Whether `i` is the first annotation called `name`.
pub open spec fn first_ann(s: Seq<AnnotationV>, name: Seq<char>, i: int) -> bool {
    &&& 0 <= i < s.len()
    &&& s[i].name == name
    &&& forall|k: int| 0 <= k < i ==> (#[trigger] s[k]).name != name
}

/// The payload of the first annotation called `name`, if there is one.
pub open spec fn first_ann_body(s: Seq<AnnotationV>, name: Seq<char>) -> Option<Option<Seq<TokenV>>> {
    if exists|i: int| first_ann(s, name, i) {
        Some(s[choose|i: int| first_ann(s, name, i)].body)
    } else {
        None
    }
}

/// The parameters that the annotations mark as passed by reference, each
/// once, in the order of their first mention.
pub open spec fn ref_params_of(s: Seq<AnnotationV>) -> Seq<Seq<char>>
    decreases s.len(),
{
    if s.len() == 0 {
        Seq::empty()
    } else {
        let prev = ref_params_of(s.drop_last());
        let a = s.last();
        if a.name == "arg_type_reference"@ {
            match a.body {
                Some(t) => match ident_of(t) {
                    Some(x) => if prev.contains(x) {
                        prev
                    } else {
                        prev.push(x)
                    },
                    None => prev,
                },
                None => prev,
            }
        } else {
            prev
        }
    }
}

/// Whether an annotation marks a parameter as passed by reference but its
/// payload is not one identifier.
pub open spec fn unreadable_ref_param(a: AnnotationV) -> bool {
    a.name == "arg_type_reference"@ && match a.body {
        Some(t) => ident_of(t) is None,
        None => true,
    }
}

/// Whether some by-reference parameter annotation cannot be read.
pub open spec fn has_unreadable_ref_param(s: Seq<AnnotationV>) -> bool {
    exists|i: int| 0 <= i < s.len() && unreadable_ref_param(#[trigger] s[i])
}

/// The attributes that are left once every annotation attribute is removed.
pub open spec fn kept_attrs(v: Seq<AttrV>) -> Seq<AttrV>
    decreases v.len(),
{
    if v.len() == 0 {
        Seq::empty()
    } else if is_annotation_attr(v.last()) {
        kept_attrs(v.drop_last())
    } else {
        kept_attrs(v.drop_last()).push(v.last())
    }
}

/// Whether an attribute's path ends in `bindgen_annotation`.
pub fn is_annotation_attribute(a: &Attribute) -> (r: bool)
    ensures
        r == is_annotation_attr(a@),
{
    let n = a.path.len();
    n > 0 && str_eq(a.path[n - 1].as_str(), "bindgen_annotation")
}

/// The set of annotations attached to one declaration, in order.
pub struct AutocxxBindgenAnnotations(pub Vec<AutocxxBindgenAttribute>);

impl View for AutocxxBindgenAnnotations {
    type V = Seq<AnnotationV>;

    open spec fn view(&self) -> Seq<AnnotationV> {
        self.0@.map_values(|a: AutocxxBindgenAttribute| a@)
    }
}

impl AutocxxBindgenAnnotations {
    /// Reads every annotation among the attributes; attributes that are not
    /// annotations, or do not read as one, are passed over.
    pub fn new(attrs: &Vec<Attribute>) -> (r: AutocxxBindgenAnnotations)
        ensures
            r@ == annotations_of(attrs_view(attrs@)),
    {
        let ghost v = attrs_view(attrs@);
        let mut out: Vec<AutocxxBindgenAttribute> = Vec::new();
        let mut i: usize = 0;
        while i < attrs.len()
            invariant
                v == attrs_view(attrs@),
                i <= attrs.len(),
                out@.map_values(|a: AutocxxBindgenAttribute| a@) == annotations_of(v.subrange(0, i as int)),
            decreases attrs.len() - i,
        {
            let ghost prev = out@;
            assert(v.subrange(0, i + 1).drop_last() =~= v.subrange(0, i as int));
            assert(v.subrange(0, i + 1).last() == v[i as int]);
            if is_annotation_attribute(&attrs[i]) {
                match &attrs[i].args {
                    Some(t) => match AutocxxBindgenAttribute::parse(t) {
                        Some(a) => {
                            out.push(a);
                            assert(out@.map_values(|a: AutocxxBindgenAttribute| a@) =~= prev.map_values(
                                |a: AutocxxBindgenAttribute| a@,
                            ).push(out@.last()@));
                        },
                        None => {},
                    },
                    None => {},
                }
            }
            i = i + 1;
        }
        assert(v.subrange(0, i as int) =~= v);
        AutocxxBindgenAnnotations(out)
    }

    /// The index of the first annotation called `name`.
    fn find(&self, name: &str) -> (r: Option<usize>)
        ensures
            match r {
                Some(i) => first_ann(self@, name@, i as int) && (i as int) < self.0@.len(),
                None => !anns_have(self@, name@),
            },
    {
        let mut i: usize = 0;
        while i < self.0.len()
            invariant
                i <= self.0.len(),
                forall|k: int| 0 <= k < i ==> (#[trigger] self@[k]).name != name@,
            decreases self.0.len() - i,
        {
            if self.0[i].is_ident(name) {
                return Some(i);
            }
            i = i + 1;
        }
        None
    }

    /// Whether an annotation called `attr_name` is present.
    pub fn has_attr(&self, attr_name: &str) -> (r: bool)
        ensures
            r == anns_have(self@, attr_name@),
    {
        self.find(attr_name).is_some()
    }

    /// The native visibility; public by default.
    pub fn get_cpp_visibility(&self) -> (r: CppVisibility)
        ensures
            r == visibility_from(
                anns_have(self@, "visibility_private"@),
                anns_have(self@, "visibility_protected"@),
            ),
    {
        if self.has_attr("visibility_private") {
            CppVisibility::Private
        } else if self.has_attr("visibility_protected") {
            CppVisibility::Protected
        } else {
            CppVisibility::Public
        }
    }

    /// Whether the item is virtual; not virtual by default.
    pub fn get_virtualness(&self) -> (r: Virtualness)
        ensures
            r == virtualness_from(anns_have(self@, "pure_virtual"@), anns_have(self@, "bindgen_virtual"@)),
    {
        if self.has_attr("pure_virtual") {
            Virtualness::PureVirtual
        } else if self.has_attr("bindgen_virtual") {
            Virtualness::Virtual
        } else {
            Virtualness::NonVirtual
        }
    }

    /// The payload of the first annotation called `annotation`.
    fn body_if_present(&self, annotation: &str) -> (r: Option<Option<&Vec<Token>>>)
        ensures
            match (r, first_ann_body(self@, annotation@)) {
                (None, None) => true,
                (Some(None), Some(None)) => true,
                (Some(Some(t)), Some(Some(b))) => tokens_view(t@) == b,
                _ => false,
            },
    {
        match self.find(annotation) {
            None => None,
            Some(i) => {
                proof {
                    let j = choose|j: int| first_ann(self@, annotation@, j);
                    if j < i {
                        assert(self@[j].name != annotation@);
                    } else if i < j {
                        assert(self@[i as int].name != annotation@);
                    }
                }
                match &self.0[i].body {
                    Some(t) => Some(Some(t)),
                    None => Some(None),
                }
            },
        }
    }

    /// The string literal of the first annotation called `annotation`.
    fn string_if_present(&self, annotation: &str) -> (r: Result<Option<String>, ConvertError>)
        ensures
            string_result_matches(r, string_outcome(first_ann_body(self@, annotation@)), annotation@),
    {
        match self.body_if_present(annotation) {
            None => Ok(None),
            Some(Some(t)) => match parse_lit_str(t) {
                Some(s) => Ok(Some(s)),
                None => Err(ConvertError::MalformedAnnotation(annotation.to_owned())),
            },
            Some(None) => Err(ConvertError::MalformedAnnotation(annotation.to_owned())),
        }
    }

    /// The in-memory layout of the item.
    pub fn get_layout(&self) -> (r: Result<Option<Layout>, ConvertError>)
        ensures
            layout_result_matches(r, layout_outcome(first_ann_body(self@, "layout"@)), "layout"@),
    {
        match self.body_if_present("layout") {
            None => Ok(None),
            Some(Some(t)) => match parse_layout_tokens(t) {
                Some(l) => Ok(Some(l)),
                None => Err(ConvertError::MalformedAnnotation("layout".to_owned())),
            },
            Some(None) => Err(ConvertError::MalformedAnnotation("layout".to_owned())),
        }
    }

    /// The native name, where the extractor changed it.
    pub fn get_original_name(&self) -> (r: Result<Option<String>, ConvertError>)
        ensures
            string_result_matches(r, string_outcome(first_ann_body(self@, "original_name"@)), "original_name"@),
    {
        self.string_if_present("original_name")
    }

    /// The special-member kind that the item is marked with.
    fn get_bindgen_special_member_annotation(&self) -> (r: Result<Option<String>, ConvertError>)
        ensures
            string_result_matches(r, string_outcome(first_ann_body(self@, "special_member"@)), "special_member"@),
    {
        self.string_if_present("special_member")
    }

    /// Whether this is a move constructor.
    pub fn is_move_constructor(&self) -> (r: Result<bool, ConvertError>)
        ensures
            match (r, string_outcome(first_ann_body(self@, "special_member"@))) {
                (Ok(b), Ok(None)) => !b,
                (Ok(b), Ok(Some(s))) => b == (s == "move_ctor"@),
                (Err(ConvertError::MalformedAnnotation(n)), Err(_)) => n@ == "special_member"@,
                _ => false,
            },
    {
        match self.get_bindgen_special_member_annotation() {
            Ok(Some(s)) => Ok(str_eq(s.as_str(), "move_ctor")),
            Ok(None) => Ok(false),
            Err(e) => Err(e),
        }
    }

    /// The parameters passed by reference, each once, and whether the return
    /// value is a reference; fails where a by-reference parameter annotation
    /// cannot be read.
    pub fn get_reference_parameters_and_return(&self) -> (r: Result<(Vec<String>, bool), ConvertError>)
        ensures
            match r {
                Ok((params, by_ref)) => !has_unreadable_ref_param(self@) && crate::names::texts(params@)
                    == ref_params_of(self@) && by_ref == anns_have(self@, "ret_type_reference"@),
                Err(ConvertError::MalformedAnnotation(n)) => has_unreadable_ref_param(self@) && n@
                    == "arg_type_reference"@,
                _ => false,
            },
    {
        let mut ref_params: Vec<String> = Vec::new();
        let mut ref_return = false;
        let mut i: usize = 0;
        while i < self.0.len()
            invariant
                i <= self.0.len(),
                crate::names::texts(ref_params@) == ref_params_of(self@.subrange(0, i as int)),
                ref_return == exists|k: int| 0 <= k < i && (#[trigger] self@[k]).name == "ret_type_reference"@,
                forall|k: int| 0 <= k < i ==> !unreadable_ref_param(#[trigger] self@[k]),
            decreases self.0.len() - i,
        {
            let ghost prev = ref_params@;
            assert(self@.subrange(0, i + 1).drop_last() =~= self@.subrange(0, i as int));
            assert(self@.subrange(0, i + 1).last() == self@[i as int]);
            let ghost before = ref_params_of(self@.subrange(0, i as int));
            let a = &self.0[i];
            assert(self@[i as int] == a@);
            proof {
                reveal_strlit("ret_type_reference");
                reveal_strlit("arg_type_reference");
                assert("ret_type_reference"@[0] != "arg_type_reference"@[0]);
            }
            if a.is_ident("ret_type_reference") {
                ref_return = true;
                assert(ref_params_of(self@.subrange(0, i + 1)) == before);
            } else if a.is_ident("arg_type_reference") {
                match &a.body {
                    Some(t) => match parse_ident(t) {
                        Some(x) => {
                            if !contains_text(&ref_params, &x) {
                                ref_params.push(x);
                                assert(crate::names::texts(ref_params@) =~= crate::names::texts(prev).push(
                                    ref_params@.last()@,
                                ));
                            }
                        },
                        None => {
                            return Err(ConvertError::MalformedAnnotation("arg_type_reference".to_owned()));
                        },
                    },
                    None => {
                        return Err(ConvertError::MalformedAnnotation("arg_type_reference".to_owned()));
                    },
                }
            } else {
                assert(ref_params_of(self@.subrange(0, i + 1)) == before);
            }
            i = i + 1;
        }
        assert(self@.subrange(0, i as int) =~= self@);
        Ok((ref_params, ref_return))
    }

    /// Checks the annotations of a declaration and removes every annotation
    /// attribute from its attributes; fails, naming the declaration and
    /// leaving the attributes as they were, where the declaration uses a
    /// template parameter that cannot be expressed.
    pub fn remove_bindgen_attrs(attrs: &mut Vec<Attribute>, id: String) -> (r: Result<(), ConvertErrorWithContext>)
        ensures
            anns_have(annotations_of(attrs_view(old(attrs)@)), "unused_template_param"@) ==> match r {
                Err(ConvertErrorWithContext(ConvertError::UnusedTemplateParam, Some(ErrorContext::Item(n)))) =>
                    n@ == id@ && *final(attrs) == *old(attrs),
                _ => false,
            },
            !anns_have(annotations_of(attrs_view(old(attrs)@)), "unused_template_param"@) ==> r is Ok
                && attrs_view(final(attrs)@) == kept_attrs(attrs_view(old(attrs)@)),
    {
        let annotations = Self::new(attrs);
        if annotations.has_attr("unused_template_param") {
            return Err(
                ConvertErrorWithContext(ConvertError::UnusedTemplateParam, Some(ErrorContext::Item(id))),
            );
        }
        let ghost v = attrs_view(attrs@);
        let total: usize = attrs.len();
        let ghost n = total as nat;
        let mut kept: Vec<Attribute> = Vec::new();
        let mut k: usize = 0;
        while attrs.len() > 0
            invariant
                k + attrs@.len() == n,
                attrs_view(attrs@) == v.skip(k as int),
                attrs_view(kept@) == kept_attrs(v.subrange(0, k as int)),
                n == v.len(),
                n <= usize::MAX,
            decreases attrs@.len(),
        {
            let ghost prev = kept@;
            let ghost rest = attrs@;
            let a = attrs.remove(0);
            assert(a@ == v[k as int]) by {
                assert(attrs_view(rest)[0] == v.skip(k as int)[0]);
            }
            assert(attrs@ =~= rest.subrange(1, rest.len() as int));
            assert(forall|j: int| 0 <= j < attrs@.len() ==> attrs_view(attrs@)[j] == attrs_view(rest)[j + 1]);
            assert(attrs_view(attrs@) =~= v.skip(k + 1));
            assert(v.subrange(0, k + 1).drop_last() =~= v.subrange(0, k as int));
            assert(v.subrange(0, k + 1).last() == v[k as int]);
            if !is_annotation_attribute(&a) {
                kept.push(a);
                assert(attrs_view(kept@) =~= attrs_view(prev).push(a@));
            }
            k = k + 1;
        }
        assert(v.subrange(0, k as int) =~= v);
        *attrs = kept;
        Ok(())
    }
}

} // verus!
