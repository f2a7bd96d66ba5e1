//! The token model of the metadata that decorates a declaration.
use vstd::prelude::*;

verus! {

broadcast use vstd::std_specs::vec::group_vec_axioms;

/// The delimiter of a token group.
#[derive(Clone, Copy, Debug, PartialEq, Eq, Structural)]
pub enum Delim {
    Paren,
    Bracket,
    Brace,
    /// A group without visible delimiters.
    Invisible,
}

/// One token of an attribute's arguments.
#[derive(Debug)]
pub enum Token {
    Ident(String),
    Str(String),
    Int(u64),
    Bool(bool),
    Punct(char),
    /// A delimited group.
    Group(Delim, Vec<Token>),
}

/// The view of a token.
pub enum TokenV {
    Ident(Seq<char>),
    Str(Seq<char>),
    Int(u64),
    Bool(bool),
    Punct(char),
    Group(Delim, Seq<TokenV>),
}

/// The view of one token.
pub open spec fn token_view(t: Token) -> TokenV
    decreases t,
{
    match t {
        Token::Ident(s) => TokenV::Ident(s@),
        Token::Str(s) => TokenV::Str(s@),
        Token::Int(n) => TokenV::Int(n),
        Token::Bool(b) => TokenV::Bool(b),
        Token::Punct(c) => TokenV::Punct(c),
        Token::Group(d, v) => TokenV::Group(d, tokens_view(v@)),
    }
}

/// The view of a sequence of tokens.
pub open spec fn tokens_view(s: Seq<Token>) -> Seq<TokenV>
    decreases s,
{
    if s.len() == 0 {
        Seq::empty()
    } else {
        tokens_view(s.drop_last()).push(token_view(s.last()))
    }
}

impl View for Token {
    type V = TokenV;

    open spec fn view(&self) -> TokenV {
        token_view(*self)
    }
}

/// An attribute attached to a declaration: its path, and the tokens inside
/// its parentheses when it has any.
#[derive(Debug)]
pub struct Attribute {
    pub path: Vec<String>,
    pub args: Option<Vec<Token>>,
}

/// The view of an attribute.
pub struct AttrV {
    pub path: Seq<Seq<char>>,
    pub args: Option<Seq<TokenV>>,
}

impl View for Attribute {
    type V = AttrV;

    open spec fn view(&self) -> AttrV {
        AttrV {
            path: crate::names::texts(self.path@),
            args: match self.args {
                Some(v) => Some(tokens_view(v@)),
                None => None,
            },
        }
    }
}

/// The view of a list of attributes.
pub open spec fn attrs_view(s: Seq<Attribute>) -> Seq<AttrV> {
    s.map_values(|a: Attribute| a@)
}

/// The text of a string-literal payload: exactly one string literal.
pub open spec fn lit_str_of(t: Seq<TokenV>) -> Option<Seq<char>> {
    if t.len() == 1 {
        match t[0] {
            TokenV::Str(s) => Some(s),
            _ => None,
        }
    } else {
        None
    }
}

/// The identifier of an identifier payload: exactly one identifier.
pub open spec fn ident_of(t: Seq<TokenV>) -> Option<Seq<char>> {
    if t.len() == 1 {
        match t[0] {
            TokenV::Ident(s) => Some(s),
            _ => None,
        }
    } else {
        None
    }
}

/// Reads a payload that is exactly one string literal.
pub fn parse_lit_str(t: &Vec<Token>) -> (r: Option<String>)
    ensures
        match r {
            Some(s) => lit_str_of(tokens_view(t@)) == Some(s@),
            None => lit_str_of(tokens_view(t@)) is None,
        },
{
    proof {
        reveal_with_fuel(tokens_view, 2);
    }
    if t.len() == 1 {
        assert(t@.drop_last().len() == 0);
        match &t[0] {
            Token::Str(s) => Some(s.clone()),
            _ => None,
        }
    } else {
        None
    }
}

/// Reads a payload that is exactly one identifier.
pub fn parse_ident(t: &Vec<Token>) -> (r: Option<String>)
    ensures
        match r {
            Some(s) => ident_of(tokens_view(t@)) == Some(s@),
            None => ident_of(tokens_view(t@)) is None,
        },
{
    proof {
        reveal_with_fuel(tokens_view, 2);
    }
    if t.len() == 1 {
        assert(t@.drop_last().len() == 0);
        match &t[0] {
            Token::Ident(s) => Some(s.clone()),
            _ => None,
        }
    } else {
        None
    }
}

/// A deep copy of a token.
pub fn copy_token(t: &Token) -> (r: Token)
    ensures
        r@ == t@,
    decreases t,
{
    match t {
        Token::Ident(s) => Token::Ident(s.clone()),
        Token::Str(s) => Token::Str(s.clone()),
        Token::Int(n) => Token::Int(*n),
        Token::Bool(b) => Token::Bool(*b),
        Token::Punct(c) => Token::Punct(*c),
        Token::Group(d, v) => Token::Group(*d, copy_tokens(v)),
    }
}

/// A deep copy of a list of tokens.
pub fn copy_tokens(v: &Vec<Token>) -> (r: Vec<Token>)
    ensures
        tokens_view(r@) == tokens_view(v@),
    decreases v,
{
    let mut r: Vec<Token> = Vec::new();
    let mut i: usize = 0;
    while i < v.len()
        invariant
            i <= v.len(),
            r@.len() == i,
            tokens_view(r@) == tokens_view(v@.subrange(0, i as int)),
        decreases v.len() - i,
    {
        let t = copy_token(&v[i]);
        let ghost prev = r@;
        r.push(t);
        assert(r@.drop_last() =~= prev);
        assert(v@.subrange(0, i + 1).drop_last() =~= v@.subrange(0, i as int));
        assert(r@.last() == t);
        assert(v@.subrange(0, i + 1).last() == v@[i as int]);
        assert(tokens_view(r@) == tokens_view(r@.drop_last()).push(token_view(t)));
        assert(tokens_view(v@.subrange(0, i + 1)) == tokens_view(v@.subrange(0, i as int)).push(
            token_view(v@[i as int]),
        ));
        i = i + 1;
    }
    assert(v@.subrange(0, i as int) =~= v@);
    r
}

/// An in-memory layout: size, alignment and whether it is packed.
#[derive(Clone, Copy, Debug, PartialEq, Eq, Structural)]
pub struct Layout {
    pub size: u64,
    pub align: u64,
    pub packed: bool,
}

/// A layout payload: `size, align, packed`.
pub open spec fn layout_of(t: Seq<TokenV>) -> Option<Layout> {
    if t.len() == 5 {
        match (t[0], t[1], t[2], t[3], t[4]) {
            (TokenV::Int(size), TokenV::Punct(',' ), TokenV::Int(align), TokenV::Punct(','), TokenV::Bool(packed)) =>
                Some(Layout { size, align, packed }),
            _ => None,
        }
    } else {
        None
    }
}

/// Reads a layout payload.
pub fn parse_layout_tokens(t: &Vec<Token>) -> (r: Option<Layout>)
    ensures
        r == layout_of(tokens_view(t@)),
{
    proof {
        reveal_with_fuel(tokens_view, 6);
    }
    if t.len() != 5 {
        return None;
    }
    assert(t@.drop_last().drop_last().drop_last().drop_last().drop_last().len() == 0);
    match (&t[0], &t[1], &t[2], &t[3], &t[4]) {
        (Token::Int(size), Token::Punct(c1), Token::Int(align), Token::Punct(c2), Token::Bool(packed)) => {
            if *c1 == ',' && *c2 == ',' {
                Some(Layout { size: *size, align: *align, packed: *packed })
            } else {
                None
            }
        },
        _ => None,
    }
}

} // verus!
