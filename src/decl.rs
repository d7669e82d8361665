use vstd::prelude::*;

verus! {

/// A literal as written in a discriminant.
#[derive(Clone, Debug, PartialEq, Eq)]
pub enum Literal {
    /// An integer literal, with its text as written (digits and any suffix)
    /// and whether a unary minus stands before it.
    Int { negative: bool, text: String },
    /// A string literal, by its value.
    Str(String),
}

/// The discriminant expression written after a member's `=`.
#[derive(Clone, Debug, PartialEq, Eq)]
pub enum Discriminant {
    Lit(Literal),
    /// A tuple of literals, such as `(255, 0, 255)`.
    Tuple(Vec<Literal>),
    /// Any other expression, by its source text; it is carried through as written.
    Expr(String),
}

/// One member of the enumerated type.
#[derive(Clone, Debug, PartialEq, Eq)]
pub struct Member {
    pub name: String,
    pub discriminant: Option<Discriminant>,
}

/// An enumerated-type declaration: its name and its members in order.
#[derive(Clone, Debug, PartialEq, Eq)]
pub struct EnumDecl {
    pub name: String,
    pub members: Vec<Member>,
}

impl Member {
    /// A member whose discriminant is left to inference.
    pub fn plain(name: &str) -> (r: Member)
        ensures
            r.name@ == name@,
            r.discriminant is None,
    {
        Member { name: name.to_string(), discriminant: None }
    }

    /// A member with an explicit discriminant.
    pub fn with(name: &str, d: Discriminant) -> (r: Member)
        ensures
            r.name@ == name@,
            r.discriminant == Some(d),
    {
        Member { name: name.to_string(), discriminant: Some(d) }
    }
}

impl Discriminant {
    /// An integer literal discriminant: its magnitude's text, and its sign.
    pub fn integer(text: &str, negative: bool) -> (r: Discriminant)
        ensures
            r matches Discriminant::Lit(Literal::Int { negative: n, text: t }) && n == negative
                && t@ == text@,
    {
        Discriminant::Lit(Literal::Int { negative, text: text.to_string() })
    }

    /// A string literal discriminant.
    pub fn text(value: &str) -> (r: Discriminant)
        ensures
            r matches Discriminant::Lit(Literal::Str(s)) && s@ == value@,
    {
        Discriminant::Lit(Literal::Str(value.to_string()))
    }
}

} // verus!
