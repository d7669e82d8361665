use vstd::prelude::*;
use crate::literal::{is_ident, parse_ident};

verus! {

/// The type that the enumerated type converts to and from, by its source text:
/// one scalar type, or a tuple of element types.
#[derive(Clone, Debug, PartialEq, Eq)]
pub enum ValueType {
    Scalar(String),
    Tuple(Vec<String>),
}

/// The transformer's arguments: the value type and the fallback member's name.
#[derive(Clone, Debug, PartialEq, Eq)]
pub struct Args {
    pub data_type: ValueType,
    pub other_ident: String,
}

/// The fallback member's name where none is given.
pub open spec fn default_fallback() -> Seq<char> {
    seq!['O', 't', 'h', 'e', 'r']
}

/// The fallback member's name for an optional second argument.
pub open spec fn fallback_name(other_ident: Option<Seq<char>>) -> Seq<char> {
    match other_ident {
        Some(t) => if is_ident(t) { t } else { default_fallback() },
        None => default_fallback(),
    }
}

/// The fallback member's fields: one per tuple element, or the scalar type alone.
pub open spec fn field_types(ty: ValueType) -> Seq<String> {
    match ty {
        ValueType::Scalar(t) => seq![t],
        ValueType::Tuple(ts) => ts@,
    }
}

impl Args {
    /// Reads the arguments: the value type, and the text after the comma if
    /// there is one. That text names the fallback member where it is an
    /// identifier; otherwise the name is `Other`.
    pub fn parse(data_type: ValueType, other_ident: Option<&str>) -> (r: Args)
        ensures
            r.data_type == data_type,
            r.other_ident@ == fallback_name(
                match other_ident {
                    Some(t) => Some(t@),
                    None => None,
                },
            ),
    {
        let name = match other_ident {
            Some(t) => if parse_ident(t) {
                t.to_string()
            } else {
                Args::default_name()
            },
            None => Args::default_name(),
        };
        Args { data_type, other_ident: name }
    }

    fn default_name() -> (r: String)
        ensures
            r@ == default_fallback(),
    {
        let r = "Other".to_string();
        proof {
            reveal_strlit("Other");
            assert(r@ =~= default_fallback());
        }
        r
    }
}

/// The field types of the fallback member, in order.
pub fn fallback_fields(ty: &ValueType) -> (r: Vec<String>)
    ensures
        r@ == field_types(*ty),
{
    match ty {
        ValueType::Scalar(t) => {
            let mut r: Vec<String> = Vec::new();
            r.push(t.clone());
            proof {
                assert(r@ =~= seq![*t]);
            }
            r
        },
        ValueType::Tuple(ts) => {
            let mut r: Vec<String> = Vec::new();
            let mut i: usize = 0;
            while i < ts.len()
                invariant
                    i <= ts@.len(),
                    r@ == ts@.take(i as int),
                decreases ts@.len() - i,
            {
                r.push(ts[i].clone());
                i = i + 1;
                proof {
                    assert(r@ =~= ts@.take(i as int));
                }
            }
            proof {
                assert(ts@.take(i as int) =~= ts@);
            }
            r
        },
    }
}

} // verus!
