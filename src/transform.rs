use vstd::prelude::*;
use crate::decl::{Discriminant, EnumDecl, Literal, Member};
use crate::resolve::{parses, resolve_discriminants, resolved_at, Resolved, TransformError};
use crate::shape::{fallback_fields, field_types, Args, ValueType};

verus! {

/// The transformed declaration: the members with their discriminants taken
/// off, the fallback member appended after them, and what the two conversions
/// are built from.
#[derive(Clone, Debug, PartialEq, Eq)]
pub struct Transformed {
    /// The enumerated type's name.
    pub name: String,
    /// The declared members' names, in order.
    pub members: Vec<String>,
    /// The fallback member's name.
    pub fallback: String,
    /// The fallback member's field types, in order.
    pub fallback_fields: Vec<String>,
    /// Whether the value type is a tuple, whose elements the fallback
    /// member holds one per field.
    pub tuple: bool,
    /// One resolved discriminant per declared member.
    pub resolved: Vec<Resolved>,
    /// Whether the first member's discriminant is a string literal, which
    /// makes both conversions go through text.
    pub textual: bool,
}

/// Whether the declaration's first discriminant is a string literal.
pub open spec fn first_is_text(ms: Seq<Member>) -> bool {
    ms.len() > 0 && ms[0].discriminant matches Some(Discriminant::Lit(Literal::Str(_)))
}

/// What `other` returns for the arguments and the declaration.
pub open spec fn transform_post(args: Args, decl: EnumDecl, r: Result<Transformed, TransformError>) -> bool {
    let ms = decl.members@;
    match r {
        Ok(t) => {
            &&& forall|i: int| 0 <= i < ms.len() ==> parses(#[trigger] ms[i])
            &&& t.name == decl.name
            &&& t.members@.len() == ms.len()
            &&& forall|i: int| 0 <= i < ms.len() ==> #[trigger] t.members@[i] == ms[i].name
            &&& t.fallback == args.other_ident
            &&& t.fallback_fields@ == field_types(args.data_type)
            &&& t.tuple == args.data_type is Tuple
            &&& t.resolved@.len() == ms.len()
            &&& forall|i: int| 0 <= i < ms.len() ==> #[trigger] t.resolved@[i] == resolved_at(ms, i)
            &&& t.textual == first_is_text(ms)
        },
        Err(TransformError::MalformedDiscriminant { member }) => {
            &&& member < ms.len()
            &&& !parses(ms[member as int])
            &&& forall|j: int| 0 <= j < member ==> parses(#[trigger] ms[j])
        },
    }
}

/// Two results that carry the same text, members, shape and discriminants.
pub open spec fn same_result(a: Result<Transformed, TransformError>, b: Result<Transformed, TransformError>) -> bool {
    match (a, b) {
        (Ok(x), Ok(y)) => {
            &&& x.name@ == y.name@
            &&& x.members@.map_values(|s: String| s@) == y.members@.map_values(|s: String| s@)
            &&& x.fallback@ == y.fallback@
            &&& x.fallback_fields@.map_values(|s: String| s@) == y.fallback_fields@.map_values(|s: String| s@)
            &&& x.tuple == y.tuple
            &&& x.resolved@ == y.resolved@
            &&& x.textual == y.textual
        },
        (Err(x), Err(y)) => x == y,
        _ => false,
    }
}

/// Transforms an enumerated-type declaration: resolves each member's
/// discriminant, takes the discriminants off, and appends the fallback member,
/// whose fields follow the value type. Fails where an integer literal
/// discriminant does not parse into an `isize`.
pub fn other(args: &Args, decl: &EnumDecl) -> (r: Result<Transformed, TransformError>)
    ensures
        transform_post(*args, *decl, r),
{
    let resolved = match resolve_discriminants(&decl.members) {
        Ok(rs) => rs,
        Err(e) => {
            return Err(e);
        },
    };
    let mut members: Vec<String> = Vec::new();
    let mut i: usize = 0;
    while i < decl.members.len()
        invariant
            i <= decl.members@.len(),
            members@.len() == i,
            forall|j: int| 0 <= j < i ==> #[trigger] members@[j] == decl.members@[j].name,
        decreases decl.members@.len() - i,
    {
        members.push(decl.members[i].name.clone());
        i = i + 1;
    }
    let textual = decl.members.len() > 0 && match &decl.members[0].discriminant {
        Some(Discriminant::Lit(Literal::Str(_))) => true,
        _ => false,
    };
    Ok(Transformed {
        name: decl.name.clone(),
        members,
        fallback: args.other_ident.clone(),
        fallback_fields: fallback_fields(&args.data_type),
        tuple: match &args.data_type {
            ValueType::Tuple(_) => true,
            ValueType::Scalar(_) => false,
        },
        resolved,
        textual,
    })
}

/// Transforming the same declaration with the same arguments twice gives the
/// same result.
pub proof fn lemma_same_transform(
    args: Args,
    decl: EnumDecl,
    a: Result<Transformed, TransformError>,
    b: Result<Transformed, TransformError>,
)
    requires
        transform_post(args, decl, a),
        transform_post(args, decl, b),
    ensures
        same_result(a, b),
{
    let ms = decl.members@;
    match (a, b) {
        (Ok(x), Ok(y)) => {
            assert(x.members@ =~= y.members@);
            assert(x.resolved@ =~= y.resolved@);
        },
        (Err(TransformError::MalformedDiscriminant { member: m }), Err(TransformError::MalformedDiscriminant { member: n })) => {
            if m < n {
                assert(parses(ms[m as int]));
            } else if n < m {
                assert(parses(ms[n as int]));
            }
        },
        (Ok(x), Err(TransformError::MalformedDiscriminant { member: n })) => {
            assert(parses(ms[n as int]));
        },
        (Err(TransformError::MalformedDiscriminant { member: m }), Ok(y)) => {
            assert(parses(ms[m as int]));
        },
    }
}

} // verus!
