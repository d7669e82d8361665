use vstd::prelude::*;
use crate::decl::{Discriminant, Literal, Member};
use crate::literal::{int_literal_value, parse_int_literal};

verus! {

/// What a member's discriminant resolves to.
#[derive(Clone, Copy, Debug, PartialEq, Eq, Structural)]
pub enum Resolved {
    /// The member's own discriminant expression, used as written.
    Written,
    /// No discriminant was written: the running counter's value.
    Inferred(i128),
}

/// Why a declaration cannot be transformed.
#[derive(Clone, Copy, Debug, PartialEq, Eq, Structural)]
pub enum TransformError {
    /// The integer literal of the member at this index does not parse into an `isize`.
    MalformedDiscriminant { member: usize },
}

/// Whether the discriminant is a (possibly negated) integer literal.
pub open spec fn is_int_literal(d: Option<Discriminant>) -> bool {
    d matches Some(Discriminant::Lit(Literal::Int { .. }))
}

/// The value of an integer literal discriminant, sign applied; `None` where it
/// is no integer literal or does not parse.
pub open spec fn int_value(d: Option<Discriminant>) -> Option<int> {
    match d {
        Some(Discriminant::Lit(Literal::Int { negative, text })) => match int_literal_value(text@) {
            Some(v) => Some(if negative { -(v as int) } else { v as int }),
            None => None,
        },
        _ => None,
    }
}

/// The member's discriminant is no integer literal, or one that parses.
pub open spec fn parses(m: Member) -> bool {
    is_int_literal(m.discriminant) ==> int_value(m.discriminant) is Some
}

/// The running counter as it stands when member `i` is reached: 0 at the
/// start, set by each integer literal, and one more after each member.
pub open spec fn counter(ms: Seq<Member>, i: int) -> int
    decreases i,
{
    if i <= 0 {
        0
    } else {
        let prev = ms[i - 1].discriminant;
        (if is_int_literal(prev) { int_value(prev).unwrap() } else { counter(ms, i - 1) }) + 1
    }
}

/// What member `i` resolves to.
pub open spec fn resolved_at(ms: Seq<Member>, i: int) -> Resolved {
    if ms[i].discriminant is Some {
        Resolved::Written
    } else {
        Resolved::Inferred(counter(ms, i) as i128)
    }
}

/// The integer a member resolves to, where it resolves to one.
pub open spec fn resolved_int(ms: Seq<Member>, i: int) -> Option<int> {
    if ms[i].discriminant is None {
        Some(counter(ms, i))
    } else {
        int_value(ms[i].discriminant)
    }
}

/// Reads a discriminant as an integer: `Ok(Some(v))` for an integer literal,
/// `Ok(None)` for any other expression, and an error where the literal does not
/// parse into an `isize`.
pub fn parse_int_expr(d: &Discriminant) -> (r: Result<Option<i128>, ()>)
    ensures
        r is Err <==> (is_int_literal(Some(*d)) && int_value(Some(*d)) is None),
        r matches Ok(Some(v)) ==> is_int_literal(Some(*d)) && int_value(Some(*d)) == Some(v as int),
        r matches Ok(None) ==> !is_int_literal(Some(*d)),
{
    match d {
        Discriminant::Lit(Literal::Int { negative, text }) => match parse_int_literal(text.as_str()) {
            Some(v) => {
                let v = v as i128;
                Ok(Some(if *negative { -v } else { v }))
            },
            None => Err(()),
        },
        _ => Ok(None),
    }
}

/// Walks the members in order and resolves each discriminant. A member with
/// none written takes the running counter; an integer literal sets it; after
/// each member it goes up by one.
pub fn resolve_discriminants(members: &Vec<Member>) -> (r: Result<Vec<Resolved>, TransformError>)
    ensures
        match r {
            Ok(rs) => (forall|i: int| 0 <= i < members@.len() ==> parses(#[trigger] members@[i]))
                && rs@.len() == members@.len()
                && forall|i: int| 0 <= i < members@.len() ==> #[trigger] rs@[i] == resolved_at(members@, i),
            Err(TransformError::MalformedDiscriminant { member }) => member < members@.len()
                && !parses(members@[member as int])
                && forall|j: int| 0 <= j < member ==> parses(#[trigger] members@[j]),
        },
{
    let mut out: Vec<Resolved> = Vec::new();
    let mut curr: i128 = 0;
    let mut i: usize = 0;
    while i < members.len()
        invariant
            i <= members@.len(),
            out@.len() == i,
            curr == counter(members@, i as int),
            -0x8000_0000_0000_0000 <= curr <= 0x8000_0000_0000_0000 + i,
            forall|j: int| 0 <= j < i ==> parses(#[trigger] members@[j]),
            forall|j: int| 0 <= j < i ==> #[trigger] out@[j] == resolved_at(members@, j),
        decreases members@.len() - i,
    {
        let m = &members[i];
        let res = match &m.discriminant {
            Some(d) => {
                match parse_int_expr(d) {
                    Ok(Some(v)) => {
                        curr = v;
                    },
                    Ok(None) => {},
                    Err(()) => {
                        return Err(TransformError::MalformedDiscriminant { member: i });
                    },
                }
                Resolved::Written
            },
            None => Resolved::Inferred(curr),
        };
        out.push(res);
        curr = curr + 1;
        i = i + 1;
    }
    Ok(out)
}

} // verus!

verus! {

/// A member written without a discriminant resolves to the integer that the
/// member before it resolves to, plus one; at the start it resolves to 0.
pub proof fn lemma_inference(ms: Seq<Member>, i: int)
    requires
        0 <= i < ms.len(),
        ms[i].discriminant is None,
    ensures
        i == 0 ==> resolved_int(ms, i) == Some(0int) && resolved_at(ms, i) == Resolved::Inferred(0),
        i > 0 && resolved_int(ms, i - 1) is Some ==> {
            &&& resolved_int(ms, i) == Some(resolved_int(ms, i - 1).unwrap() + 1)
            &&& resolved_at(ms, i) == Resolved::Inferred((resolved_int(ms, i - 1).unwrap() + 1) as i128)
        },
{
}

} // verus!
