use vstd::prelude::*;
use crate::decl::{Discriminant, EnumDecl, Literal};
use crate::literal::parse_int_literal;
use crate::resolve::{int_value, Resolved};
use crate::transform::Transformed;

verus! {

/// One scalar of the value type: an integer or a text.
#[derive(Clone, Debug, PartialEq, Eq)]
pub enum Scalar {
    Int(i128),
    Text(String),
}

/// A value of the value type: one scalar, or a tuple of them.
#[derive(Clone, Debug, PartialEq, Eq)]
pub enum Value {
    Single(Scalar),
    Tuple(Vec<Scalar>),
}

/// A value of the transformed enumerated type: a declared member, by its
/// index, or the fallback member with its fields.
#[derive(Clone, Debug, PartialEq, Eq)]
pub enum Variant {
    Member(usize),
    Fallback(Vec<Scalar>),
}

pub enum ScalarModel {
    Int(int),
    Text(Seq<char>),
}

pub enum ValueModel {
    Single(ScalarModel),
    Tuple(Seq<ScalarModel>),
}

pub enum VariantModel {
    Member(int),
    Fallback(Seq<ScalarModel>),
}

pub open spec fn scalars(v: Seq<Scalar>) -> Seq<ScalarModel> {
    v.map_values(|s: Scalar| s@)
}

impl View for Scalar {
    type V = ScalarModel;

    open spec fn view(&self) -> ScalarModel {
        match self {
            Scalar::Int(n) => ScalarModel::Int(*n as int),
            Scalar::Text(s) => ScalarModel::Text(s@),
        }
    }
}

impl View for Value {
    type V = ValueModel;

    open spec fn view(&self) -> ValueModel {
        match self {
            Value::Single(s) => ValueModel::Single(s@),
            Value::Tuple(v) => ValueModel::Tuple(scalars(v@)),
        }
    }
}

impl View for Variant {
    type V = VariantModel;

    open spec fn view(&self) -> VariantModel {
        match self {
            Variant::Member(i) => VariantModel::Member(*i as int),
            Variant::Fallback(v) => VariantModel::Fallback(scalars(v@)),
        }
    }
}

/// The fallback member's fields for a value: the scalar alone, or the
/// tuple's elements in order.
pub open spec fn fields_of(v: ValueModel) -> Seq<ScalarModel> {
    match v {
        ValueModel::Single(s) => seq![s],
        ValueModel::Tuple(es) => es,
    }
}

/// The value that the fallback member's fields stand for.
pub open spec fn value_of_fields(tuple: bool, fs: Seq<ScalarModel>) -> ValueModel {
    if tuple {
        ValueModel::Tuple(fs)
    } else {
        ValueModel::Single(fs[0])
    }
}

/// The value of a literal, where an integer literal parses.
pub open spec fn literal_model(l: Literal) -> Option<ScalarModel> {
    match l {
        Literal::Int { .. } => match int_value(Some(Discriminant::Lit(l))) {
            Some(v) => Some(ScalarModel::Int(v)),
            None => None,
        },
        Literal::Str(s) => Some(ScalarModel::Text(s@)),
    }
}

/// Whether each literal of the sequence has a value.
pub open spec fn literals_evaluate(ls: Seq<Literal>) -> bool {
    forall|i: int| 0 <= i < ls.len() ==> (#[trigger] literal_model(ls[i])) is Some
}

/// The value of a discriminant made of literals; `None` for any other
/// expression.
pub open spec fn discriminant_model(d: Discriminant) -> Option<ValueModel> {
    match d {
        Discriminant::Lit(l) => match literal_model(l) {
            Some(s) => Some(ValueModel::Single(s)),
            None => None,
        },
        Discriminant::Tuple(ls) => if literals_evaluate(ls@) {
            Some(ValueModel::Tuple(ls@.map_values(|l: Literal| literal_model(l).unwrap())))
        } else {
            None
        },
        Discriminant::Expr(_) => None,
    }
}

/// The value that member `i` of the declaration stands for after resolution.
pub open spec fn member_value(decl: EnumDecl, resolved: Seq<Resolved>, i: int) -> Option<ValueModel> {
    match resolved[i] {
        Resolved::Inferred(n) => Some(ValueModel::Single(ScalarModel::Int(n as int))),
        Resolved::Written => match decl.members@[i].discriminant {
            Some(d) => discriminant_model(d),
            None => None,
        },
    }
}

fn literal_value(l: &Literal) -> (r: Option<Scalar>)
    ensures
        match r {
            Some(s) => literal_model(*l) == Some(s@),
            None => literal_model(*l) is None,
        },
{
    match l {
        Literal::Int { negative, text } => match parse_int_literal(text.as_str()) {
            Some(v) => {
                let v = v as i128;
                Some(Scalar::Int(if *negative { -v } else { v }))
            },
            None => None,
        },
        Literal::Str(s) => Some(Scalar::Text(s.clone())),
    }
}

/// Evaluates a discriminant made of literals to its value; `None` for any
/// other expression, or an integer literal that does not parse.
pub fn discriminant_value(d: &Discriminant) -> (r: Option<Value>)
    ensures
        match r {
            Some(v) => discriminant_model(*d) == Some(v@),
            None => discriminant_model(*d) is None,
        },
{
    match d {
        Discriminant::Lit(l) => match literal_value(l) {
            Some(s) => Some(Value::Single(s)),
            None => None,
        },
        Discriminant::Tuple(ls) => {
            let mut out: Vec<Scalar> = Vec::new();
            let mut i: usize = 0;
            while i < ls.len()
                invariant
                    *d == Discriminant::Tuple(*ls),
                    i <= ls@.len(),
                    out@.len() == i,
                    forall|j: int| 0 <= j < i ==> (#[trigger] literal_model(ls@[j])) is Some,
                    forall|j: int| 0 <= j < i ==> Some((#[trigger] out@[j])@) == literal_model(ls@[j]),
                decreases ls@.len() - i,
            {
                match literal_value(&ls[i]) {
                    Some(s) => out.push(s),
                    None => {
                        proof {
                            assert(literal_model(ls@[i as int]) is None);
                            assert(!literals_evaluate(ls@));
                        }
                        return None;
                    },
                }
                i = i + 1;
            }
            proof {
                assert(scalars(out@) =~= ls@.map_values(|l: Literal| literal_model(l).unwrap()));
            }
            Some(Value::Tuple(out))
        },
        Discriminant::Expr(_) => None,
    }
}

} // verus!

verus! {

/// The two conversions of a transformed declaration whose discriminants all
/// have values: one value per declared member, in order, and whether the value
/// type is a tuple.
#[derive(Clone, Debug, PartialEq, Eq)]
pub struct Conversions {
    pub values: Vec<Value>,
    pub tuple: bool,
}

/// The index of the first value from `start` on that equals `v`.
pub open spec fn find(vals: Seq<ValueModel>, v: ValueModel, start: int) -> Option<int>
    decreases vals.len() - start,
{
    if start < 0 || start >= vals.len() {
        None
    } else if vals[start] == v {
        Some(start)
    } else {
        find(vals, v, start + 1)
    }
}

/// Value to enum: the first member whose discriminant equals the value, else
/// the fallback member holding the value.
pub open spec fn decode(vals: Seq<ValueModel>, v: ValueModel) -> VariantModel {
    match find(vals, v, 0) {
        Some(i) => VariantModel::Member(i),
        None => VariantModel::Fallback(fields_of(v)),
    }
}

/// Enum to value: a member's discriminant, or the value the fallback
/// member's fields stand for.
pub open spec fn encode(vals: Seq<ValueModel>, tuple: bool, x: VariantModel) -> ValueModel {
    match x {
        VariantModel::Member(i) => vals[i],
        VariantModel::Fallback(fs) => value_of_fields(tuple, fs),
    }
}

impl Conversions {
    /// The members' discriminant values.
    pub open spec fn models(&self) -> Seq<ValueModel> {
        self.values@.map_values(|v: Value| v@)
    }

    /// A value of the value type's shape: a tuple for a tuple type, a single
    /// scalar otherwise.
    pub open spec fn admits(&self, v: ValueModel) -> bool {
        if self.tuple {
            v is Tuple
        } else {
            v is Single
        }
    }

    /// A value of the enumerated type: a member that exists, or a fallback
    /// with one field for a scalar value type.
    pub open spec fn holds(&self, x: VariantModel) -> bool {
        match x {
            VariantModel::Member(i) => 0 <= i < self.values@.len(),
            VariantModel::Fallback(fs) => self.tuple || fs.len() == 1,
        }
    }

    /// Converts a value to the enumerated type. The first member whose
    /// discriminant equals it wins; a value that equals none goes to the
    /// fallback member.
    pub fn from_value(&self, v: &Value) -> (r: Variant)
        ensures
            r@ == decode(self.models(), v@),
    {
        let mut i: usize = 0;
        while i < self.values.len()
            invariant
                i <= self.values@.len(),
                find(self.models(), v@, 0) == find(self.models(), v@, i as int),
            decreases self.values@.len() - i,
        {
            if value_eq(&self.values[i], v) {
                return Variant::Member(i);
            }
            i = i + 1;
        }
        let fs = value_fields(v);
        Variant::Fallback(fs)
    }

    /// Converts a value of the enumerated type to the value type.
    pub fn to_value(&self, x: &Variant) -> (r: Value)
        requires
            self.holds(x@),
        ensures
            r@ == encode(self.models(), self.tuple, x@),
    {
        match x {
            Variant::Member(i) => clone_value(&self.values[*i]),
            Variant::Fallback(fs) => {
                if self.tuple {
                    let v = clone_scalars(fs);
                    Value::Tuple(v)
                } else {
                    Value::Single(clone_scalar(&fs[0]))
                }
            },
        }
    }
}

fn scalar_eq(a: &Scalar, b: &Scalar) -> (r: bool)
    ensures
        r == (a@ == b@),
{
    match (a, b) {
        (Scalar::Int(x), Scalar::Int(y)) => *x == *y,
        (Scalar::Text(x), Scalar::Text(y)) => *x == *y,
        _ => false,
    }
}

fn value_eq(a: &Value, b: &Value) -> (r: bool)
    ensures
        r == (a@ == b@),
{
    match (a, b) {
        (Value::Single(x), Value::Single(y)) => scalar_eq(x, y),
        (Value::Tuple(xs), Value::Tuple(ys)) => {
            if xs.len() != ys.len() {
                proof {
                    assert(scalars(xs@).len() != scalars(ys@).len());
                }
                return false;
            }
            let mut i: usize = 0;
            while i < xs.len()
                invariant
                    *a == Value::Tuple(*xs),
                    *b == Value::Tuple(*ys),
                    xs@.len() == ys@.len(),
                    i <= xs@.len(),
                    forall|j: int| 0 <= j < i ==> (#[trigger] xs@[j])@ == ys@[j]@,
                decreases xs@.len() - i,
            {
                if !scalar_eq(&xs[i], &ys[i]) {
                    proof {
                        assert(scalars(xs@)[i as int] != scalars(ys@)[i as int]);
                    }
                    return false;
                }
                i = i + 1;
            }
            proof {
                assert(scalars(xs@) =~= scalars(ys@));
            }
            true
        },
        _ => false,
    }
}

fn clone_scalar(s: &Scalar) -> (r: Scalar)
    ensures
        r@ == s@,
{
    match s {
        Scalar::Int(n) => Scalar::Int(*n),
        Scalar::Text(t) => Scalar::Text(t.clone()),
    }
}

fn clone_scalars(v: &Vec<Scalar>) -> (r: Vec<Scalar>)
    ensures
        scalars(r@) == scalars(v@),
{
    let mut out: Vec<Scalar> = Vec::new();
    let mut i: usize = 0;
    while i < v.len()
        invariant
            i <= v@.len(),
            out@.len() == i,
            forall|j: int| 0 <= j < i ==> (#[trigger] out@[j])@ == v@[j]@,
        decreases v@.len() - i,
    {
        out.push(clone_scalar(&v[i]));
        i = i + 1;
    }
    proof {
        assert(scalars(out@) =~= scalars(v@));
    }
    out
}

fn clone_value(v: &Value) -> (r: Value)
    ensures
        r@ == v@,
{
    match v {
        Value::Single(s) => Value::Single(clone_scalar(s)),
        Value::Tuple(es) => Value::Tuple(clone_scalars(es)),
    }
}

/// The fallback member's fields for a value.
fn value_fields(v: &Value) -> (r: Vec<Scalar>)
    ensures
        scalars(r@) == fields_of(v@),
{
    match v {
        Value::Single(s) => {
            let mut out: Vec<Scalar> = Vec::new();
            out.push(clone_scalar(s));
            proof {
                assert(scalars(out@) =~= seq![s@]);
            }
            out
        },
        Value::Tuple(es) => clone_scalars(es),
    }
}

} // verus!

verus! {

/// Whether every member of the declaration has a value after resolution.
pub open spec fn all_evaluate(decl: EnumDecl, resolved: Seq<Resolved>) -> bool {
    forall|i: int| 0 <= i < resolved.len() ==> (#[trigger] member_value(decl, resolved, i)) is Some
}

/// Builds the conversions of a transformed declaration from the values of
/// its resolved discriminants; `None` where a discriminant is an expression
/// other than literals, whose value is not known here.
pub fn conversions(decl: &EnumDecl, t: &Transformed) -> (r: Option<Conversions>)
    requires
        t.resolved@.len() == decl.members@.len(),
    ensures
        r is Some <==> all_evaluate(*decl, t.resolved@),
        r matches Some(c) ==> {
            &&& c.tuple == t.tuple
            &&& c.values@.len() == t.resolved@.len()
            &&& forall|i: int| 0 <= i < c.values@.len()
                ==> Some(#[trigger] c.models()[i]) == member_value(*decl, t.resolved@, i)
        },
{
    let mut values: Vec<Value> = Vec::new();
    let mut i: usize = 0;
    while i < t.resolved.len()
        invariant
            t.resolved@.len() == decl.members@.len(),
            i <= t.resolved@.len(),
            values@.len() == i,
            forall|j: int| 0 <= j < i ==> (#[trigger] member_value(*decl, t.resolved@, j)) is Some,
            forall|j: int| 0 <= j < i ==> Some((#[trigger] values@[j])@) == member_value(*decl, t.resolved@, j),
        decreases t.resolved@.len() - i,
    {
        let v = match t.resolved[i] {
            Resolved::Inferred(n) => Some(Value::Single(Scalar::Int(n))),
            Resolved::Written => match &decl.members[i].discriminant {
                Some(d) => discriminant_value(d),
                None => None,
            },
        };
        match v {
            Some(v) => values.push(v),
            None => {
                proof {
                    assert(member_value(*decl, t.resolved@, i as int) is None);
                }
                return None;
            },
        }
        i = i + 1;
    }
    let c = Conversions { values, tuple: t.tuple };
    proof {
        assert forall|j: int| 0 <= j < c.values@.len() implies Some(
            #[trigger] c.models()[j],
        ) == member_value(*decl, t.resolved@, j) by {
            assert(c.models()[j] == c.values@[j]@);
        }
    }
    Some(c)
}

proof fn lemma_find_first(vals: Seq<ValueModel>, i: int, start: int)
    requires
        0 <= start <= i < vals.len(),
        forall|j: int| 0 <= j < i ==> vals[j] != vals[i],
    ensures
        find(vals, vals[i], start) == Some(i),
    decreases i - start,
{
    if start < i {
        lemma_find_first(vals, i, start + 1);
    }
}

proof fn lemma_find_none(vals: Seq<ValueModel>, v: ValueModel, start: int)
    requires
        0 <= start,
        forall|j: int| 0 <= j < vals.len() ==> vals[j] != v,
    ensures
        find(vals, v, start) is None,
    decreases vals.len() - start,
{
    if start < vals.len() {
        lemma_find_none(vals, v, start + 1);
    }
}

/// A member whose discriminant no earlier member shares converts to its
/// discriminant, and its discriminant converts back to that member.
pub proof fn lemma_round_trip(c: Conversions, i: int)
    requires
        0 <= i < c.values@.len(),
        forall|j: int| 0 <= j < i ==> c.models()[j] != c.models()[i],
    ensures
        decode(c.models(), c.models()[i]) == VariantModel::Member(i),
        encode(c.models(), c.tuple, VariantModel::Member(i)) == c.models()[i],
{
    lemma_find_first(c.models(), i, 0);
}

/// A value of the value type's shape that equals no member's discriminant
/// converts to the fallback member holding its fields, and those fields
/// convert back to the same value.
pub proof fn lemma_fallback(c: Conversions, v: ValueModel)
    requires
        c.admits(v),
        forall|j: int| 0 <= j < c.values@.len() ==> c.models()[j] != v,
    ensures
        decode(c.models(), v) == VariantModel::Fallback(fields_of(v)),
        c.holds(VariantModel::Fallback(fields_of(v))),
        encode(c.models(), c.tuple, VariantModel::Fallback(fields_of(v))) == v,
{
    lemma_find_none(c.models(), v, 0);
}

} // verus!
