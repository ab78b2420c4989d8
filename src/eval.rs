//! What a generated `kind` method returns when it is called: values of
//! annotated enums, and the evaluation of the generated `match`.
use vstd::prelude::*;
use crate::method::{Arm, ArmBody, KindMethod, Pattern};

verus! {

/// The fields a value carries.
#[derive(Debug)]
pub enum Fields {
    Unit,
    /// Named fields with their values.
    Named(Vec<(String, u64)>),
    /// Positional fields with their values.
    Unnamed(Vec<u64>),
    /// A single positional field holding a value of another annotated enum.
    Wrapping(Box<Value>),
}

/// A value of an annotated enum: its type, its variant and its fields.
#[derive(Debug)]
pub struct Value {
    pub ty: String,
    pub variant: String,
    pub fields: Fields,
}

/// A value of a kind enum: `kind_enum::kind_variant`.
#[derive(Clone, Debug, PartialEq, Eq)]
pub struct KindValue {
    pub kind_enum: String,
    pub kind_variant: String,
}

/// The first method in `methods` generated for type `ty`.
pub open spec fn method_for(methods: Seq<KindMethod>, ty: Seq<char>) -> Option<KindMethod>
    decreases methods.len(),
{
    if methods.len() == 0 {
        None
    } else if methods[0].owner@ == ty {
        Some(methods[0])
    } else {
        method_for(methods.drop_first(), ty)
    }
}

/// The first arm in `arms` for variant `variant`.
pub open spec fn arm_for_variant(arms: Seq<Arm>, variant: Seq<char>) -> Option<Arm>
    decreases arms.len(),
{
    if arms.len() == 0 {
        None
    } else if arms[0].variant@ == variant {
        Some(arms[0])
    } else {
        arm_for_variant(arms.drop_first(), variant)
    }
}

/// Whether a pattern matches a value's fields.
pub open spec fn pattern_matches(p: Pattern, f: Fields) -> bool {
    match p {
        Pattern::Bare => f is Unit,
        Pattern::IgnoreNamed => f is Named,
        Pattern::IgnorePositional => f is Unnamed || f is Wrapping,
        Pattern::BindInner => f is Wrapping,
    }
}

/// What `v.kind()` returns, given the generated methods of all types
/// involved; `None` where the generated code could not run on `v` (no
/// method for its type, no arm for its variant, or an arm that does not fit
/// its fields).
pub open spec fn kind_of(methods: Seq<KindMethod>, v: Value) -> Option<KindValue>
    decreases v,
{
    match method_for(methods, v.ty@) {
        None => None,
        Some(m) => match arm_for_variant(m.arms@, v.variant@) {
            None => None,
            Some(a) => if !pattern_matches(a.pattern, v.fields) {
                None
            } else {
                match a.body {
                    ArmBody::Literal { kind_enum, kind_variant } => Some(KindValue { kind_enum, kind_variant }),
                    ArmBody::CallInner => match v.fields {
                        Fields::Wrapping(inner) => kind_of(methods, *inner),
                        _ => None,
                    },
                }
            },
        },
    }
}

fn find_method<'a>(methods: &'a Vec<KindMethod>, ty: &String) -> (r: Option<&'a KindMethod>)
    ensures
        match r {
            None => method_for(methods@, ty@) is None,
            Some(m) => method_for(methods@, ty@) == Some(*m),
        },
{
    let mut i: usize = 0;
    assert(methods@.subrange(0, methods@.len() as int) =~= methods@);
    while i < methods.len()
        invariant
            i <= methods@.len(),
            method_for(methods@, ty@) == method_for(methods@.subrange(i as int, methods@.len() as int), ty@),
        decreases methods.len() - i,
    {
        let ghost rest = methods@.subrange(i as int, methods@.len() as int);
        assert(rest.drop_first() =~= methods@.subrange(i + 1, methods@.len() as int));
        if methods[i].owner == *ty {
            return Some(&methods[i]);
        }
        i = i + 1;
    }
    assert(methods@.subrange(i as int, methods@.len() as int).len() == 0);
    None
}

fn find_arm<'a>(arms: &'a Vec<Arm>, variant: &String) -> (r: Option<&'a Arm>)
    ensures
        match r {
            None => arm_for_variant(arms@, variant@) is None,
            Some(a) => arm_for_variant(arms@, variant@) == Some(*a),
        },
{
    let mut i: usize = 0;
    assert(arms@.subrange(0, arms@.len() as int) =~= arms@);
    while i < arms.len()
        invariant
            i <= arms@.len(),
            arm_for_variant(arms@, variant@) == arm_for_variant(arms@.subrange(i as int, arms@.len() as int), variant@),
        decreases arms.len() - i,
    {
        let ghost rest = arms@.subrange(i as int, arms@.len() as int);
        assert(rest.drop_first() =~= arms@.subrange(i + 1, arms@.len() as int));
        if arms[i].variant == *variant {
            return Some(&arms[i]);
        }
        i = i + 1;
    }
    assert(arms@.subrange(i as int, arms@.len() as int).len() == 0);
    None
}

/// Runs the generated `kind` method on `v`, following wrapped values into the
/// methods of their own types.
pub fn eval_kind(methods: &Vec<KindMethod>, v: &Value) -> (r: Option<KindValue>)
    ensures
        r == kind_of(methods@, *v),
    decreases v,
{
    let m = match find_method(methods, &v.ty) {
        None => return None,
        Some(m) => m,
    };
    let a = match find_arm(&m.arms, &v.variant) {
        None => return None,
        Some(a) => a,
    };
    let fits = match a.pattern {
        Pattern::Bare => matches!(v.fields, Fields::Unit),
        Pattern::IgnoreNamed => matches!(v.fields, Fields::Named(_)),
        Pattern::IgnorePositional => matches!(v.fields, Fields::Unnamed(_) | Fields::Wrapping(_)),
        Pattern::BindInner => matches!(v.fields, Fields::Wrapping(_)),
    };
    if !fits {
        return None;
    }
    match &a.body {
        ArmBody::Literal { kind_enum, kind_variant } => Some(KindValue {
            kind_enum: kind_enum.clone(),
            kind_variant: kind_variant.clone(),
        }),
        ArmBody::CallInner => match &v.fields {
            Fields::Wrapping(inner) => eval_kind(methods, inner),
            _ => None,
        },
    }
}

} // verus!
