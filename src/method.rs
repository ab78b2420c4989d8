//! Building the `kind` method from a plan.
use vstd::prelude::*;
use crate::decl::{Data, Declaration, FieldShape};
use crate::plan::{get_kind_ty, read_plan, read_spec, DeriveError, PlanEntry, Resolution};

verus! {

/// The pattern an arm matches its variant with.
#[derive(Clone, Copy, Debug, PartialEq, Eq)]
pub enum Pattern {
    /// `Self::V`
    Bare,
    /// `Self::V { .. }`
    IgnoreNamed,
    /// `Self::V(..)`
    IgnorePositional,
    /// `Self::V(inner)`
    BindInner,
}

/// What an arm evaluates to.
#[derive(Clone, Debug, PartialEq, Eq)]
pub enum ArmBody {
    /// The literal `kind_enum::kind_variant`.
    Literal { kind_enum: String, kind_variant: String },
    /// `inner.kind()`
    CallInner,
}

/// One arm of the generated `match self`.
#[derive(Clone, Debug, PartialEq, Eq)]
pub struct Arm {
    pub variant: String,
    pub pattern: Pattern,
    pub body: ArmBody,
}

/// The generated inherent method `pub fn kind(&self) -> return_kind` on
/// `owner`, whose body is one `match self` with `arms` in order.
#[derive(Clone, Debug, PartialEq, Eq)]
pub struct KindMethod {
    pub owner: String,
    pub return_kind: String,
    pub arms: Vec<Arm>,
}

/// The pattern for a variant: fixed by its field shape, and for positional
/// fields by whether the inner value is needed.
pub open spec fn pattern_of(fields: FieldShape, r: Resolution) -> Pattern {
    match fields {
        FieldShape::NoFields => Pattern::Bare,
        FieldShape::NamedFields => Pattern::IgnoreNamed,
        FieldShape::UnnamedFields(_) => match r {
            Resolution::Direct { .. } => Pattern::IgnorePositional,
            Resolution::Delegate => Pattern::BindInner,
        },
    }
}

/// The body for a resolution.
pub open spec fn body_of(r: Resolution) -> ArmBody {
    match r {
        Resolution::Direct { kind_enum, kind_variant } => ArmBody::Literal { kind_enum, kind_variant },
        Resolution::Delegate => ArmBody::CallInner,
    }
}

/// The arm generated for a plan entry.
pub open spec fn arm_of(e: PlanEntry) -> Arm {
    Arm { variant: e.variant, pattern: pattern_of(e.fields, e.resolution), body: body_of(e.resolution) }
}

/// `m` is the method synthesized for type `name` from the non-empty `plan`:
/// one arm per entry, in order, returning the first entry's kind enum.
pub open spec fn synthesized(m: KindMethod, name: String, plan: Seq<PlanEntry>) -> bool {
    &&& m.owner == name
    &&& m.return_kind == plan[0].kind_enum
    &&& m.arms@.len() == plan.len()
    &&& forall|i: int| 0 <= i < plan.len() ==> #[trigger] m.arms@[i] == arm_of(plan[i])
}

/// Whether a declaration can be given a kind method, and if not, why: the
/// first error met when its annotations are read, or an empty enum.
pub open spec fn derive_error(d: Declaration) -> Option<DeriveError> {
    match read_spec(d) {
        Err(e) => Some(e),
        Ok((_, p)) => if p.len() == 0 {
            Some(DeriveError::NoVariants)
        } else {
            None
        },
    }
}

/// The arm for one plan entry.
pub fn arm_for(e: &PlanEntry) -> (r: Arm)
    ensures
        r == arm_of(*e),
{
    let pattern = match e.fields {
        FieldShape::NoFields => Pattern::Bare,
        FieldShape::NamedFields => Pattern::IgnoreNamed,
        FieldShape::UnnamedFields(_) => match &e.resolution {
            Resolution::Direct { .. } => Pattern::IgnorePositional,
            Resolution::Delegate => Pattern::BindInner,
        },
    };
    let body = match &e.resolution {
        Resolution::Direct { kind_enum, kind_variant } => ArmBody::Literal {
            kind_enum: kind_enum.clone(),
            kind_variant: kind_variant.clone(),
        },
        Resolution::Delegate => ArmBody::CallInner,
    };
    Arm { variant: e.variant.clone(), pattern, body }
}

/// Builds the method for type `name` from a non-empty plan.
pub fn synthesize(name: &String, plan: &Vec<PlanEntry>) -> (r: KindMethod)
    requires
        plan@.len() > 0,
    ensures
        synthesized(r, *name, plan@),
{
    let mut arms: Vec<Arm> = Vec::new();
    let mut i: usize = 0;
    while i < plan.len()
        invariant
            i <= plan@.len(),
            arms@.len() == i,
            forall|j: int| 0 <= j < i ==> #[trigger] arms@[j] == arm_of(plan@[j]),
        decreases plan.len() - i,
    {
        arms.push(arm_for(&plan[i]));
        i = i + 1;
    }
    KindMethod { owner: name.clone(), return_kind: plan[0].kind_enum.clone(), arms }
}

/// Derives the `kind` method of a declaration: reads the kind enum named on
/// the type, resolves every variant, and builds one arm per variant.
pub fn error_kind(decl: &Declaration) -> (r: Result<KindMethod, DeriveError>)
    ensures
        match r {
            Ok(m) => derive_error(*decl) is None && synthesized(m, decl.name, read_spec(*decl)->Ok_0.1),
            Err(e) => derive_error(*decl) == Some(e),
        },
{
    let kind_ref = get_kind_ty(&decl.attrs)?;
    let variants = match &decl.data {
        Data::Enum(vs) => vs,
        _ => return Err(DeriveError::NotAnEnum),
    };
    let plan = read_plan(variants, &kind_ref)?;
    if plan.len() == 0 {
        return Err(DeriveError::NoVariants);
    }
    Ok(synthesize(&decl.name, &plan))
}

} // verus!
