//! Reading the annotations: the kind enum named on the type, and for each
//! variant how its kind is resolved.
use vstd::prelude::*;
use crate::decl::{annotation_name, delegation_marker, Arg, AttrArgs, Attribute, Data, Declaration, FieldShape, Variant};

verus! {

/// Why a declaration cannot be given a kind method. Errors about a variant
/// carry that variant's position in the declaration, so that the caller can
/// point at it.
#[derive(Clone, Copy, Debug, PartialEq, Eq)]
pub enum DeriveError {
    /// The declaration is a struct or a union, not an enum.
    NotAnEnum,
    /// The type carries no `#[error_kind(...)]` argument list.
    MissingKindAttribute,
    /// The type's `#[error_kind(...)]` does not hold exactly one path.
    MalformedKindAttribute,
    /// A variant carries no `#[error_kind]` attribute.
    MissingVariantAttribute { variant: usize },
    /// A variant's `#[error_kind]` is not an argument list.
    UnparsableVariantAttribute { variant: usize },
    /// A variant's argument list holds something other than paths.
    InvalidArgument { variant: usize },
    /// A variant's single argument is a path other than `transparent`.
    UnknownMarker { variant: usize },
    /// A variant's argument list holds neither one nor two arguments.
    WrongArgumentCount { variant: usize },
    /// The enum declares no variants.
    NoVariants,
}

/// How the kind of one variant is found.
#[derive(Clone, Debug, PartialEq, Eq)]
pub enum Resolution {
    /// The variant's kind is the literal `kind_enum::kind_variant`.
    Direct { kind_enum: String, kind_variant: String },
    /// The variant wraps one value, whose own kind is the variant's kind.
    Delegate,
}

/// One variant's entry in the plan.
#[derive(Clone, Debug, PartialEq, Eq)]
pub struct PlanEntry {
    pub variant: String,
    /// The kind enum this entry's kind belongs to: the one named by a direct
    /// resolution, else the one named on the type.
    pub kind_enum: String,
    pub resolution: Resolution,
    pub fields: FieldShape,
}

/// The argument list of an `#[error_kind(...)]` attribute.
pub open spec fn is_kind_list(a: Attribute) -> bool {
    a.path@ == annotation_name() && a.args is List
}

/// The arguments of the first attribute that is an `#[error_kind(...)]` list.
pub open spec fn first_kind_list(attrs: Seq<Attribute>) -> Option<Seq<Arg>>
    decreases attrs.len(),
{
    if attrs.len() == 0 {
        None
    } else if is_kind_list(attrs[0]) {
        Some(attrs[0].args->List_0@)
    } else {
        first_kind_list(attrs.drop_first())
    }
}

/// The kind enum named on the type: the single path of its first
/// `#[error_kind(...)]` list.
pub open spec fn kind_reference_of(attrs: Seq<Attribute>) -> Result<String, DeriveError> {
    match first_kind_list(attrs) {
        None => Err(DeriveError::MissingKindAttribute),
        Some(args) => if args.len() == 1 && args[0] is Path {
            Ok(args[0]->Path_0)
        } else {
            Err(DeriveError::MalformedKindAttribute)
        },
    }
}

/// The first attribute whose path is `error_kind`, whatever follows it.
pub open spec fn first_annotation(attrs: Seq<Attribute>) -> Option<Attribute>
    decreases attrs.len(),
{
    if attrs.len() == 0 {
        None
    } else if attrs[0].path@ == annotation_name() {
        Some(attrs[0])
    } else {
        first_annotation(attrs.drop_first())
    }
}

/// How the variant at position `i` resolves, from its first `error_kind`
/// attribute.
pub open spec fn resolution_of(i: usize, v: Variant) -> Result<Resolution, DeriveError> {
    match first_annotation(v.attrs@) {
        None => Err(DeriveError::MissingVariantAttribute { variant: i }),
        Some(a) => match a.args {
            AttrArgs::Malformed => Err(DeriveError::UnparsableVariantAttribute { variant: i }),
            AttrArgs::List(args) => {
                let s = args@;
                if s.len() == 2 {
                    if s[0] is Path && s[1] is Path {
                        Ok(Resolution::Direct { kind_enum: s[0]->Path_0, kind_variant: s[1]->Path_0 })
                    } else {
                        Err(DeriveError::InvalidArgument { variant: i })
                    }
                } else if s.len() == 1 {
                    if !(s[0] is Path) {
                        Err(DeriveError::InvalidArgument { variant: i })
                    } else if s[0]->Path_0@ == delegation_marker() {
                        Ok(Resolution::Delegate)
                    } else {
                        Err(DeriveError::UnknownMarker { variant: i })
                    }
                } else {
                    Err(DeriveError::WrongArgumentCount { variant: i })
                }
            },
        },
    }
}

/// The plan entry of a variant that resolved to `r`.
pub open spec fn entry_of(v: Variant, r: Resolution, kind_ref: String) -> PlanEntry {
    PlanEntry {
        variant: v.name,
        kind_enum: match r {
            Resolution::Direct { kind_enum, .. } => kind_enum,
            Resolution::Delegate => kind_ref,
        },
        resolution: r,
        fields: v.fields,
    }
}

/// The plan of the first `n` variants, or the error of the first of them that
/// does not resolve.
pub open spec fn plan_prefix(vs: Seq<Variant>, kind_ref: String, n: nat) -> Result<Seq<PlanEntry>, DeriveError>
    decreases n,
{
    if n == 0 {
        Ok(Seq::empty())
    } else {
        match plan_prefix(vs, kind_ref, (n - 1) as nat) {
            Err(e) => Err(e),
            Ok(p) => match resolution_of((n - 1) as usize, vs[n - 1]) {
                Err(e) => Err(e),
                Ok(r) => Ok(p.push(entry_of(vs[n - 1], r, kind_ref))),
            },
        }
    }
}

/// The plan of all of `vs`.
pub open spec fn plan_of(vs: Seq<Variant>, kind_ref: String) -> Result<Seq<PlanEntry>, DeriveError> {
    plan_prefix(vs, kind_ref, vs.len())
}

/// The kind reference and the plan of a declaration, or the first error met:
/// the type's own attribute is read first, then its body.
pub open spec fn read_spec(d: Declaration) -> Result<(String, Seq<PlanEntry>), DeriveError> {
    match kind_reference_of(d.attrs@) {
        Err(e) => Err(e),
        Ok(kr) => match d.data {
            Data::Enum(vs) => match plan_of(vs@, kr) {
                Err(e) => Err(e),
                Ok(p) => Ok((kr, p)),
            },
            _ => Err(DeriveError::NotAnEnum),
        },
    }
}

fn is_annotation_path(path: &String) -> (r: bool)
    ensures
        r == (path@ == annotation_name()),
{
    let name = String::from_str("error_kind");
    *path == name
}

/// Finds the arguments of the first `error_kind` attribute that is an
/// argument list.
pub fn find_attribute(attrs: &Vec<Attribute>) -> (r: Option<&Vec<Arg>>)
    ensures
        match r {
            None => first_kind_list(attrs@) is None,
            Some(args) => first_kind_list(attrs@) == Some(args@),
        },
{
    let mut i: usize = 0;
    assert(attrs@.subrange(0, attrs@.len() as int) =~= attrs@);
    while i < attrs.len()
        invariant
            i <= attrs@.len(),
            first_kind_list(attrs@) == first_kind_list(attrs@.subrange(i as int, attrs@.len() as int)),
        decreases attrs.len() - i,
    {
        let a = &attrs[i];
        let ghost rest = attrs@.subrange(i as int, attrs@.len() as int);
        assert(rest.drop_first() =~= attrs@.subrange(i + 1, attrs@.len() as int));
        if is_annotation_path(&a.path) {
            if let AttrArgs::List(args) = &a.args {
                return Some(args);
            }
        }
        i = i + 1;
    }
    assert(attrs@.subrange(i as int, attrs@.len() as int).len() == 0);
    None
}

/// The kind enum named on the type by `#[error_kind(Kind)]`.
pub fn get_kind_ty(attrs: &Vec<Attribute>) -> (r: Result<String, DeriveError>)
    ensures
        r == kind_reference_of(attrs@),
{
    match find_attribute(attrs) {
        None => Err(DeriveError::MissingKindAttribute),
        Some(args) => {
            if args.len() == 1 {
                if let Arg::Path(p) = &args[0] {
                    return Ok(p.clone());
                }
            }
            Err(DeriveError::MalformedKindAttribute)
        },
    }
}

/// The first attribute whose path is `error_kind`.
fn find_annotation(attrs: &Vec<Attribute>) -> (r: Option<&Attribute>)
    ensures
        match r {
            None => first_annotation(attrs@) is None,
            Some(a) => first_annotation(attrs@) == Some(*a),
        },
{
    let mut i: usize = 0;
    assert(attrs@.subrange(0, attrs@.len() as int) =~= attrs@);
    while i < attrs.len()
        invariant
            i <= attrs@.len(),
            first_annotation(attrs@) == first_annotation(attrs@.subrange(i as int, attrs@.len() as int)),
        decreases attrs.len() - i,
    {
        let ghost rest = attrs@.subrange(i as int, attrs@.len() as int);
        assert(rest.drop_first() =~= attrs@.subrange(i + 1, attrs@.len() as int));
        if is_annotation_path(&attrs[i].path) {
            return Some(&attrs[i]);
        }
        i = i + 1;
    }
    assert(attrs@.subrange(i as int, attrs@.len() as int).len() == 0);
    None
}

fn is_delegation_marker(path: &String) -> (r: bool)
    ensures
        r == (path@ == delegation_marker()),
{
    let marker = String::from_str("transparent");
    *path == marker
}

/// How the variant at position `i` resolves its kind.
pub fn resolve_variant(i: usize, v: &Variant) -> (r: Result<Resolution, DeriveError>)
    ensures
        r == resolution_of(i, *v),
{
    let a = match find_annotation(&v.attrs) {
        None => return Err(DeriveError::MissingVariantAttribute { variant: i }),
        Some(a) => a,
    };
    let args = match &a.args {
        AttrArgs::Malformed => return Err(DeriveError::UnparsableVariantAttribute { variant: i }),
        AttrArgs::List(args) => args,
    };
    if args.len() == 2 {
        match (&args[0], &args[1]) {
            (Arg::Path(k), Arg::Path(kv)) => Ok(Resolution::Direct { kind_enum: k.clone(), kind_variant: kv.clone() }),
            _ => Err(DeriveError::InvalidArgument { variant: i }),
        }
    } else if args.len() == 1 {
        match &args[0] {
            Arg::Path(p) => if is_delegation_marker(p) {
                Ok(Resolution::Delegate)
            } else {
                Err(DeriveError::UnknownMarker { variant: i })
            },
            Arg::Other => Err(DeriveError::InvalidArgument { variant: i }),
        }
    } else {
        Err(DeriveError::WrongArgumentCount { variant: i })
    }
}

/// Resolves every variant in declaration order, stopping at the first that
/// does not resolve.
pub fn read_plan(variants: &Vec<Variant>, kind_ref: &String) -> (r: Result<Vec<PlanEntry>, DeriveError>)
    ensures
        match r {
            Ok(p) => plan_of(variants@, *kind_ref) == Ok::<Seq<PlanEntry>, DeriveError>(p@),
            Err(e) => plan_of(variants@, *kind_ref) == Err::<Seq<PlanEntry>, DeriveError>(e),
        },
{
    let mut plan: Vec<PlanEntry> = Vec::new();
    let mut i: usize = 0;
    while i < variants.len()
        invariant
            i <= variants@.len(),
            plan_prefix(variants@, *kind_ref, i as nat) == Ok::<Seq<PlanEntry>, DeriveError>(plan@),
        decreases variants.len() - i,
    {
        let v = &variants[i];
        let res = resolve_variant(i, v);
        match res {
            Err(e) => {
                proof {
                    lemma_prefix_error_persists(variants@, *kind_ref, (i + 1) as nat, variants@.len());
                }
                return Err(e);
            },
            Ok(r) => {
                let kind_enum = match &r {
                    Resolution::Direct { kind_enum, .. } => kind_enum.clone(),
                    Resolution::Delegate => kind_ref.clone(),
                };
                plan.push(PlanEntry { variant: v.name.clone(), kind_enum, resolution: r, fields: v.fields });
                i = i + 1;
            },
        }
    }
    Ok(plan)
}

proof fn lemma_prefix_error_persists(vs: Seq<Variant>, kind_ref: String, n: nat, m: nat)
    requires
        n <= m,
        plan_prefix(vs, kind_ref, n) is Err,
    ensures
        plan_prefix(vs, kind_ref, m) == plan_prefix(vs, kind_ref, n),
    decreases m - n,
{
    if n < m {
        lemma_prefix_error_persists(vs, kind_ref, n, (m - 1) as nat);
    }
}

} // verus!
