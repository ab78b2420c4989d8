//! What holds of every generated method.
use vstd::prelude::*;
use crate::decl::{Data, Declaration, FieldShape, Variant};
use crate::eval::{arm_for_variant, kind_of, method_for, Fields, KindValue, Value};
use crate::method::{arm_of, derive_error, synthesized, Arm, KindMethod};
use crate::plan::{entry_of, kind_reference_of, plan_of, plan_prefix, read_spec, resolution_of, PlanEntry, Resolution};

verus! {

/// The variants of a declaration; none for a struct or a union.
pub open spec fn variants_of(d: Declaration) -> Seq<Variant> {
    match d.data {
        Data::Enum(vs) => vs@,
        _ => Seq::empty(),
    }
}

/// No two variants share a name, as in every enum that compiles.
pub open spec fn distinct_variant_names(d: Declaration) -> bool {
    forall|j: int, k: int|
        0 <= j < k < variants_of(d).len() ==> #[trigger] variants_of(d)[j].name@ != #[trigger] variants_of(d)[k].name@
}

/// The method that `methods` holds for `d`'s type is the one derived from `d`.
pub open spec fn generated_for(methods: Seq<KindMethod>, d: Declaration) -> bool {
    &&& derive_error(d) is None
    &&& method_for(methods, d.name@) matches Some(m) && synthesized(m, d.name, read_spec(d)->Ok_0.1)
}

/// Fields of a value that a variant of shape `shape` can carry.
pub open spec fn fields_fit(shape: FieldShape, f: Fields) -> bool {
    match shape {
        FieldShape::NoFields => f is Unit,
        FieldShape::NamedFields => f is Named,
        FieldShape::UnnamedFields(n) => {
            ||| f matches Fields::Unnamed(vals) && vals@.len() == n
            ||| f is Wrapping && n == 1
        },
    }
}

/// `v` is a value of the variant at position `i` of `d`.
pub open spec fn is_value_of_variant(d: Declaration, i: int, v: Value) -> bool {
    &&& 0 <= i < variants_of(d).len()
    &&& v.ty@ == d.name@
    &&& v.variant@ == variants_of(d)[i].name@
    &&& fields_fit(variants_of(d)[i].fields, v.fields)
}

proof fn lemma_plan_entries(vs: Seq<Variant>, kind_ref: String, n: nat)
    requires
        n <= vs.len(),
        plan_prefix(vs, kind_ref, n) is Ok,
    ensures
        plan_prefix(vs, kind_ref, n)->Ok_0.len() == n,
        forall|j: int| 0 <= j < n ==> {
            &&& #[trigger] resolution_of(j as usize, vs[j]) is Ok
            &&& plan_prefix(vs, kind_ref, n)->Ok_0[j] == entry_of(vs[j], resolution_of(j as usize, vs[j])->Ok_0, kind_ref)
        },
    decreases n,
{
    if n > 0 {
        lemma_plan_entries(vs, kind_ref, (n - 1) as nat);
    }
}

proof fn lemma_first_arm(arms: Seq<Arm>, x: Seq<char>, i: int)
    requires
        0 <= i < arms.len(),
        arms[i].variant@ == x,
        forall|j: int| 0 <= j < i ==> #[trigger] arms[j].variant@ != x,
    ensures
        arm_for_variant(arms, x) == Some(arms[i]),
    decreases i,
{
    if i > 0 {
        let rest = arms.drop_first();
        assert forall|j: int| 0 <= j < i - 1 implies #[trigger] rest[j].variant@ != x by {
            assert(rest[j] == arms[j + 1]);
        }
        lemma_first_arm(rest, x, i - 1);
    }
}

/// In a method generated for `d`, the arm for the variant at position `i` is
/// the one built from that variant's resolution.
proof fn lemma_arm_of_variant(methods: Seq<KindMethod>, d: Declaration, i: int)
    requires
        generated_for(methods, d),
        distinct_variant_names(d),
        0 <= i < variants_of(d).len(),
    ensures
        resolution_of(i as usize, variants_of(d)[i]) is Ok,
        arm_for_variant(method_for(methods, d.name@)->Some_0.arms@, variants_of(d)[i].name@) == Some(
            arm_of(
                entry_of(
                    variants_of(d)[i],
                    resolution_of(i as usize, variants_of(d)[i])->Ok_0,
                    kind_reference_of(d.attrs@)->Ok_0,
                ),
            ),
        ),
{
    let vs = variants_of(d);
    let kr = kind_reference_of(d.attrs@)->Ok_0;
    let m = method_for(methods, d.name@)->Some_0;
    assert(d.data is Enum);
    let p = plan_of(vs, kr)->Ok_0;
    assert(read_spec(d)->Ok_0.1 == p);
    lemma_plan_entries(vs, kr, vs.len());
    assert forall|j: int| 0 <= j < i implies #[trigger] m.arms@[j].variant@ != vs[i].name@ by {
        assert(resolution_of(j as usize, vs[j]) is Ok);
        assert(m.arms@[j] == arm_of(p[j]));
        assert(vs[j].name@ != vs[i].name@);
    }
    assert(resolution_of(i as usize, vs[i]) is Ok);
    assert(m.arms@[i] == arm_of(p[i]));
    lemma_first_arm(m.arms@, vs[i].name@, i);
}

/// A variant with a direct resolution `(K, V)` classifies every value of it as
/// the literal `K::V`, whatever its fields hold.
pub proof fn lemma_direct_kind_is_literal(methods: Seq<KindMethod>, d: Declaration, i: int, v: Value)
    requires
        generated_for(methods, d),
        distinct_variant_names(d),
        is_value_of_variant(d, i, v),
        resolution_of(i as usize, variants_of(d)[i]) matches Ok(Resolution::Direct { .. }),
    ensures
        ({
            let r = resolution_of(i as usize, variants_of(d)[i])->Ok_0;
            kind_of(methods, v) == Some(KindValue { kind_enum: r->kind_enum, kind_variant: r->kind_variant })
        }),
{
    lemma_arm_of_variant(methods, d, i);
}

/// A delegating variant that wraps a value classifies as that value does.
pub proof fn lemma_delegate_passes_through(methods: Seq<KindMethod>, d: Declaration, i: int, v: Value)
    requires
        generated_for(methods, d),
        distinct_variant_names(d),
        is_value_of_variant(d, i, v),
        resolution_of(i as usize, variants_of(d)[i]) == Ok::<Resolution, crate::plan::DeriveError>(Resolution::Delegate),
        v.fields is Wrapping,
    ensures
        kind_of(methods, v) == kind_of(methods, *(v.fields->Wrapping_0)),
{
    lemma_arm_of_variant(methods, d, i);
}

/// Two variants with the same direct resolution classify alike, whatever
/// their field shapes and field values: a variant with named fields and a
/// unit variant annotated the same way give the same kind.
pub proof fn lemma_fields_do_not_matter(
    methods1: Seq<KindMethod>,
    d1: Declaration,
    i1: int,
    v1: Value,
    methods2: Seq<KindMethod>,
    d2: Declaration,
    i2: int,
    v2: Value,
)
    requires
        generated_for(methods1, d1),
        distinct_variant_names(d1),
        is_value_of_variant(d1, i1, v1),
        generated_for(methods2, d2),
        distinct_variant_names(d2),
        is_value_of_variant(d2, i2, v2),
        resolution_of(i1 as usize, variants_of(d1)[i1]) matches Ok(Resolution::Direct { .. }),
        resolution_of(i1 as usize, variants_of(d1)[i1]) == resolution_of(i2 as usize, variants_of(d2)[i2]),
    ensures
        kind_of(methods1, v1) == kind_of(methods2, v2),
        kind_of(methods1, v1) is Some,
{
    lemma_direct_kind_is_literal(methods1, d1, i1, v1);
    lemma_direct_kind_is_literal(methods2, d2, i2, v2);
}

/// Generating the method twice from one declaration gives the same method:
/// the result depends on that declaration alone.
pub proof fn lemma_regeneration_is_identical(d: Declaration, m1: KindMethod, m2: KindMethod)
    requires
        derive_error(d) is None,
        synthesized(m1, d.name, read_spec(d)->Ok_0.1),
        synthesized(m2, d.name, read_spec(d)->Ok_0.1),
    ensures
        m1.owner == m2.owner,
        m1.return_kind == m2.return_kind,
        m1.arms@ == m2.arms@,
{
    let p: Seq<PlanEntry> = read_spec(d)->Ok_0.1;
    assert(m1.arms@ =~= m2.arms@) by {
        assert forall|j: int| 0 <= j < p.len() implies m1.arms@[j] == m2.arms@[j] by {
            assert(m1.arms@[j] == arm_of(p[j]));
            assert(m2.arms@[j] == arm_of(p[j]));
        }
    }
}

} // verus!
