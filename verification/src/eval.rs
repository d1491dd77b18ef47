//! The meaning of a generated implementation: what constant the
//! generated construction expression denotes under an environment of
//! parameter defaults, an executable evaluator for it, and the laws of
//! the generator — distribution over fields, the zero-field case, the
//! generic pair, purity, and order sensitivity.

use vstd::prelude::*;

use crate::generate::{FieldInitV, FieldKeyV, GeneratedImpl, GeneratedImplV, spec_generate, spec_key_of};
use crate::resolve::{Env, Val, default_of, ty_default, ty_has_default};
use crate::shape::{CrateRefV, StructShapeV, Ty};

verus! {

/// Whether every initializer's declared type has a default under `env`.
pub open spec fn inits_have_defaults(inits: Seq<FieldInitV>, env: Seq<Option<Val>>) -> bool {
    forall|i: int| 0 <= i < inits.len() ==> ty_has_default(#[trigger] inits[i].ty, env)
}

/// The value the generated construction expression denotes under
/// `env`: the capability-derived default of each initializer's type,
/// in declaration order.
pub open spec fn eval_inits(inits: Seq<FieldInitV>, env: Seq<Option<Val>>) -> Seq<Val> {
    Seq::new(inits.len(), |i: int| ty_default(inits[i].ty, env))
}

/// Whether every field type of a struct shape has a default under
/// `env`.
pub open spec fn shape_has_default(s: StructShapeV, env: Seq<Option<Val>>) -> bool {
    forall|i: int| 0 <= i < s.fields.len() ==> ty_has_default(#[trigger] s.fields[i].ty, env)
}

/// The structurally-default-constructed instance of a struct shape:
/// every field independently equal to its own type's default.
pub open spec fn struct_default(s: StructShapeV, env: Seq<Option<Val>>) -> Seq<Val> {
    Seq::new(s.fields.len(), |i: int| ty_default(s.fields[i].ty, env))
}

/// Executable evaluation of a generated implementation under an
/// environment: the struct's default value, field by field in
/// declaration order, or nothing where some field type has no default.
pub fn eval_generated(g: &GeneratedImpl, env: &Env) -> (r: Option<Vec<Val>>)
    ensures
        inits_have_defaults(g@.inits, env@) ==> (r matches Some(v) && v@
            == eval_inits(g@.inits, env@)),
        !inits_have_defaults(g@.inits, env@) ==> r is None,
{
    let mut vals: Vec<Val> = Vec::new();
    let n = g.inits.len();
    let mut idx: usize = 0;
    while idx < n
        invariant
            n == g.inits.len(),
            idx <= n,
            vals@.len() == idx,
            forall|i: int| 0 <= i < idx ==> ty_has_default(#[trigger] g@.inits[i].ty, env@),
            forall|i: int| 0 <= i < idx ==> vals@[i] == eval_inits(g@.inits, env@)[i],
        decreases n - idx,
    {
        match default_of(&g.inits[idx].ty, env) {
            Option::Some(v) => vals.push(v),
            Option::None => {
                proof {
                    assert(!ty_has_default(g@.inits[idx as int].ty, env@));
                }
                return Option::None;
            },
        }
        idx = idx + 1;
    }
    proof {
        assert(vals@ =~= eval_inits(g@.inits, env@));
    }
    Option::Some(vals)
}

/// The same shape with the field declarations at `i` and `j`
/// exchanged.
pub open spec fn swap_fields(s: StructShapeV, i: int, j: int) -> StructShapeV {
    StructShapeV {
        ident: s.ident,
        n_params: s.n_params,
        fields: s.fields.update(i, s.fields[j]).update(j, s.fields[i]),
    }
}

/// Generation distributes over fields: under any environment the
/// generated construction expression denotes the structurally
/// default-constructed instance — every field independently equal to
/// its own type's default — and all its initializers have defaults
/// exactly when all the shape's field types do.
pub proof fn lemma_generation_distributes(s: StructShapeV, c: CrateRefV, env: Seq<Option<Val>>)
    ensures
        inits_have_defaults(spec_generate(s, c).inits, env) <==> shape_has_default(s, env),
        eval_inits(spec_generate(s, c).inits, env) == struct_default(s, env),
        forall|i: int| 0 <= i < s.fields.len()
            ==> eval_inits(spec_generate(s, c).inits, env)[i]
                == ty_default(#[trigger] s.fields[i].ty, env),
{
    let g = spec_generate(s, c);
    assert forall|i: int| 0 <= i < g.inits.len() implies #[trigger] g.inits[i].ty
        == s.fields[i].ty by {}
    if inits_have_defaults(g.inits, env) {
        assert forall|i: int| 0 <= i < s.fields.len() implies ty_has_default(
            #[trigger] s.fields[i].ty,
            env,
        ) by {
            assert(ty_has_default(g.inits[i].ty, env));
        }
    }
    if shape_has_default(s, env) {
        assert forall|i: int| 0 <= i < g.inits.len() implies ty_has_default(
            #[trigger] g.inits[i].ty,
            env,
        ) by {
            assert(ty_has_default(s.fields[i].ty, env));
        }
    }
    assert(eval_inits(g.inits, env) =~= struct_default(s, env));
}

/// A zero-field struct generates the unit-like construction with no
/// initializers; its value is the unique empty instance, and it exists
/// under every environment.
pub proof fn lemma_zero_field_struct(s: StructShapeV, c: CrateRefV, env: Seq<Option<Val>>)
    requires
        s.fields.len() == 0,
    ensures
        spec_generate(s, c).inits == Seq::<FieldInitV>::empty(),
        inits_have_defaults(spec_generate(s, c).inits, env),
        eval_inits(spec_generate(s, c).inits, env) == Seq::<Val>::empty(),
{
    assert(spec_generate(s, c).inits =~= Seq::<FieldInitV>::empty());
    assert(eval_inits(spec_generate(s, c).inits, env) =~= Seq::<Val>::empty());
}

/// For a generic pair shape — a first field of the struct's first type
/// parameter and a second field of the optional wrapper — the generated
/// default is the parameter's own default paired with the absent
/// variant, and it exists exactly when the parameter's instantiation
/// has a default of its own.
pub proof fn lemma_generic_pair_default(s: StructShapeV, c: CrateRefV, env: Seq<Option<Val>>)
    requires
        s.fields.len() == 2,
        s.fields[0].ty == Ty::Param(0),
        s.fields[1].ty matches Ty::OptionOf(_),
    ensures
        shape_has_default(s, env) <==> (0 < env.len() && env[0] is Some),
        (0 < env.len() && env[0] is Some) ==> eval_inits(spec_generate(s, c).inits, env)
            == seq![env[0]->0, Val::AbsentVal],
{
    assert(ty_has_default(s.fields[1].ty, env));
    if 0 < env.len() && env[0] is Some {
        assert forall|i: int| 0 <= i < s.fields.len() implies ty_has_default(
            #[trigger] s.fields[i].ty,
            env,
        ) by {}
        assert(eval_inits(spec_generate(s, c).inits, env) =~= seq![env[0]->0, Val::AbsentVal]);
    } else {
        assert(!ty_has_default(s.fields[0].ty, env));
    }
}

/// Regenerating for an unchanged struct shape yields identical output:
/// the generated implementation is a function of the shape and the
/// crate reference alone.
pub proof fn lemma_generation_pure(s1: StructShapeV, c1: CrateRefV, s2: StructShapeV, c2: CrateRefV)
    requires
        s1 == s2,
        c1 == c2,
    ensures
        spec_generate(s1, c1) == spec_generate(s2, c2),
{
}

/// Where `k` lands when the positions `i` and `j` are exchanged.
pub open spec fn swap_index(k: int, i: int, j: int) -> int {
    if k == i {
        j
    } else if k == j {
        i
    } else {
        k
    }
}

/// Whether every field of the shape is named.
pub open spec fn shape_all_named(s: StructShapeV) -> bool {
    forall|i: int| 0 <= i < s.fields.len() ==> (#[trigger] s.fields[i].name) is Some
}

/// Whether no two fields of the shape share a name.
pub open spec fn distinct_field_names(s: StructShapeV) -> bool {
    forall|i: int, j: int|
        0 <= i < s.fields.len() && 0 <= j < s.fields.len() && i != j
            ==> (#[trigger] s.fields[i].name) != (#[trigger] s.fields[j].name)
}

/// The default value of an all-named struct read as a record: each
/// field name mapped to the capability-derived default of the type
/// declared at that name.
pub open spec fn named_default_map(s: StructShapeV, env: Seq<Option<Val>>) -> Map<Seq<char>, Val> {
    Map::new(
        |n: Seq<char>|
            exists|i: int|
                0 <= i < s.fields.len() && (#[trigger] s.fields[i].name) == Option::Some(n),
        |n: Seq<char>|
            ty_default(
                s.fields[choose|i: int|
                    0 <= i < s.fields.len() && (#[trigger] s.fields[i].name) == Option::Some(
                        n,
                    )].ty,
                env,
            ),
    )
}

/// Swapping two field declarations of a named struct does not change
/// the resulting default value: read as a record from field names to
/// field defaults, the generated constant is the same.
pub proof fn lemma_named_swap_value_unchanged(
    s: StructShapeV,
    env: Seq<Option<Val>>,
    i: int,
    j: int,
)
    requires
        0 <= i < s.fields.len(),
        0 <= j < s.fields.len(),
        shape_all_named(s),
        distinct_field_names(s),
    ensures
        named_default_map(swap_fields(s, i, j), env) == named_default_map(s, env),
{
    let t = swap_fields(s, i, j);
    let m1 = named_default_map(t, env);
    let m2 = named_default_map(s, env);
    assert forall|k: int| 0 <= k < t.fields.len() implies #[trigger] t.fields[k]
        == s.fields[swap_index(k, i, j)] by {}
    assert forall|n: Seq<char>| m1.dom().contains(n) <==> m2.dom().contains(n) by {
        if exists|k: int|
            0 <= k < t.fields.len() && (#[trigger] t.fields[k].name) == Option::Some(n) {
            let k = choose|k: int|
                0 <= k < t.fields.len() && (#[trigger] t.fields[k].name) == Option::Some(n);
            assert(s.fields[swap_index(k, i, j)].name == Option::Some(n));
        }
        if exists|k: int|
            0 <= k < s.fields.len() && (#[trigger] s.fields[k].name) == Option::Some(n) {
            let k = choose|k: int|
                0 <= k < s.fields.len() && (#[trigger] s.fields[k].name) == Option::Some(n);
            assert(t.fields[swap_index(k, i, j)].name == Option::Some(n));
        }
    }
    assert forall|n: Seq<char>| m2.dom().contains(n) implies m1[n] == m2[n] by {
        let k1 = choose|k: int|
            0 <= k < t.fields.len() && (#[trigger] t.fields[k].name) == Option::Some(n);
        let k2 = choose|k: int|
            0 <= k < s.fields.len() && (#[trigger] s.fields[k].name) == Option::Some(n);
        assert(s.fields[k2].name == Option::Some(n));
        assert(t.fields[swap_index(k2, i, j)].name == Option::Some(n));
        assert(t.fields[k1].name == Option::Some(n));
        assert(s.fields[swap_index(k1, i, j)].name == Option::Some(n));
        assert(swap_index(k1, i, j) == k2);
        assert(t.fields[k1].ty == s.fields[k2].ty);
    }
    assert(m1 =~= m2);
}

/// The record a generated construction expression denotes when its
/// initializers stand at field names: each name mapped to the
/// capability-derived default of the type declared at it.
pub open spec fn generated_named_map(g: GeneratedImplV, env: Seq<Option<Val>>) -> Map<
    Seq<char>,
    Val,
> {
    Map::new(
        |n: Seq<char>|
            exists|i: int|
                0 <= i < g.inits.len() && (#[trigger] g.inits[i].key) == FieldKeyV::NamedV(n),
        |n: Seq<char>|
            ty_default(
                g.inits[choose|i: int|
                    0 <= i < g.inits.len() && (#[trigger] g.inits[i].key) == FieldKeyV::NamedV(
                        n,
                    )].ty,
                env,
            ),
    )
}

/// For an all-named struct shape, the record the generated constant
/// denotes is exactly the shape's own name-to-default record.
pub proof fn lemma_generated_named_map_matches(s: StructShapeV, c: CrateRefV, env: Seq<Option<Val>>)
    requires
        shape_all_named(s),
        distinct_field_names(s),
    ensures
        generated_named_map(spec_generate(s, c), env) == named_default_map(s, env),
{
    let g = spec_generate(s, c);
    let m1 = generated_named_map(g, env);
    let m2 = named_default_map(s, env);
    assert forall|i: int| 0 <= i < g.inits.len() implies #[trigger] g.inits[i].key == spec_key_of(
        s.fields[i],
        i as nat,
    ) && g.inits[i].ty == s.fields[i].ty by {}
    assert forall|n: Seq<char>| m1.dom().contains(n) <==> m2.dom().contains(n) by {
        if exists|i: int|
            0 <= i < g.inits.len() && (#[trigger] g.inits[i].key) == FieldKeyV::NamedV(n) {
            let i = choose|i: int|
                0 <= i < g.inits.len() && (#[trigger] g.inits[i].key) == FieldKeyV::NamedV(n);
            assert(s.fields[i].name is Some);
            assert(s.fields[i].name == Option::Some(n));
        }
        if exists|i: int|
            0 <= i < s.fields.len() && (#[trigger] s.fields[i].name) == Option::Some(n) {
            let i = choose|i: int|
                0 <= i < s.fields.len() && (#[trigger] s.fields[i].name) == Option::Some(n);
            assert(g.inits[i].key == FieldKeyV::NamedV(n));
        }
    }
    assert forall|n: Seq<char>| m2.dom().contains(n) implies m1[n] == m2[n] by {
        let i1 = choose|i: int|
            0 <= i < g.inits.len() && (#[trigger] g.inits[i].key) == FieldKeyV::NamedV(n);
        let i2 = choose|i: int|
            0 <= i < s.fields.len() && (#[trigger] s.fields[i].name) == Option::Some(n);
        assert(s.fields[i2].name == Option::Some(n));
        assert(g.inits[i2].key == FieldKeyV::NamedV(n));
        assert(s.fields[i1].name is Some);
        assert(s.fields[i1].name == Option::Some(n));
        assert(i1 == i2);
    }
    assert(m1 =~= m2);
}

/// Swapping two field declarations of a named struct leaves the record
/// its generated constant denotes unchanged.
pub proof fn lemma_named_swap_generated_unchanged(
    s: StructShapeV,
    c: CrateRefV,
    env: Seq<Option<Val>>,
    i: int,
    j: int,
)
    requires
        0 <= i < s.fields.len(),
        0 <= j < s.fields.len(),
        shape_all_named(s),
        distinct_field_names(s),
    ensures
        generated_named_map(spec_generate(swap_fields(s, i, j), c), env) == generated_named_map(
            spec_generate(s, c),
            env,
        ),
{
    let t = swap_fields(s, i, j);
    assert forall|k: int| 0 <= k < t.fields.len() implies #[trigger] t.fields[k]
        == s.fields[swap_index(k, i, j)] by {}
    assert(shape_all_named(t));
    assert forall|k1: int, k2: int|
        0 <= k1 < t.fields.len() && 0 <= k2 < t.fields.len() && k1 != k2 implies (
        #[trigger] t.fields[k1].name) != (#[trigger] t.fields[k2].name) by {
        assert(swap_index(k1, i, j) != swap_index(k2, i, j));
    }
    lemma_generated_named_map_matches(t, c, env);
    lemma_generated_named_map_matches(s, c, env);
    lemma_named_swap_value_unchanged(s, env, i, j);
}

/// Swapping two field declarations permutes the generated initializer
/// values accordingly; the denoted constant is unchanged exactly when
/// the two fields' defaults are equal.
pub proof fn lemma_positional_swap(
    s: StructShapeV,
    c: CrateRefV,
    env: Seq<Option<Val>>,
    i: int,
    j: int,
)
    requires
        0 <= i < s.fields.len(),
        0 <= j < s.fields.len(),
    ensures
        eval_inits(spec_generate(swap_fields(s, i, j), c).inits, env) == eval_inits(
            spec_generate(s, c).inits,
            env,
        ).update(i, ty_default(s.fields[j].ty, env)).update(j, ty_default(s.fields[i].ty, env)),
        (eval_inits(spec_generate(swap_fields(s, i, j), c).inits, env) == eval_inits(
            spec_generate(s, c).inits,
            env,
        )) <==> ty_default(s.fields[i].ty, env) == ty_default(s.fields[j].ty, env),
{
    let t = swap_fields(s, i, j);
    let before = eval_inits(spec_generate(s, c).inits, env);
    let after = eval_inits(spec_generate(t, c).inits, env);
    let permuted = before.update(i, ty_default(s.fields[j].ty, env)).update(
        j,
        ty_default(s.fields[i].ty, env),
    );
    assert forall|k: int| 0 <= k < t.fields.len() implies #[trigger] t.fields[k]
        == s.fields[swap_index(k, i, j)] by {}
    assert(after =~= permuted);
    if ty_default(s.fields[i].ty, env) == ty_default(s.fields[j].ty, env) {
        assert(after =~= before);
    }
    if after == before {
        assert(before[i] == after[i]);
    }
}

} // verus!

