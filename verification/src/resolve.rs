//! The recursive default resolver: the mathematical meaning of
//! "capability-derived default" for a declared type, together with a
//! verified executable resolver. A generic parameter's default is
//! looked up in an environment, so a generated implementation for a
//! generic struct has a default exactly when every instantiated
//! parameter has one.

use vstd::prelude::*;

use crate::shape::{Ty, TyList, tylist_len};

verus! {

/// Fixed-size arrays are covered up to this length.
pub const MAX_ARRAY_LEN: usize = 32;

/// Tuples are covered up to this arity.
pub const MAX_TUPLE_ARITY: usize = 12;

/// A constant value, as the model evaluates defaults: numbers, the
/// boolean and character values, unit, the absent variant of the
/// optional wrapper, and aggregates of further values.
#[derive(Debug, PartialEq, Eq)]
pub enum Val {
    UintVal(u128),
    IntVal(i128),
    BoolVal(bool),
    CharVal(char),
    UnitVal,
    AbsentVal,
    ArrayVal(ValList),
    TupleVal(ValList),
}

/// The elements of an aggregate value, in order.
#[derive(Debug, PartialEq, Eq)]
pub enum ValList {
    VNil,
    VCons(Box<Val>, Box<ValList>),
}

/// The number of elements of an aggregate value.
pub open spec fn vallist_len(l: ValList) -> nat
    decreases l,
{
    match l {
        ValList::VNil => 0,
        ValList::VCons(_, rest) => 1 + vallist_len(*rest),
    }
}

/// An environment assigning to each generic parameter of the struct
/// under generation the default of its instantiated type, where that
/// type has one.
pub type Env = Vec<Option<Val>>;

/// Whether a declared type has a capability-derived default under the
/// given parameter environment.
pub open spec fn ty_has_default(t: Ty, env: Seq<Option<Val>>) -> bool
    decreases t,
{
    match t {
        Ty::OptionOf(_) => true,
        Ty::ArrayOf(inner, n) => n <= MAX_ARRAY_LEN && ty_has_default(*inner, env),
        Ty::TupleOf(components) => tylist_len(*components) <= MAX_TUPLE_ARITY
            && tylist_all_have_default(*components, env),
        Ty::Param(i) => i < env.len() && env[i as int] is Some,
        Ty::Opaque(_) => false,
        _ => true,
    }
}

/// Whether every component type of a tuple has a default.
pub open spec fn tylist_all_have_default(l: TyList, env: Seq<Option<Val>>) -> bool
    decreases l,
{
    match l {
        TyList::TNil => true,
        TyList::TCons(first, rest) => ty_has_default(*first, env)
            && tylist_all_have_default(*rest, env),
    }
}

/// The same value, `n` times over.
pub open spec fn replicate(v: Val, n: nat) -> ValList
    decreases n,
{
    if n == 0 {
        ValList::VNil
    } else {
        ValList::VCons(Box::new(v), Box::new(replicate(v, (n - 1) as nat)))
    }
}

/// The capability-derived default of a declared type under the given
/// parameter environment: numeric zero, `false`, the null character,
/// unit, the absent variant for the optional wrapper regardless of the
/// wrapped type, and componentwise defaults for arrays and tuples.
/// Meaningful where [`ty_has_default`] holds.
pub open spec fn ty_default(t: Ty, env: Seq<Option<Val>>) -> Val
    decreases t,
{
    match t {
        Ty::I8 | Ty::I16 | Ty::I32 | Ty::I64 | Ty::I128 | Ty::Isize => Val::IntVal(0),
        Ty::Bool => Val::BoolVal(false),
        Ty::Char => Val::CharVal('\0'),
        Ty::Unit => Val::UnitVal,
        Ty::OptionOf(_) => Val::AbsentVal,
        Ty::ArrayOf(inner, n) => Val::ArrayVal(replicate(ty_default(*inner, env), n as nat)),
        Ty::TupleOf(components) => Val::TupleVal(tylist_defaults(*components, env)),
        Ty::Param(i) => if i < env.len() && env[i as int] is Some {
            env[i as int]->0
        } else {
            Val::UnitVal
        },
        _ => Val::UintVal(0),
    }
}

/// The defaults of a tuple's component types, in order.
pub open spec fn tylist_defaults(l: TyList, env: Seq<Option<Val>>) -> ValList
    decreases l,
{
    match l {
        TyList::TNil => ValList::VNil,
        TyList::TCons(first, rest) => ValList::VCons(
            Box::new(ty_default(*first, env)),
            Box::new(tylist_defaults(*rest, env)),
        ),
    }
}

/// An exact copy of a value.
pub fn clone_val(v: &Val) -> (r: Val)
    ensures
        r == *v,
    decreases *v,
{
    match v {
        Val::UintVal(n) => Val::UintVal(*n),
        Val::IntVal(n) => Val::IntVal(*n),
        Val::BoolVal(b) => Val::BoolVal(*b),
        Val::CharVal(c) => Val::CharVal(*c),
        Val::UnitVal => Val::UnitVal,
        Val::AbsentVal => Val::AbsentVal,
        Val::ArrayVal(elements) => Val::ArrayVal(clone_val_list(elements)),
        Val::TupleVal(elements) => Val::TupleVal(clone_val_list(elements)),
    }
}

/// An exact copy of an element list.
pub fn clone_val_list(l: &ValList) -> (r: ValList)
    ensures
        r == *l,
    decreases *l,
{
    match l {
        ValList::VNil => ValList::VNil,
        ValList::VCons(first, rest) => ValList::VCons(
            Box::new(clone_val(first)),
            Box::new(clone_val_list(rest)),
        ),
    }
}

impl Clone for Val {
    fn clone(&self) -> (r: Self)
        ensures
            r == *self,
    {
        clone_val(self)
    }
}

/// Whether a tuple's component list has at most `k` entries.
pub fn tylist_arity_at_most(l: &TyList, k: usize) -> (r: bool)
    ensures
        r == (tylist_len(*l) <= k),
    decreases *l,
{
    match l {
        TyList::TNil => true,
        TyList::TCons(_, rest) => {
            if k == 0 {
                false
            } else {
                tylist_arity_at_most(rest, k - 1)
            }
        },
    }
}

/// `n` copies of the given value.
pub fn replicate_val(v: &Val, n: usize) -> (r: ValList)
    ensures
        r == replicate(*v, n as nat),
{
    let mut r = ValList::VNil;
    let mut k: usize = 0;
    while k < n
        invariant
            k <= n,
            r == replicate(*v, k as nat),
        decreases n - k,
    {
        r = ValList::VCons(Box::new(clone_val(v)), Box::new(r));
        k = k + 1;
    }
    r
}

/// The executable default resolver: returns the capability-derived
/// default of `t` under `env`, and nothing where `t` has none.
pub fn default_of(t: &Ty, env: &Env) -> (r: Option<Val>)
    ensures
        ty_has_default(*t, env@) ==> r == Option::Some(ty_default(*t, env@)),
        !ty_has_default(*t, env@) ==> r is None,
    decreases *t,
{
    match t {
        Ty::U8 | Ty::U16 | Ty::U32 | Ty::U64 | Ty::U128 | Ty::Usize => {
            Option::Some(Val::UintVal(0))
        },
        Ty::I8 | Ty::I16 | Ty::I32 | Ty::I64 | Ty::I128 | Ty::Isize => {
            Option::Some(Val::IntVal(0))
        },
        Ty::Bool => Option::Some(Val::BoolVal(false)),
        Ty::Char => Option::Some(Val::CharVal('\0')),
        Ty::Unit => Option::Some(Val::UnitVal),
        Ty::OptionOf(_) => Option::Some(Val::AbsentVal),
        Ty::ArrayOf(inner, n) => {
            if *n > MAX_ARRAY_LEN {
                Option::None
            } else {
                match default_of(inner, env) {
                    Option::Some(v) => Option::Some(Val::ArrayVal(replicate_val(&v, *n))),
                    Option::None => Option::None,
                }
            }
        },
        Ty::TupleOf(components) => {
            if !tylist_arity_at_most(components, MAX_TUPLE_ARITY) {
                Option::None
            } else {
                match defaults_of_list(components, env) {
                    Option::Some(l) => Option::Some(Val::TupleVal(l)),
                    Option::None => Option::None,
                }
            }
        },
        Ty::Opaque(_) => Option::None,
        Ty::Param(i) => {
            if *i < env.len() {
                match &env[*i] {
                    Option::Some(v) => Option::Some(clone_val(v)),
                    Option::None => Option::None,
                }
            } else {
                Option::None
            }
        },
    }
}

/// The executable resolver over a tuple's component list: the defaults
/// of all components, in order, and nothing where any component has
/// none.
pub fn defaults_of_list(l: &TyList, env: &Env) -> (r: Option<ValList>)
    ensures
        tylist_all_have_default(*l, env@) ==> r == Option::Some(tylist_defaults(*l, env@)),
        !tylist_all_have_default(*l, env@) ==> r is None,
    decreases *l,
{
    match l {
        TyList::TNil => Option::Some(ValList::VNil),
        TyList::TCons(first, rest) => {
            match default_of(first, env) {
                Option::Some(v) => {
                    match defaults_of_list(rest, env) {
                        Option::Some(vs) => Option::Some(ValList::VCons(
                            Box::new(v),
                            Box::new(vs),
                        )),
                        Option::None => Option::None,
                    }
                },
                Option::None => Option::None,
            }
        },
    }
}

} // verus!
