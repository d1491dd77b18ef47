//! The generator's input model: the shape of an annotated item as the
//! host compiler describes it — the struct's name, its generic-parameter
//! count, and its ordered field list, each field either named or
//! positional and carrying a declared type.

use vstd::prelude::*;

verus! {

/// A field's declared type, as the generator reads it from the struct
/// shape description. A generic parameter of the containing struct is
/// referred to by its position in the parameter list; a type the
/// registry does not cover is carried through opaquely, by its source
/// text, for the emitted constraint to name.
#[derive(Debug, PartialEq, Eq)]
pub enum Ty {
    U8,
    U16,
    U32,
    U64,
    U128,
    Usize,
    I8,
    I16,
    I32,
    I64,
    I128,
    Isize,
    Bool,
    Char,
    Unit,
    OptionOf(Box<Ty>),
    ArrayOf(Box<Ty>, usize),
    TupleOf(Box<TyList>),
    Param(usize),
    Opaque(String),
}

/// The component types of a tuple, in declared order.
#[derive(Debug, PartialEq, Eq)]
pub enum TyList {
    TNil,
    TCons(Box<Ty>, Box<TyList>),
}

/// The number of component types in a tuple type.
pub open spec fn tylist_len(l: TyList) -> nat
    decreases l,
{
    match l {
        TyList::TNil => 0,
        TyList::TCons(_, rest) => 1 + tylist_len(*rest),
    }
}

/// One field of a struct shape: positional fields carry no name.
#[derive(Debug, PartialEq, Eq)]
pub struct Field {
    pub name: Option<String>,
    pub ty: Ty,
}

/// The mathematical image of a [`Field`].
pub ghost struct FieldV {
    pub name: Option<Seq<char>>,
    pub ty: Ty,
}

impl View for Field {
    type V = FieldV;

    open spec fn view(&self) -> FieldV {
        FieldV {
            name: match self.name {
                Option::Some(s) => Option::Some(s@),
                Option::None => Option::None,
            },
            ty: self.ty,
        }
    }
}

/// The shape of a struct item: its identifier, how many generic
/// parameters its declaration carries, and its fields in declaration
/// order.
#[derive(Debug, PartialEq, Eq)]
pub struct StructShape {
    pub ident: String,
    pub n_params: usize,
    pub fields: Vec<Field>,
}

/// The mathematical image of a [`StructShape`].
pub ghost struct StructShapeV {
    pub ident: Seq<char>,
    pub n_params: nat,
    pub fields: Seq<FieldV>,
}

impl View for StructShape {
    type V = StructShapeV;

    open spec fn view(&self) -> StructShapeV {
        StructShapeV {
            ident: self.ident@,
            n_params: self.n_params as nat,
            fields: Seq::new(self.fields@.len(), |i: int| self.fields@[i]@),
        }
    }
}

/// The shape of the annotated item: only struct shapes are accepted by
/// the generator; enum and union shapes are rejected with a diagnostic.
#[derive(Debug, PartialEq, Eq)]
pub enum ShapeInput {
    StructInput(StructShape),
    EnumInput,
    UnionInput,
}

/// How the consuming crate refers to the crate that owns the capability
/// trait: either the trait's own crate is generating for itself, or the
/// consumer depends on it under some (possibly aliased) name.
#[derive(Debug, PartialEq, Eq)]
pub enum CrateRef {
    Itself,
    Named(String),
}

/// The mathematical image of a [`CrateRef`].
pub ghost enum CrateRefV {
    ItselfV,
    NamedV(Seq<char>),
}

impl View for CrateRef {
    type V = CrateRefV;

    open spec fn view(&self) -> CrateRefV {
        match self {
            CrateRef::Itself => CrateRefV::ItselfV,
            CrateRef::Named(s) => CrateRefV::NamedV(s@),
        }
    }
}

/// An exact copy of a declared type.
pub fn clone_ty(t: &Ty) -> (r: Ty)
    ensures
        r == *t,
    decreases *t,
{
    match t {
        Ty::U8 => Ty::U8,
        Ty::U16 => Ty::U16,
        Ty::U32 => Ty::U32,
        Ty::U64 => Ty::U64,
        Ty::U128 => Ty::U128,
        Ty::Usize => Ty::Usize,
        Ty::I8 => Ty::I8,
        Ty::I16 => Ty::I16,
        Ty::I32 => Ty::I32,
        Ty::I64 => Ty::I64,
        Ty::I128 => Ty::I128,
        Ty::Isize => Ty::Isize,
        Ty::Bool => Ty::Bool,
        Ty::Char => Ty::Char,
        Ty::Unit => Ty::Unit,
        Ty::OptionOf(inner) => Ty::OptionOf(Box::new(clone_ty(inner))),
        Ty::ArrayOf(inner, n) => Ty::ArrayOf(Box::new(clone_ty(inner)), *n),
        Ty::TupleOf(components) => Ty::TupleOf(Box::new(clone_ty_list(components))),
        Ty::Param(i) => Ty::Param(*i),
        Ty::Opaque(text) => Ty::Opaque(text.clone()),
    }
}

/// An exact copy of a tuple's component-type list.
pub fn clone_ty_list(l: &TyList) -> (r: TyList)
    ensures
        r == *l,
    decreases *l,
{
    match l {
        TyList::TNil => TyList::TNil,
        TyList::TCons(first, rest) => TyList::TCons(
            Box::new(clone_ty(first)),
            Box::new(clone_ty_list(rest)),
        ),
    }
}

impl Clone for Ty {
    fn clone(&self) -> (r: Self)
        ensures
            r == *self,
    {
        clone_ty(self)
    }
}

} // verus!
