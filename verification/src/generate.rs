//! The struct-default code generator: a pure, single-pass
//! transformation from a struct shape to the implementation of the
//! default-value capability for that struct — one capability-derived
//! initializer per field in declaration order, and one capability
//! constraint per field type — together with the hygienic reference to
//! the capability crate. Non-struct shapes are rejected with a
//! diagnostic; that is the only error this component raises.

use vstd::prelude::*;
use vstd::string::StringExecFns;

use crate::shape::{CrateRef, CrateRefV, FieldV, ShapeInput, StructShape, StructShapeV, Ty, clone_ty};

verus! {

/// Where a generated initializer stands in the construction expression:
/// at a field name, or at a position of a tuple-style struct.
#[derive(Debug, PartialEq, Eq)]
pub enum FieldKey {
    Named(String),
    Positional(usize),
}

/// The mathematical image of a [`FieldKey`].
pub ghost enum FieldKeyV {
    NamedV(Seq<char>),
    PositionalV(nat),
}

impl View for FieldKey {
    type V = FieldKeyV;

    open spec fn view(&self) -> FieldKeyV {
        match self {
            FieldKey::Named(s) => FieldKeyV::NamedV(s@),
            FieldKey::Positional(n) => FieldKeyV::PositionalV(*n as nat),
        }
    }
}

/// One initializer of the generated construction expression: the field
/// it initializes, set to the capability-derived default of the
/// declared type it carries.
#[derive(Debug, PartialEq, Eq)]
pub struct FieldInit {
    pub key: FieldKey,
    pub ty: Ty,
}

/// The mathematical image of a [`FieldInit`].
pub ghost struct FieldInitV {
    pub key: FieldKeyV,
    pub ty: Ty,
}

impl View for FieldInit {
    type V = FieldInitV;

    open spec fn view(&self) -> FieldInitV {
        FieldInitV { key: self.key@, ty: self.ty }
    }
}

/// The generated implementation of the capability for one struct: the
/// reference path to the capability crate, the struct's own identifier
/// and generic-parameter count, the initializer list in declaration
/// order, and the constraint set — one capability bound per field type,
/// in the same order.
#[derive(Debug, PartialEq, Eq)]
pub struct GeneratedImpl {
    pub crate_path: String,
    pub self_ident: String,
    pub n_params: usize,
    pub inits: Vec<FieldInit>,
    pub bounds: Vec<Ty>,
}

/// The mathematical image of a [`GeneratedImpl`].
pub ghost struct GeneratedImplV {
    pub crate_path: Seq<char>,
    pub self_ident: Seq<char>,
    pub n_params: nat,
    pub inits: Seq<FieldInitV>,
    pub bounds: Seq<Ty>,
}

impl View for GeneratedImpl {
    type V = GeneratedImplV;

    open spec fn view(&self) -> GeneratedImplV {
        GeneratedImplV {
            crate_path: self.crate_path@,
            self_ident: self.self_ident@,
            n_params: self.n_params as nat,
            inits: Seq::new(self.inits@.len(), |i: int| self.inits@[i]@),
            bounds: self.bounds@,
        }
    }
}

/// The diagnostic the generator raises: the annotated item is not a
/// struct. Generation aborts for that item alone.
#[derive(Debug, PartialEq, Eq)]
pub enum DeriveError {
    NotAStruct,
}

impl DeriveError {
    /// The diagnostic's wording.
    pub fn message(&self) -> (r: String)
        ensures
            r@ == "ConstDefault derive only works on struct types"@,
    {
        "ConstDefault derive only works on struct types".to_owned()
    }
}

/// The key at which a field is initialized: its name where it has one,
/// its declared position otherwise.
pub open spec fn spec_key_of(f: FieldV, pos: nat) -> FieldKeyV {
    match f.name {
        Option::Some(n) => FieldKeyV::NamedV(n),
        Option::None => FieldKeyV::PositionalV(pos),
    }
}

/// The generated initializer list: in declaration order, each field is
/// initialized at its own key with the capability-derived default of
/// its declared type.
pub open spec fn spec_field_inits(fields: Seq<FieldV>) -> Seq<FieldInitV> {
    Seq::new(fields.len(), |i: int| FieldInitV { key: spec_key_of(fields[i], i as nat), ty: fields[i].ty })
}

/// The generated constraint set: one capability bound per field, on
/// that field's declared type, in declaration order.
pub open spec fn spec_where_bounds(fields: Seq<FieldV>) -> Seq<Ty> {
    Seq::new(fields.len(), |i: int| fields[i].ty)
}

/// The hygienic reference path to the capability crate: the keyword
/// path where the crate generates for itself, and a global path under
/// the consumer's (possibly aliased) dependency name otherwise.
pub open spec fn spec_crate_path(c: CrateRefV) -> Seq<char> {
    match c {
        CrateRefV::ItselfV => "crate"@,
        CrateRefV::NamedV(name) => "::"@ + name,
    }
}

/// The whole generated implementation, as a function of the struct
/// shape and the crate reference alone.
pub open spec fn spec_generate(s: StructShapeV, c: CrateRefV) -> GeneratedImplV {
    GeneratedImplV {
        crate_path: spec_crate_path(c),
        self_ident: s.ident,
        n_params: s.n_params,
        inits: spec_field_inits(s.fields),
        bounds: spec_where_bounds(s.fields),
    }
}

/// Resolves the reference path under which generated code names the
/// capability crate, from the consumer's resolved dependency entry.
pub fn query_crate_ident(found: &CrateRef) -> (r: String)
    ensures
        r@ == spec_crate_path(found@),
{
    match found {
        CrateRef::Itself => "crate".to_owned(),
        CrateRef::Named(name) => {
            let mut path: String = "::".to_owned();
            path.append(name.as_str());
            path
        },
    }
}

/// Builds the construction expression of the generated implementation:
/// one initializer per field, in declaration order, each at the field's
/// name — or at its position, since a tuple-style struct can be
/// constructed with positional keys in a braced expression — and each
/// set to the capability-derived default of the field's declared type.
pub fn generate_default_impl_struct(data: &StructShape) -> (inits: Vec<FieldInit>)
    ensures
        Seq::new(inits@.len(), |i: int| inits@[i]@) == spec_field_inits(data@.fields),
{
    let mut inits: Vec<FieldInit> = Vec::new();
    let n = data.fields.len();
    let mut idx: usize = 0;
    while idx < n
        invariant
            n == data.fields.len(),
            idx <= n,
            inits@.len() == idx,
            forall|i: int| 0 <= i < idx ==> inits@[i]@ == spec_field_inits(data@.fields)[i],
        decreases n - idx,
    {
        let field = &data.fields[idx];
        let key = match &field.name {
            Option::Some(name) => FieldKey::Named(name.clone()),
            Option::None => FieldKey::Positional(idx),
        };
        inits.push(FieldInit { key, ty: clone_ty(&field.ty) });
        idx = idx + 1;
    }
    proof {
        assert(Seq::new(inits@.len(), |i: int| inits@[i]@) =~= spec_field_inits(data@.fields));
    }
    inits
}

/// Builds the generated constraint set: for every field, the constraint
/// that the field's declared type itself supports the capability, so a
/// generic struct gets the capability only at instantiations whose
/// arguments have defaults of their own.
pub fn generate_default_impl_where_bounds(data: &StructShape) -> (bounds: Vec<Ty>)
    ensures
        bounds@ == spec_where_bounds(data@.fields),
{
    let mut bounds: Vec<Ty> = Vec::new();
    let n = data.fields.len();
    let mut idx: usize = 0;
    while idx < n
        invariant
            n == data.fields.len(),
            idx <= n,
            bounds@.len() == idx,
            forall|i: int| 0 <= i < idx ==> bounds@[i] == spec_where_bounds(data@.fields)[i],
        decreases n - idx,
    {
        bounds.push(clone_ty(&data.fields[idx].ty));
        idx = idx + 1;
    }
    proof {
        assert(bounds@ =~= spec_where_bounds(data@.fields));
    }
    bounds
}

/// The derive of the default-value capability for struct shapes: a
/// struct shape yields exactly the implementation [`spec_generate`]
/// describes; any other shape is rejected with the not-a-struct
/// diagnostic.
pub fn derive_default(input: &ShapeInput, found: &CrateRef) -> (r: Result<GeneratedImpl, DeriveError>)
    ensures
        *input matches ShapeInput::StructInput(s)
            ==> r matches Ok(g) && g@ == spec_generate(s@, found@),
        !(*input matches ShapeInput::StructInput(_))
            ==> (r matches Err(e) && e == DeriveError::NotAStruct),
{
    match input {
        ShapeInput::StructInput(data) => {
            let crate_path = query_crate_ident(found);
            let inits = generate_default_impl_struct(data);
            let bounds = generate_default_impl_where_bounds(data);
            Result::Ok(GeneratedImpl {
                crate_path,
                self_ident: data.ident.clone(),
                n_params: data.n_params,
                inits,
                bounds,
            })
        },
        _ => Result::Err(DeriveError::NotAStruct),
    }
}

} // verus!
