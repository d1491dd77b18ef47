//! Rendering a generated implementation as source text. The generator
//! proper works on the shape model; this module fixes one canonical
//! spelling for the emitted implementation — positional parameters are
//! written `T0`, `T1`, … — and proves that the renderer produces exactly
//! that spelling, character by character.

use vstd::prelude::*;
use vstd::string::StringExecFns;

use crate::generate::{
    DeriveError, FieldInit, FieldInitV, FieldKey, FieldKeyV, GeneratedImpl, GeneratedImplV,
    derive_default, spec_generate,
};
use crate::shape::{CrateRef, ShapeInput, Ty, TyList};

verus! {

/// The digit character of a value below ten.
pub open spec fn dec_digit(d: nat) -> char {
    if d == 0 {
        '0'
    } else if d == 1 {
        '1'
    } else if d == 2 {
        '2'
    } else if d == 3 {
        '3'
    } else if d == 4 {
        '4'
    } else if d == 5 {
        '5'
    } else if d == 6 {
        '6'
    } else if d == 7 {
        '7'
    } else if d == 8 {
        '8'
    } else {
        '9'
    }
}

/// The decimal spelling of a number, most significant digit first.
pub open spec fn dec_rep(n: nat) -> Seq<char>
    decreases n,
{
    if n < 10 {
        seq![dec_digit(n)]
    } else {
        dec_rep(n / 10).push(dec_digit(n % 10))
    }
}

/// Appends one digit character.
fn push_digit(out: &mut String, d: usize)
    requires
        d < 10,
    ensures
        final(out)@ == old(out)@ + seq![dec_digit(d as nat)],
{
    proof {
        reveal_strlit("0");
        reveal_strlit("1");
        reveal_strlit("2");
        reveal_strlit("3");
        reveal_strlit("4");
        reveal_strlit("5");
        reveal_strlit("6");
        reveal_strlit("7");
        reveal_strlit("8");
        reveal_strlit("9");
    }
    if d == 0 {
        out.append("0");
    } else if d == 1 {
        out.append("1");
    } else if d == 2 {
        out.append("2");
    } else if d == 3 {
        out.append("3");
    } else if d == 4 {
        out.append("4");
    } else if d == 5 {
        out.append("5");
    } else if d == 6 {
        out.append("6");
    } else if d == 7 {
        out.append("7");
    } else if d == 8 {
        out.append("8");
    } else {
        out.append("9");
    }
    proof {
        assert(out@ =~= old(out)@ + seq![dec_digit(d as nat)]);
    }
}

/// Appends the decimal spelling of a number.
pub fn push_decimal(out: &mut String, n: usize)
    ensures
        final(out)@ == old(out)@ + dec_rep(n as nat),
    decreases n,
{
    if n >= 10 {
        push_decimal(out, n / 10);
    }
    push_digit(out, n % 10);
    proof {
        assert(out@ =~= old(out)@ + dec_rep(n as nat));
    }
}

/// The canonical spelling of a declared type: primitive names, the
/// unit and tuple forms, `Option<…>`, the array form, `T0`, `T1`, … for
/// the struct's positional parameters, and an opaque type's own source
/// text.
pub open spec fn spec_render_ty(t: Ty) -> Seq<char>
    decreases t,
{
    match t {
        Ty::U8 => "u8"@,
        Ty::U16 => "u16"@,
        Ty::U32 => "u32"@,
        Ty::U64 => "u64"@,
        Ty::U128 => "u128"@,
        Ty::Usize => "usize"@,
        Ty::I8 => "i8"@,
        Ty::I16 => "i16"@,
        Ty::I32 => "i32"@,
        Ty::I64 => "i64"@,
        Ty::I128 => "i128"@,
        Ty::Isize => "isize"@,
        Ty::Bool => "bool"@,
        Ty::Char => "char"@,
        Ty::Unit => "()"@,
        Ty::OptionOf(inner) => "Option<"@ + spec_render_ty(*inner) + ">"@,
        Ty::ArrayOf(inner, n) => "["@ + spec_render_ty(*inner) + "; "@ + dec_rep(n as nat)
            + "]"@,
        Ty::TupleOf(components) => "("@ + spec_render_ty_list(*components) + ")"@,
        Ty::Param(i) => "T"@ + dec_rep(i as nat),
        Ty::Opaque(text) => text@,
    }
}

/// The comma-separated spellings of a tuple's component types.
pub open spec fn spec_render_ty_list(l: TyList) -> Seq<char>
    decreases l,
{
    match l {
        TyList::TNil => Seq::<char>::empty(),
        TyList::TCons(first, rest) => match *rest {
            TyList::TNil => spec_render_ty(*first),
            TyList::TCons(_, _) => spec_render_ty(*first) + ", "@ + spec_render_ty_list(*rest),
        },
    }
}

/// Appends the canonical spelling of a declared type.
pub fn render_ty(out: &mut String, t: &Ty)
    ensures
        final(out)@ == old(out)@ + spec_render_ty(*t),
    decreases *t,
{
    match t {
        Ty::U8 => out.append("u8"),
        Ty::U16 => out.append("u16"),
        Ty::U32 => out.append("u32"),
        Ty::U64 => out.append("u64"),
        Ty::U128 => out.append("u128"),
        Ty::Usize => out.append("usize"),
        Ty::I8 => out.append("i8"),
        Ty::I16 => out.append("i16"),
        Ty::I32 => out.append("i32"),
        Ty::I64 => out.append("i64"),
        Ty::I128 => out.append("i128"),
        Ty::Isize => out.append("isize"),
        Ty::Bool => out.append("bool"),
        Ty::Char => out.append("char"),
        Ty::Unit => out.append("()"),
        Ty::OptionOf(inner) => {
            out.append("Option<");
            render_ty(out, inner);
            out.append(">");
        },
        Ty::ArrayOf(inner, n) => {
            out.append("[");
            render_ty(out, inner);
            out.append("; ");
            push_decimal(out, *n);
            out.append("]");
        },
        Ty::TupleOf(components) => {
            out.append("(");
            render_ty_list(out, components);
            out.append(")");
        },
        Ty::Param(i) => {
            out.append("T");
            push_decimal(out, *i);
        },
        Ty::Opaque(text) => out.append(text.as_str()),
    }
    proof {
        assert(out@ =~= old(out)@ + spec_render_ty(*t));
    }
}

/// Appends the comma-separated spellings of a tuple's component types.
pub fn render_ty_list(out: &mut String, l: &TyList)
    ensures
        final(out)@ == old(out)@ + spec_render_ty_list(*l),
    decreases *l,
{
    match l {
        TyList::TNil => {},
        TyList::TCons(first, rest) => {
            render_ty(out, first);
            match &**rest {
                TyList::TNil => {},
                TyList::TCons(_, _) => {
                    out.append(", ");
                    render_ty_list(out, rest);
                },
            }
        },
    }
    proof {
        assert(out@ =~= old(out)@ + spec_render_ty_list(*l));
    }
}

/// The canonical generic-parameter list `T0, T1, …` of the given
/// length.
pub open spec fn spec_render_params(n: nat) -> Seq<char>
    decreases n,
{
    if n == 0 {
        Seq::<char>::empty()
    } else if n == 1 {
        "T"@ + dec_rep(0)
    } else {
        spec_render_params((n - 1) as nat) + ", T"@ + dec_rep((n - 1) as nat)
    }
}

/// Appends the canonical generic-parameter list of the given length.
pub fn render_params(out: &mut String, n: usize)
    ensures
        final(out)@ == old(out)@ + spec_render_params(n as nat),
{
    let mut k: usize = 0;
    while k < n
        invariant
            k <= n,
            out@ == old(out)@ + spec_render_params(k as nat),
        decreases n - k,
    {
        if k > 0 {
            out.append(", ");
        }
        out.append("T");
        push_decimal(out, k);
        k = k + 1;
        proof {
            reveal_strlit(", ");
            reveal_strlit("T");
            reveal_strlit(", T");
            assert(out@ =~= old(out)@ + spec_render_params(k as nat));
        }
    }
}

/// The spelling of the key an initializer stands at: the field's name,
/// or its position in a tuple-style struct.
pub open spec fn spec_render_key(k: FieldKeyV) -> Seq<char> {
    match k {
        FieldKeyV::NamedV(name) => name,
        FieldKeyV::PositionalV(p) => dec_rep(p),
    }
}

/// The spelling of one generated initializer: the field's key set to
/// the capability-derived default of its declared type, named through
/// the capability crate's path.
pub open spec fn spec_render_init(init: FieldInitV, path: Seq<char>) -> Seq<char> {
    spec_render_key(init.key) + ": <"@ + spec_render_ty(init.ty) + " as "@ + path
        + "::ConstDefault>::DEFAULT"@
}

/// The comma-separated spellings of the generated initializers.
pub open spec fn spec_render_inits(inits: Seq<FieldInitV>, path: Seq<char>) -> Seq<char>
    decreases inits.len(),
{
    if inits.len() == 0 {
        Seq::<char>::empty()
    } else if inits.len() == 1 {
        spec_render_init(inits[0], path)
    } else {
        spec_render_inits(inits.drop_last(), path) + ", "@ + spec_render_init(inits.last(), path)
    }
}

/// The spelling of one generated constraint: the field's declared type
/// bound by the capability.
pub open spec fn spec_render_bound(t: Ty, path: Seq<char>) -> Seq<char> {
    spec_render_ty(t) + ": "@ + path + "::ConstDefault"@
}

/// The comma-separated spellings of the generated constraint set.
pub open spec fn spec_render_bounds(bounds: Seq<Ty>, path: Seq<char>) -> Seq<char>
    decreases bounds.len(),
{
    if bounds.len() == 0 {
        Seq::<char>::empty()
    } else if bounds.len() == 1 {
        spec_render_bound(bounds[0], path)
    } else {
        spec_render_bounds(bounds.drop_last(), path) + ", "@ + spec_render_bound(
            bounds.last(),
            path,
        )
    }
}

/// Appends one generated initializer.
fn render_init(out: &mut String, init: &FieldInit, path: &String)
    ensures
        final(out)@ == old(out)@ + spec_render_init(init@, path@),
{
    match &init.key {
        FieldKey::Named(name) => out.append(name.as_str()),
        FieldKey::Positional(p) => push_decimal(out, *p),
    }
    out.append(": <");
    render_ty(out, &init.ty);
    out.append(" as ");
    out.append(path.as_str());
    out.append("::ConstDefault>::DEFAULT");
    proof {
        assert(out@ =~= old(out)@ + spec_render_init(init@, path@));
    }
}

/// Appends the comma-separated generated initializers.
fn render_inits(out: &mut String, inits: &Vec<FieldInit>, path: &String)
    ensures
        final(out)@ == old(out)@ + spec_render_inits(
            Seq::new(inits@.len(), |i: int| inits@[i]@),
            path@,
        ),
{
    let ghost view = Seq::new(inits@.len(), |i: int| inits@[i]@);
    let n = inits.len();
    let mut k: usize = 0;
    while k < n
        invariant
            k <= n,
            n == inits@.len(),
            view == Seq::new(inits@.len(), |i: int| inits@[i]@),
            out@ == old(out)@ + spec_render_inits(view.take(k as int), path@),
        decreases n - k,
    {
        if k > 0 {
            out.append(", ");
        }
        render_init(out, &inits[k], path);
        k = k + 1;
        proof {
            assert(view.take(k as int).drop_last() =~= view.take(k as int - 1));
            assert(view.take(k as int).last() == view[k as int - 1]);
            assert(out@ =~= old(out)@ + spec_render_inits(view.take(k as int), path@));
        }
    }
    proof {
        assert(view.take(n as int) =~= view);
    }
}

/// Appends the comma-separated generated constraint set.
fn render_bounds(out: &mut String, bounds: &Vec<Ty>, path: &String)
    ensures
        final(out)@ == old(out)@ + spec_render_bounds(bounds@, path@),
{
    let n = bounds.len();
    let mut k: usize = 0;
    while k < n
        invariant
            k <= n,
            n == bounds@.len(),
            out@ == old(out)@ + spec_render_bounds(bounds@.take(k as int), path@),
        decreases n - k,
    {
        if k > 0 {
            out.append(", ");
        }
        render_ty(out, &bounds[k]);
        out.append(": ");
        out.append(path.as_str());
        out.append("::ConstDefault");
        k = k + 1;
        proof {
            assert(bounds@.take(k as int).drop_last() =~= bounds@.take(k as int - 1));
            assert(bounds@.take(k as int).last() == bounds@[k as int - 1]);
            assert(out@ =~= old(out)@ + spec_render_bounds(bounds@.take(k as int), path@));
        }
    }
    proof {
        assert(bounds@.take(n as int) =~= bounds@);
    }
}

/// The canonical source text of a whole generated implementation: the
/// implementation header with the struct's generic parameters, the
/// constraint set as its where clause, and the constant set to the
/// construction expression with one capability-derived initializer per
/// field.
pub open spec fn spec_render_impl(g: GeneratedImplV) -> Seq<char> {
    "impl"@ + (if g.n_params == 0 {
        Seq::<char>::empty()
    } else {
        "<"@ + spec_render_params(g.n_params) + ">"@
    }) + " "@ + g.crate_path + "::ConstDefault for "@ + g.self_ident + (if g.n_params == 0 {
        Seq::<char>::empty()
    } else {
        "<"@ + spec_render_params(g.n_params) + ">"@
    }) + (if g.bounds.len() == 0 {
        Seq::<char>::empty()
    } else {
        " where "@ + spec_render_bounds(g.bounds, g.crate_path)
    }) + (if g.inits.len() == 0 {
        " { const DEFAULT: Self = Self {}; }"@
    } else {
        " { const DEFAULT: Self = Self { "@ + spec_render_inits(g.inits, g.crate_path)
            + " }; }"@
    })
}

/// Renders a generated implementation as its canonical source text.
pub fn render_generated(g: &GeneratedImpl) -> (r: String)
    ensures
        r@ == spec_render_impl(g@),
{
    let mut out = String::new();
    out.append("impl");
    if g.n_params > 0 {
        out.append("<");
        render_params(&mut out, g.n_params);
        out.append(">");
    }
    out.append(" ");
    out.append(g.crate_path.as_str());
    out.append("::ConstDefault for ");
    out.append(g.self_ident.as_str());
    if g.n_params > 0 {
        out.append("<");
        render_params(&mut out, g.n_params);
        out.append(">");
    }
    if g.bounds.len() > 0 {
        out.append(" where ");
        render_bounds(&mut out, &g.bounds, &g.crate_path);
    }
    if g.inits.len() > 0 {
        out.append(" { const DEFAULT: Self = Self { ");
        render_inits(&mut out, &g.inits, &g.crate_path);
        out.append(" }; }");
    } else {
        out.append(" { const DEFAULT: Self = Self {}; }");
    }
    proof {
        assert(out@ =~= spec_render_impl(g@));
    }
    out
}

/// The derive pipeline ending in source text: for a struct shape, the
/// canonical spelling of exactly the implementation the generator
/// describes; for any other shape, the not-a-struct diagnostic.
pub fn derive_default_source(input: &ShapeInput, found: &CrateRef) -> (r: Result<
    String,
    DeriveError,
>)
    ensures
        *input matches ShapeInput::StructInput(s) ==> (r matches Ok(text) && text@
            == spec_render_impl(spec_generate(s@, found@))),
        !(*input matches ShapeInput::StructInput(_)) ==> (r matches Err(e) && e
            == DeriveError::NotAStruct),
{
    match derive_default(input, found) {
        Result::Ok(g) => Result::Ok(render_generated(&g)),
        Result::Err(e) => Result::Err(e),
    }
}

} // verus!
