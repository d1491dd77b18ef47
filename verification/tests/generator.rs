use const_default::ConstDefault;
use const_default::eval::eval_generated;
use const_default::generate::{derive_default, query_crate_ident, DeriveError, FieldKey};
use const_default::render::derive_default_source;
use const_default::resolve::{default_of, Env, Val, ValList};
use const_default::shape::{CrateRef, Field, ShapeInput, StructShape, Ty, TyList};

fn tylist_from(tys: Vec<Ty>) -> TyList {
    let mut list = TyList::TNil;
    for ty in tys.into_iter().rev() {
        list = TyList::TCons(Box::new(ty), Box::new(list));
    }
    list
}

fn vallist_from(vals: Vec<Val>) -> ValList {
    let mut list = ValList::VNil;
    for val in vals.into_iter().rev() {
        list = ValList::VCons(Box::new(val), Box::new(list));
    }
    list
}

fn named_field(name: &str, ty: Ty) -> Field {
    Field { name: Some(name.to_owned()), ty }
}

fn positional_field(ty: Ty) -> Field {
    Field { name: None, ty }
}

fn struct_input(ident: &str, n_params: usize, fields: Vec<Field>) -> ShapeInput {
    ShapeInput::StructInput(StructShape { ident: ident.to_owned(), n_params, fields })
}

#[test]
fn registry_defaults_are_canonical() {
    assert_eq!(u8::DEFAULT, 0u8);
    assert_eq!(u32::DEFAULT, 0u32);
    assert_eq!(u128::DEFAULT, 0u128);
    assert_eq!(usize::DEFAULT, 0usize);
    assert_eq!(i8::DEFAULT, 0i8);
    assert_eq!(i64::DEFAULT, 0i64);
    assert_eq!(isize::DEFAULT, 0isize);
    assert_eq!(bool::DEFAULT, false);
    assert_eq!(char::DEFAULT, '\0');
    assert_eq!(<()>::DEFAULT, ());
    assert_eq!(Option::<u64>::DEFAULT, None);
    assert_eq!(Option::<String>::DEFAULT, None);
    assert_eq!(<(u16,)>::DEFAULT, (0u16,));
    assert_eq!(<(u32, bool)>::DEFAULT, (0u32, false));
    assert_eq!(<(u8, char, i16)>::DEFAULT, (0u8, '\0', 0i16));
    assert_eq!(<(u8, u16, u32, u64)>::DEFAULT, (0u8, 0u16, 0u32, 0u64));
    assert_eq!(
        <(u8, u8, u8, u8, u8, u8, u8, u8, u8, u8, u8, u8)>::DEFAULT,
        (0u8, 0u8, 0u8, 0u8, 0u8, 0u8, 0u8, 0u8, 0u8, 0u8, 0u8, 0u8),
    );
    assert_eq!(<&str>::DEFAULT, "");
    assert_eq!(
        std::marker::PhantomData::<String>::DEFAULT,
        std::marker::PhantomData::<String>,
    );
}

#[test]
fn resolver_leaf_defaults() {
    let env: Env = vec![];
    assert_eq!(default_of(&Ty::U32, &env), Some(Val::UintVal(0)));
    assert_eq!(default_of(&Ty::I64, &env), Some(Val::IntVal(0)));
    assert_eq!(default_of(&Ty::Bool, &env), Some(Val::BoolVal(false)));
    assert_eq!(default_of(&Ty::Char, &env), Some(Val::CharVal('\0')));
    assert_eq!(default_of(&Ty::Unit, &env), Some(Val::UnitVal));
    assert_eq!(
        default_of(&Ty::OptionOf(Box::new(Ty::Bool)), &env),
        Some(Val::AbsentVal),
    );
    // The absent variant even where the wrapped type has no default.
    assert_eq!(
        default_of(&Ty::OptionOf(Box::new(Ty::Opaque("String".to_owned()))), &env),
        Some(Val::AbsentVal),
    );
}

#[test]
fn resolver_array_defaults() {
    let env: Env = vec![];
    assert_eq!(
        default_of(&Ty::ArrayOf(Box::new(Ty::Bool), 3), &env),
        Some(Val::ArrayVal(vallist_from(vec![
            Val::BoolVal(false),
            Val::BoolVal(false),
            Val::BoolVal(false),
        ]))),
    );
    assert_eq!(
        default_of(&Ty::ArrayOf(Box::new(Ty::U8), 0), &env),
        Some(Val::ArrayVal(ValList::VNil)),
    );
    assert_eq!(default_of(&Ty::ArrayOf(Box::new(Ty::U8), 32), &env).is_some(), true);
    // Beyond the supported fixed maximum length.
    assert_eq!(default_of(&Ty::ArrayOf(Box::new(Ty::U8), 33), &env), None);
    // An array of a type without a default has none.
    assert_eq!(
        default_of(&Ty::ArrayOf(Box::new(Ty::Opaque("Foo".to_owned())), 2), &env),
        None,
    );
}

#[test]
fn resolver_tuple_defaults() {
    let env: Env = vec![];
    assert_eq!(
        default_of(&Ty::TupleOf(Box::new(tylist_from(vec![Ty::U8, Ty::Bool]))), &env),
        Some(Val::TupleVal(vallist_from(vec![Val::UintVal(0), Val::BoolVal(false)]))),
    );
    let twelve = vec![Ty::U8; 12];
    assert_eq!(
        default_of(&Ty::TupleOf(Box::new(tylist_from(twelve))), &env).is_some(),
        true,
    );
    // Beyond the supported fixed maximum arity.
    let thirteen = vec![Ty::U8; 13];
    assert_eq!(default_of(&Ty::TupleOf(Box::new(tylist_from(thirteen))), &env), None);
}

#[test]
fn resolver_params_and_opaque() {
    let env: Env = vec![Some(Val::IntVal(7)), None];
    assert_eq!(default_of(&Ty::Param(0), &env), Some(Val::IntVal(7)));
    assert_eq!(default_of(&Ty::Param(1), &env), None);
    assert_eq!(default_of(&Ty::Param(2), &env), None);
    assert_eq!(default_of(&Ty::Opaque("String".to_owned()), &env), None);
}

#[test]
fn crate_ident_paths() {
    assert_eq!(query_crate_ident(&CrateRef::Itself), "crate");
    assert_eq!(query_crate_ident(&CrateRef::Named("const_default".to_owned())), "::const_default");
    assert_eq!(query_crate_ident(&CrateRef::Named("alias".to_owned())), "::alias");
}

#[test]
fn generate_named_struct() {
    let input = struct_input(
        "Test",
        0,
        vec![
            named_field("f0", Ty::U32),
            named_field("f1", Ty::OptionOf(Box::new(Ty::Bool))),
        ],
    );
    let generated = derive_default(&input, &CrateRef::Named("const_default".to_owned())).unwrap();
    assert_eq!(generated.crate_path, "::const_default");
    assert_eq!(generated.self_ident, "Test");
    assert_eq!(generated.n_params, 0);
    assert_eq!(generated.inits.len(), 2);
    assert_eq!(generated.inits[0].key, FieldKey::Named("f0".to_owned()));
    assert_eq!(generated.inits[0].ty, Ty::U32);
    assert_eq!(generated.inits[1].key, FieldKey::Named("f1".to_owned()));
    assert_eq!(generated.inits[1].ty, Ty::OptionOf(Box::new(Ty::Bool)));
    assert_eq!(generated.bounds, vec![Ty::U32, Ty::OptionOf(Box::new(Ty::Bool))]);

    // Generation distributes over fields: the generated constant is the
    // structurally default-constructed instance.
    let env: Env = vec![];
    assert_eq!(
        eval_generated(&generated, &env),
        Some(vec![Val::UintVal(0), Val::AbsentVal]),
    );
}

#[test]
fn generate_positional_struct() {
    let input = struct_input(
        "Triple",
        0,
        vec![
            positional_field(Ty::U32),
            positional_field(Ty::Bool),
            positional_field(Ty::Char),
        ],
    );
    let generated = derive_default(&input, &CrateRef::Itself).unwrap();
    assert_eq!(generated.crate_path, "crate");
    assert_eq!(generated.inits[0].key, FieldKey::Positional(0));
    assert_eq!(generated.inits[1].key, FieldKey::Positional(1));
    assert_eq!(generated.inits[2].key, FieldKey::Positional(2));
    let env: Env = vec![];
    assert_eq!(
        eval_generated(&generated, &env),
        Some(vec![Val::UintVal(0), Val::BoolVal(false), Val::CharVal('\0')]),
    );
}

#[test]
fn generate_zero_field_struct() {
    let input = struct_input("Empty", 0, vec![]);
    let generated = derive_default(&input, &CrateRef::Itself).unwrap();
    assert_eq!(generated.inits.len(), 0);
    assert_eq!(generated.bounds.len(), 0);
    let env: Env = vec![];
    // The unique value of a zero-field struct: no field values at all.
    assert_eq!(eval_generated(&generated, &env), Some(vec![]));
}

#[test]
fn generate_rejects_non_structs() {
    let err = derive_default(&ShapeInput::EnumInput, &CrateRef::Itself).unwrap_err();
    assert_eq!(err, DeriveError::NotAStruct);
    assert_eq!(err.message(), "ConstDefault derive only works on struct types");
    let err = derive_default(&ShapeInput::UnionInput, &CrateRef::Itself).unwrap_err();
    assert_eq!(err, DeriveError::NotAStruct);
}

#[test]
fn generate_generic_pair() {
    let input = struct_input(
        "TestGeneric",
        1,
        vec![
            named_field("f0", Ty::Param(0)),
            named_field("f1", Ty::OptionOf(Box::new(Ty::Bool))),
        ],
    );
    let generated = derive_default(&input, &CrateRef::Itself).unwrap();
    assert_eq!(generated.bounds, vec![Ty::Param(0), Ty::OptionOf(Box::new(Ty::Bool))]);

    // Instantiated with a type whose default is numeric zero: the pair's
    // default is that default beside the absent variant.
    let with_default: Env = vec![Some(Val::IntVal(0))];
    assert_eq!(
        eval_generated(&generated, &with_default),
        Some(vec![Val::IntVal(0), Val::AbsentVal]),
    );

    // Instantiated with a type lacking a default: the capability is not
    // available.
    let without_default: Env = vec![None];
    assert_eq!(eval_generated(&generated, &without_default), None);
}

#[test]
fn generation_is_idempotent() {
    let input = struct_input(
        "Test",
        0,
        vec![
            named_field("f0", Ty::U32),
            named_field("f1", Ty::OptionOf(Box::new(Ty::Bool))),
        ],
    );
    let first = derive_default(&input, &CrateRef::Itself).unwrap();
    let second = derive_default(&input, &CrateRef::Itself).unwrap();
    assert_eq!(first, second);
}

#[test]
fn named_swap_keeps_value() {
    let original = struct_input(
        "Pair",
        0,
        vec![named_field("a", Ty::U32), named_field("b", Ty::Bool)],
    );
    let swapped = struct_input(
        "Pair",
        0,
        vec![named_field("b", Ty::Bool), named_field("a", Ty::U32)],
    );
    let env: Env = vec![];
    let g0 = derive_default(&original, &CrateRef::Itself).unwrap();
    let g1 = derive_default(&swapped, &CrateRef::Itself).unwrap();
    let v0 = eval_generated(&g0, &env).unwrap();
    let v1 = eval_generated(&g1, &env).unwrap();
    // Read as a record from names to values, the two constants agree.
    let mut pairs0: Vec<(FieldKey, Val)> = g0.inits.into_iter().map(|i| i.key).zip(v0).collect();
    let mut pairs1: Vec<(FieldKey, Val)> = g1.inits.into_iter().map(|i| i.key).zip(v1).collect();
    pairs0.sort_by(|x, y| format!("{:?}", x.0).cmp(&format!("{:?}", y.0)));
    pairs1.sort_by(|x, y| format!("{:?}", x.0).cmp(&format!("{:?}", y.0)));
    assert_eq!(pairs0, pairs1);
}

#[test]
fn positional_swap_changes_value_only_if_defaults_differ() {
    let env: Env = vec![];

    // Two fields with different defaults: the constant changes.
    let original = struct_input("P", 0, vec![positional_field(Ty::U32), positional_field(Ty::Bool)]);
    let swapped = struct_input("P", 0, vec![positional_field(Ty::Bool), positional_field(Ty::U32)]);
    let v0 = eval_generated(&derive_default(&original, &CrateRef::Itself).unwrap(), &env).unwrap();
    let v1 = eval_generated(&derive_default(&swapped, &CrateRef::Itself).unwrap(), &env).unwrap();
    assert_ne!(v0, v1);

    // Two fields with equal defaults: the constant is unchanged.
    let original = struct_input("Q", 0, vec![positional_field(Ty::U8), positional_field(Ty::U64)]);
    let swapped = struct_input("Q", 0, vec![positional_field(Ty::U64), positional_field(Ty::U8)]);
    let v0 = eval_generated(&derive_default(&original, &CrateRef::Itself).unwrap(), &env).unwrap();
    let v1 = eval_generated(&derive_default(&swapped, &CrateRef::Itself).unwrap(), &env).unwrap();
    assert_eq!(v0, v1);
}

#[test]
fn render_named_struct_source() {
    let input = struct_input(
        "Test",
        0,
        vec![
            named_field("f0", Ty::U32),
            named_field("f1", Ty::OptionOf(Box::new(Ty::Bool))),
        ],
    );
    let text = derive_default_source(&input, &CrateRef::Named("const_default".to_owned())).unwrap();
    assert_eq!(
        text,
        "impl ::const_default::ConstDefault for Test \
         where u32: ::const_default::ConstDefault, Option<bool>: ::const_default::ConstDefault \
         { const DEFAULT: Self = Self { \
         f0: <u32 as ::const_default::ConstDefault>::DEFAULT, \
         f1: <Option<bool> as ::const_default::ConstDefault>::DEFAULT }; }",
    );
}

#[test]
fn render_generic_struct_source() {
    let input = struct_input(
        "TestGeneric",
        1,
        vec![
            named_field("f0", Ty::Param(0)),
            named_field("f1", Ty::OptionOf(Box::new(Ty::Bool))),
        ],
    );
    let text = derive_default_source(&input, &CrateRef::Itself).unwrap();
    assert_eq!(
        text,
        "impl<T0> crate::ConstDefault for TestGeneric<T0> \
         where T0: crate::ConstDefault, Option<bool>: crate::ConstDefault \
         { const DEFAULT: Self = Self { \
         f0: <T0 as crate::ConstDefault>::DEFAULT, \
         f1: <Option<bool> as crate::ConstDefault>::DEFAULT }; }",
    );
}

#[test]
fn render_positional_struct_source() {
    let input = struct_input(
        "W",
        0,
        vec![
            positional_field(Ty::ArrayOf(Box::new(Ty::U8), 256)),
            positional_field(Ty::TupleOf(Box::new(tylist_from(vec![Ty::Bool, Ty::Char])))),
        ],
    );
    let text = derive_default_source(&input, &CrateRef::Itself).unwrap();
    assert_eq!(
        text,
        "impl crate::ConstDefault for W \
         where [u8; 256]: crate::ConstDefault, (bool, char): crate::ConstDefault \
         { const DEFAULT: Self = Self { \
         0: <[u8; 256] as crate::ConstDefault>::DEFAULT, \
         1: <(bool, char) as crate::ConstDefault>::DEFAULT }; }",
    );
}

#[test]
fn render_zero_field_struct_source() {
    let input = struct_input("Empty", 0, vec![]);
    let text = derive_default_source(&input, &CrateRef::Itself).unwrap();
    assert_eq!(text, "impl crate::ConstDefault for Empty { const DEFAULT: Self = Self {}; }");
}

#[test]
fn render_rejects_non_structs() {
    let err = derive_default_source(&ShapeInput::EnumInput, &CrateRef::Itself).unwrap_err();
    assert_eq!(err, DeriveError::NotAStruct);
}
