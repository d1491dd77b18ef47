//! A compile-time default-value capability: the [`ConstDefault`] trait
//! associates one canonical constant with a type, and the modules below
//! model the code generator that derives that capability for structs by
//! composing the defaults of their fields.

use vstd::prelude::*;

pub mod eval;
pub mod generate;
pub mod render;
pub mod resolve;
pub mod shape;

verus! {

/// The default-value capability: a type with exactly one designated
/// canonical constant value, usable wherever a literal is usable.
pub trait ConstDefault: Sized {
    const DEFAULT: Self;
}

/// An association of a single constant of type `Output` with an
/// implementing type; the parameter `T` lets one type carry several
/// such associations.
pub trait ConstValue<T> {
    type Output: Sized;

    const VALUE: Self::Output;
}

impl ConstDefault for u8 {
    const DEFAULT: Self = 0;
}

impl ConstDefault for u16 {
    const DEFAULT: Self = 0;
}

impl ConstDefault for u32 {
    const DEFAULT: Self = 0;
}

impl ConstDefault for u64 {
    const DEFAULT: Self = 0;
}

impl ConstDefault for u128 {
    const DEFAULT: Self = 0;
}

impl ConstDefault for usize {
    const DEFAULT: Self = 0;
}

impl ConstDefault for i8 {
    const DEFAULT: Self = 0;
}

impl ConstDefault for i16 {
    const DEFAULT: Self = 0;
}

impl ConstDefault for i32 {
    const DEFAULT: Self = 0;
}

impl ConstDefault for i64 {
    const DEFAULT: Self = 0;
}

impl ConstDefault for i128 {
    const DEFAULT: Self = 0;
}

impl ConstDefault for isize {
    const DEFAULT: Self = 0;
}

impl ConstDefault for bool {
    const DEFAULT: Self = false;
}

impl ConstDefault for char {
    const DEFAULT: Self = '\0';
}

impl ConstDefault for () {
    const DEFAULT: Self = ();
}

impl<T> ConstDefault for Option<T> {
    const DEFAULT: Self = None;
}

impl<A: ConstDefault> ConstDefault for (A,) {
    const DEFAULT: Self = (A::DEFAULT,);
}

impl<A: ConstDefault, B: ConstDefault> ConstDefault for (A, B) {
    const DEFAULT: Self = (A::DEFAULT, B::DEFAULT);
}

impl<A: ConstDefault, B: ConstDefault, C: ConstDefault> ConstDefault for (A, B, C) {
    const DEFAULT: Self = (A::DEFAULT, B::DEFAULT, C::DEFAULT);
}

impl<A: ConstDefault, B: ConstDefault, C: ConstDefault, D: ConstDefault> ConstDefault for (A, B, C, D) {
    const DEFAULT: Self = (A::DEFAULT, B::DEFAULT, C::DEFAULT, D::DEFAULT);
}

impl<A: ConstDefault, B: ConstDefault, C: ConstDefault, D: ConstDefault, E: ConstDefault> ConstDefault for (A, B, C, D, E) {
    const DEFAULT: Self = (A::DEFAULT, B::DEFAULT, C::DEFAULT, D::DEFAULT, E::DEFAULT);
}

impl<A: ConstDefault, B: ConstDefault, C: ConstDefault, D: ConstDefault, E: ConstDefault, F: ConstDefault> ConstDefault for (A, B, C, D, E, F) {
    const DEFAULT: Self = (A::DEFAULT, B::DEFAULT, C::DEFAULT, D::DEFAULT, E::DEFAULT, F::DEFAULT);
}

impl<A: ConstDefault, B: ConstDefault, C: ConstDefault, D: ConstDefault, E: ConstDefault, F: ConstDefault, G: ConstDefault> ConstDefault for (A, B, C, D, E, F, G) {
    const DEFAULT: Self = (A::DEFAULT, B::DEFAULT, C::DEFAULT, D::DEFAULT, E::DEFAULT, F::DEFAULT, G::DEFAULT);
}

impl<A: ConstDefault, B: ConstDefault, C: ConstDefault, D: ConstDefault, E: ConstDefault, F: ConstDefault, G: ConstDefault, H: ConstDefault> ConstDefault for (A, B, C, D, E, F, G, H) {
    const DEFAULT: Self = (A::DEFAULT, B::DEFAULT, C::DEFAULT, D::DEFAULT, E::DEFAULT, F::DEFAULT, G::DEFAULT, H::DEFAULT);
}

impl<A: ConstDefault, B: ConstDefault, C: ConstDefault, D: ConstDefault, E: ConstDefault, F: ConstDefault, G: ConstDefault, H: ConstDefault, I: ConstDefault> ConstDefault for (A, B, C, D, E, F, G, H, I) {
    const DEFAULT: Self = (A::DEFAULT, B::DEFAULT, C::DEFAULT, D::DEFAULT, E::DEFAULT, F::DEFAULT, G::DEFAULT, H::DEFAULT, I::DEFAULT);
}

impl<A: ConstDefault, B: ConstDefault, C: ConstDefault, D: ConstDefault, E: ConstDefault, F: ConstDefault, G: ConstDefault, H: ConstDefault, I: ConstDefault, J: ConstDefault> ConstDefault for (A, B, C, D, E, F, G, H, I, J) {
    const DEFAULT: Self = (A::DEFAULT, B::DEFAULT, C::DEFAULT, D::DEFAULT, E::DEFAULT, F::DEFAULT, G::DEFAULT, H::DEFAULT, I::DEFAULT, J::DEFAULT);
}

impl<A: ConstDefault, B: ConstDefault, C: ConstDefault, D: ConstDefault, E: ConstDefault, F: ConstDefault, G: ConstDefault, H: ConstDefault, I: ConstDefault, J: ConstDefault, K: ConstDefault> ConstDefault for (A, B, C, D, E, F, G, H, I, J, K) {
    const DEFAULT: Self = (A::DEFAULT, B::DEFAULT, C::DEFAULT, D::DEFAULT, E::DEFAULT, F::DEFAULT, G::DEFAULT, H::DEFAULT, I::DEFAULT, J::DEFAULT, K::DEFAULT);
}

impl<A: ConstDefault, B: ConstDefault, C: ConstDefault, D: ConstDefault, E: ConstDefault, F: ConstDefault, G: ConstDefault, H: ConstDefault, I: ConstDefault, J: ConstDefault, K: ConstDefault, L: ConstDefault> ConstDefault for (A, B, C, D, E, F, G, H, I, J, K, L) {
    const DEFAULT: Self = (A::DEFAULT, B::DEFAULT, C::DEFAULT, D::DEFAULT, E::DEFAULT, F::DEFAULT, G::DEFAULT, H::DEFAULT, I::DEFAULT, J::DEFAULT, K::DEFAULT, L::DEFAULT);
}

impl<T> ConstDefault for core::marker::PhantomData<T> {
    const DEFAULT: Self = core::marker::PhantomData;
}

impl<'a> ConstDefault for &'a str {
    const DEFAULT: Self = "";
}

/// Every numeric default the registry supplies is numeric zero, the
/// boolean default is `false`, and the character default is the null
/// character.
pub proof fn lemma_registry_canonical()
    ensures
        u8::DEFAULT == 0u8,
        u16::DEFAULT == 0u16,
        u32::DEFAULT == 0u32,
        u64::DEFAULT == 0u64,
        u128::DEFAULT == 0u128,
        usize::DEFAULT == 0usize,
        i8::DEFAULT == 0i8,
        i16::DEFAULT == 0i16,
        i32::DEFAULT == 0i32,
        i64::DEFAULT == 0i64,
        i128::DEFAULT == 0i128,
        isize::DEFAULT == 0isize,
        bool::DEFAULT == false,
        char::DEFAULT == '\0',
{
}

/// The default of the optional-value wrapper is always the absent
/// variant, whatever the wrapped type.
pub proof fn lemma_option_default_absent<T>()
    ensures
        Option::<T>::DEFAULT is None,
{
}

/// A pair's default is the pair of its components' defaults.
pub proof fn lemma_pair_default_componentwise<A: ConstDefault, B: ConstDefault>()
    ensures
        <(A, B)>::DEFAULT == (A::DEFAULT, B::DEFAULT),
{
}

} // verus!
