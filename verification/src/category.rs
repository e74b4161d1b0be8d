//! The income categories of the personal income tax code, as marker types.

use vstd::prelude::*;

verus! {

/// Marker trait of an income category.
pub trait Categoria {

}

/// Dependent-work income.
pub struct A;

/// Business and professional income.
pub struct B;

/// Capital income.
pub struct E;

/// Property income.
pub struct F;

/// Net-worth increments.
pub struct G;

/// Pensions.
pub struct H;

impl Categoria for A {

}

impl Categoria for B {

}

impl Categoria for E {

}

impl Categoria for F {

}

impl Categoria for G {

}

impl Categoria for H {

}

} // verus!
