//! Effective thermal properties of composite and honeycomb materials.
//!
//! Each property kind has a registry that maps a model number to a model,
//! and a function that returns, for the chosen model, the closed-form
//! formulas of the three directional results as expression trees over the
//! named inputs. Evaluating a tree is plain floating-point arithmetic done
//! by the caller, one node at a time, in the order the tree gives.

pub mod error;
pub mod expr;
pub mod thermal_conductivity_for_unidirectional_composite;
pub mod thermal_expansion_for_honeycomb;
pub mod thermal_expansion_for_unidirectional_composite;
