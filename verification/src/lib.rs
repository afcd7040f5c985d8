//! A keyframe-animation evaluation engine.
//!
//! A point definition is a curve: an ordered list of keyframes, each with a
//! time, a value expression, an easing and blend flags. The compiler in
//! [`point_definition::compile`] builds a curve from a tree of numbers, strings
//! and arrays; `interpolate` finds the keyframes around a query time and blends
//! them. A value expression is a [`modifiers::Modifier`]: a base, constant or
//! read from [`values::ValueProvider`]s, with a chain of children folded into
//! it. Providers read the host's live state from a
//! [`values::base_provider_context::BaseProviderContext`].
//!
//! Numbers are carried as IEEE-754 single-precision bit patterns (`u32`). The
//! engine orders and tests them itself ([`number`]); every operation that
//! rounds is asked of a float unit that the host hands in ([`float_unit`]), and
//! contracts speak of results through the function that the unit computes.
//!
//! [`laws`] states what holds of every curve, modifier and context.
pub mod easings;
pub mod error;
pub mod float_unit;
pub mod json;
pub mod laws;
pub mod modifiers;
pub mod number;
pub mod point_data;
pub mod point_definition;
pub mod values;
