//! The egui items that the transforms use, declared for the verifier.
use vstd::prelude::*;

verus! {

/// egui's user-interface handle; carried through, never looked into.
#[verifier::external_type_specification]
#[verifier::external_body]
pub struct ExUi(egui::Ui);

/// egui's two-dimensional size (two `f32`); carried through, never looked into.
#[verifier::external_type_specification]
#[verifier::external_body]
pub struct ExVec2(egui::Vec2);

/// egui's pair of per-axis flags.
#[verifier::external_type_specification]
#[verifier::external_body]
pub struct ExVec2b(egui::Vec2b);

/// The flags that `egui::Vec2b::new` returns for `x` and `y`.
pub uninterp spec fn vec2b_of(x: bool, y: bool) -> egui::Vec2b;

/// Holds when `result` is a value that `egui::Vec2::min` may return for
/// `a` and `b`. Nothing more is stated of it: `f32::min`, which egui takes on
/// each axis, may return either of two equal inputs (such as +0.0 and -0.0),
/// and a NaN of any sign and payload, so two calls on the same sizes are not
/// claimed to agree.
pub uninterp spec fn vec2_min_admits(a: egui::Vec2, b: egui::Vec2, result: egui::Vec2) -> bool;

/// Calls `egui::Vec2::min`. Trusted: its result is one that the method
/// admits for `a` and `b` (`vec2_min_admits`); which one is left to egui.
#[verifier::external_body]
pub(crate) fn vec2_min(a: egui::Vec2, b: egui::Vec2) -> (result: egui::Vec2)
    ensures
        vec2_min_admits(a, b, result),
{
    a.min(b)
}

/// Calls `egui::Vec2b::new`. Trusted: its result is the named value
/// `vec2b_of(x, y)`, the flags `x` and `y` as egui stores them.
#[verifier::external_body]
pub(crate) fn vec2b_new(x: bool, y: bool) -> (result: egui::Vec2b)
    ensures
        result == vec2b_of(x, y),
{
    egui::Vec2b::new(x, y)
}

} // verus!
