//! What a widget reports to the layout after it has been drawn.
use vstd::prelude::*;

verus! {

/// Describes the rendered content of a layout node.
pub struct TuiContainerResponse<T> {
    /// Value returned by the content.
    pub inner: T,
    /// Smallest size the content needs.
    pub min_size: egui::Vec2,
    /// Largest size the content wants.
    pub max_size: egui::Vec2,
    /// Natural size of the content, when it has one.
    pub intrinsic_size: Option<egui::Vec2>,
    /// Axes along which the content may grow without bound.
    pub infinite: egui::Vec2b,
}

} // verus!
