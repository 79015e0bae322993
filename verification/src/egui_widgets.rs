//! Response transforms of the egui widgets placed in a taffy layout.
//!
//! Each transform takes the response that egui reported for a widget and
//! returns the response that the layout should work with.
use vstd::prelude::*;

use crate::egui_specs::{vec2_min, vec2_min_admits, vec2b_new, vec2b_of};
use crate::response::TuiContainerResponse;

verus! {

/// A button: it does not ask for more room than it needs, on either axis,
/// and it does not grow without bound on either axis.
pub open spec fn button_response<T>(value: TuiContainerResponse<T>) -> TuiContainerResponse<T> {
    TuiContainerResponse {
        inner: value.inner,
        min_size: value.min_size,
        max_size: value.min_size,
        intrinsic_size: value.intrinsic_size,
        infinite: vec2b_of(false, false),
    }
}

/// A progress bar whose natural size is `size`: it may grow without bound
/// horizontally but not vertically.
pub open spec fn progress_bar_sized<T>(value: TuiContainerResponse<T>, size: egui::Vec2) -> TuiContainerResponse<T> {
    TuiContainerResponse {
        inner: value.inner,
        min_size: value.min_size,
        max_size: value.max_size,
        intrinsic_size: Some(size),
        infinite: vec2b_of(true, false),
    }
}

/// Transform that leaves a widget's response as egui reported it.
pub fn identity_transform<T>(value: TuiContainerResponse<T>, _ui: &egui::Ui) -> (result:
    TuiContainerResponse<T>)
    ensures
        result == value,
{
    value
}

/// Transform of a button's response: the largest size becomes the smallest
/// one, and no axis may grow without bound.
pub fn button_transform<T>(value: TuiContainerResponse<T>) -> (result: TuiContainerResponse<T>)
    ensures
        result == button_response(value),
{
    let mut val = value;
    val.max_size = val.min_size;
    val.infinite = vec2b_new(false, false);
    val
}

/// Last step of a progress bar's transform: `size` becomes its natural size
/// (the size egui reported, capped by the style's natural size), and the bar
/// may grow without bound horizontally only.
pub fn progress_bar_with_size<T>(value: TuiContainerResponse<T>, size: egui::Vec2) -> (result:
    TuiContainerResponse<T>)
    ensures
        result == progress_bar_sized(value, size),
{
    let mut val = value;
    val.intrinsic_size = Some(size);
    val.infinite = vec2b_new(true, false);
    val
}

/// Transform of a progress bar's response, where `intrinsic_size` is the
/// natural size of a progress bar in the current style. A size that egui
/// reported is capped by `intrinsic_size` on each axis (by `egui::Vec2::min`);
/// when egui reported none, `intrinsic_size` is taken as it is.
pub fn progress_bar_transform<T>(value: TuiContainerResponse<T>, intrinsic_size: egui::Vec2) -> (result:
    TuiContainerResponse<T>)
    ensures
        result.inner == value.inner,
        result.min_size == value.min_size,
        result.max_size == value.max_size,
        result.infinite == vec2b_of(true, false),
        result.intrinsic_size is Some,
        match value.intrinsic_size {
            Some(reported) => vec2_min_admits(reported, intrinsic_size, result.intrinsic_size->0),
            None => result.intrinsic_size == Some(intrinsic_size),
        },
        exists|size: egui::Vec2| result == progress_bar_sized(value, size),
{
    let size = match value.intrinsic_size {
        Some(reported) => vec2_min(reported, intrinsic_size),
        None => intrinsic_size,
    };
    progress_bar_with_size(value, size)
}

/// Transforming a button's response a second time changes nothing.
pub proof fn lemma_button_transform_idempotent<T>(value: TuiContainerResponse<T>)
    ensures
        button_response(button_response(value)) == button_response(value),
{
}

/// No transform changes what the widget's content returned, nor the
/// smallest size that egui measured for it.
pub proof fn lemma_transforms_keep_content<T>(value: TuiContainerResponse<T>, size: egui::Vec2)
    ensures
        button_response(value).inner == value.inner,
        button_response(value).min_size == value.min_size,
        progress_bar_sized(value, size).inner == value.inner,
        progress_bar_sized(value, size).min_size == value.min_size,
{
}

/// Setting a progress bar's natural size a second time, to the same size,
/// changes nothing.
pub proof fn lemma_progress_bar_with_size_idempotent<T>(value: TuiContainerResponse<T>, size: egui::Vec2)
    ensures
        progress_bar_sized(progress_bar_sized(value, size), size) == progress_bar_sized(value, size),
{
}

} // verus!
