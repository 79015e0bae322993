//! Size bookkeeping for egui widgets placed in a taffy layout.
//!
//! A widget added to the layout is first drawn by egui; the response that
//! comes back is then adjusted by a per-widget transform before taffy sees
//! it. This crate holds those transforms, with their contracts.

pub mod egui_specs;
pub mod egui_widgets;
pub mod response;

pub use egui_widgets::identity_transform;
pub use response::TuiContainerResponse;
