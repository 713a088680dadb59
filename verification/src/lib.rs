//! Verified decision logic of the `nih_plug_iced` widgets: the event state
//! machine of the parameter slider and the tick, label and peak-hold logic of
//! the peak meter. Drawing, layout and the floating-point arithmetic on screen
//! coordinates stay with the widget code that calls into this crate.

pub mod decimal;
pub mod peak_meter;
pub mod param_slider;
pub mod gestures;
pub mod slider_laws;
