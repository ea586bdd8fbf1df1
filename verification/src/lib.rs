//! The decisions of the sketch canvas: what a click, a drag or a key does
//! with the tool in hand, read from plain facts about the drawing.

pub mod gathered;
pub mod gestures;
pub mod model;
pub mod rules;
pub mod dragging;
pub mod selecting;
pub mod shading;
pub mod dimensioning;
pub mod navigation;
pub mod corners;
pub mod copying;
pub mod measuring;
pub mod variables;
pub mod drawing;
pub mod tools;
