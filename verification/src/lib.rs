//! A 2-D marbling toy, modelled in fixed-point integer coordinates.
//!
//! The user drops polygon approximations of circles onto a scene; each new
//! drop distorts every previously placed shape through an inverse-radial
//! "marbling" transform. This crate holds the verified core: shape
//! construction, the marbling transform, and the scene that owns the evolving
//! shape collection. Windowing, the settings panel and rendering are host
//! concerns and live outside the library.

pub mod limits;
pub mod num;
pub mod trig;
pub mod style;
pub mod ellipse;
pub mod scene;
