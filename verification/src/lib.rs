//! The shape model and geometry engine of a small vector editor: lines,
//! rectangles and circles, the collection that tracks which of them is being
//! drawn, hovered and selected, and their JSON documents.
//!
//! # Numbers
//!
//! The shapes live on a grid. A coordinate and an extent are whole numbers of
//! 32 bits with a sign, a radius is a whole number of 32 bits without one.
//! Arithmetic on them never fails: a result that leaves the range stops at
//! the edge of the range ([`number::sat32`]). A distance is rounded up to the
//! next whole number ([`number::distance`]), so that a circle reaches the
//! point it is drawn through. The hit tests compare exact whole numbers and
//! round nothing.
//!
//! # Shapes
//!
//! [`Line`], [`Rectangle`] and [`Circle`] are plain records with the same set
//! of operations; [`Shape`] is any one of them. Each operation that changes a
//! shape is described by a function on the shape's value, such as
//! [`Line::with_point`] for [`Line::add_point`], and the operation is proved
//! to do exactly that.
//!
//! # The collection
//!
//! [`ShapeStorage`] holds the shapes in the order in which they were added
//! and three cursors into them. Its contracts are stated over
//! [`storage::StorageModel`]. [`Editor`] maps the events of the pointer to
//! operations of the collection, by the mode it is in.
//!
//! # Documents
//!
//! A shape is written as a JSON object and a collection as a JSON array of
//! such objects ([`document`]). Reading is strict and all or nothing: what is
//! turned down, with a [`ShapeError`], changes nothing. Reading and writing
//! JSON text is left to `serde_json`; what this library proves is said of the
//! documents, the values of type [`Json`]: a shape is read back from its own
//! document as it was ([`laws::lemma_document_round_trip`]).

pub mod circle;
pub mod decimal;
pub mod document;
pub mod editor;
pub mod geometry;
pub mod json;
pub mod kind;
pub mod laws;
pub mod line;
pub mod number;
pub mod props;
pub mod rectangle;
pub mod shape;
pub mod storage;
pub mod style;

pub use crate::circle::Circle;
pub use crate::editor::{Editor, Mode};
pub use crate::json::Json;
pub use crate::kind::{same_text, ShapeError, ShapeState, ShapeType};
pub use crate::line::Line;
pub use crate::rectangle::Rectangle;
pub use crate::shape::Shape;
pub use crate::storage::ShapeStorage;
pub use crate::style::{render_style, RenderStyle, StrokeColor};
