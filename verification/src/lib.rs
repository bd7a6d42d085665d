//! From laid-out pages to the drawing calls of a PDF file.
//!
//! A document is a run of pages. A page is a tree of frames, and a frame
//! holds items at positions of its own: groups of further frames, runs of
//! glyphs, shapes, images and links. [`export::pdf`] walks every page and
//! decides what is drawn where: each item is drawn inside the transform that
//! the frames and groups around it lead to, paints are laid out in the
//! nearest hard frame, links are gathered for their page, and every font and
//! raster image is built for the PDF writer once.
//!
//! Numbers are exact. A length is a whole number of layout units and a ratio
//! is a fixed-point number; see [`fixed`]. What is computed from them
//! saturates at the bounds of sixty-four bits.
//!
//! - [`fixed`] and [`geometry`]: numbers, points, sizes and affine maps.
//! - [`document`]: the pages, frames and items that are walked.
//! - [`backend`]: what is handed to the PDF writer, and the surface that
//!   records it.
//! - [`convert`]: from the primitives of the document to those of the
//!   surface.
//! - [`context`]: the stack of states that is kept during the walk.
//! - [`resources`]: the fonts and raster images of a document.
//! - [`emission`]: what a frame gives out, as a function of the frame and the
//!   state in which it is entered.
//! - [`walker`]: the walk, which gives out just that.
//! - [`export`]: the walk over every page of a document.
//! - [`laws`]: what holds of every walk.

pub mod backend;
pub mod context;
pub mod convert;
pub mod document;
pub mod emission;
pub mod export;
pub mod fixed;
pub mod geometry;
pub mod laws;
pub mod resources;
pub mod walker;
