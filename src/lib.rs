//! Stylizes a photograph as a poster-like rendering: a color-segmented base
//! layer, masked by an edge layer, written next to the input.
//!
//! This crate holds the pipeline's own logic: a typed image buffer, lightness
//! extraction, compositing through an edge mask, and the naming of the output
//! file. The vision operations themselves are performed by the caller.

mod image;
mod laws;
mod naming;
mod stages;

pub use image::{channel_count, ColorSpace, Image, ImageView};
pub use laws::{black, composable, lemma_empty_mask_blacks_out, lemma_full_mask_keeps_base, lemma_mask_twice_is_once, lemma_masks_intersect, mask_intersection, lemma_stages_keep_size};
pub use naming::{file_name_start, first_dot, marked_path, marker, output_path};
pub use stages::{combine_base_and_edge, composite, gray_from_lab, lightness_of, StageError};
