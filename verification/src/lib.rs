//! A safe, verified front end for an H.264 encoding engine.
//!
//! The crate models the pixel-layout descriptors, validates image plane
//! geometry before any buffer is handed to the native encoder, and exposes
//! the encoder's output as checked unit views. The native engine itself is
//! an opaque collaborator: the foreign calls live outside this library, and
//! the decisions around them (geometry agreement, status interpretation,
//! flush termination) are verified here.

mod colorspace;
mod data;
mod encoder;
mod error;
mod image;
mod picture;
mod preset;
mod setup;
mod tune;

pub use colorspace::{Colorspace, Encoding, Modifier};
pub use colorspace::{base_of_raw, colorspace_of_code, lemma_base_roundtrip, lemma_raw_faithful,
    spec_of_code};
pub use data::{Data, Priority, Unit};
pub use data::{lemma_entirety_len, payloads, priority_of_code, total_payload_len};
pub use encoder::{Encoder, Flush};
pub use error::Error;
pub use image::{Image, Plane};
pub use image::{bytes_per_sample, height_div, height_scales, lemma_layout_bounds,
    lemma_minimal_geometry, lemma_packed_exact_len, lemma_shrunk_plane_rejected, min_rows,
    min_stride, packed_exact, packed_result, plane_count, plane_ok, valid_geometry, width_div,
    width_scales};
pub use picture::Picture;
pub use preset::{Preset, lemma_preset_cstr_nul, preset_cstr};
pub use setup::{Params, Profile, Rational, Setup, default_setup, lemma_profile_cstr_nul,
    profile_cstr};
pub use tune::{Tune, lemma_tune_cstr_nul, tune_cstr};
