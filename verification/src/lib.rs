//! Typed binding layer for a native video-codec library.
//!
//! The native library does the actual compression work; this crate owns the
//! mechanical part of the binding: translating typed values to and from the
//! raw numeric codes of the C interface, validating frame submissions,
//! classifying drained output packets and dispatching them to a caller
//! supplied sink, and guaranteeing that a session's teardown request is
//! issued exactly once.

use vstd::prelude::*;

mod error;
mod frame;
mod image;
mod session;
pub mod encoder;

pub use session::SessionGuard;
pub use session::spec_teardowns;
pub use session::lemma_teardown_at_most_once;

pub use image::Format;
pub use image::ColorSpace;
pub use image::Image;
pub use image::Rect;
pub use image::spec_format_code;
pub use image::spec_format_of_code;
pub use image::spec_color_space_code;
pub use image::spec_color_space_of_code;
pub use image::spec_rect_within;
pub use image::spec_image_wf;
pub use image::lemma_format_round_trip;
pub use image::lemma_format_code_round_trip;
pub use image::lemma_color_space_round_trip;
pub use image::lemma_color_space_code_round_trip;
pub use image::IMG_FMT_PLANAR;
pub use image::IMG_FMT_UV_FLIP;
pub use image::IMG_FMT_HAS_ALPHA;
pub use image::IMG_FMT_HIGHBITDEPTH;

pub use frame::Frame;
pub use frame::FRAME_IS_KEY;
pub use frame::FRAME_IS_DROPPABLE;
pub use frame::FRAME_IS_INVISIBLE;
pub use frame::FRAME_IS_FRAGMENT;
pub use frame::spec_is_keyframe;
pub use frame::spec_is_droppable;
pub use frame::spec_is_invisible;
pub use frame::spec_is_fragment;
pub use frame::spec_flag_word;
pub use frame::lemma_flag_bits_decode_independently;
pub use frame::lemma_flag_predicates_read_own_bit;
pub use error::Error;
pub use error::error_of_code;
pub use error::spec_description;
pub use error::lemma_error_code_mapping_injective;
pub use error::CODEC_OK;
pub use error::CODEC_ERROR;
pub use error::CODEC_MEM_ERROR;
pub use error::CODEC_ABI_MISMATCH;
pub use error::CODEC_INCAPABLE;
pub use error::CODEC_UNSUP_BITSTREAM;
pub use error::CODEC_UNSUP_FEATURE;
pub use error::CODEC_CORRUPT_FRAME;
pub use error::CODEC_INVALID_PARAM;
pub use error::CODEC_LIST_END;

verus! {

/// Whether an algorithm interface produces encoding or decoding sessions.
#[derive(Copy, Clone, Eq, PartialEq, Structural, Debug)]
pub enum Kind {
    Decoder,
    Encoder,
}

/// Version tag of the native image interface this binding was written against.
pub const IMAGE_ABI_VERSION: i32 = 3;

/// Version tag of the native codec interface, built on the image tag as the
/// native headers compose it.
pub const CODEC_ABI_VERSION: i32 = IMAGE_ABI_VERSION + 3;

} // verus!
