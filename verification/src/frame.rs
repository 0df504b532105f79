//! Compressed output frames and their flag bits.

use vstd::prelude::*;

verus! {

/// Output flag bit: the frame is a keyframe.
pub const FRAME_IS_KEY: u32 = 0x1;
/// Output flag bit: the frame can be dropped without harming later frames.
pub const FRAME_IS_DROPPABLE: u32 = 0x2;
/// Output flag bit: the frame is not meant to be shown.
pub const FRAME_IS_INVISIBLE: u32 = 0x4;
/// Output flag bit: the payload is one fragment of a frame.
pub const FRAME_IS_FRAGMENT: u32 = 0x8;

/// Whether the keyframe bit is set in an output flag word.
pub open spec fn spec_is_keyframe(flags: u32) -> bool {
    flags & FRAME_IS_KEY != 0
}

/// Whether the droppable bit is set in an output flag word.
pub open spec fn spec_is_droppable(flags: u32) -> bool {
    flags & FRAME_IS_DROPPABLE != 0
}

/// Whether the invisible bit is set in an output flag word.
pub open spec fn spec_is_invisible(flags: u32) -> bool {
    flags & FRAME_IS_INVISIBLE != 0
}

/// Whether the fragment bit is set in an output flag word.
pub open spec fn spec_is_fragment(flags: u32) -> bool {
    flags & FRAME_IS_FRAGMENT != 0
}

/// One compressed output unit drained from the native encoder, together with
/// its presentation metadata.
#[derive(Debug, Clone)]
pub struct Frame {
    /// The compressed payload bytes.
    pub data: Vec<u8>,
    /// Presentation timestamp of the frame.
    pub pts: u64,
    /// Duration of the frame in timebase units.
    pub duration: u64,
    /// Raw output flag word as the native library reported it.
    pub flags: u32,
    /// Which piece of the frame this payload is, for fragmented output.
    pub partition_id: i32,
}

impl Frame {
    /// The frame's payload bytes.
    pub open spec fn spec_data(&self) -> Seq<u8> {
        self.data@
    }

    /// Packs a drained payload and its metadata into a frame value.
    pub fn new(data: Vec<u8>, pts: u64, duration: u64, flags: u32, partition_id: i32) -> (r:
        Frame)
        ensures
            r.spec_data() == data@,
            r.pts == pts,
            r.duration == duration,
            r.flags == flags,
            r.partition_id == partition_id,
    {
        Frame { data, pts, duration, flags, partition_id }
    }

    /// The compressed payload bytes.
    pub fn data(&self) -> (r: &[u8])
        ensures
            r@ == self.spec_data(),
    {
        self.data.as_slice()
    }

    /// Whether this frame is a keyframe.
    pub fn is_keyframe(&self) -> (r: bool)
        ensures
            r == spec_is_keyframe(self.flags),
    {
        self.flags & FRAME_IS_KEY != 0
    }

    /// Whether this frame may be dropped.
    pub fn is_droppable(&self) -> (r: bool)
        ensures
            r == spec_is_droppable(self.flags),
    {
        self.flags & FRAME_IS_DROPPABLE != 0
    }

    /// Whether this frame is not meant to be shown.
    pub fn is_invisible(&self) -> (r: bool)
        ensures
            r == spec_is_invisible(self.flags),
    {
        self.flags & FRAME_IS_INVISIBLE != 0
    }

    /// Whether this payload is one fragment of a frame.
    pub fn is_fragment(&self) -> (r: bool)
        ensures
            r == spec_is_fragment(self.flags),
    {
        self.flags & FRAME_IS_FRAGMENT != 0
    }
}

/// The flag word holding exactly the given four flag bits.
pub open spec fn spec_flag_word(key: bool, droppable: bool, invisible: bool, fragment: bool) -> u32 {
    (if key {
        FRAME_IS_KEY
    } else {
        0u32
    }) | (if droppable {
        FRAME_IS_DROPPABLE
    } else {
        0u32
    }) | (if invisible {
        FRAME_IS_INVISIBLE
    } else {
        0u32
    }) | (if fragment {
        FRAME_IS_FRAGMENT
    } else {
        0u32
    })
}

/// Law: the four flag predicates decode independently. A word built from any
/// choice of the four bits yields exactly that choice back, so setting one
/// bit never disturbs the answer of another predicate.
pub proof fn lemma_flag_bits_decode_independently(
    key: bool,
    droppable: bool,
    invisible: bool,
    fragment: bool,
)
    ensures
        spec_is_keyframe(spec_flag_word(key, droppable, invisible, fragment)) == key,
        spec_is_droppable(spec_flag_word(key, droppable, invisible, fragment)) == droppable,
        spec_is_invisible(spec_flag_word(key, droppable, invisible, fragment)) == invisible,
        spec_is_fragment(spec_flag_word(key, droppable, invisible, fragment)) == fragment,
{
    let w = spec_flag_word(key, droppable, invisible, fragment);
    assert(spec_is_keyframe(w) == key && spec_is_droppable(w) == droppable && spec_is_invisible(w)
        == invisible && spec_is_fragment(w) == fragment) by (bit_vector)
        requires
            w == spec_flag_word(key, droppable, invisible, fragment),
    ;
}

/// Law: each flag predicate reads only its own bit. Two flag words that
/// agree on a predicate's bit get the same answer from it, whatever their
/// other bits hold.
pub proof fn lemma_flag_predicates_read_own_bit(a: u32, b: u32)
    ensures
        a & FRAME_IS_KEY == b & FRAME_IS_KEY ==> spec_is_keyframe(a) == spec_is_keyframe(b),
        a & FRAME_IS_DROPPABLE == b & FRAME_IS_DROPPABLE ==> spec_is_droppable(a)
            == spec_is_droppable(b),
        a & FRAME_IS_INVISIBLE == b & FRAME_IS_INVISIBLE ==> spec_is_invisible(a)
            == spec_is_invisible(b),
        a & FRAME_IS_FRAGMENT == b & FRAME_IS_FRAGMENT ==> spec_is_fragment(a)
            == spec_is_fragment(b),
{
}

} // verus!
