//! The layout table of the M64 header: where each field starts and how many
//! bytes it takes.  Integers are stored little-endian.  Every byte of the
//! header that no field covers is reserved: it is written as zero and never
//! read.

use vstd::prelude::*;

verus! {

/// The header takes the first 1024 bytes of a file; samples follow it.
pub const HEADER_SIZE: usize = 0x400;

/// One sample record is a 32-bit little-endian word.
pub const SAMPLE_SIZE: usize = 4;

/// A movie has four controller slots, whichever of them are plugged in.
pub const CONTROLLER_SLOTS: usize = 4;

/// The four bytes `M64\x1A` that open every movie file.
pub const MAGIC: [u8; 4] = [0x4D, 0x36, 0x34, 0x1A];

pub const SIGNATURE_OFFSET: usize = 0x00;

pub const SIGNATURE_WIDTH: usize = 4;

pub const VERSION_OFFSET: usize = 0x04;

pub const VERSION_WIDTH: usize = 4;

pub const UID_OFFSET: usize = 0x08;

pub const UID_WIDTH: usize = 4;

pub const VI_COUNT_OFFSET: usize = 0x0C;

pub const VI_COUNT_WIDTH: usize = 4;

pub const RERECORD_COUNT_OFFSET: usize = 0x10;

pub const RERECORD_COUNT_WIDTH: usize = 4;

pub const VI_PER_SECOND_OFFSET: usize = 0x14;

pub const VI_PER_SECOND_WIDTH: usize = 1;

pub const CONTROLLER_COUNT_OFFSET: usize = 0x15;

pub const CONTROLLER_COUNT_WIDTH: usize = 1;

pub const NUM_SAMPLES_OFFSET: usize = 0x18;

pub const NUM_SAMPLES_WIDTH: usize = 4;

pub const MOVIE_START_TYPE_OFFSET: usize = 0x1C;

pub const MOVIE_START_TYPE_WIDTH: usize = 2;

pub const CONTROLLER_FLAGS_OFFSET: usize = 0x20;

pub const CONTROLLER_FLAGS_WIDTH: usize = 4;

pub const INTERNAL_NAME_OFFSET: usize = 0xC4;

pub const INTERNAL_NAME_WIDTH: usize = 32;

pub const CRC32_OFFSET: usize = 0xE4;

pub const CRC32_WIDTH: usize = 4;

pub const COUNTRY_CODE_OFFSET: usize = 0xE8;

pub const COUNTRY_CODE_WIDTH: usize = 2;

pub const VIDEO_PLUGIN_OFFSET: usize = 0x122;

pub const VIDEO_PLUGIN_WIDTH: usize = 64;

pub const SOUND_PLUGIN_OFFSET: usize = 0x162;

pub const SOUND_PLUGIN_WIDTH: usize = 64;

pub const INPUT_PLUGIN_OFFSET: usize = 0x1A2;

pub const INPUT_PLUGIN_WIDTH: usize = 64;

pub const RSP_PLUGIN_OFFSET: usize = 0x1E2;

pub const RSP_PLUGIN_WIDTH: usize = 64;

pub const AUTHOR_OFFSET: usize = 0x222;

pub const AUTHOR_WIDTH: usize = 222;

pub const MOVIE_DESC_OFFSET: usize = 0x300;

pub const MOVIE_DESC_WIDTH: usize = 256;

/// Whether byte `i` of the header belongs to the field that starts at
/// `offset` and is `width` bytes wide.
pub open spec fn covers(offset: usize, width: usize, i: int) -> bool {
    offset <= i < offset + width
}

/// The fields stand in the table in the order of their offsets, none reaches
/// into the next, and the last one ends where the header ends.
pub proof fn lemma_fields_in_order()
    ensures
        SIGNATURE_OFFSET + SIGNATURE_WIDTH <= VERSION_OFFSET,
        VERSION_OFFSET + VERSION_WIDTH <= UID_OFFSET,
        UID_OFFSET + UID_WIDTH <= VI_COUNT_OFFSET,
        VI_COUNT_OFFSET + VI_COUNT_WIDTH <= RERECORD_COUNT_OFFSET,
        RERECORD_COUNT_OFFSET + RERECORD_COUNT_WIDTH <= VI_PER_SECOND_OFFSET,
        VI_PER_SECOND_OFFSET + VI_PER_SECOND_WIDTH <= CONTROLLER_COUNT_OFFSET,
        CONTROLLER_COUNT_OFFSET + CONTROLLER_COUNT_WIDTH <= NUM_SAMPLES_OFFSET,
        NUM_SAMPLES_OFFSET + NUM_SAMPLES_WIDTH <= MOVIE_START_TYPE_OFFSET,
        MOVIE_START_TYPE_OFFSET + MOVIE_START_TYPE_WIDTH <= CONTROLLER_FLAGS_OFFSET,
        CONTROLLER_FLAGS_OFFSET + CONTROLLER_FLAGS_WIDTH <= INTERNAL_NAME_OFFSET,
        INTERNAL_NAME_OFFSET + INTERNAL_NAME_WIDTH <= CRC32_OFFSET,
        CRC32_OFFSET + CRC32_WIDTH <= COUNTRY_CODE_OFFSET,
        COUNTRY_CODE_OFFSET + COUNTRY_CODE_WIDTH <= VIDEO_PLUGIN_OFFSET,
        VIDEO_PLUGIN_OFFSET + VIDEO_PLUGIN_WIDTH <= SOUND_PLUGIN_OFFSET,
        SOUND_PLUGIN_OFFSET + SOUND_PLUGIN_WIDTH <= INPUT_PLUGIN_OFFSET,
        INPUT_PLUGIN_OFFSET + INPUT_PLUGIN_WIDTH <= RSP_PLUGIN_OFFSET,
        RSP_PLUGIN_OFFSET + RSP_PLUGIN_WIDTH <= AUTHOR_OFFSET,
        AUTHOR_OFFSET + AUTHOR_WIDTH <= MOVIE_DESC_OFFSET,
        MOVIE_DESC_OFFSET + MOVIE_DESC_WIDTH == HEADER_SIZE,
{
}

} // verus!
