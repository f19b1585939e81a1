//! The header: the first 1024 bytes of a movie file, in which every field
//! has its place in the layout table.

use vstd::prelude::*;
use crate::error::M64Error;
use crate::layout::AUTHOR_OFFSET;
use crate::layout::AUTHOR_WIDTH;
use crate::layout::CONTROLLER_COUNT_OFFSET;
use crate::layout::CONTROLLER_COUNT_WIDTH;
use crate::layout::CONTROLLER_FLAGS_OFFSET;
use crate::layout::CONTROLLER_FLAGS_WIDTH;
use crate::layout::COUNTRY_CODE_OFFSET;
use crate::layout::COUNTRY_CODE_WIDTH;
use crate::layout::CRC32_OFFSET;
use crate::layout::CRC32_WIDTH;
use crate::layout::HEADER_SIZE;
use crate::layout::INPUT_PLUGIN_OFFSET;
use crate::layout::INPUT_PLUGIN_WIDTH;
use crate::layout::INTERNAL_NAME_OFFSET;
use crate::layout::INTERNAL_NAME_WIDTH;
use crate::layout::MAGIC;
use crate::layout::MOVIE_DESC_OFFSET;
use crate::layout::MOVIE_DESC_WIDTH;
use crate::layout::MOVIE_START_TYPE_OFFSET;
use crate::layout::MOVIE_START_TYPE_WIDTH;
use crate::layout::NUM_SAMPLES_OFFSET;
use crate::layout::NUM_SAMPLES_WIDTH;
use crate::layout::RERECORD_COUNT_OFFSET;
use crate::layout::RERECORD_COUNT_WIDTH;
use crate::layout::RSP_PLUGIN_OFFSET;
use crate::layout::RSP_PLUGIN_WIDTH;
use crate::layout::SIGNATURE_OFFSET;
use crate::layout::SIGNATURE_WIDTH;
use crate::layout::SOUND_PLUGIN_OFFSET;
use crate::layout::SOUND_PLUGIN_WIDTH;
use crate::layout::UID_OFFSET;
use crate::layout::UID_WIDTH;
use crate::layout::VERSION_OFFSET;
use crate::layout::VERSION_WIDTH;
use crate::layout::VIDEO_PLUGIN_OFFSET;
use crate::layout::VIDEO_PLUGIN_WIDTH;
use crate::layout::VI_COUNT_OFFSET;
use crate::layout::VI_COUNT_WIDTH;
use crate::layout::VI_PER_SECOND_OFFSET;
use crate::layout::VI_PER_SECOND_WIDTH;
use crate::layout::covers;
use crate::movie::ByteVec;
use crate::movie::M64File;
use crate::movie::MovieView;
use crate::movie::lanes;
use crate::movie::no_samples;
use crate::movie::viewed;
use crate::movie::viewed_bytes;
use crate::stream::samples;
use crate::wire::all_ascii;
use crate::wire::i32_at;
use crate::wire::is_ascii;
use crate::wire::le_byte;
use crate::wire::lemma_u16_read_back;
use crate::wire::lemma_u32_read_back;
use crate::wire::padded;
use crate::wire::read_bytes;
use crate::wire::read_i32;
use crate::wire::read_u16;
use crate::wire::read_u32;
use crate::wire::u16_at;
use crate::wire::u32_at;
use crate::wire::unsigned32;
use crate::wire::write_bytes;
use crate::wire::write_i32;
use crate::wire::write_u16;
use crate::wire::write_u32;
use crate::wire::zeroed;

verus! {

/// Byte `k` of a text field: the text's own byte, or zero behind its end.
pub open spec fn text_byte(text: Seq<u8>, k: int) -> u8 {
    if k < text.len() {
        text[k]
    } else {
        0
    }
}

impl MovieView {
    /// The fields that the header in `buf` holds, each read at its place in
    /// the layout table; reserved bytes are passed over.  No samples yet.
    pub open spec fn header_of(buf: Seq<u8>) -> MovieView {
        MovieView {
            signature: buf.subrange(SIGNATURE_OFFSET as int, SIGNATURE_OFFSET + SIGNATURE_WIDTH),
            version: u32_at(buf, VERSION_OFFSET as int),
            uid: i32_at(buf, UID_OFFSET as int),
            vi_count: u32_at(buf, VI_COUNT_OFFSET as int),
            rerecord_count: u32_at(buf, RERECORD_COUNT_OFFSET as int),
            vi_per_second: buf[VI_PER_SECOND_OFFSET as int],
            controller_count: buf[CONTROLLER_COUNT_OFFSET as int],
            num_samples: u32_at(buf, NUM_SAMPLES_OFFSET as int),
            movie_start_type: u16_at(buf, MOVIE_START_TYPE_OFFSET as int),
            controller_flags: u32_at(buf, CONTROLLER_FLAGS_OFFSET as int),
            internal_name: buf.subrange(
                INTERNAL_NAME_OFFSET as int,
                INTERNAL_NAME_OFFSET + INTERNAL_NAME_WIDTH,
            ),
            crc32: u32_at(buf, CRC32_OFFSET as int),
            country_code: u16_at(buf, COUNTRY_CODE_OFFSET as int),
            video_plugin: buf.subrange(
                VIDEO_PLUGIN_OFFSET as int,
                VIDEO_PLUGIN_OFFSET + VIDEO_PLUGIN_WIDTH,
            ),
            sound_plugin: buf.subrange(
                SOUND_PLUGIN_OFFSET as int,
                SOUND_PLUGIN_OFFSET + SOUND_PLUGIN_WIDTH,
            ),
            input_plugin: buf.subrange(
                INPUT_PLUGIN_OFFSET as int,
                INPUT_PLUGIN_OFFSET + INPUT_PLUGIN_WIDTH,
            ),
            rsp_plugin: buf.subrange(RSP_PLUGIN_OFFSET as int, RSP_PLUGIN_OFFSET + RSP_PLUGIN_WIDTH),
            author: buf.subrange(AUTHOR_OFFSET as int, AUTHOR_OFFSET + AUTHOR_WIDTH),
            movie_desc: buf.subrange(MOVIE_DESC_OFFSET as int, MOVIE_DESC_OFFSET + MOVIE_DESC_WIDTH),
            inputs: no_samples(),
        }
    }

    /// Whether every byte of every text field is an ASCII character.
    pub open spec fn texts_ascii(self) -> bool {
        &&& is_ascii(self.internal_name)
        &&& is_ascii(self.video_plugin)
        &&& is_ascii(self.sound_plugin)
        &&& is_ascii(self.input_plugin)
        &&& is_ascii(self.rsp_plugin)
        &&& is_ascii(self.author)
        &&& is_ascii(self.movie_desc)
    }

    /// Whether every text field fits into its place in the header.
    pub open spec fn texts_fit(self) -> bool {
        &&& self.internal_name.len() <= INTERNAL_NAME_WIDTH
        &&& self.video_plugin.len() <= VIDEO_PLUGIN_WIDTH
        &&& self.sound_plugin.len() <= SOUND_PLUGIN_WIDTH
        &&& self.input_plugin.len() <= INPUT_PLUGIN_WIDTH
        &&& self.rsp_plugin.len() <= RSP_PLUGIN_WIDTH
        &&& self.author.len() <= AUTHOR_WIDTH
        &&& self.movie_desc.len() <= MOVIE_DESC_WIDTH
    }

    /// Whether every text field has exactly the width of its place in the
    /// header.
    pub open spec fn texts_full(self) -> bool {
        &&& self.internal_name.len() == INTERNAL_NAME_WIDTH
        &&& self.video_plugin.len() == VIDEO_PLUGIN_WIDTH
        &&& self.sound_plugin.len() == SOUND_PLUGIN_WIDTH
        &&& self.input_plugin.len() == INPUT_PLUGIN_WIDTH
        &&& self.rsp_plugin.len() == RSP_PLUGIN_WIDTH
        &&& self.author.len() == AUTHOR_WIDTH
        &&& self.movie_desc.len() == MOVIE_DESC_WIDTH
    }

    /// The movie with every text field filled up with zeros to the width of
    /// its place in the header: what is left of the movie in a file.
    pub open spec fn padded(self) -> MovieView {
        MovieView {
            internal_name: padded(self.internal_name, INTERNAL_NAME_WIDTH as int),
            video_plugin: padded(self.video_plugin, VIDEO_PLUGIN_WIDTH as int),
            sound_plugin: padded(self.sound_plugin, SOUND_PLUGIN_WIDTH as int),
            input_plugin: padded(self.input_plugin, INPUT_PLUGIN_WIDTH as int),
            rsp_plugin: padded(self.rsp_plugin, RSP_PLUGIN_WIDTH as int),
            author: padded(self.author, AUTHOR_WIDTH as int),
            movie_desc: padded(self.movie_desc, MOVIE_DESC_WIDTH as int),
            ..self
        }
    }

    /// Byte `i` of the header that holds these fields: the byte of the field
    /// that covers `i` in the layout table, zero where none does.
    pub open spec fn header_byte(self, i: int) -> u8 {
        if covers(SIGNATURE_OFFSET, SIGNATURE_WIDTH, i) {
            self.signature[i - SIGNATURE_OFFSET]
        } else if covers(VERSION_OFFSET, VERSION_WIDTH, i) {
            le_byte(self.version, i - VERSION_OFFSET)
        } else if covers(UID_OFFSET, UID_WIDTH, i) {
            le_byte(unsigned32(self.uid), i - UID_OFFSET)
        } else if covers(VI_COUNT_OFFSET, VI_COUNT_WIDTH, i) {
            le_byte(self.vi_count, i - VI_COUNT_OFFSET)
        } else if covers(RERECORD_COUNT_OFFSET, RERECORD_COUNT_WIDTH, i) {
            le_byte(self.rerecord_count, i - RERECORD_COUNT_OFFSET)
        } else if covers(VI_PER_SECOND_OFFSET, VI_PER_SECOND_WIDTH, i) {
            self.vi_per_second
        } else if covers(CONTROLLER_COUNT_OFFSET, CONTROLLER_COUNT_WIDTH, i) {
            self.controller_count
        } else if covers(NUM_SAMPLES_OFFSET, NUM_SAMPLES_WIDTH, i) {
            le_byte(self.num_samples, i - NUM_SAMPLES_OFFSET)
        } else if covers(MOVIE_START_TYPE_OFFSET, MOVIE_START_TYPE_WIDTH, i) {
            le_byte(self.movie_start_type as u32, i - MOVIE_START_TYPE_OFFSET)
        } else if covers(CONTROLLER_FLAGS_OFFSET, CONTROLLER_FLAGS_WIDTH, i) {
            le_byte(self.controller_flags, i - CONTROLLER_FLAGS_OFFSET)
        } else if covers(INTERNAL_NAME_OFFSET, INTERNAL_NAME_WIDTH, i) {
            text_byte(self.internal_name, i - INTERNAL_NAME_OFFSET)
        } else if covers(CRC32_OFFSET, CRC32_WIDTH, i) {
            le_byte(self.crc32, i - CRC32_OFFSET)
        } else if covers(COUNTRY_CODE_OFFSET, COUNTRY_CODE_WIDTH, i) {
            le_byte(self.country_code as u32, i - COUNTRY_CODE_OFFSET)
        } else if covers(VIDEO_PLUGIN_OFFSET, VIDEO_PLUGIN_WIDTH, i) {
            text_byte(self.video_plugin, i - VIDEO_PLUGIN_OFFSET)
        } else if covers(SOUND_PLUGIN_OFFSET, SOUND_PLUGIN_WIDTH, i) {
            text_byte(self.sound_plugin, i - SOUND_PLUGIN_OFFSET)
        } else if covers(INPUT_PLUGIN_OFFSET, INPUT_PLUGIN_WIDTH, i) {
            text_byte(self.input_plugin, i - INPUT_PLUGIN_OFFSET)
        } else if covers(RSP_PLUGIN_OFFSET, RSP_PLUGIN_WIDTH, i) {
            text_byte(self.rsp_plugin, i - RSP_PLUGIN_OFFSET)
        } else if covers(AUTHOR_OFFSET, AUTHOR_WIDTH, i) {
            text_byte(self.author, i - AUTHOR_OFFSET)
        } else if covers(MOVIE_DESC_OFFSET, MOVIE_DESC_WIDTH, i) {
            text_byte(self.movie_desc, i - MOVIE_DESC_OFFSET)
        } else {
            0
        }
    }

    /// The header that holds these fields.
    pub open spec fn header_bytes(self) -> Seq<u8> {
        Seq::new(HEADER_SIZE as nat, |i: int| self.header_byte(i))
    }

    /// What decoding the header in `buf` gives: `BufferTooSmall` for less
    /// than a whole header; `InvalidTextEncoding` where ASCII was asked for
    /// and a text field holds another byte; the fields otherwise.
    pub open spec fn decoded_header(buf: Seq<u8>, strict_ascii: bool) -> Result<
        MovieView,
        M64Error,
    > {
        if buf.len() < HEADER_SIZE {
            Err(M64Error::BufferTooSmall)
        } else if strict_ascii && !MovieView::header_of(buf).texts_ascii() {
            Err(M64Error::InvalidTextEncoding)
        } else {
            Ok(MovieView::header_of(buf))
        }
    }

    /// What encoding these fields as a header gives: `FieldTooLong` where a
    /// text field does not fit, the header otherwise.
    pub open spec fn encoded_header(self) -> Result<Seq<u8>, M64Error> {
        if !self.texts_fit() {
            Err(M64Error::FieldTooLong)
        } else {
            Ok(self.header_bytes())
        }
    }

}

/// The header of a movie holds its fields: read back from the header, with
/// whatever bytes behind it, every number is as it was and every text field
/// is the text filled up with zeros to its width.
pub proof fn lemma_header_round_trip(v: MovieView, tail: Seq<u8>)
    requires
        v.signature.len() == 4,
        v.texts_fit(),
    ensures
        MovieView::header_of(v.header_bytes() + tail) == (MovieView {
            inputs: no_samples(),
            ..v.padded()
        }),
{
    let buf = v.header_bytes() + tail;
    let back = MovieView::header_of(buf);
    assert(back.signature =~= v.signature);
    lemma_u32_read_back(buf, VERSION_OFFSET as int, v.version);
    lemma_u32_read_back(buf, UID_OFFSET as int, unsigned32(v.uid));
    lemma_u32_read_back(buf, VI_COUNT_OFFSET as int, v.vi_count);
    lemma_u32_read_back(buf, RERECORD_COUNT_OFFSET as int, v.rerecord_count);
    lemma_u32_read_back(buf, NUM_SAMPLES_OFFSET as int, v.num_samples);
    lemma_u16_read_back(buf, MOVIE_START_TYPE_OFFSET as int, v.movie_start_type);
    lemma_u32_read_back(buf, CONTROLLER_FLAGS_OFFSET as int, v.controller_flags);
    lemma_u32_read_back(buf, CRC32_OFFSET as int, v.crc32);
    lemma_u16_read_back(buf, COUNTRY_CODE_OFFSET as int, v.country_code);
    assert(back.internal_name =~= padded(v.internal_name, INTERNAL_NAME_WIDTH as int));
    assert(back.video_plugin =~= padded(v.video_plugin, VIDEO_PLUGIN_WIDTH as int));
    assert(back.sound_plugin =~= padded(v.sound_plugin, SOUND_PLUGIN_WIDTH as int));
    assert(back.input_plugin =~= padded(v.input_plugin, INPUT_PLUGIN_WIDTH as int));
    assert(back.rsp_plugin =~= padded(v.rsp_plugin, RSP_PLUGIN_WIDTH as int));
    assert(back.author =~= padded(v.author, AUTHOR_WIDTH as int));
    assert(back.movie_desc =~= padded(v.movie_desc, MOVIE_DESC_WIDTH as int));
}

/// A movie whose text fields have the width of their places in the header,
/// as every decoded movie has them, is left as it is by the filling up.
pub proof fn lemma_padded_full_width(v: MovieView)
    requires
        v.texts_full(),
    ensures
        v.padded() == v,
{
    assert(v.padded().internal_name =~= v.internal_name);
    assert(v.padded().video_plugin =~= v.video_plugin);
    assert(v.padded().sound_plugin =~= v.sound_plugin);
    assert(v.padded().input_plugin =~= v.input_plugin);
    assert(v.padded().rsp_plugin =~= v.rsp_plugin);
    assert(v.padded().author =~= v.author);
    assert(v.padded().movie_desc =~= v.movie_desc);
}

impl M64File {
    /// Decodes the header at the start of `buf`; the movie that comes back
    /// has no samples yet.  With `strict_ascii` a text field with a byte
    /// outside ASCII is refused; without it the text fields are taken as the
    /// bytes they are.
    pub fn decode_header(buf: &[u8], strict_ascii: bool) -> (res: Result<M64File, M64Error>)
        ensures
            viewed(res) == MovieView::decoded_header(buf@, strict_ascii),
    {
        if buf.len() < HEADER_SIZE {
            return Err(M64Error::BufferTooSmall);
        }
        let movie = M64File {
            signature: [buf[0], buf[1], buf[2], buf[3]],
            version: read_u32(buf, VERSION_OFFSET),
            uid: read_i32(buf, UID_OFFSET),
            vi_count: read_u32(buf, VI_COUNT_OFFSET),
            rerecord_count: read_u32(buf, RERECORD_COUNT_OFFSET),
            vi_per_second: buf[VI_PER_SECOND_OFFSET],
            controller_count: buf[CONTROLLER_COUNT_OFFSET],
            num_samples: read_u32(buf, NUM_SAMPLES_OFFSET),
            movie_start_type: read_u16(buf, MOVIE_START_TYPE_OFFSET),
            controller_flags: read_u32(buf, CONTROLLER_FLAGS_OFFSET),
            internal_name: read_bytes(buf, INTERNAL_NAME_OFFSET, INTERNAL_NAME_WIDTH),
            crc32: read_u32(buf, CRC32_OFFSET),
            country_code: read_u16(buf, COUNTRY_CODE_OFFSET),
            video_plugin: read_bytes(buf, VIDEO_PLUGIN_OFFSET, VIDEO_PLUGIN_WIDTH),
            sound_plugin: read_bytes(buf, SOUND_PLUGIN_OFFSET, SOUND_PLUGIN_WIDTH),
            input_plugin: read_bytes(buf, INPUT_PLUGIN_OFFSET, INPUT_PLUGIN_WIDTH),
            rsp_plugin: read_bytes(buf, RSP_PLUGIN_OFFSET, RSP_PLUGIN_WIDTH),
            author: read_bytes(buf, AUTHOR_OFFSET, AUTHOR_WIDTH),
            movie_desc: read_bytes(buf, MOVIE_DESC_OFFSET, MOVIE_DESC_WIDTH),
            inputs: [Vec::new(), Vec::new(), Vec::new(), Vec::new()],
        };
        assert(movie.signature@ =~= buf@.subrange(0, 4));
        assert(lanes(movie.inputs) =~= no_samples());
        if strict_ascii && !movie.has_ascii_texts() {
            return Err(M64Error::InvalidTextEncoding);
        }
        Ok(movie)
    }

    /// Tells whether the movie opens with the magic signature.
    pub fn has_magic(&self) -> (ok: bool)
        ensures
            ok == (self@.signature == MAGIC@),
    {
        let ok = self.signature[0] == MAGIC[0] && self.signature[1] == MAGIC[1]
            && self.signature[2] == MAGIC[2] && self.signature[3] == MAGIC[3];
        assert(ok == (self.signature@ =~= MAGIC@));
        ok
    }

    /// Tells whether every text field fits into its place in the header.
    pub fn has_fitting_texts(&self) -> (ok: bool)
        ensures
            ok == self@.texts_fit(),
    {
        self.internal_name.len() <= INTERNAL_NAME_WIDTH && self.video_plugin.len()
            <= VIDEO_PLUGIN_WIDTH && self.sound_plugin.len() <= SOUND_PLUGIN_WIDTH
            && self.input_plugin.len() <= INPUT_PLUGIN_WIDTH && self.rsp_plugin.len()
            <= RSP_PLUGIN_WIDTH && self.author.len() <= AUTHOR_WIDTH && self.movie_desc.len()
            <= MOVIE_DESC_WIDTH
    }

    /// Encodes the fields as a header of 1024 bytes.  Every field goes to
    /// its place in the layout table, a text field followed by zeros up to
    /// its width, and every byte that no field covers is zero.  A text field
    /// that does not fit is refused, never cut.
    pub fn encode_header(&self) -> (res: Result<ByteVec, M64Error>)
        ensures
            viewed_bytes(res) == self@.encoded_header(),
    {
        if !self.has_fitting_texts() {
            return Err(M64Error::FieldTooLong);
        }
        let ghost v = self@;
        let mut out = zeroed(HEADER_SIZE);
        write_bytes(&mut out, SIGNATURE_OFFSET, self.signature.as_slice());
        write_u32(&mut out, VERSION_OFFSET, self.version);
        write_i32(&mut out, UID_OFFSET, self.uid);
        write_u32(&mut out, VI_COUNT_OFFSET, self.vi_count);
        write_u32(&mut out, RERECORD_COUNT_OFFSET, self.rerecord_count);
        out[VI_PER_SECOND_OFFSET] = self.vi_per_second;
        out[CONTROLLER_COUNT_OFFSET] = self.controller_count;
        write_u32(&mut out, NUM_SAMPLES_OFFSET, self.num_samples);
        write_u16(&mut out, MOVIE_START_TYPE_OFFSET, self.movie_start_type);
        write_u32(&mut out, CONTROLLER_FLAGS_OFFSET, self.controller_flags);
        write_bytes(&mut out, INTERNAL_NAME_OFFSET, self.internal_name.as_slice());
        write_u32(&mut out, CRC32_OFFSET, self.crc32);
        write_u16(&mut out, COUNTRY_CODE_OFFSET, self.country_code);
        write_bytes(&mut out, VIDEO_PLUGIN_OFFSET, self.video_plugin.as_slice());
        write_bytes(&mut out, SOUND_PLUGIN_OFFSET, self.sound_plugin.as_slice());
        write_bytes(&mut out, INPUT_PLUGIN_OFFSET, self.input_plugin.as_slice());
        write_bytes(&mut out, RSP_PLUGIN_OFFSET, self.rsp_plugin.as_slice());
        write_bytes(&mut out, AUTHOR_OFFSET, self.author.as_slice());
        write_bytes(&mut out, MOVIE_DESC_OFFSET, self.movie_desc.as_slice());
        assert(out@ =~= v.header_bytes());
        Ok(out)
    }

    /// Tells whether every byte of every text field is an ASCII character.
    pub fn has_ascii_texts(&self) -> (ok: bool)
        ensures
            ok == self@.texts_ascii(),
    {
        all_ascii(self.internal_name.as_slice()) && all_ascii(self.video_plugin.as_slice())
            && all_ascii(self.sound_plugin.as_slice()) && all_ascii(self.input_plugin.as_slice())
            && all_ascii(self.rsp_plugin.as_slice()) && all_ascii(self.author.as_slice())
            && all_ascii(self.movie_desc.as_slice())
    }
}

} // verus!
