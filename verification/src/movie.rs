//! The movie as a whole: the header's fields and the samples of the four
//! controllers, and how a file is decoded into both and encoded from them.

use vstd::prelude::*;
use vstd::slice::slice_subrange;
use crate::error::M64Error;
use crate::flags::active_slots;
use crate::flags::lemma_active_slots;
use crate::header::lemma_header_round_trip;
use crate::header::lemma_padded_full_width;
use crate::input::Input;
use crate::layout::AUTHOR_WIDTH;
use crate::layout::CONTROLLER_FLAGS_OFFSET;
use crate::layout::HEADER_SIZE;
use crate::layout::INPUT_PLUGIN_WIDTH;
use crate::layout::INTERNAL_NAME_WIDTH;
use crate::layout::MAGIC;
use crate::layout::MOVIE_DESC_WIDTH;
use crate::layout::RSP_PLUGIN_WIDTH;
use crate::layout::SOUND_PLUGIN_WIDTH;
use crate::layout::VIDEO_PLUGIN_WIDTH;
use crate::stream::demux;
use crate::stream::frame_count;
use crate::stream::lanes_agree;
use crate::stream::lemma_demux_mux;
use crate::stream::lemma_lane_of_idle_slot;
use crate::stream::lemma_samples_round_trip;
use crate::stream::mux;
use crate::stream::sample_bytes;
use crate::stream::samples;
use crate::wire::padded;
use crate::wire::u32_at;
use crate::wire::zeroed;

verus! {

/// The samples of the four controller slots, one sequence for each.
pub type Controllers = [Vec<Input>; 4];

/// A buffer of bytes, as read from a file or to be written to one.
pub type ByteVec = Vec<u8>;

/// A decoded movie.  The text fields hold raw bytes; a decoded movie has
/// each of them at the full width of its place in the header.
#[derive(Clone, Debug, PartialEq, Eq)]
pub struct M64File {
    pub signature: [u8; 4],
    pub version: u32,
    pub uid: i32,
    pub vi_count: u32,
    pub rerecord_count: u32,
    pub vi_per_second: u8,
    pub controller_count: u8,
    pub num_samples: u32,
    pub movie_start_type: u16,
    pub controller_flags: u32,
    pub internal_name: Vec<u8>,
    pub crc32: u32,
    pub country_code: u16,
    pub video_plugin: Vec<u8>,
    pub sound_plugin: Vec<u8>,
    pub input_plugin: Vec<u8>,
    pub rsp_plugin: Vec<u8>,
    pub author: Vec<u8>,
    pub movie_desc: Vec<u8>,
    pub inputs: Controllers,
}

/// What a movie holds, as plain values: the model that the contracts of the
/// codec speak of.
pub struct MovieView {
    pub signature: Seq<u8>,
    pub version: u32,
    pub uid: i32,
    pub vi_count: u32,
    pub rerecord_count: u32,
    pub vi_per_second: u8,
    pub controller_count: u8,
    pub num_samples: u32,
    pub movie_start_type: u16,
    pub controller_flags: u32,
    pub internal_name: Seq<u8>,
    pub crc32: u32,
    pub country_code: u16,
    pub video_plugin: Seq<u8>,
    pub sound_plugin: Seq<u8>,
    pub input_plugin: Seq<u8>,
    pub rsp_plugin: Seq<u8>,
    pub author: Seq<u8>,
    pub movie_desc: Seq<u8>,
    pub inputs: Seq<Seq<Input>>,
}

/// The samples of the four slots as plain sequences.
pub open spec fn lanes(inputs: Controllers) -> Seq<Seq<Input>> {
    Seq::new(4, |slot: int| inputs@[slot]@)
}

/// Four slots without samples.
pub open spec fn no_samples() -> Seq<Seq<Input>> {
    Seq::new(4, |slot: int| Seq::<Input>::empty())
}

impl View for M64File {
    type V = MovieView;

    open spec fn view(&self) -> MovieView {
        MovieView {
            signature: self.signature@,
            version: self.version,
            uid: self.uid,
            vi_count: self.vi_count,
            rerecord_count: self.rerecord_count,
            vi_per_second: self.vi_per_second,
            controller_count: self.controller_count,
            num_samples: self.num_samples,
            movie_start_type: self.movie_start_type,
            controller_flags: self.controller_flags,
            internal_name: self.internal_name@,
            crc32: self.crc32,
            country_code: self.country_code,
            video_plugin: self.video_plugin@,
            sound_plugin: self.sound_plugin@,
            input_plugin: self.input_plugin@,
            rsp_plugin: self.rsp_plugin@,
            author: self.author@,
            movie_desc: self.movie_desc@,
            inputs: lanes(self.inputs),
        }
    }
}

/// A result of the codec with the movie in it, if there is one, as plain
/// values.
pub open spec fn viewed(res: Result<M64File, M64Error>) -> Result<MovieView, M64Error> {
    match res {
        Ok(movie) => Ok(movie@),
        Err(e) => Err(e),
    }
}

/// A result of the codec with the bytes in it, if there are any, as a
/// sequence.
pub open spec fn viewed_bytes(res: Result<ByteVec, M64Error>) -> Result<Seq<u8>, M64Error> {
    match res {
        Ok(bytes) => Ok(bytes@),
        Err(e) => Err(e),
    }
}

impl MovieView {
    /// The fresh movie: the magic signature, version 3, zeros elsewhere, and
    /// no samples.
    pub open spec fn fresh() -> MovieView {
        MovieView {
            signature: MAGIC@,
            version: 3,
            uid: 0,
            vi_count: 0,
            rerecord_count: 0,
            vi_per_second: 0,
            controller_count: 0,
            num_samples: 0,
            movie_start_type: 0,
            controller_flags: 0,
            internal_name: padded(Seq::empty(), INTERNAL_NAME_WIDTH as int),
            crc32: 0,
            country_code: 0,
            video_plugin: padded(Seq::empty(), VIDEO_PLUGIN_WIDTH as int),
            sound_plugin: padded(Seq::empty(), SOUND_PLUGIN_WIDTH as int),
            input_plugin: padded(Seq::empty(), INPUT_PLUGIN_WIDTH as int),
            rsp_plugin: padded(Seq::empty(), RSP_PLUGIN_WIDTH as int),
            author: padded(Seq::empty(), AUTHOR_WIDTH as int),
            movie_desc: padded(Seq::empty(), MOVIE_DESC_WIDTH as int),
            inputs: no_samples(),
        }
    }

    /// What decoding `buf` gives.  The header comes first, then the
    /// controller flags that it holds, then the samples behind it; the first
    /// of them that fails decides the error.
    pub open spec fn decoded(buf: Seq<u8>, strict_ascii: bool) -> Result<MovieView, M64Error> {
        match MovieView::decoded_header(buf, strict_ascii) {
            Err(e) => Err(e),
            Ok(header) => {
                let active = active_slots(header.controller_flags);
                let tail = buf.subrange(HEADER_SIZE as int, buf.len() as int);
                if active.len() == 0 {
                    Err(M64Error::NoActiveControllers)
                } else if tail.len() % 4 != 0 {
                    Err(M64Error::TruncatedSampleData)
                } else {
                    Ok(MovieView { inputs: demux(samples(tail), active), ..header })
                }
            },
        }
    }

    /// Whether the movie can be encoded: its flags name a controller, the
    /// active controllers hold equally many samples and the others none, and
    /// every text field fits into its place in the header.
    pub open spec fn encodable(self) -> bool {
        &&& active_slots(self.controller_flags).len() > 0
        &&& lanes_agree(self.inputs, active_slots(self.controller_flags))
        &&& self.texts_fit()
    }

    /// What encoding the movie gives.  The controller flags come first, then
    /// the samples, then the header; the first of them that fails decides
    /// the error.  The bytes are the header, then the samples.
    pub open spec fn encoded(self) -> Result<Seq<u8>, M64Error> {
        let active = active_slots(self.controller_flags);
        if active.len() == 0 {
            Err(M64Error::NoActiveControllers)
        } else if !lanes_agree(self.inputs, active) {
            Err(M64Error::MismatchedControllerLengths)
        } else {
            match self.encoded_header() {
                Err(e) => Err(e),
                Ok(header) => Ok(header + sample_bytes(mux(self.inputs, active))),
            }
        }
    }
}

/// A movie that can be encoded comes back from its bytes: decoding them
/// gives the movie again, with every text field filled up with zeros to its
/// width; a movie whose text fields have their full width comes back as it
/// is.  Where ASCII is asked for, this holds of a movie whose text fields
/// are ASCII.
pub proof fn lemma_round_trip(movie: M64File, strict_ascii: bool)
    requires
        movie@.encodable(),
        strict_ascii ==> movie@.texts_ascii(),
    ensures
        movie@.encoded() is Ok,
        MovieView::decoded(movie@.encoded()->Ok_0, strict_ascii) == Ok::<MovieView, M64Error>(
            movie@.padded(),
        ),
        movie@.texts_full() ==> MovieView::decoded(movie@.encoded()->Ok_0, strict_ascii) == Ok::<
            MovieView,
            M64Error,
        >(movie@),
{
    let v = movie@;
    let active = active_slots(v.controller_flags);
    let records = mux(v.inputs, active);
    let tail = sample_bytes(records);
    let bytes = v.header_bytes() + tail;
    lemma_active_slots(v.controller_flags);
    lemma_header_round_trip(v, tail);
    assert(bytes.subrange(HEADER_SIZE as int, bytes.len() as int) =~= tail);
    lemma_samples_round_trip(records);
    lemma_demux_mux(v.inputs, active);
    if v.texts_full() {
        lemma_padded_full_width(v);
    }
}

/// A movie is encoded exactly if it can be, and its file is as long as the
/// header and four bytes for each sample of each active controller.
pub proof fn lemma_encoded_length(v: MovieView)
    ensures
        v.encoded() is Ok <==> v.encodable(),
        v.encoded() matches Ok(bytes) ==> bytes.len() == HEADER_SIZE + 4 * (frame_count(
            v.inputs,
            active_slots(v.controller_flags),
        ) * active_slots(v.controller_flags).len()),
{
}

/// A decoded movie has four slots of samples and every text field at the
/// full width of its place in the header, and among its slots those that the
/// flags do not name are empty.
pub proof fn lemma_decoded_shape(buf: Seq<u8>, strict_ascii: bool)
    requires
        MovieView::decoded(buf, strict_ascii) is Ok,
    ensures
        ({
            let v = MovieView::decoded(buf, strict_ascii)->Ok_0;
            &&& v.signature.len() == 4
            &&& v.inputs.len() == 4
            &&& v.texts_full()
            &&& strict_ascii ==> v.texts_ascii()
            &&& forall|slot: int|
                0 <= slot < 4 && !active_slots(v.controller_flags).contains(slot as usize)
                    ==> (#[trigger] v.inputs[slot]).len() == 0
        }),
{
    let v = MovieView::decoded(buf, strict_ascii)->Ok_0;
    let active = active_slots(v.controller_flags);
    let tail = buf.subrange(HEADER_SIZE as int, buf.len() as int);
    assert forall|slot: int| 0 <= slot < 4 && !active.contains(slot as usize) implies (
    #[trigger] v.inputs[slot]).len() == 0 by {
        lemma_lane_of_idle_slot(samples(tail), active, slot as usize);
    }
}

impl M64File {
    /// A fresh movie: the magic signature, version 3, every other number
    /// zero, every text field zeros at its full width, and no samples.  Its
    /// controller flags name no controller yet, so it cannot be encoded
    /// before one is made active.
    pub fn new() -> (movie: M64File)
        ensures
            movie@ == MovieView::fresh(),
    {
        let movie = M64File {
            signature: MAGIC,
            version: 3,
            uid: 0,
            vi_count: 0,
            rerecord_count: 0,
            vi_per_second: 0,
            controller_count: 0,
            num_samples: 0,
            movie_start_type: 0,
            controller_flags: 0,
            internal_name: zeroed(INTERNAL_NAME_WIDTH),
            crc32: 0,
            country_code: 0,
            video_plugin: zeroed(VIDEO_PLUGIN_WIDTH),
            sound_plugin: zeroed(SOUND_PLUGIN_WIDTH),
            input_plugin: zeroed(INPUT_PLUGIN_WIDTH),
            rsp_plugin: zeroed(RSP_PLUGIN_WIDTH),
            author: zeroed(AUTHOR_WIDTH),
            movie_desc: zeroed(MOVIE_DESC_WIDTH),
            inputs: [Vec::new(), Vec::new(), Vec::new(), Vec::new()],
        };
        assert(lanes(movie.inputs) =~= no_samples());
        assert(movie@.internal_name =~= padded(Seq::empty(), INTERNAL_NAME_WIDTH as int));
        assert(movie@.rsp_plugin =~= padded(Seq::empty(), RSP_PLUGIN_WIDTH as int));
        assert(movie@.author =~= padded(Seq::empty(), AUTHOR_WIDTH as int));
        assert(movie@.movie_desc =~= padded(Seq::empty(), MOVIE_DESC_WIDTH as int));
        movie
    }

    /// Decodes a movie file.  The text fields are taken as the bytes they
    /// are.  The result is `BufferTooSmall` for less than a whole header,
    /// else `NoActiveControllers` where the flags name none, else
    /// `TruncatedSampleData` where the bytes behind the header are no whole
    /// records.
    pub fn from_bytes(buf: &[u8]) -> (res: Result<M64File, M64Error>)
        ensures
            viewed(res) == MovieView::decoded(buf@, false),
            buf.len() < HEADER_SIZE ==> res == Err::<M64File, M64Error>(M64Error::BufferTooSmall),
            buf.len() == HEADER_SIZE ==> (res is Ok <==> u32_at(
                buf@,
                CONTROLLER_FLAGS_OFFSET as int,
            ) % 16 != 0),
    {
        proof {
            if buf.len() >= HEADER_SIZE {
                lemma_active_slots(u32_at(buf@, CONTROLLER_FLAGS_OFFSET as int));
            }
        }
        Self::decode(buf, false)
    }

    /// Decodes a movie file whose text fields have to be ASCII: as
    /// `from_bytes`, but `InvalidTextEncoding` where the header is whole and
    /// a text field holds a byte outside ASCII.
    pub fn from_bytes_strict(buf: &[u8]) -> (res: Result<M64File, M64Error>)
        ensures
            viewed(res) == MovieView::decoded(buf@, true),
    {
        Self::decode(buf, true)
    }

    fn decode(buf: &[u8], strict_ascii: bool) -> (res: Result<M64File, M64Error>)
        ensures
            viewed(res) == MovieView::decoded(buf@, strict_ascii),
    {
        let mut movie = match Self::decode_header(buf, strict_ascii) {
            Ok(header) => header,
            Err(e) => { return Err(e); },
        };
        let active = match Self::active_controllers(movie.controller_flags) {
            Ok(list) => list,
            Err(e) => { return Err(e); },
        };
        proof {
            lemma_active_slots(movie.controller_flags);
        }
        let tail = slice_subrange(buf, HEADER_SIZE, buf.len());
        match Input::parse(tail, &active) {
            Ok(inputs) => {
                movie.inputs = inputs;
                Ok(movie)
            },
            Err(e) => Err(e),
        }
    }

    /// Encodes the movie as a file: the header, then the samples of the
    /// active controllers, frame by frame.  The result is
    /// `NoActiveControllers` where the flags name none, else
    /// `MismatchedControllerLengths` unless the active slots hold equally
    /// many samples and the others none, else `FieldTooLong` where a text
    /// field does not fit into its place.
    pub fn to_bytes(&self) -> (res: Result<ByteVec, M64Error>)
        ensures
            viewed_bytes(res) == self@.encoded(),
            res is Ok <==> self@.encodable(),
    {
        let active = match Self::active_controllers(self.controller_flags) {
            Ok(list) => list,
            Err(e) => { return Err(e); },
        };
        proof {
            lemma_active_slots(self.controller_flags);
        }
        let mut sample_bytes = match Input::samples_to_bytes(&self.inputs, &active) {
            Ok(bytes) => bytes,
            Err(e) => { return Err(e); },
        };
        let mut buffer = match self.encode_header() {
            Ok(bytes) => bytes,
            Err(e) => { return Err(e); },
        };
        buffer.append(&mut sample_bytes);
        Ok(buffer)
    }

}

} // verus!
