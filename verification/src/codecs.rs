//! Decoder and encoder interface definitions: the error kinds both sides
//! report, the support structure decoders share, the frame-skip policy, and
//! the registries that map codec names to registered decoders and encoders.
use crate::frame::AllocatorError;
use crate::frame::NAVideoBufferPool;
use crate::frame::VideoBuffer;
use crate::io::BitReaderError;
use crate::io::ByteIOError;
use crate::io::CodebookError;
use crate::strutil::str_eq;
use vstd::prelude::*;

verus! {

/// A list specifying general decoding errors.
#[derive(Debug, Clone, Copy, PartialEq, Eq, Structural)]
pub enum DecoderError {
    /// No frame was provided.
    NoFrame,
    /// Allocation failed.
    AllocError,
    /// Operation requires repeating.
    TryAgain,
    /// Invalid input data was provided.
    InvalidData,
    /// Provided input turned out to be incomplete.
    ShortData,
    /// The decoded frame references some missing previous frame.
    MissingReference,
    /// Feature is not implemented.
    NotImplemented,
    /// Some bug in the decoder. It should not happen yet it might.
    Bug,
}

/// A specialised `Result` type for decoding operations.
pub type DecoderResult<T> = Result<T, DecoderError>;

impl From<ByteIOError> for DecoderError {
    /// Truncated byte input surfaces as short data.
    fn from(e: ByteIOError) -> (r: Self)
        ensures
            r == DecoderError::ShortData,
    {
        DecoderError::ShortData
    }
}

impl vstd::std_specs::convert::FromSpecImpl<ByteIOError> for DecoderError {
    open spec fn obeys_from_spec() -> bool {
        true
    }

    open spec fn from_spec(e: ByteIOError) -> DecoderError {
        DecoderError::ShortData
    }
}

/// What a bit-reading error means to a decoder: running out of bits is short
/// data, anything else is invalid data.
pub open spec fn decoder_error_of_bitread(e: BitReaderError) -> DecoderError {
    match e {
        BitReaderError::BitstreamEnd => DecoderError::ShortData,
        _ => DecoderError::InvalidData,
    }
}

impl From<BitReaderError> for DecoderError {
    /// Running out of bits surfaces as short data; any other bit-reading
    /// failure as invalid data.
    fn from(e: BitReaderError) -> (r: Self)
        ensures
            r == decoder_error_of_bitread(e),
    {
        match e {
            BitReaderError::BitstreamEnd => DecoderError::ShortData,
            _ => DecoderError::InvalidData,
        }
    }
}

impl vstd::std_specs::convert::FromSpecImpl<BitReaderError> for DecoderError {
    open spec fn obeys_from_spec() -> bool {
        true
    }

    open spec fn from_spec(e: BitReaderError) -> DecoderError {
        decoder_error_of_bitread(e)
    }
}

impl From<CodebookError> for DecoderError {
    /// Any codebook failure surfaces as invalid data.
    fn from(e: CodebookError) -> (r: Self)
        ensures
            r == DecoderError::InvalidData,
    {
        DecoderError::InvalidData
    }
}

impl vstd::std_specs::convert::FromSpecImpl<CodebookError> for DecoderError {
    open spec fn obeys_from_spec() -> bool {
        true
    }

    open spec fn from_spec(e: CodebookError) -> DecoderError {
        DecoderError::InvalidData
    }
}

impl From<AllocatorError> for DecoderError {
    /// Any frame-allocation failure surfaces as an allocation error.
    fn from(e: AllocatorError) -> (r: Self)
        ensures
            r == DecoderError::AllocError,
    {
        DecoderError::AllocError
    }
}

impl vstd::std_specs::convert::FromSpecImpl<AllocatorError> for DecoderError {
    open spec fn obeys_from_spec() -> bool {
        true
    }

    open spec fn from_spec(e: AllocatorError) -> DecoderError {
        DecoderError::AllocError
    }
}

/// Auxiliary structure for storing data used by a decoder but also
/// controlled by the caller.
pub struct NADecoderSupport {
    /// Frame buffer pool for 8-bit or packed video frames.
    pub pool_u8: NAVideoBufferPool,
    /// Frame buffer pool for 16-bit video frames.
    pub pool_u16: NAVideoBufferPool,
    /// Frame buffer pool for 32-bit video frames.
    pub pool_u32: NAVideoBufferPool,
}

impl NADecoderSupport {
    /// Constructs a new instance with three empty pools that keep no
    /// buffers around.
    pub fn new() -> (r: Self)
        ensures
            r.pool_u8.buffers() == Seq::<Seq<u16>>::empty(),
            r.pool_u16.buffers() == Seq::<Seq<u16>>::empty(),
            r.pool_u32.buffers() == Seq::<Seq<u16>>::empty(),
            r.pool_u8.spec_max_len() == 0,
            r.pool_u16.spec_max_len() == 0,
            r.pool_u32.spec_max_len() == 0,
    {
        NADecoderSupport {
            pool_u8: NAVideoBufferPool::new(0),
            pool_u16: NAVideoBufferPool::new(0),
            pool_u32: NAVideoBufferPool::new(0),
        }
    }
}

impl Default for NADecoderSupport {
    /// The same empty support structure `new` builds.
    fn default() -> (r: Self)
        ensures
            r.pool_u8.buffers() == Seq::<Seq<u16>>::empty(),
            r.pool_u16.buffers() == Seq::<Seq<u16>>::empty(),
            r.pool_u32.buffers() == Seq::<Seq<u16>>::empty(),
    {
        NADecoderSupport::new()
    }
}

/// Decoder trait. Each per-format decoder implements it; the library only
/// fixes the shape of the calls.
pub trait NADecoder {
    /// Initialises the decoder with the support structure the caller
    /// allocated.
    fn init(&mut self, supp: &mut NADecoderSupport) -> DecoderResult<()>;

    /// Decodes a single compressed frame into a frame buffer.
    fn decode(&mut self, supp: &mut NADecoderSupport, pkt: &Vec<u8>) -> DecoderResult<
        VideoBuffer,
    >;

    /// Tells the decoder to clear internal state (e.g. after error or
    /// seeking).
    fn flush(&mut self);
}

/// Decoder information used during creating a decoder for requested codec.
#[derive(Debug, Clone, Copy, PartialEq)]
pub struct DecoderInfo {
    /// Short decoder name.
    pub name: &'static str,
}

/// Structure for registering known decoders.
pub struct RegisteredDecoders {
    decs: Vec<DecoderInfo>,
}

impl RegisteredDecoders {
    /// The registered decoders, in registration order.
    pub closed spec fn entries(&self) -> Seq<DecoderInfo> {
        self.decs@
    }

    /// Constructs a new instance of `RegisteredDecoders`.
    pub fn new() -> (r: Self)
        ensures
            r.entries() == Seq::<DecoderInfo>::empty(),
    {
        let r = RegisteredDecoders { decs: Vec::new() };
        proof {
            assert(r.entries() =~= Seq::<DecoderInfo>::empty());
        }
        r
    }

    /// Adds another decoder to the registry.
    pub fn add_decoder(&mut self, dec: DecoderInfo)
        ensures
            final(self).entries() == old(self).entries().push(dec),
    {
        self.decs.push(dec);
    }

    /// Searches for the decoder with the provided name and returns its
    /// registration on success: the first registered entry of that name, or
    /// `None` when no entry carries the name.
    pub fn find_decoder(&self, name: &str) -> (r: Option<DecoderInfo>)
        ensures
            match r {
                Some(info) => exists|i: int|
                    0 <= i < self.entries().len() && self.entries()[i] == info
                        && info.name@ == name@ && forall|j: int|
                        0 <= j < i ==> self.entries()[j].name@ != name@,
                None => forall|i: int|
                    0 <= i < self.entries().len() ==> self.entries()[i].name@ != name@,
            },
    {
        let n = self.decs.len();
        let mut i: usize = 0;
        while i < n
            invariant
                n == self.entries().len(),
                i <= n,
                forall|j: int| 0 <= j < i ==> self.entries()[j].name@ != name@,
            decreases n - i,
        {
            if str_eq(self.decs[i].name, name) {
                return Some(self.decs[i]);
            }
            i += 1;
        }
        None
    }

    /// Provides access to the currently registered decoders.
    pub fn iter(&self) -> (r: &Vec<DecoderInfo>)
        ensures
            r@ == self.entries(),
    {
        &self.decs
    }
}

impl Default for RegisteredDecoders {
    /// An empty registry.
    fn default() -> (r: Self)
        ensures
            r.entries() == Seq::<DecoderInfo>::empty(),
    {
        RegisteredDecoders::new()
    }
}

/// The option value naming `FrameSkipMode::NoSkip`.
pub const FRAME_SKIP_OPTION_VAL_NONE: &'static str = "none";

/// The option value naming `FrameSkipMode::KeyframesOnly`.
pub const FRAME_SKIP_OPTION_VAL_KEYFRAME: &'static str = "keyframe";

/// The option value naming `FrameSkipMode::IntraOnly`.
pub const FRAME_SKIP_OPTION_VAL_INTRA: &'static str = "intra";

/// Frame skipping mode for decoders.
#[derive(Debug, Clone, Copy, PartialEq, Eq, Structural)]
pub enum FrameSkipMode {
    /// Decode all frames.
    NoSkip,
    /// Decode all key frames.
    KeyframesOnly,
    /// Decode only intra frames.
    IntraOnly,
}

/// The frame-skip mode a textual option value names, or invalid data when it
/// names none.
pub open spec fn frame_skip_mode_of(s: Seq<char>) -> Result<FrameSkipMode, DecoderError> {
    if s == "none"@ {
        Ok(FrameSkipMode::NoSkip)
    } else if s == "keyframe"@ {
        Ok(FrameSkipMode::KeyframesOnly)
    } else if s == "intra"@ {
        Ok(FrameSkipMode::IntraOnly)
    } else {
        Err(DecoderError::InvalidData)
    }
}

/// The textual option value that names a frame-skip mode.
pub open spec fn frame_skip_mode_name(m: FrameSkipMode) -> Seq<char> {
    match m {
        FrameSkipMode::NoSkip => "none"@,
        FrameSkipMode::KeyframesOnly => "keyframe"@,
        FrameSkipMode::IntraOnly => "intra"@,
    }
}

impl FrameSkipMode {
    /// Parses an option value: exactly the three mode names are accepted,
    /// anything else is invalid data.
    pub fn from_str(s: &str) -> (r: Result<FrameSkipMode, DecoderError>)
        ensures
            r == frame_skip_mode_of(s@),
    {
        if str_eq(s, FRAME_SKIP_OPTION_VAL_NONE) {
            Ok(FrameSkipMode::NoSkip)
        } else if str_eq(s, FRAME_SKIP_OPTION_VAL_KEYFRAME) {
            Ok(FrameSkipMode::KeyframesOnly)
        } else if str_eq(s, FRAME_SKIP_OPTION_VAL_INTRA) {
            Ok(FrameSkipMode::IntraOnly)
        } else {
            Err(DecoderError::InvalidData)
        }
    }

    /// The option value naming this mode.
    pub fn to_string(&self) -> (r: String)
        ensures
            r@ == frame_skip_mode_name(*self),
    {
        match *self {
            FrameSkipMode::NoSkip => FRAME_SKIP_OPTION_VAL_NONE.to_owned(),
            FrameSkipMode::KeyframesOnly => FRAME_SKIP_OPTION_VAL_KEYFRAME.to_owned(),
            FrameSkipMode::IntraOnly => FRAME_SKIP_OPTION_VAL_INTRA.to_owned(),
        }
    }
}

impl core::str::FromStr for FrameSkipMode {
    type Err = DecoderError;

    /// The same parse `FrameSkipMode::from_str` performs, reachable through
    /// `str::parse`.
    fn from_str(s: &str) -> Result<Self, DecoderError> {
        FrameSkipMode::from_str(s)
    }
}

impl Default for FrameSkipMode {
    /// By default no frame is skipped.
    fn default() -> (r: Self)
        ensures
            r == FrameSkipMode::NoSkip,
    {
        FrameSkipMode::NoSkip
    }
}

/// Every option value parses back to the mode it names: the two conversions
/// between frame-skip modes and their names are mutually inverse.
pub proof fn lemma_frame_skip_mode_round_trip(m: FrameSkipMode)
    ensures
        frame_skip_mode_of(frame_skip_mode_name(m)) == Ok::<FrameSkipMode, DecoderError>(m),
{
    reveal_strlit("none");
    reveal_strlit("keyframe");
    reveal_strlit("intra");
    assert("none"@.len() == 4);
    assert("keyframe"@.len() == 8);
    assert("intra"@.len() == 5);
}

/// A list specifying general encoding errors.
#[derive(Debug, Clone, Copy, PartialEq, Eq, Structural)]
pub enum EncoderError {
    /// No frame was provided.
    NoFrame,
    /// Allocation failed.
    AllocError,
    /// Operation requires repeating.
    TryAgain,
    /// Input format is not supported by codec.
    FormatError,
    /// Invalid input parameters were provided.
    InvalidParameters,
    /// Feature is not implemented.
    NotImplemented,
    /// Some bug in the encoder. It should not happen yet it might.
    Bug,
}

/// A specialised `Result` type for encoding operations.
pub type EncoderResult<T> = Result<T, EncoderError>;

impl From<ByteIOError> for EncoderError {
    /// An encoder writes to storage it sized itself, so a byte-output
    /// failure is its own bug.
    fn from(e: ByteIOError) -> (r: Self)
        ensures
            r == EncoderError::Bug,
    {
        EncoderError::Bug
    }
}

impl vstd::std_specs::convert::FromSpecImpl<ByteIOError> for EncoderError {
    open spec fn obeys_from_spec() -> bool {
        true
    }

    open spec fn from_spec(e: ByteIOError) -> EncoderError {
        EncoderError::Bug
    }
}

impl From<AllocatorError> for EncoderError {
    /// Any frame-allocation failure surfaces as an allocation error.
    fn from(e: AllocatorError) -> (r: Self)
        ensures
            r == EncoderError::AllocError,
    {
        EncoderError::AllocError
    }
}

impl vstd::std_specs::convert::FromSpecImpl<AllocatorError> for EncoderError {
    open spec fn obeys_from_spec() -> bool {
        true
    }

    open spec fn from_spec(e: AllocatorError) -> EncoderError {
        EncoderError::AllocError
    }
}

/// Encoding parameter flag to force constant bitrate mode.
pub const ENC_MODE_CBR: u64 = 1 << 0;

/// Encoding parameter flag to force constant framerate mode.
pub const ENC_MODE_CFR: u64 = 1 << 1;

/// The kind of stream a codec handles.
#[derive(Debug, Clone, Copy, PartialEq, Eq, Structural)]
pub enum NACodecTypeInfo {
    /// The stream kind is not set.
    Unset,
    /// A video stream.
    Video,
    /// An audio stream.
    Audio,
}

/// Encoding parameters.
#[derive(Debug, Clone, Copy, PartialEq, Eq, Structural)]
pub struct EncodeParameters {
    /// Input format.
    pub format: NACodecTypeInfo,
    /// Time base numerator. Ignored for audio.
    pub tb_num: u32,
    /// Time base denominator. Ignored for audio.
    pub tb_den: u32,
    /// Bitrate in kilobits per second.
    pub bitrate: u32,
    /// A collection of various boolean encoder settings like CBR mode.
    ///
    /// See the `ENC_MODE_*` flags for the available options.
    pub flags: u64,
    /// Encoding quality.
    pub quality: u8,
}

impl Default for EncodeParameters {
    /// Parameters with no format, rates and flags all zero.
    fn default() -> (r: EncodeParameters)
        ensures
            r == (EncodeParameters {
                format: NACodecTypeInfo::Unset,
                tb_num: 0u32,
                tb_den: 0u32,
                bitrate: 0u32,
                flags: 0u64,
                quality: 0u8,
            }),
    {
        EncodeParameters {
            format: NACodecTypeInfo::Unset,
            tb_num: 0,
            tb_den: 0,
            bitrate: 0,
            flags: 0,
            quality: 0,
        }
    }
}

/// Encoder trait. Each per-format encoder implements it; the library only
/// fixes the shape of the calls.
pub trait NAEncoder {
    /// Tries to negotiate input format: takes input encoding parameters and
    /// returns adjusted encoding parameters if the input ones make sense.
    fn negotiate_format(&self, encinfo: &EncodeParameters) -> EncoderResult<EncodeParameters>;

    /// Initialises the encoder for the given stream.
    fn init(&mut self, stream_id: u32, encinfo: EncodeParameters) -> EncoderResult<()>;

    /// Takes a single frame for encoding.
    fn encode(&mut self, frm: &VideoBuffer) -> EncoderResult<()>;

    /// Returns an encoded packet if one is available.
    fn get_packet(&mut self) -> EncoderResult<Option<Vec<u8>>>;

    /// Tells the encoder to encode all data it currently has.
    fn flush(&mut self) -> EncoderResult<()>;
}

/// Encoder information used during creating an encoder for requested codec.
#[derive(Debug, Clone, Copy, PartialEq)]
pub struct EncoderInfo {
    /// Short encoder name.
    pub name: &'static str,
}

/// Structure for registering known encoders.
pub struct RegisteredEncoders {
    encs: Vec<EncoderInfo>,
}

impl RegisteredEncoders {
    /// The registered encoders, in registration order.
    pub closed spec fn entries(&self) -> Seq<EncoderInfo> {
        self.encs@
    }

    /// Constructs a new instance of `RegisteredEncoders`.
    pub fn new() -> (r: Self)
        ensures
            r.entries() == Seq::<EncoderInfo>::empty(),
    {
        let r = RegisteredEncoders { encs: Vec::new() };
        proof {
            assert(r.entries() =~= Seq::<EncoderInfo>::empty());
        }
        r
    }

    /// Adds another encoder to the registry.
    pub fn add_encoder(&mut self, enc: EncoderInfo)
        ensures
            final(self).entries() == old(self).entries().push(enc),
    {
        self.encs.push(enc);
    }

    /// Searches for the encoder with the provided name and returns its
    /// registration on success: the first registered entry of that name, or
    /// `None` when no entry carries the name.
    pub fn find_encoder(&self, name: &str) -> (r: Option<EncoderInfo>)
        ensures
            match r {
                Some(info) => exists|i: int|
                    0 <= i < self.entries().len() && self.entries()[i] == info
                        && info.name@ == name@ && forall|j: int|
                        0 <= j < i ==> self.entries()[j].name@ != name@,
                None => forall|i: int|
                    0 <= i < self.entries().len() ==> self.entries()[i].name@ != name@,
            },
    {
        let n = self.encs.len();
        let mut i: usize = 0;
        while i < n
            invariant
                n == self.entries().len(),
                i <= n,
                forall|j: int| 0 <= j < i ==> self.entries()[j].name@ != name@,
            decreases n - i,
        {
            if str_eq(self.encs[i].name, name) {
                return Some(self.encs[i]);
            }
            i += 1;
        }
        None
    }

    /// Provides access to the currently registered encoders.
    pub fn iter(&self) -> (r: &Vec<EncoderInfo>)
        ensures
            r@ == self.entries(),
    {
        &self.encs
    }
}

impl Default for RegisteredEncoders {
    /// An empty registry.
    fn default() -> (r: Self)
        ensures
            r.entries() == Seq::<EncoderInfo>::empty(),
    {
        RegisteredEncoders::new()
    }
}

} // verus!
