//! Core building blocks for a video decoding pipeline: a motion-vector value
//! type with a median predictor, reference-frame shufflers that keep track of
//! previously decoded frames, and the bookkeeping types (error kinds, codec
//! registries, frame-skip policy) that decoders and encoders are built around.
pub mod codecs;
pub mod frame;
pub mod io;
pub mod mv;
pub mod shuffle;
pub mod strutil;
