//! Vocabulary shared with the multimedia framework that opens DV files, and
//! what is decided about its answers.
pub mod format;
pub mod rational;

pub use format::codec_support;
pub use format::Compliance;
pub use rational::AVRationalConversionError;
pub use rational::AVRationalConverter;
pub use rational::RatioInteger;
