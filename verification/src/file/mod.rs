//! Facts about a whole DV file: its size, frame rate, duration and audio, and
//! what follows from them (frame size, system).
pub mod info;
pub mod ratio;
pub mod streams;

pub use info::DissimilarError;
pub use info::Info;
pub use info::System;
pub use info::ValidInfo;
pub use info::ValidInfoMethods;
pub use ratio::Ratio;
pub use streams::AudioStream;
pub use streams::InfoError;
pub use streams::StreamError;
pub use streams::VideoStream;
