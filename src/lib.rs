//! A microphone recorder's logic: the controller that accepts start and stop
//! requests, the capture session's teardown order, the conversion of
//! floating-point input samples to 16-bit PCM, the container header, and the
//! naming of output files. Devices, threads, clocks and files are left to the
//! caller, which performs the actions these types decide.

pub mod capture;
pub mod convert;
pub mod meeting;
pub mod naming;
pub mod recorder;
pub mod wav;
