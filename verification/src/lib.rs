//! Writing a live screen recording as a run of bounded WebM files.
//!
//! A recording is captured frame by frame, encoded, and handed to a
//! multiplexer, which writes one continuous stream. That stream is cut into
//! chunks at the multiplexer's cluster boundaries: each chunk is a file of
//! its own, and is handed on as soon as the next one begins.
//!
//! The crate holds the decisions of such a recording and proves what they
//! promise; devices and files stay with its user.
//!
//! - [`pipeline`]: the recording loop, from the first frame to the release of
//!   the sink, and the way from the encoder's packets to the multiplexer's
//!   frames.
//! - [`mux`]: the chunked sink, and what is asked of the multiplexer.
//! - [`naming`]: the names of the chunk files.
//! - [`convert`]: from captured pixels to the planes that the encoder takes.
//! - [`shutdown`]: the flag by which a stop is asked for.
//!
//! Three small helpers stand beside them: [`generics`], [`locale`] and
//! [`tracef`].

pub mod convert;
pub mod generics;
pub mod locale;
pub mod mux;
pub mod naming;
pub mod pipeline;
pub mod shutdown;
pub mod tracef;
