//! Content negotiation for request and response bodies in JSON and
//! MessagePack.
//!
//! A request declares one media type for its body and a list of media types
//! that it accepts in answer. This library decides, from those declarations
//! and from the set of formats that are switched on, in which format a body
//! is read and in which one an answer is written, and calls the codec of that
//! format:
//!
//! - [`decode::decode`] reads a request body. The first enabled format that
//!   accepts the declared content type claims the request; at most that
//!   format's limit of bytes is read. A request that no format claims is
//!   forwarded, and a claimed body that its codec rejects is a bad request.
//! - [`encode::encode`] writes a response body in the format of the first
//!   entry of the accept list that an enabled format accepts, and fails as
//!   not acceptable where there is no such entry.
//! - [`registry::Registry`] holds which formats are enabled, JSON before
//!   MessagePack, and the decode limit of each.
//!
//! Every call is a function of its arguments; nothing is kept between calls.
//!
//! The dispatch is verified with Verus against the definitions in
//! [`decode`] and [`encode`], and [`laws`] proves what follows from them. The
//! codecs themselves, `serde_json` and `rmp_serde`, are called through
//! [`codec`] and are not verified.

pub mod codec;
pub mod decode;
pub mod encode;
pub mod format;
pub mod laws;
pub mod media;
pub mod outcome;
pub mod registry;
pub mod text;
