//! Client-side protocol engine for a length-prefixed, NUL-separated text-field
//! wire protocol: frame and field codecs, a version-gated response decoder, a
//! request encoder, and the decision logic of the session pipeline.

pub mod encoder;
pub mod errors;
pub mod messages;
pub mod de;
pub mod decoder;
pub mod numtext;
pub mod requests;
pub mod server_versions;
pub mod session;

use vstd::prelude::*;

verus! {

/// Integer sentinel meaning "field intentionally absent" on the wire.
pub const UNSET_INTEGER: i32 = 2147483647;

} // verus!
