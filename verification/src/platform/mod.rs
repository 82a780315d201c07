//! The device platform: the bridge protocol to the Android host, the
//! decisions taken on its answers, and a scripted stand-in for tests.
use vstd::prelude::*;

use crate::domain::document::AttachmentRef;

pub mod android;
pub mod fake;
pub mod protocol;

pub use android::AndroidPlatform;
pub use fake::FakePlatform;
pub use protocol::{NativeOperation, NativeRequest, NativeResponse, NativeResult, ProtocolError};

verus! {

/// What the document picker gave.
#[derive(Debug, Clone, PartialEq, Eq)]
pub enum PickDocumentOutcome {
    Selected(AttachmentRef),
    Cancelled,
}

} // verus!
