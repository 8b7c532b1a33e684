//! The domain tag of the protocol.
//!
//! Signer and verifier open their transcripts with the same tag. It is part
//! of the protocol and no caller can choose it.

use vstd::prelude::*;

verus! {

/// The domain tag under which every message is signed and verified: the
/// ASCII bytes of `substrate`.
pub open spec fn signing_context() -> Seq<u8> {
    seq![115u8, 117u8, 98u8, 115u8, 116u8, 114u8, 97u8, 116u8, 101u8]
}

/// The domain tag, as bytes to hand to the transcript.
pub fn context_bytes() -> (context: [u8; 9])
    ensures
        context@ == signing_context(),
{
    [115, 117, 98, 115, 116, 114, 97, 116, 101]
}

} // verus!
