//! Audio clips
//!
//! The encoded bytes of a sound, shared between the sounds that play it.

use vstd::prelude::*;
use std::sync::Arc;

verus! {

/// Audio clip data
pub struct AudioClip {
    data: Arc<Vec<u8>>,
}

impl AudioClip {
    /// The encoded bytes.
    pub closed spec fn bytes_view(&self) -> Seq<u8> {
        self.data@
    }

    pub fn from_bytes(data: Vec<u8>) -> (c: Self)
        ensures
            c.bytes_view() == data@,
    {
        AudioClip { data: Arc::new(data) }
    }

    /// The encoded bytes.
    pub fn bytes(&self) -> (b: &Vec<u8>)
        ensures
            b@ == self.bytes_view(),
    {
        &*self.data
    }
}

} // verus!
