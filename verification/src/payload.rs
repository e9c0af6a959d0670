//! Collecting a request body chunk by chunk, up to a size limit.

use vstd::prelude::*;

use crate::response::ResponseError;

verus! {

/// The largest body the API accepts: 4 MiB, enough for lists of some
/// 20,000 items and for reasonably compressed images.
pub const MAX_API_PAYLOAD: u64 = 4194304;

/// The largest body the development helpers accept: 32 KiB.
pub const MAX_DEV_PAYLOAD: u64 = 32768;

/// The bytes of a request body received so far.
#[derive(Debug, Clone)]
pub struct PayloadCollector {
    bytes: Vec<u8>,
    max: u64,
}

impl PayloadCollector {
    pub closed spec fn spec_bytes(&self) -> Seq<u8> {
        self.bytes@
    }

    pub closed spec fn spec_max(&self) -> u64 {
        self.max
    }

    /// The body received so far is within the limit.
    pub open spec fn within_limit(&self) -> bool {
        self.spec_bytes().len() <= self.spec_max()
    }

    /// Nothing received yet; bodies longer than `max` bytes are refused.
    pub fn new(max: u64) -> (c: Self)
        ensures
            c.spec_bytes() == Seq::<u8>::empty(),
            c.spec_max() == max,
            c.within_limit(),
    {
        PayloadCollector { bytes: Vec::new(), max }
    }

    /// Takes the next chunk, unless the body would grow beyond the limit:
    /// then the request is a bad one and nothing is added.
    pub fn push_chunk(&mut self, chunk: &[u8]) -> (r: Result<(), ResponseError>)
        ensures
            final(self).spec_max() == old(self).spec_max(),
            old(self).within_limit() ==> final(self).within_limit(),
            old(self).spec_bytes().len() + chunk@.len() > old(self).spec_max() ==> (r matches Err(
                ResponseError::ErrorBadRequest,
            ) && final(self).spec_bytes() == old(self).spec_bytes()),
            old(self).spec_bytes().len() + chunk@.len() <= old(self).spec_max() ==> r is Ok
                && final(self).spec_bytes() == old(self).spec_bytes() + chunk@,
    {
        if (self.bytes.len() as u128) + (chunk.len() as u128) > (self.max as u128) {
            return Err(ResponseError::ErrorBadRequest);
        }
        let mut i: usize = 0;
        let ghost before = self.bytes@;
        while i < chunk.len()
            invariant
                0 <= i <= chunk@.len(),
                self.bytes@ == before + chunk@.take(i as int),
                self.max == old(self).max,
            decreases chunk@.len() - i,
        {
            self.bytes.push(chunk[i]);
            assert(chunk@.take(i + 1) =~= chunk@.take(i as int).push(chunk@[i as int]));
            i = i + 1;
        }
        assert(chunk@.take(chunk@.len() as int) =~= chunk@);
        Ok(())
    }

    /// The whole body.
    pub fn into_bytes(self) -> (b: Vec<u8>)
        ensures
            b@ == self.spec_bytes(),
    {
        self.bytes
    }
}

} // verus!
