//! Progress of a streamed download.
use vstd::prelude::*;

verus! {

/// Bytes written so far, and the size announced by the server when it gave one.
#[derive(Clone, Copy, Debug, PartialEq, Eq, Structural)]
pub struct DownloadProgress {
    pub downloaded: u64,
    pub total: Option<u64>,
}

impl DownloadProgress {
    /// Progress before the first chunk.
    pub fn new(content_length: Option<u64>) -> (r: DownloadProgress)
        ensures
            r.downloaded == 0,
            r.total == content_length,
    {
        DownloadProgress { downloaded: 0, total: content_length }
    }

    /// Counts a written chunk. Returns false, and counts nothing, when the
    /// count would no longer fit in 64 bits.
    pub fn advance(&mut self, chunk_len: u64) -> (r: bool)
        ensures
            r == (old(self).downloaded + chunk_len <= u64::MAX),
            r ==> final(self).downloaded == old(self).downloaded + chunk_len,
            !r ==> *final(self) == *old(self),
            final(self).total == old(self).total,
            final(self).downloaded >= old(self).downloaded,
    {
        match self.downloaded.checked_add(chunk_len) {
            Some(n) => {
                self.downloaded = n;
                true
            },
            None => false,
        }
    }
}

} // verus!
