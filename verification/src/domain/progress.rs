//! Progress of a download, as far as it is counted in whole numbers.

use vstd::prelude::*;

verus! {

/// How far a download has come.
#[derive(Debug, Clone, Copy, PartialEq, Eq, Structural)]
pub struct ProgressCounts {
    /// Bytes that have arrived.
    pub bytes_done: u64,
    /// Bytes in all; zero where the size is not known.
    pub bytes_total: u64,
    /// Pieces that are complete.
    pub pieces_done: u32,
    /// Pieces in all; zero where the size is not known.
    pub pieces_total: u32,
}

impl Default for ProgressCounts {
    fn default() -> (p: ProgressCounts)
        ensures
            p == (ProgressCounts {
                bytes_done: 0,
                bytes_total: 0,
                pieces_done: 0,
                pieces_total: 0,
            }),
    {
        ProgressCounts { bytes_done: 0, bytes_total: 0, pieces_done: 0, pieces_total: 0 }
    }
}

impl ProgressCounts {
    /// The bytes that are still to come, from which the remaining time is estimated;
    /// `None` where the size is not known.
    pub fn remaining(&self) -> (r: Option<u64>)
        ensures
            r is None <==> self.bytes_total == 0,
            r matches Some(n) ==> n == (if self.bytes_done < self.bytes_total {
                self.bytes_total - self.bytes_done
            } else {
                0
            }),
    {
        if self.bytes_total == 0 {
            None
        } else if self.bytes_done < self.bytes_total {
            Some(self.bytes_total - self.bytes_done)
        } else {
            Some(0)
        }
    }
}

} // verus!
