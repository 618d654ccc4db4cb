//! Byte counters of a transfer: how much has arrived and, once the remote
//! size is known, how much is expected.

use vstd::prelude::*;

verus! {

/// What the counters stand for: the bytes moved so far and the advertised
/// size, if any.
pub struct Progress {
    pub transferred: u64,
    pub total: Option<u64>,
}

impl Progress {
    /// The transferred count never exceeds a known total.
    pub open spec fn wf(self) -> bool {
        self.total matches Some(t) ==> self.transferred <= t
    }

    /// The largest count the counters may reach: the total when it is known,
    /// otherwise the largest representable count.
    pub open spec fn limit(self) -> int {
        match self.total {
            Some(t) => t as int,
            None => u64::MAX as int,
        }
    }

    /// Whether `len` more bytes still fit under the limit.
    pub open spec fn admits(self, len: int) -> bool {
        self.transferred + len <= self.limit()
    }

    /// The counters after `len` more bytes, where they fit; unchanged where
    /// they do not.
    pub open spec fn record(self, len: int) -> Progress {
        if 0 <= len && self.admits(len) {
            Progress { transferred: (self.transferred + len) as u64, total: self.total }
        } else {
            self
        }
    }

    /// Whole percent of the total that has been transferred, rounded down.
    /// Undefined while the total is unknown; an empty transfer counts as
    /// finished.
    pub open spec fn percent(self) -> Option<int> {
        match self.total {
            None => None,
            Some(t) => if t == 0 {
                Some(100)
            } else {
                Some(self.transferred * 100 / (t as int))
            },
        }
    }
}

/// Progress counters that keep the transferred count within the total.
#[derive(Clone, Copy, Debug)]
pub struct ProgressCounters {
    bytes_transferred: u64,
    total_bytes: Option<u64>,
}

impl View for ProgressCounters {
    type V = Progress;

    closed spec fn view(&self) -> Progress {
        Progress { transferred: self.bytes_transferred, total: self.total_bytes }
    }
}

impl ProgressCounters {
    /// The invariant of the type: the counters are consistent.
    #[verifier::type_invariant]
    pub open spec fn inv(self) -> bool {
        self@.wf()
    }

    /// Counters at zero with the total not yet known.
    pub fn new() -> (c: ProgressCounters)
        ensures
            c@ == (Progress { transferred: 0, total: None }),
    {
        ProgressCounters { bytes_transferred: 0, total_bytes: None }
    }

    /// Counters at zero for a transfer whose size is `total`.
    pub fn start(total: Option<u64>) -> (c: ProgressCounters)
        ensures
            c@ == (Progress { transferred: 0, total }),
    {
        ProgressCounters { bytes_transferred: 0, total_bytes: total }
    }

    /// Counters holding the given values, where these are consistent.
    pub fn from_counts(transferred: u64, total: Option<u64>) -> (c: Option<ProgressCounters>)
        ensures
            match c {
                Some(p) => p@ == (Progress { transferred, total }) && p@.wf(),
                None => !(Progress { transferred, total }).wf(),
            },
    {
        let fits = match total {
            Some(t) => transferred <= t,
            None => true,
        };
        if fits {
            Some(ProgressCounters { bytes_transferred: transferred, total_bytes: total })
        } else {
            None
        }
    }

    /// Bytes moved so far.
    pub fn bytes_transferred(&self) -> (n: u64)
        ensures
            n == self@.transferred,
    {
        self.bytes_transferred
    }

    /// The advertised size, once known.
    pub fn total_bytes(&self) -> (t: Option<u64>)
        ensures
            t == self@.total,
    {
        self.total_bytes
    }

    /// Whether `len` more bytes fit under the limit.
    pub fn admits(&self, len: u64) -> (ok: bool)
        ensures
            ok == self@.admits(len as int),
    {
        let limit: u64 = match self.total_bytes {
            Some(t) => t,
            None => u64::MAX,
        };
        proof {
            use_type_invariant(self);
        }
        len <= limit - self.bytes_transferred
    }

    /// Counts `len` more bytes if they fit under the limit, and says whether
    /// they did. Counters that cannot take the bytes stay as they were.
    pub fn record(&mut self, len: u64) -> (ok: bool)
        ensures
            ok == old(self)@.admits(len as int),
            final(self)@ == old(self)@.record(len as int),
            final(self)@.wf(),
    {
        proof {
            use_type_invariant(&*self);
        }
        if self.admits(len) {
            self.bytes_transferred = self.bytes_transferred + len;
            true
        } else {
            false
        }
    }

    /// Whole percent of the total that has been transferred, rounded down;
    /// `None` while the total is unknown.
    pub fn percent(&self) -> (p: Option<u8>)
        ensures
            match p {
                Some(v) => self@.percent() == Some(v as int),
                None => self@.percent() is None,
            },
            p matches Some(v) ==> v <= 100,
    {
        proof {
            use_type_invariant(self);
        }
        match self.total_bytes {
            None => None,
            Some(t) => {
                if t == 0 {
                    Some(100)
                } else {
                    let scaled: u128 = (self.bytes_transferred as u128) * 100;
                    let q: u128 = scaled / (t as u128);
                    assert(q <= 100) by (nonlinear_arith)
                        requires
                            q == scaled / (t as u128),
                            scaled <= (t as u128) * 100,
                            t > 0,
                    ;
                    Some(q as u8)
                }
            },
        }
    }
}

} // verus!
