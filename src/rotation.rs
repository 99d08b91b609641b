//! Rotation policy of the event log's active segment.
//!
//! The active segment grows by whole records. A record that would take it
//! past the size threshold first archives it: archives shift up by one
//! suffix (`.1` becomes `.2`, ...), the one past the retention count is
//! removed, the active segment becomes `.1`, and a new empty one takes the
//! record.

use vstd::prelude::*;

verus! {

/// Number of archived segments kept.
pub const RETENTION: u64 = 100;

/// The size in bytes that a size text such as `3 MB` denotes.
pub uninterp spec fn byte_size_of(s: Seq<char>) -> Option<u128>;

/// Relies on byte_unit::Byte::from_str and Byte::get_bytes: the number of
/// bytes a size text denotes, `None` where it does not parse.
#[verifier::external_body]
fn parse_byte_size(text: &str) -> (r: Option<u128>)
    ensures
        r == byte_size_of(text@),
{
    byte_unit::Byte::from_str(text).ok().map(|b| b.get_bytes())
}

/// State of the active segment. Segments are numbered from 1 in the order
/// they were started; `rotations` counts the segments archived since the
/// state was resumed from disk (where it starts from the archives found, at
/// most the retention count), and the active one is number `rotations + 1`.
pub struct EventLogSegment {
    pub size: u64,
    pub threshold: u64,
    pub retention: u64,
    pub rotations: u64,
}

/// What a caller must do on disk to append a record.
pub struct AppendPlan {
    /// Whether the active segment is archived before the write.
    pub rotate: bool,
    /// The archive suffix to delete first, if any.
    pub discard: Option<u64>,
    /// Archives `.1 ..= .shift` are each renamed to the next suffix, highest first.
    pub shift: u64,
}

/// A record longer than the threshold fits in no segment.
pub struct RecordTooLarge {
    pub len: u64,
    pub threshold: u64,
}

impl EventLogSegment {
    pub open spec fn wf(&self) -> bool {
        self.threshold > 0 && self.retention > 0 && self.size <= self.threshold
    }

    /// How many archived segments exist.
    pub open spec fn archived_count(&self) -> u64 {
        if self.rotations < self.retention { self.rotations } else { self.retention }
    }

    /// The numbers of the segments held in archives: the newest
    /// `archived_count` of those already rotated out.
    pub open spec fn archived_segments(&self) -> Set<int> {
        Set::new(
            |i: int| self.rotations - self.archived_count() < i && i <= self.rotations,
        )
    }

    /// Number of the segment that archive suffix `k` holds.
    pub open spec fn segment_at_suffix(&self, k: int) -> int {
        self.rotations + 1 - k
    }

    /// The disk steps for appending `len` bytes, where the record fits the threshold.
    pub open spec fn plan_for(&self, len: u64) -> AppendPlan {
        if self.size + len > self.threshold {
            if self.archived_count() == self.retention {
                AppendPlan { rotate: true, discard: Some(self.retention), shift: (self.retention - 1) as u64 }
            } else {
                AppendPlan { rotate: true, discard: None, shift: self.archived_count() }
            }
        } else {
            AppendPlan { rotate: false, discard: None, shift: 0 }
        }
    }

    /// The state after appending `len` bytes, where the record fits the threshold.
    pub open spec fn after_append(&self, len: u64) -> EventLogSegment {
        if self.size + len > self.threshold {
            EventLogSegment { size: len, rotations: (self.rotations + 1) as u64, ..*self }
        } else {
            EventLogSegment { size: (self.size + len) as u64, ..*self }
        }
    }

    /// Resumes a segment found on disk with `size` bytes and `archived`
    /// archives, under the size threshold that `limit_text` denotes. `None`
    /// where the text denotes no size in `1 ..= u64::MAX`, or `size` is past it.
    pub fn resume(limit_text: &str, size: u64, archived: u64) -> (r: Option<EventLogSegment>)
        ensures
            match byte_size_of(limit_text@) {
                Some(t) => if 0 < t <= u64::MAX && size <= t {
                    r matches Some(s) && s.threshold == t && s.size == size && s.retention
                        == RETENTION && s.rotations == (if archived < RETENTION {
                        archived
                    } else {
                        RETENTION
                    }) && s.wf()
                } else {
                    r is None
                },
                None => r is None,
            },
    {
        match parse_byte_size(limit_text) {
            Some(t) => {
                if t == 0 || t > u64::MAX as u128 || size as u128 > t {
                    None
                } else {
                    let rotations = if archived < RETENTION { archived } else { RETENTION };
                    Some(EventLogSegment { size, threshold: t as u64, retention: RETENTION, rotations })
                }
            },
            None => None,
        }
    }

    /// Number of archived segments.
    pub fn archived(&self) -> (r: u64)
        ensures
            r == self.archived_count(),
    {
        if self.rotations < self.retention { self.rotations } else { self.retention }
    }

    /// Accounts for appending a record of `len` bytes and says what to do on
    /// disk first. The segment is rotated exactly when the record would take
    /// it past the threshold; the new active segment then holds only the record.
    pub fn append(&mut self, len: u64) -> (r: Result<AppendPlan, RecordTooLarge>)
        requires
            old(self).wf(),
            old(self).rotations < u64::MAX,
        ensures
            final(self).wf(),
            final(self).threshold == old(self).threshold,
            final(self).retention == old(self).retention,
            len > old(self).threshold <==> r is Err,
            r matches Err(e) ==> e.len == len && e.threshold == old(self).threshold && *final(self)
                == *old(self),
            r matches Ok(p) ==> p == old(self).plan_for(len) && *final(self) == old(self).after_append(len),
            r matches Ok(p) ==> (p.rotate <==> old(self).size + len > old(self).threshold),
            r matches Ok(p) ==> if p.rotate {
                &&& final(self).size == len
                &&& final(self).rotations == old(self).rotations + 1
                &&& p.discard == (if old(self).archived_count() == old(self).retention {
                    Some(old(self).retention)
                } else {
                    None::<u64>
                })
                &&& p.shift == (if old(self).archived_count() == old(self).retention {
                    (old(self).retention - 1) as u64
                } else {
                    old(self).archived_count()
                })
            } else {
                &&& final(self).size == old(self).size + len
                &&& final(self).rotations == old(self).rotations
                &&& p.discard is None
                &&& p.shift == 0
            },
    {
        if len > self.threshold {
            return Err(RecordTooLarge { len, threshold: self.threshold });
        }
        if len > self.threshold - self.size {
            let archived = self.archived();
            let (discard, shift) = if archived == self.retention {
                (Some(self.retention), self.retention - 1)
            } else {
                (None, archived)
            };
            self.size = len;
            self.rotations = self.rotations + 1;
            Ok(AppendPlan { rotate: true, discard, shift })
        } else {
            self.size = self.size + len;
            Ok(AppendPlan { rotate: false, discard: None, shift: 0 })
        }
    }
}

/// A rotation keeps the newest archives: the segment just rotated out is
/// archived at suffix 1, each archived segment moves up one suffix, and when
/// the retention count was reached the oldest archive is gone.
pub proof fn lemma_rotation_archives(before: EventLogSegment, after: EventLogSegment)
    requires
        before.wf(),
        after.retention == before.retention,
        after.rotations == before.rotations + 1,
    ensures
        after.archived_segments().contains(before.rotations + 1),
        after.segment_at_suffix(1) == before.rotations + 1,
        forall|k: int|
            1 <= k < before.retention ==> after.segment_at_suffix(k + 1) == before.segment_at_suffix(
                k,
            ),
        forall|i: int|
            before.archived_segments().contains(i) && i != before.rotations + 1
                - before.retention ==> after.archived_segments().contains(i),
        before.archived_count() == before.retention ==> !after.archived_segments().contains(
            before.rotations + 1 - before.retention,
        ),
{
}

/// After more than `retention` rotations the first segment ever archived
/// no longer exists, and exactly `retention` archives remain.
pub proof fn lemma_retention(s: EventLogSegment)
    requires
        s.wf(),
        s.rotations > s.retention,
    ensures
        !s.archived_segments().contains(1),
        s.archived_count() == s.retention,
{
}

} // verus!
