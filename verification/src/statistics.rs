//! Counters accumulated over the course of a bulk upload.

use vstd::prelude::*;

verus! {

/// Saturating addition on `u64`.
pub open spec fn sat_add(a: u64, b: u64) -> u64 {
    if a + b > u64::MAX {
        u64::MAX
    } else {
        (a + b) as u64
    }
}

fn add_saturating(a: u64, b: u64) -> (r: u64)
    ensures
        r == sat_add(a, b),
{
    if a <= u64::MAX - b {
        a + b
    } else {
        u64::MAX
    }
}

/// Counter deltas reported by one successfully uploaded batch.
pub struct StatisticsUpdate {
    pub uploaded: u64,
    pub new: u64,
    pub updated: u64,
    pub unchanged: u64,
}

/// Running totals for a bulk upload. Counters only ever grow.
pub struct Statistics {
    pub bytes_read: u64,
    pub uploaded: u64,
    pub new: u64,
    pub updated: u64,
    pub unchanged: u64,
    pub annotations: u64,
}

impl Statistics {
    pub fn new() -> (r: Statistics)
        ensures
            r.bytes_read == 0,
            r.uploaded == 0,
            r.new == 0,
            r.updated == 0,
            r.unchanged == 0,
            r.annotations == 0,
    {
        Statistics {
            bytes_read: 0,
            uploaded: 0,
            new: 0,
            updated: 0,
            unchanged: 0,
            annotations: 0,
        }
    }

    pub fn add_bytes_read(&mut self, bytes: u64)
        ensures
            final(self).bytes_read == sat_add(old(self).bytes_read, bytes),
            final(self).uploaded == old(self).uploaded,
            final(self).new == old(self).new,
            final(self).updated == old(self).updated,
            final(self).unchanged == old(self).unchanged,
            final(self).annotations == old(self).annotations,
    {
        self.bytes_read = add_saturating(self.bytes_read, bytes);
    }

    pub fn add_comments(&mut self, update: StatisticsUpdate)
        ensures
            final(self).uploaded == sat_add(old(self).uploaded, update.uploaded),
            final(self).new == sat_add(old(self).new, update.new),
            final(self).updated == sat_add(old(self).updated, update.updated),
            final(self).unchanged == sat_add(old(self).unchanged, update.unchanged),
            final(self).bytes_read == old(self).bytes_read,
            final(self).annotations == old(self).annotations,
    {
        self.uploaded = add_saturating(self.uploaded, update.uploaded);
        self.new = add_saturating(self.new, update.new);
        self.updated = add_saturating(self.updated, update.updated);
        self.unchanged = add_saturating(self.unchanged, update.unchanged);
    }

    pub fn num_uploaded(&self) -> (r: u64)
        ensures
            r == self.uploaded,
    {
        self.uploaded
    }

    pub fn num_new(&self) -> (r: u64)
        ensures
            r == self.new,
    {
        self.new
    }

    pub fn num_updated(&self) -> (r: u64)
        ensures
            r == self.updated,
    {
        self.updated
    }

    pub fn num_unchanged(&self) -> (r: u64)
        ensures
            r == self.unchanged,
    {
        self.unchanged
    }

    pub fn num_annotations(&self) -> (r: u64)
        ensures
            r == self.annotations,
    {
        self.annotations
    }

    pub fn num_bytes_read(&self) -> (r: u64)
        ensures
            r == self.bytes_read,
    {
        self.bytes_read
    }

    pub fn add_annotation(&mut self)
        ensures
            final(self).annotations == sat_add(old(self).annotations, 1),
            final(self).bytes_read == old(self).bytes_read,
            final(self).uploaded == old(self).uploaded,
            final(self).new == old(self).new,
            final(self).updated == old(self).updated,
            final(self).unchanged == old(self).unchanged,
    {
        self.annotations = add_saturating(self.annotations, 1);
    }
}

} // verus!
