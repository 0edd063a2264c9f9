//! Memory accounting: alignment choices and the allocation tracker that
//! enforces the run's memory cap.
use vstd::prelude::*;
use crate::error::ZipError;

verus! {

/// Memory alignment requirements.
#[derive(Debug, Clone, Copy)]
pub enum Alignment {
    /// Cache line alignment, sixty-four bytes.
    CacheLine,
    /// Page alignment, four KiB.
    Page,
    /// A custom alignment in bytes.
    Custom(usize),
}

/// The byte value of an alignment choice.
pub open spec fn alignment_value(a: Alignment) -> int {
    match a {
        Alignment::CacheLine => 64,
        Alignment::Page => 4096,
        Alignment::Custom(n) => n as int,
    }
}

impl Alignment {
    /// The alignment in bytes.
    pub fn value(&self) -> (r: usize)
        ensures
            r == alignment_value(*self),
    {
        match self {
            Alignment::CacheLine => 64,
            Alignment::Page => 4096,
            Alignment::Custom(n) => *n,
        }
    }
}

/// Tracks live allocation bytes against a hard cap, remembering the
/// peak. Current and peak usage never pass the cap.
#[derive(Debug)]
pub struct MemoryTracker {
    /// Live allocation bytes.
    pub current_size: usize,
    /// The highest live allocation seen.
    pub peak_size: usize,
    /// The hard cap.
    pub max_size: usize,
}

impl MemoryTracker {
    /// The tracker's bookkeeping never exceeds its cap.
    pub open spec fn wf(&self) -> bool {
        &&& self.current_size <= self.max_size
        &&& self.current_size <= self.peak_size
        &&& self.peak_size <= self.max_size
    }

    /// A fresh tracker with the given cap.
    pub fn new(max_size: usize) -> (t: MemoryTracker)
        ensures
            t.wf(),
            t.current_size == 0,
            t.peak_size == 0,
            t.max_size == max_size,
    {
        MemoryTracker { current_size: 0, peak_size: 0, max_size }
    }

    /// Accounts for an allocation: refused, with nothing changed, when
    /// it would push live bytes past the cap; otherwise live bytes grow
    /// and the peak follows.
    pub fn track_alloc(&mut self, size: usize) -> (r: Result<(), ZipError>)
        requires
            old(self).wf(),
        ensures
            final(self).wf(),
            final(self).max_size == old(self).max_size,
            r is Ok <==> old(self).current_size + size <= old(self).max_size,
            r is Ok ==> final(self).current_size == old(self).current_size + size,
            r is Ok ==> final(self).peak_size == (if old(self).current_size + size > old(
                self,
            ).peak_size {
                old(self).current_size + size
            } else {
                old(self).peak_size as int
            }),
            r is Err ==> *final(self) == *old(self),
            r is Err ==> r matches Err(ZipError::MemoryLimit(_)),
            // Peak outstanding bytes never pass the configured cap.
            final(self).peak_size <= final(self).max_size,
    {
        if size > self.max_size - self.current_size {
            return Err(ZipError::MemoryLimit("memory limit exceeded".to_owned()));
        }
        self.current_size = self.current_size + size;
        if self.current_size > self.peak_size {
            self.peak_size = self.current_size;
        }
        Ok(())
    }

    /// Accounts for a deallocation of bytes previously tracked.
    pub fn track_dealloc(&mut self, size: usize)
        requires
            old(self).wf(),
            size <= old(self).current_size,
        ensures
            final(self).wf(),
            final(self).current_size == old(self).current_size - size,
            final(self).peak_size == old(self).peak_size,
            final(self).max_size == old(self).max_size,
    {
        self.current_size = self.current_size - size;
    }

    /// Live allocation bytes.
    pub fn current_size(&self) -> (r: usize)
        ensures
            r == self.current_size,
    {
        self.current_size
    }

    /// The highest live allocation seen.
    pub fn peak_size(&self) -> (r: usize)
        ensures
            r == self.peak_size,
    {
        self.peak_size
    }
}

} // verus!
