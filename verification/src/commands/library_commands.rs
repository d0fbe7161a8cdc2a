//! The outcome of adding a batch of files to a playlist.

use vstd::prelude::*;

verus! {

/// What became of one path given to add.
#[derive(Debug, Clone, Copy)]
pub enum AddOutcome {
    /// Not an existing file with a supported audio extension: not taken.
    PassedOver,
    /// Already in the library; only linked to the playlist.
    AlreadyKnown,
    /// Read, stored and linked to the playlist.
    Added,
    /// Could not be looked up, read or stored.
    Failed,
}

/// How many of `outcomes` are `o`.
pub open spec fn outcome_count(outcomes: Seq<AddOutcome>, o: AddOutcome) -> nat
    decreases outcomes.len(),
{
    if outcomes.len() == 0 {
        0
    } else {
        outcome_count(outcomes.drop_last(), o) + if outcomes.last() == o { 1nat } else { 0nat }
    }
}

/// How many of the files given were added to the library, were already in
/// it (and only linked to the playlist), or failed.
#[derive(Debug, Clone, Copy)]
pub struct AddResultDto {
    pub added: u32,
    pub skipped: u32,
    pub failed: u32,
}

impl AddResultDto {
    /// Nothing added yet.
    pub fn new() -> (r: Self)
        ensures
            r.added == 0 && r.skipped == 0 && r.failed == 0,
    {
        AddResultDto { added: 0, skipped: 0, failed: 0 }
    }

    /// Whether a path given to add is imported: only existing files with a
    /// supported audio extension are; the rest are passed over uncounted.
    pub fn takes(is_file: bool, supported: bool) -> (r: bool)
        ensures
            r == (is_file && supported),
    {
        is_file && supported
    }

    /// A file already in the library.
    pub fn known_file(&mut self)
        requires
            old(self).skipped < u32::MAX,
        ensures
            final(self).skipped == old(self).skipped + 1,
            final(self).added == old(self).added,
            final(self).failed == old(self).failed,
    {
        self.skipped = self.skipped + 1;
    }

    /// A file read and stored.
    pub fn added_file(&mut self)
        requires
            old(self).added < u32::MAX,
        ensures
            final(self).added == old(self).added + 1,
            final(self).skipped == old(self).skipped,
            final(self).failed == old(self).failed,
    {
        self.added = self.added + 1;
    }

    /// Counts one path's outcome; a path passed over is not counted.
    pub fn record(&mut self, outcome: AddOutcome)
        requires
            old(self).added < u32::MAX,
            old(self).skipped < u32::MAX,
            old(self).failed < u32::MAX,
        ensures
            final(self).added == old(self).added + if outcome == AddOutcome::Added { 1int } else { 0int },
            final(self).skipped == old(self).skipped + if outcome == AddOutcome::AlreadyKnown { 1int } else { 0int },
            final(self).failed == old(self).failed + if outcome == AddOutcome::Failed { 1int } else { 0int },
    {
        match outcome {
            AddOutcome::PassedOver => {},
            AddOutcome::AlreadyKnown => self.known_file(),
            AddOutcome::Added => self.added_file(),
            AddOutcome::Failed => self.failed_file(),
        }
    }

    /// The counts of a batch, from the outcome of each path given, in order.
    /// Every path taken is counted exactly once: the three counts and the
    /// paths passed over add up to the number of paths.
    pub fn tally(outcomes: &Vec<AddOutcome>) -> (r: Self)
        requires
            outcomes.len() <= u32::MAX,
        ensures
            r.added == outcome_count(outcomes@, AddOutcome::Added),
            r.skipped == outcome_count(outcomes@, AddOutcome::AlreadyKnown),
            r.failed == outcome_count(outcomes@, AddOutcome::Failed),
            r.added + r.skipped + r.failed + outcome_count(outcomes@, AddOutcome::PassedOver) == outcomes.len(),
    {
        let mut r = AddResultDto::new();
        let mut i: usize = 0;
        while i < outcomes.len()
            invariant
                i <= outcomes.len() <= u32::MAX,
                r.added == outcome_count(outcomes@.subrange(0, i as int), AddOutcome::Added),
                r.skipped == outcome_count(outcomes@.subrange(0, i as int), AddOutcome::AlreadyKnown),
                r.failed == outcome_count(outcomes@.subrange(0, i as int), AddOutcome::Failed),
                r.added + r.skipped + r.failed + outcome_count(outcomes@.subrange(0, i as int), AddOutcome::PassedOver)
                    == i,
            decreases outcomes.len() - i,
        {
            let ghost prev = outcomes@.subrange(0, i as int);
            let ghost next = outcomes@.subrange(0, i + 1);
            assert(next.drop_last() =~= prev);
            assert(next.last() == outcomes@[i as int]);
            r.record(outcomes[i]);
            i += 1;
        }
        assert(outcomes@.subrange(0, outcomes.len() as int) =~= outcomes@);
        r
    }

    /// A file that could not be looked up, read or stored.
    pub fn failed_file(&mut self)
        requires
            old(self).failed < u32::MAX,
        ensures
            final(self).failed == old(self).failed + 1,
            final(self).added == old(self).added,
            final(self).skipped == old(self).skipped,
    {
        self.failed = self.failed + 1;
    }
}

} // verus!
