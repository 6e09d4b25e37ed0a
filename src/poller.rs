use vstd::prelude::*;

verus! {

/// What one tick of a poller sets out to do.
#[derive(Clone, Copy, Debug, PartialEq, Eq, Structural)]
pub enum TickPlan {
    /// Nothing new is deep enough, or the previous tick has not finished.
    Skip,
    /// Walk the inclusive range of blocks.
    Walk { from_block: u64, to_block: u64 },
}

/// The decisions of one poller: which blocks each tick walks, and how far the
/// cursor moves when the tick ends.
#[derive(Clone, Copy, Debug)]
pub struct Poller {
    /// Highest block fully processed.
    pub cursor: u64,
    /// Blocks behind the tip before a block is walked.
    pub confirmation_depth: u64,
    /// Most blocks one tick walks.
    pub max_batch: u64,
    /// A tick is under way.
    pub busy: bool,
}

/// The range a tick at tip `tip` walks, from an idle poller.
pub open spec fn plan_of(cursor: u64, depth: u64, max_batch: u64, tip: u64) -> TickPlan {
    if tip < depth || tip - depth <= cursor {
        TickPlan::Skip
    } else {
        let safe_tip = tip - depth;
        TickPlan::Walk {
            from_block: (cursor + 1) as u64,
            to_block: if safe_tip - cursor > max_batch {
                (cursor + max_batch) as u64
            } else {
                safe_tip as u64
            },
        }
    }
}

/// The cursor after a tick with plan `plan` ends, well or not.
pub open spec fn cursor_after(cursor: u64, plan: TickPlan, succeeded: bool) -> u64 {
    match plan {
        TickPlan::Walk { from_block, to_block } => if succeeded && to_block > cursor {
            to_block
        } else {
            cursor
        },
        TickPlan::Skip => cursor,
    }
}

impl Poller {
    pub open spec fn wf(&self) -> bool {
        self.max_batch >= 1
    }

    /// An idle poller whose cursor starts at `start_block`.
    pub fn new(start_block: u64, confirmation_depth: u64, max_batch: u64) -> (r: Poller)
        requires
            max_batch >= 1,
        ensures
            r.wf(),
            r.cursor == start_block,
            r.confirmation_depth == confirmation_depth,
            r.max_batch == max_batch,
            !r.busy,
    {
        Poller { cursor: start_block, confirmation_depth, max_batch, busy: false }
    }

    /// Starts a tick at chain tip `tip`. A tick that finds the previous one
    /// unfinished is skipped, not queued. Otherwise the tick walks from just past
    /// the cursor to `tip - confirmation_depth`, at most `max_batch` blocks, or
    /// skips if that tip is not past the cursor.
    pub fn start_tick(&mut self, tip: u64) -> (r: TickPlan)
        requires
            old(self).wf(),
        ensures
            final(self).wf(),
            final(self).cursor == old(self).cursor,
            final(self).confirmation_depth == old(self).confirmation_depth,
            final(self).max_batch == old(self).max_batch,
            old(self).busy ==> r == TickPlan::Skip && final(self).busy,
            !old(self).busy ==> r == plan_of(
                old(self).cursor,
                old(self).confirmation_depth,
                old(self).max_batch,
                tip,
            ) && final(self).busy == (r != TickPlan::Skip),
            r matches TickPlan::Walk { from_block, to_block } ==> {
                &&& from_block == old(self).cursor + 1
                &&& from_block <= to_block
                &&& to_block + old(self).confirmation_depth <= tip
                &&& to_block - from_block < old(self).max_batch
            },
    {
        if self.busy {
            return TickPlan::Skip;
        }
        if tip < self.confirmation_depth || tip - self.confirmation_depth <= self.cursor {
            return TickPlan::Skip;
        }
        let safe_tip = tip - self.confirmation_depth;
        let to_block = if safe_tip - self.cursor > self.max_batch {
            self.cursor + self.max_batch
        } else {
            safe_tip
        };
        self.busy = true;
        TickPlan::Walk { from_block: self.cursor + 1, to_block }
    }

    /// Ends a tick. On success the cursor moves to the last walked block; on any
    /// error it stays, so the next tick walks the same range again.
    pub fn finish_tick(&mut self, plan: TickPlan, succeeded: bool)
        requires
            old(self).wf(),
        ensures
            final(self).wf(),
            final(self).cursor == cursor_after(old(self).cursor, plan, succeeded),
            final(self).cursor >= old(self).cursor,
            final(self).confirmation_depth == old(self).confirmation_depth,
            final(self).max_batch == old(self).max_batch,
            !final(self).busy,
    {
        if let TickPlan::Walk { from_block: _, to_block } = plan {
            if succeeded && to_block > self.cursor {
                self.cursor = to_block;
            }
        }
        self.busy = false;
    }
}

/// Over two ticks without error the cursor never moves back.
pub proof fn lemma_cursor_monotone(cursor: u64, first: TickPlan, second: TickPlan)
    ensures
        cursor_after(cursor, first, true) >= cursor,
        cursor_after(cursor_after(cursor, first, true), second, true) >= cursor_after(
            cursor,
            first,
            true,
        ),
{
}

/// A tick that fails leaves the cursor where it was.
pub proof fn lemma_failed_tick_keeps_cursor(cursor: u64, plan: TickPlan)
    ensures
        cursor_after(cursor, plan, false) == cursor,
{
}

} // verus!
