//! Recursion guard: a per-thread depth counter that tells the outermost
//! (primary) handler frame apart from nested frames caused by the shim's own
//! I/O.  Only a primary frame may consult the tracking table, send a
//! preflight, or emit a notification; every other frame falls through to the
//! raw operation.

use vstd::prelude::*;

verus! {

/// The state a handler consults on entry: the process-wide "shim ready"
/// flag (set once by the load-time hook) and this thread's recursion depth.
/// The embedding program keeps one such value per thread and hands it to
/// `Guard::enter` / `Guard::exit` by `&mut`.
pub struct ShimCell {
    /// True once load-time initialization has finished.  While false, every
    /// handler performs nothing but the raw operation.
    pub ready: bool,
    /// How many shim handler frames are active on this thread.
    pub depth: u32,
}

/// The token a handler holds for the span of one invocation.
pub struct Guard {
    /// True iff the recursion depth was zero when the token was taken, so
    /// this is the outermost shim frame on the thread.
    pub primary: bool,
    /// The "shim ready" flag as seen on entry.
    pub enabled: bool,
}

/// Depth after `Guard::enter`: unchanged while the shim is not ready,
/// otherwise incremented, saturating at `u32::MAX`.
pub open spec fn depth_after_enter(c: ShimCell) -> u32 {
    if c.ready {
        if c.depth == u32::MAX {
            u32::MAX
        } else {
            (c.depth + 1) as u32
        }
    } else {
        c.depth
    }
}

/// Depth after `Guard::exit`: unchanged for a disabled token, otherwise
/// decremented, saturating at zero.
pub open spec fn depth_after_exit(enabled: bool, depth: u32) -> u32 {
    if enabled {
        if depth == 0 {
            0
        } else {
            (depth - 1) as u32
        }
    } else {
        depth
    }
}

impl ShimCell {
    /// A fresh per-thread cell with no active handler frame.
    pub fn new(ready: bool) -> (c: ShimCell)
        ensures
            c.ready == ready,
            c.depth == 0,
    {
        ShimCell { ready, depth: 0 }
    }

    /// The load-time hook flips the ready flag exactly once.
    pub fn set_ready(&mut self)
        ensures
            final(self).ready,
            final(self).depth == old(self).depth,
    {
        self.ready = true;
    }
}

impl Guard {
    /// Take the guard at the top of a handler.  The token is primary iff no
    /// other shim frame was active on this thread; the depth is bumped
    /// (saturating) only when the shim is ready, mirroring `exit`.
    pub fn enter(cell: &mut ShimCell) -> (g: Guard)
        ensures
            g.enabled == old(cell).ready,
            g.primary == (old(cell).ready && old(cell).depth == 0),
            final(cell).ready == old(cell).ready,
            final(cell).depth == depth_after_enter(*old(cell)),
    {
        if !cell.ready {
            return Guard { primary: false, enabled: false };
        }
        let primary: bool = cell.depth == 0;
        if cell.depth < u32::MAX {
            cell.depth = cell.depth + 1;
        }
        Guard { primary, enabled: true }
    }

    /// Whether this token marks the outermost shim frame on its thread.
    pub fn is_primary(&self) -> (r: bool)
        ensures
            r == self.primary,
    {
        self.primary
    }

    /// Release the guard at the end of the handler.  A token taken while the
    /// shim was not ready never touched the depth, so it leaves it alone.
    pub fn exit(self, cell: &mut ShimCell)
        ensures
            final(cell).ready == old(cell).ready,
            final(cell).depth == depth_after_exit(self.enabled, old(cell).depth),
    {
        if !self.enabled {
            return;
        }
        if cell.depth > 0 {
            cell.depth = cell.depth - 1;
        }
    }
}

/// True while some handler frame is active on this thread and the shim is
/// ready; the notification path consults this.
pub fn in_shim(cell: &ShimCell) -> (r: bool)
    ensures
        r == (cell.ready && cell.depth > 0),
{
    if !cell.ready {
        return false;
    }
    cell.depth > 0
}

/// Law: every handler invocation leaves its thread's recursion depth exactly
/// where it found it.  `Guard::enter` yields a token whose `enabled` field
/// equals the cell's ready flag, so running `exit` on the depth that `enter`
/// left behind restores the depth the handler started with (as long as the
/// counter had room, i.e. fewer than `u32::MAX` nested frames).
pub proof fn lemma_guard_depth_balanced(c: ShimCell)
    requires
        c.depth < u32::MAX,
    ensures
        depth_after_exit(c.ready, depth_after_enter(c)) == c.depth,
{
}

} // verus!
