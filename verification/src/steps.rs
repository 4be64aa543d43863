//! The operation handlers' decision logic, one phase per outside effect.
//! A handler runs as: take the guard; if it does not mediate, do only the
//! raw operation.  Otherwise an *attempt* phase consults the table and says
//! whether a preflight request must go out; the embedding program performs
//! the exchange and concludes it (`protocol::preflight_conclude`); on
//! denial the call fails with EPERM and the raw operation is skipped; on
//! allowance the raw operation runs and a *finish* phase records the
//! outcome and hands back the notification line to send, if any.

use vstd::prelude::*;
use crate::config::Destination;
use crate::guard::Guard;
use crate::protocol::{
    NotifyOp,
    PreOp,
    notification_line,
    render_notification,
    render_request,
    request_line,
};
use crate::table::{
    FdInfo,
    FdTable,
    FirstTouch,
    dirtied_entry,
    touch_asks,
    touched_entry,
    tracked_path_of,
};

verus! {

/// The errno value for an operation the policy vetoed.
pub const EPERM_ERRNO: i32 = 1;

/// Whether a handler frame mediates at all: only the outermost frame of a
/// ready shim does; every other frame performs just the raw operation.
pub open spec fn mediates(g: Guard) -> bool {
    g.enabled && g.primary
}

/// Whether this handler frame mediates.
pub fn mediate(g: &Guard) -> (r: bool)
    ensures
        r == mediates(*g),
{
    g.enabled && g.is_primary()
}

/// The write family moreover passes zero-length writes straight through.
pub open spec fn write_mediates(g: Guard, count: usize) -> bool {
    mediates(g) && count > 0
}

/// Whether a write of `count` bytes (or io-vector entries) mediates.
pub fn write_gate(g: &Guard, count: usize) -> (r: bool)
    ensures
        r == write_mediates(*g, count),
{
    g.enabled && g.is_primary() && count > 0
}

/// The caller-visible outcome of a vetoed operation: the mediated call
/// returns -1 with errno EPERM, and the raw operation is never issued.
pub fn denied_result() -> (r: (isize, i32))
    ensures
        r.0 == -1,
        r.1 == EPERM_ERRNO,
{
    (-1, EPERM_ERRNO)
}

/// What an attempt phase asks the embedding program to do.
pub enum PreflightPlan {
    /// Nothing to send: the operation is allowed outright.
    Allow,
    /// Send this request line on the control stream and await one answer
    /// line before the raw operation.
    Send(Vec<u8>),
}

/// The request a path-preflighting operation emits: nothing while the
/// destination is disabled or the path is unknown, else the request line
/// for exactly the given path.
pub open spec fn path_ask(dest: Destination, op: PreOp, pid: u64, path: Option<Seq<u8>>) -> Option<
    Seq<u8>,
> {
    match path {
        Some(p) => if dest is Disabled {
            None
        } else {
            Some(request_line(op, pid, p))
        },
        None => None,
    }
}

/// Plan the preflight of an operation on a known-or-unknown path.
fn plan_for(dest: &Destination, op: PreOp, pid: u64, path: &Option<Vec<u8>>) -> (r: PreflightPlan)
    ensures
        (match r {
            PreflightPlan::Allow => path_ask(*dest, op, pid, path.deep_view()) is None,
            PreflightPlan::Send(l) => path_ask(*dest, op, pid, path.deep_view()) == Some(l@),
        }),
{
    match path {
        Some(p) => {
            proof {
                assert(p.deep_view() =~= p@);
            }
            match dest {
                Destination::Disabled => PreflightPlan::Allow,
                _ => PreflightPlan::Send(render_request(op, pid, p)),
            }
        },
        None => PreflightPlan::Allow,
    }
}

/// The notification a finished operation emits: the line for exactly the
/// operation's path on success, nothing on failure or without a path.
pub open spec fn notice_of(op: NotifyOp, path: Option<Seq<u8>>, ok: bool) -> Option<Seq<u8>> {
    if ok {
        match path {
            Some(p) => Some(notification_line(op, p)),
            None => None,
        }
    } else {
        None
    }
}

/// Render the notification a finished operation emits, if any.
fn notice_for(op: NotifyOp, path: &Option<Vec<u8>>, ok: bool) -> (r: Option<Vec<u8>>)
    ensures
        r.deep_view() == notice_of(op, path.deep_view(), ok),
{
    if !ok {
        return None;
    }
    match path {
        Some(p) => {
            proof {
                assert(p.deep_view() =~= p@);
            }
            let line = render_notification(op, p);
            proof {
                assert(line.deep_view() =~= line@);
            }
            Some(line)
        },
        None => None,
    }
}

/// The table after a write-family attempt: for a regular file the record
/// exists, is filled, and carries the preflight mark; any other descriptor
/// leaves the table untouched.
pub open spec fn write_touch_map(
    m: Map<i32, FdInfo>,
    fd: i32,
    regular: bool,
    rpath: Option<Seq<u8>>,
    rid: Option<(u64, u64)>,
) -> Map<i32, FdInfo> {
    if regular {
        m.insert(fd, touched_entry(m, fd, rpath, rid))
    } else {
        m
    }
}

/// The pre_modify request a write-family attempt emits: only for a regular
/// file whose record is first-touched with a known path, and only with a
/// controller configured.
pub open spec fn write_ask(
    m: Map<i32, FdInfo>,
    fd: i32,
    regular: bool,
    rpath: Option<Seq<u8>>,
    rid: Option<(u64, u64)>,
    dest: Destination,
    pid: u64,
) -> Option<Seq<u8>> {
    if regular {
        path_ask(dest, PreOp::Modify, pid, touch_asks(m, fd, rpath, rid))
    } else {
        None
    }
}

/// First phase of `write`, `pwrite` and `writev` when they mediate: track
/// the descriptor (regular files only) and plan the one-time `pre_modify`
/// preflight.
pub fn write_attempt(
    t: &mut FdTable,
    dest: &Destination,
    pid: u64,
    fd: i32,
    regular: bool,
    rpath: Option<Vec<u8>>,
    rid: Option<(u64, u64)>,
) -> (r: PreflightPlan)
    ensures
        final(t)@ == write_touch_map(old(t)@, fd, regular, rpath.deep_view(), rid),
        (match r {
            PreflightPlan::Allow => write_ask(
                old(t)@,
                fd,
                regular,
                rpath.deep_view(),
                rid,
                *dest,
                pid,
            ) is None,
            PreflightPlan::Send(l) => write_ask(
                old(t)@,
                fd,
                regular,
                rpath.deep_view(),
                rid,
                *dest,
                pid,
            ) == Some(l@),
        }),
{
    if !regular {
        return PreflightPlan::Allow;
    }
    match t.first_touch(fd, rpath, rid) {
        FirstTouch::Preflight(p) => match dest {
            Destination::Disabled => PreflightPlan::Allow,
            _ => PreflightPlan::Send(render_request(PreOp::Modify, pid, &p)),
        },
        FirstTouch::Proceed => PreflightPlan::Allow,
    }
}

/// The table after the raw write returned: a positive result on a tracked
/// (regular-file, mediated) write dirties the record; everything else
/// leaves the table as it was.
pub open spec fn write_record_map(
    m: Map<i32, FdInfo>,
    fd: i32,
    tracking: bool,
    res: int,
    rpath: Option<Seq<u8>>,
    rid: Option<(u64, u64)>,
) -> Map<i32, FdInfo> {
    if tracking && res > 0 {
        m.insert(fd, dirtied_entry(m, fd, rpath, rid))
    } else {
        m
    }
}

/// Second phase of the write family: record the raw result.  `tracking`
/// repeats the attempt phase's verdict (mediating, regular file).
pub fn write_finish(
    t: &mut FdTable,
    fd: i32,
    tracking: bool,
    res: isize,
    rpath: Option<Vec<u8>>,
    rid: Option<(u64, u64)>,
)
    ensures
        final(t)@ == write_record_map(old(t)@, fd, tracking, res as int, rpath.deep_view(), rid),
{
    if tracking && res > 0 {
        t.mark_fd_dirty(fd, rpath, rid);
    }
}

/// The table after a close returned: success drains the record, failure
/// keeps it.
pub open spec fn close_map(m: Map<i32, FdInfo>, fd: i32, ok: bool) -> Map<i32, FdInfo> {
    if ok {
        m.remove(fd)
    } else {
        m
    }
}

/// The notification a close emits: one `post_modify` line for the tracked
/// path, exactly when the close succeeded on a tracked, dirty descriptor
/// whose path is known.
pub open spec fn close_notice(m: Map<i32, FdInfo>, fd: i32, ok: bool) -> Option<Seq<u8>> {
    if ok && m.contains_key(fd) && m[fd].dirty {
        match m[fd].path {
            Some(p) => Some(notification_line(NotifyOp::Modify, p)),
            None => None,
        }
    } else {
        None
    }
}

/// Finish a mediated close: on success drain the record and hand back the
/// final `post_modify` notification, owed exactly when the descriptor was
/// tracked and dirty with a known path.  It follows every recorded write on
/// the descriptor, and the record being gone, it is owed only once.
pub fn close_finish(t: &mut FdTable, fd: i32, ok: bool) -> (r: Option<Vec<u8>>)
    ensures
        final(t)@ == close_map(old(t)@, fd, ok),
        r.deep_view() == close_notice(old(t)@, fd, ok),
{
    if !ok {
        return None;
    }
    match t.take_fd(fd) {
        Some(st) => {
            if st.dirty {
                match st.path {
                    Some(p) => {
                        proof {
                            assert(p.deep_view() =~= p@);
                        }
                        let line = render_notification(NotifyOp::Modify, &p);
                        proof {
                            assert(line.deep_view() =~= line@);
                        }
                        Some(line)
                    },
                    None => None,
                }
            } else {
                None
            }
        },
        None => None,
    }
}

/// Plan the `pre_delete` preflight of an unlink on the given path.
pub fn unlink_attempt(dest: &Destination, pid: u64, path: &Option<Vec<u8>>) -> (r: PreflightPlan)
    ensures
        (match r {
            PreflightPlan::Allow => path_ask(*dest, PreOp::Delete, pid, path.deep_view()) is None,
            PreflightPlan::Send(l) => path_ask(*dest, PreOp::Delete, pid, path.deep_view())
                == Some(l@),
        }),
{
    plan_for(dest, PreOp::Delete, pid, path)
}

/// The `post_delete` notification of a finished unlink.
pub fn unlink_finish(path: &Option<Vec<u8>>, ok: bool) -> (r: Option<Vec<u8>>)
    ensures
        r.deep_view() == notice_of(NotifyOp::Delete, path.deep_view(), ok),
{
    notice_for(NotifyOp::Delete, path, ok)
}

/// Plan the `pre_rename` preflight of a rename: the destination path alone
/// is cleared; the source is never mentioned.
pub fn rename_attempt(dest: &Destination, pid: u64, new_path: &Option<Vec<u8>>) -> (r:
    PreflightPlan)
    ensures
        (match r {
            PreflightPlan::Allow => path_ask(
                *dest,
                PreOp::Rename,
                pid,
                new_path.deep_view(),
            ) is None,
            PreflightPlan::Send(l) => path_ask(*dest, PreOp::Rename, pid, new_path.deep_view())
                == Some(l@),
        }),
{
    plan_for(dest, PreOp::Rename, pid, new_path)
}

/// The `post_modify` notification of a finished rename, on the destination
/// path alone.
pub fn rename_finish(new_path: &Option<Vec<u8>>, ok: bool) -> (r: Option<Vec<u8>>)
    ensures
        r.deep_view() == notice_of(NotifyOp::Modify, new_path.deep_view(), ok),
{
    notice_for(NotifyOp::Modify, new_path, ok)
}

/// Plan the `pre_truncate` preflight of a truncate by path.
pub fn truncate_attempt(dest: &Destination, pid: u64, path: &Option<Vec<u8>>) -> (r: PreflightPlan)
    ensures
        (match r {
            PreflightPlan::Allow => path_ask(*dest, PreOp::Truncate, pid, path.deep_view()) is None,
            PreflightPlan::Send(l) => path_ask(*dest, PreOp::Truncate, pid, path.deep_view())
                == Some(l@),
        }),
{
    plan_for(dest, PreOp::Truncate, pid, path)
}

/// The `post_modify` notification of a finished truncate by path, carrying
/// the exact path the caller supplied.
pub fn truncate_finish(path: &Option<Vec<u8>>, ok: bool) -> (r: Option<Vec<u8>>)
    ensures
        r.deep_view() == notice_of(NotifyOp::Modify, path.deep_view(), ok),
{
    notice_for(NotifyOp::Modify, path, ok)
}

/// Plan the `pre_truncate` preflight of an ftruncate: every call asks anew,
/// with the tracked path of the descriptor — none being tracked, the call
/// proceeds unasked.
pub fn ftruncate_attempt(t: &FdTable, dest: &Destination, pid: u64, fd: i32) -> (r: PreflightPlan)
    ensures
        (match r {
            PreflightPlan::Allow => path_ask(
                *dest,
                PreOp::Truncate,
                pid,
                tracked_path_of(t@, fd),
            ) is None,
            PreflightPlan::Send(l) => path_ask(*dest, PreOp::Truncate, pid, tracked_path_of(t@, fd))
                == Some(l@),
        }),
{
    let p = t.tracked_path(fd);
    plan_for(dest, PreOp::Truncate, pid, &p)
}

/// The table after the raw ftruncate returned: success dirties the record.
pub open spec fn truncate_record_map(
    m: Map<i32, FdInfo>,
    fd: i32,
    ok: bool,
    rpath: Option<Seq<u8>>,
    rid: Option<(u64, u64)>,
) -> Map<i32, FdInfo> {
    if ok {
        m.insert(fd, dirtied_entry(m, fd, rpath, rid))
    } else {
        m
    }
}

/// Second phase of a mediated ftruncate: a successful call dirties the
/// record (creating and filling it if need be); no notification is owed
/// until close.
pub fn ftruncate_finish(
    t: &mut FdTable,
    fd: i32,
    ok: bool,
    rpath: Option<Vec<u8>>,
    rid: Option<(u64, u64)>,
)
    ensures
        final(t)@ == truncate_record_map(old(t)@, fd, ok, rpath.deep_view(), rid),
{
    if ok {
        t.mark_fd_dirty(fd, rpath, rid);
    }
}

} // verus!
