//! The shim's cross-cutting guarantees, stated and proved over the same
//! specification functions the handler contracts use.  Each law is a public
//! proof function; its doc comment says in words what it pins down.

use vstd::prelude::*;
use crate::config::Destination;
use crate::guard::Guard;
use crate::protocol::{NotifyOp, PreOp, notification_line, request_line, conclude_of};
use crate::steps::{
    close_map,
    close_notice,
    notice_of,
    path_ask,
    write_ask,
    write_mediates,
    write_record_map,
    write_touch_map,
};
use crate::table::{FdInfo, dirtied_entry, pre_already_sent, touch_asks, touched_entry};

verus! {

/// The table-changing steps one descriptor's record sees between its
/// creation and its removal at close: a write-family first touch, or a
/// dirty mark after a successful mutation.
pub ghost enum TrackEvent {
    /// A mediated write-family attempt on the descriptor.
    FirstTouch { rpath: Option<Seq<u8>>, rid: Option<(u64, u64)> },
    /// A successful mutation was recorded on the descriptor.
    MarkDirty { rpath: Option<Seq<u8>>, rid: Option<(u64, u64)> },
}

/// The record's table after one event.
pub open spec fn apply_event(m: Map<i32, FdInfo>, fd: i32, ev: TrackEvent) -> Map<i32, FdInfo> {
    match ev {
        TrackEvent::FirstTouch { rpath, rid } => m.insert(fd, touched_entry(m, fd, rpath, rid)),
        TrackEvent::MarkDirty { rpath, rid } => m.insert(fd, dirtied_entry(m, fd, rpath, rid)),
    }
}

/// Whether the event makes the shim ask a `pre_modify` preflight for the
/// descriptor (a controller being configured).
pub open spec fn event_asks(m: Map<i32, FdInfo>, fd: i32, ev: TrackEvent) -> bool {
    match ev {
        TrackEvent::FirstTouch { rpath, rid } => touch_asks(m, fd, rpath, rid) is Some,
        TrackEvent::MarkDirty { .. } => false,
    }
}

/// How many `pre_modify` preflights a run of events asks for the
/// descriptor.
pub open spec fn count_asks(m: Map<i32, FdInfo>, fd: i32, evs: Seq<TrackEvent>) -> nat
    decreases evs.len(),
{
    if evs.len() == 0 {
        0
    } else {
        (if event_asks(m, fd, evs[0]) {
            1nat
        } else {
            0nat
        }) + count_asks(apply_event(m, fd, evs[0]), fd, evs.skip(1))
    }
}

/// Once the preflight mark is set, no later event asks again.
proof fn lemma_no_asks_after_sent(m: Map<i32, FdInfo>, fd: i32, evs: Seq<TrackEvent>)
    requires
        pre_already_sent(m, fd),
    ensures
        count_asks(m, fd, evs) == 0,
    decreases evs.len(),
{
    if evs.len() > 0 {
        assert(pre_already_sent(apply_event(m, fd, evs[0]), fd));
        lemma_no_asks_after_sent(apply_event(m, fd, evs[0]), fd, evs.skip(1));
    }
}

/// Law: for every descriptor, at most one `pre_modify` preflight is asked
/// across its record's lifetime.  Whatever state the record starts in,
/// along any run of write-family touches and dirty marks — the only events
/// a record sees between its creation and its removal at close — the
/// one-time preflight mark is set by the first touch that asks (or was set
/// before any asking could happen), and no event ever clears it, so a
/// second ask never comes.
pub proof fn lemma_pre_modify_at_most_once(m: Map<i32, FdInfo>, fd: i32, evs: Seq<TrackEvent>)
    ensures
        count_asks(m, fd, evs) <= 1,
    decreases evs.len(),
{
    if evs.len() > 0 {
        if event_asks(m, fd, evs[0]) {
            assert(pre_already_sent(apply_event(m, fd, evs[0]), fd));
            lemma_no_asks_after_sent(apply_event(m, fd, evs[0]), fd, evs.skip(1));
        } else {
            lemma_pre_modify_at_most_once(apply_event(m, fd, evs[0]), fd, evs.skip(1));
        }
    }
}

/// The trace events are exactly what the executable phases do: a mediated
/// regular-file write attempt changes the table as a `FirstTouch` event and
/// asks a preflight exactly when the event does (a controller being
/// configured), and recording its raw result changes the table as a
/// `MarkDirty` event when the write succeeded and not at all otherwise.  So
/// `lemma_pre_modify_at_most_once` speaks of every run of the write
/// handlers on one descriptor's record.
pub proof fn lemma_phases_realize_events(
    m: Map<i32, FdInfo>,
    fd: i32,
    rpath: Option<Seq<u8>>,
    rid: Option<(u64, u64)>,
    dest: Destination,
    pid: u64,
    res: int,
)
    requires
        !(dest is Disabled),
    ensures
        write_touch_map(m, fd, true, rpath, rid) == apply_event(
            m,
            fd,
            TrackEvent::FirstTouch { rpath, rid },
        ),
        (write_ask(m, fd, true, rpath, rid, dest, pid) is Some) == event_asks(
            m,
            fd,
            TrackEvent::FirstTouch { rpath, rid },
        ),
        write_record_map(m, fd, true, res, rpath, rid) == (if res > 0 {
            apply_event(m, fd, TrackEvent::MarkDirty { rpath, rid })
        } else {
            m
        }),
{
}

/// Law: two consecutive writes on the same descriptor trigger exactly one
/// preflight.  The first mediated write of a fresh descriptor whose path
/// resolves asks; after its touch (and whether or not the write succeeded
/// and was recorded), the second write's touch asks nothing.
pub proof fn lemma_two_writes_one_preflight(
    m: Map<i32, FdInfo>,
    fd: i32,
    rpath: Option<Seq<u8>>,
    rid: Option<(u64, u64)>,
    res: int,
    rpath2: Option<Seq<u8>>,
    rid2: Option<(u64, u64)>,
    rpath3: Option<Seq<u8>>,
    rid3: Option<(u64, u64)>,
)
    requires
        !m.contains_key(fd),
        rpath is Some,
    ensures
        touch_asks(m, fd, rpath, rid) is Some,
        ({
            let m1 = write_touch_map(m, fd, true, rpath, rid);
            let m2 = write_record_map(m1, fd, true, res, rpath2, rid2);
            touch_asks(m2, fd, rpath3, rid3) is None
        }),
{
}

/// Law: a successful close of a tracked, dirty descriptor with a known
/// path emits exactly one `post_modify` notification, carrying that path.
/// The close phase runs after every recorded write on the descriptor, and
/// it removes the record, so closing the same descriptor again — or any
/// later close finding the table without the record — emits nothing.
pub proof fn lemma_close_drains_once(m: Map<i32, FdInfo>, fd: i32, p: Seq<u8>)
    requires
        m.contains_key(fd),
        m[fd].dirty,
        m[fd].path == Some(p),
    ensures
        close_notice(m, fd, true) == Some(notification_line(NotifyOp::Modify, p)),
        !close_map(m, fd, true).contains_key(fd),
        close_notice(close_map(m, fd, true), fd, true) is None,
{
}

/// Law: a denied preflight stops the mutation.  The embedding program maps
/// the denial to a return of -1 with errno EPERM (`steps::denied_result`)
/// and issues no raw operation, so nothing on disk changes; and whatever is
/// recorded afterwards for the refused call — there being no positive write
/// result — leaves every record, its dirty flag above all, exactly as it
/// was, so no later notification can stem from the refused call.
pub proof fn lemma_denied_preflight_blocks(
    reply: Option<Seq<u8>>,
    fail_closed: bool,
    m: Map<i32, FdInfo>,
    fd: i32,
    rpath: Option<Seq<u8>>,
    rid: Option<(u64, u64)>,
)
    requires
        !conclude_of(reply, fail_closed),
    ensures
        write_record_map(m, fd, true, -1, rpath, rid) == m,
{
}

/// Law: a write to a descriptor that is not a regular file — a pipe, a
/// socket, a tty — passes through untouched: the table gains no record, no
/// preflight is asked, nothing is recorded, and a later close of the
/// descriptor notifies nothing.
pub proof fn lemma_non_regular_passthrough(
    m: Map<i32, FdInfo>,
    fd: i32,
    rpath: Option<Seq<u8>>,
    rid: Option<(u64, u64)>,
    dest: Destination,
    pid: u64,
    res: int,
    ok: bool,
)
    requires
        !m.contains_key(fd),
    ensures
        write_touch_map(m, fd, false, rpath, rid) == m,
        write_ask(m, fd, false, rpath, rid, dest, pid) is None,
        write_record_map(m, fd, false, res, rpath, rid) == m,
        close_notice(m, fd, ok) is None,
{
}

/// Law: while the destination is disabled, no operation produces a request
/// line — so no outbound connection is ever opened — and every preflight
/// plan allows outright.
pub proof fn lemma_disabled_allows(
    m: Map<i32, FdInfo>,
    fd: i32,
    regular: bool,
    rpath: Option<Seq<u8>>,
    rid: Option<(u64, u64)>,
    pid: u64,
    op: PreOp,
    path: Option<Seq<u8>>,
)
    ensures
        path_ask(Destination::Disabled, op, pid, path) is None,
        write_ask(m, fd, regular, rpath, rid, Destination::Disabled, pid) is None,
{
}

/// Law: a rename from one path to another and back asks one `pre_rename`
/// per destination and notifies one `post_modify` per destination, each
/// line carrying exactly that destination path; no event carries the
/// source of either rename.
pub proof fn lemma_rename_round_trip(dest: Destination, pid: u64, a: Seq<u8>, b: Seq<u8>)
    requires
        !(dest is Disabled),
    ensures
        path_ask(dest, PreOp::Rename, pid, Some(b)) == Some(request_line(PreOp::Rename, pid, b)),
        path_ask(dest, PreOp::Rename, pid, Some(a)) == Some(request_line(PreOp::Rename, pid, a)),
        notice_of(NotifyOp::Modify, Some(b), true) == Some(notification_line(NotifyOp::Modify, b)),
        notice_of(NotifyOp::Modify, Some(a), true) == Some(notification_line(NotifyOp::Modify, a)),
{
}

/// Law: a zero-length write never mediates: no preflight, no record, the
/// raw call is made and its result handed back unchanged by the embedding
/// program's pass-through arm.
pub proof fn lemma_zero_write_passthrough(g: Guard)
    ensures
        !write_mediates(g, 0),
{
}

/// Law: closing a descriptor the table does not track is a pass-through:
/// the table is unchanged and nothing is notified.
pub proof fn lemma_close_untracked(m: Map<i32, FdInfo>, fd: i32, ok: bool)
    requires
        !m.contains_key(fd),
    ensures
        close_notice(m, fd, ok) is None,
        close_map(m, fd, ok) == m,
{
    assert(close_map(m, fd, ok) =~= m);
}

/// Law: a successful truncate by path asks `pre_truncate` and notifies
/// `post_modify`, both lines carrying exactly the path the caller
/// supplied.
pub proof fn lemma_truncate_events(dest: Destination, pid: u64, p: Seq<u8>)
    requires
        !(dest is Disabled),
    ensures
        path_ask(dest, PreOp::Truncate, pid, Some(p)) == Some(
            request_line(PreOp::Truncate, pid, p),
        ),
        notice_of(NotifyOp::Modify, Some(p), true) == Some(notification_line(NotifyOp::Modify, p)),
{
}

} // verus!
