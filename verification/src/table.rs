//! Per-file-descriptor tracking: a process-wide map from descriptor to its
//! last known path, device/inode identity, dirty flag, and whether the
//! one-time preflight for the descriptor has already been issued.  The
//! embedding program serializes access (one short critical section per
//! handler phase) and resolves paths and identities from the kernel; this
//! module holds every decision made over the table.

use std::collections::HashMap;
use vstd::prelude::*;

verus! {

broadcast use vstd::std_specs::hash::group_hash_axioms;

/// Mathematical image of one tracking record.
pub ghost struct FdInfo {
    /// Last known absolute path of the underlying file, as native bytes.
    pub path: Option<Seq<u8>>,
    /// Device of the file the descriptor refers to; zero until captured.
    pub dev: u64,
    /// Inode of the file the descriptor refers to; zero until captured.
    pub ino: u64,
    /// True once a successful mutation has been observed on the descriptor.
    pub dirty: bool,
    /// True once the first-touch preflight for the descriptor went out
    /// (whatever the answer was).
    pub pre_sent: bool,
}

/// One tracking record, as the table stores it.
pub struct FdState {
    /// Last known absolute path of the underlying file, as native bytes.
    pub path: Option<Vec<u8>>,
    /// Device of the file the descriptor refers to; zero until captured.
    pub dev: u64,
    /// Inode of the file the descriptor refers to; zero until captured.
    pub ino: u64,
    /// True once a successful mutation has been observed on the descriptor.
    pub dirty: bool,
    /// True once the first-touch preflight for the descriptor went out.
    pub pre_sent: bool,
}

impl View for FdState {
    type V = FdInfo;

    open spec fn view(&self) -> FdInfo {
        FdInfo {
            path: self.path.deep_view(),
            dev: self.dev,
            ino: self.ino,
            dirty: self.dirty,
            pre_sent: self.pre_sent,
        }
    }
}

/// Copy a byte string.
pub fn clone_bytes(v: &Vec<u8>) -> (r: Vec<u8>)
    ensures
        r@ == v@,
{
    let mut r: Vec<u8> = Vec::new();
    let mut i: usize = 0;
    while i < v.len()
        invariant
            i <= v.len(),
            r@ == v@.take(i as int),
        decreases v.len() - i,
    {
        r.push(v[i]);
        i = i + 1;
        proof {
            assert(r@ =~= v@.take(i as int));
        }
    }
    proof {
        assert(r@ =~= v@);
    }
    r
}

/// Copy an optional byte string.
pub fn clone_opt_bytes(p: &Option<Vec<u8>>) -> (r: Option<Vec<u8>>)
    ensures
        r.deep_view() == p.deep_view(),
{
    match p {
        Some(v) => Some(clone_bytes(v)),
        None => None,
    }
}

impl FdState {
    /// A field-for-field copy of this record.
    pub fn duplicate(&self) -> (r: FdState)
        ensures
            r@ == self@,
    {
        FdState {
            path: clone_opt_bytes(&self.path),
            dev: self.dev,
            ino: self.ino,
            dirty: self.dirty,
            pre_sent: self.pre_sent,
        }
    }
}

/// A record that has seen nothing yet.
pub open spec fn empty_info() -> FdInfo {
    FdInfo { path: None, dev: 0, ino: 0, dirty: false, pre_sent: false }
}

/// The record a handler starts from: the tracked one, or a blank one for a
/// descriptor seen for the first time.
pub open spec fn base_entry(m: Map<i32, FdInfo>, fd: i32) -> FdInfo {
    if m.contains_key(fd) {
        m[fd]
    } else {
        empty_info()
    }
}

/// Lazy capture of path and identity: a missing path is filled from the
/// caller's resolution of the descriptor, and a still-zero device/inode pair
/// is filled from the caller's stat of it.  Values already captured win.
pub open spec fn fill_info(e: FdInfo, rpath: Option<Seq<u8>>, rid: Option<(u64, u64)>) -> FdInfo {
    FdInfo {
        path: if e.path is Some {
            e.path
        } else {
            rpath
        },
        dev: if e.dev == 0 && e.ino == 0 {
            match rid {
                Some(di) => di.0,
                None => 0,
            }
        } else {
            e.dev
        },
        ino: if e.dev == 0 && e.ino == 0 {
            match rid {
                Some(di) => di.1,
                None => 0,
            }
        } else {
            e.ino
        },
        dirty: e.dirty,
        pre_sent: e.pre_sent,
    }
}

/// The record for `fd` after a handler has ensured it exists and is filled.
pub open spec fn entry_after_touch(
    m: Map<i32, FdInfo>,
    fd: i32,
    rpath: Option<Seq<u8>>,
    rid: Option<(u64, u64)>,
) -> FdInfo {
    fill_info(base_entry(m, fd), rpath, rid)
}

/// `entry_after_touch`, with the one-time preflight marked as issued.
pub open spec fn touched_entry(
    m: Map<i32, FdInfo>,
    fd: i32,
    rpath: Option<Seq<u8>>,
    rid: Option<(u64, u64)>,
) -> FdInfo {
    let e = entry_after_touch(m, fd, rpath, rid);
    FdInfo { path: e.path, dev: e.dev, ino: e.ino, dirty: e.dirty, pre_sent: true }
}

/// `entry_after_touch`, with the dirty flag set.
pub open spec fn dirtied_entry(
    m: Map<i32, FdInfo>,
    fd: i32,
    rpath: Option<Seq<u8>>,
    rid: Option<(u64, u64)>,
) -> FdInfo {
    let e = entry_after_touch(m, fd, rpath, rid);
    FdInfo { path: e.path, dev: e.dev, ino: e.ino, dirty: true, pre_sent: e.pre_sent }
}

/// Whether the one-time preflight for `fd` already went out.
pub open spec fn pre_already_sent(m: Map<i32, FdInfo>, fd: i32) -> bool {
    m.contains_key(fd) && m[fd].pre_sent
}

/// The path a first touch of `fd` must clear with the controller, if any:
/// present exactly when no preflight went out for `fd` before and the
/// record's path is known once filled.
pub open spec fn touch_asks(
    m: Map<i32, FdInfo>,
    fd: i32,
    rpath: Option<Seq<u8>>,
    rid: Option<(u64, u64)>,
) -> Option<Seq<u8>> {
    if !pre_already_sent(m, fd) {
        entry_after_touch(m, fd, rpath, rid).path
    } else {
        None
    }
}

/// The tracked path of `fd`, if the table knows one.
pub open spec fn tracked_path_of(m: Map<i32, FdInfo>, fd: i32) -> Option<Seq<u8>> {
    if m.contains_key(fd) {
        m[fd].path
    } else {
        None
    }
}

/// What a first touch of a descriptor asks of the embedding program.
pub enum FirstTouch {
    /// First mutation on this descriptor and its path is known: hold the
    /// operation until the controller answers a `pre_modify` for this path.
    Preflight(Vec<u8>),
    /// No preflight is owed: one was already issued for this descriptor, or
    /// no usable path is known.  The operation proceeds.
    Proceed,
}

/// The process-wide tracking table.
pub struct FdTable {
    m: HashMap<i32, FdState>,
}

impl View for FdTable {
    type V = Map<i32, FdInfo>;

    closed spec fn view(&self) -> Map<i32, FdInfo> {
        Map::new(|fd: i32| self.m@.contains_key(fd), |fd: i32| self.m@[fd]@)
    }
}

impl FdTable {
    /// An empty table; nothing is tracked.
    pub fn new() -> (t: FdTable)
        ensures
            t@ == Map::<i32, FdInfo>::empty(),
    {
        let t = FdTable { m: HashMap::new() };
        proof {
            assert(t@ =~= Map::<i32, FdInfo>::empty());
        }
        t
    }

    /// First mutation of `fd` by a write-family handler: make sure a record
    /// exists, fill path and identity from the caller's resolution, and
    /// decide whether the one-time preflight is owed.  The preflight mark is
    /// set no matter how the controller will answer, and even when no path
    /// is known, so the question is asked at most once per record.
    pub fn first_touch(
        &mut self,
        fd: i32,
        rpath: Option<Vec<u8>>,
        rid: Option<(u64, u64)>,
    ) -> (r: FirstTouch)
        ensures
            final(self)@ == old(self)@.insert(
                fd,
                touched_entry(old(self)@, fd, rpath.deep_view(), rid),
            ),
            (match r {
                FirstTouch::Preflight(p) => touch_asks(old(self)@, fd, rpath.deep_view(), rid)
                    == Some(p@),
                FirstTouch::Proceed => touch_asks(old(self)@, fd, rpath.deep_view(), rid) is None,
            }),
    {
        let mut e: FdState = match self.m.get(&fd) {
            Some(st) => st.duplicate(),
            None => FdState { path: None, dev: 0, ino: 0, dirty: false, pre_sent: false },
        };
        if e.path.is_none() {
            e.path = clone_opt_bytes(&rpath);
        }
        if e.dev == 0 && e.ino == 0 {
            if let Some(di) = rid {
                e.dev = di.0;
                e.ino = di.1;
            }
        }
        let was_sent = e.pre_sent;
        e.pre_sent = true;
        let ask: Option<Vec<u8>> = if !was_sent {
            clone_opt_bytes(&e.path)
        } else {
            None
        };
        proof {
            assert(e@ == touched_entry(self@, fd, rpath.deep_view(), rid));
        }
        self.m.insert(fd, e);
        proof {
            assert(self@ =~= old(self)@.insert(
                fd,
                touched_entry(old(self)@, fd, rpath.deep_view(), rid),
            ));
        }
        match ask {
            Some(p) => FirstTouch::Preflight(p),
            None => FirstTouch::Proceed,
        }
    }

    /// A mutation on `fd` succeeded: make sure a record exists and is
    /// filled, and set its dirty flag.
    pub fn mark_fd_dirty(&mut self, fd: i32, rpath: Option<Vec<u8>>, rid: Option<(u64, u64)>)
        ensures
            final(self)@ == old(self)@.insert(
                fd,
                dirtied_entry(old(self)@, fd, rpath.deep_view(), rid),
            ),
    {
        let mut e: FdState = match self.m.get(&fd) {
            Some(st) => st.duplicate(),
            None => FdState { path: None, dev: 0, ino: 0, dirty: false, pre_sent: false },
        };
        if e.path.is_none() {
            e.path = clone_opt_bytes(&rpath);
        }
        if e.dev == 0 && e.ino == 0 {
            if let Some(di) = rid {
                e.dev = di.0;
                e.ino = di.1;
            }
        }
        e.dirty = true;
        proof {
            assert(e@ == dirtied_entry(self@, fd, rpath.deep_view(), rid));
        }
        self.m.insert(fd, e);
        proof {
            assert(self@ =~= old(self)@.insert(
                fd,
                dirtied_entry(old(self)@, fd, rpath.deep_view(), rid),
            ));
        }
    }

    /// The tracked path of `fd`, if the table knows one.
    pub fn tracked_path(&self, fd: i32) -> (r: Option<Vec<u8>>)
        ensures
            r.deep_view() == tracked_path_of(self@, fd),
    {
        match self.m.get(&fd) {
            Some(st) => clone_opt_bytes(&st.path),
            None => None,
        }
    }

    /// Remove and return the record for `fd`; the close handler drains it
    /// into a final notification.
    pub fn take_fd(&mut self, fd: i32) -> (r: Option<FdState>)
        ensures
            final(self)@ == old(self)@.remove(fd),
            (match r {
                Some(st) => old(self)@.contains_key(fd) && st@ == old(self)@[fd],
                None => !old(self)@.contains_key(fd),
            }),
    {
        let r = self.m.remove(&fd);
        proof {
            assert(self@ =~= old(self)@.remove(fd));
        }
        r
    }
}

} // verus!
