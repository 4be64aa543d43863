//! End-to-end exercises of the mediation library: the guard, the tracking
//! table, the wire rendering, the reply handling, and the handler phases,
//! composed the way the embedding program drives them.

use fs_shim::config::{Config, Destination};
use fs_shim::guard::{Guard, ShimCell, in_shim};
use fs_shim::protocol::{accumulate_line, preflight_conclude, render_notification, render_request};
use fs_shim::protocol::{NotifyOp, PreOp};
use fs_shim::steps::{
    close_finish, denied_result, ftruncate_attempt, ftruncate_finish, mediate, rename_attempt,
    rename_finish, truncate_attempt, truncate_finish, unlink_attempt, unlink_finish,
    write_attempt, write_finish, write_gate, PreflightPlan,
};
use fs_shim::table::{FdTable, FirstTouch};

fn unix_dest() -> Destination {
    Destination::from_env_values(Some(b"/tmp/c.sock".to_vec()), None)
}

fn req(method: &str, pid: u64, path: &str) -> Vec<u8> {
    format!(
        "{{\"jsonrpc\":\"2.0\",\"id\":1,\"method\":\"{}\",\"params\":{{\"pid\":{},\"path\":\"{}\"}}}}\n",
        method, pid, path
    )
    .into_bytes()
}

fn note(method: &str, path: &str) -> Vec<u8> {
    format!(
        "{{\"jsonrpc\":\"2.0\",\"method\":\"{}\",\"params\":{{\"path\":\"{}\"}}}}\n",
        method, path
    )
    .into_bytes()
}

fn send_line(plan: PreflightPlan) -> Vec<u8> {
    match plan {
        PreflightPlan::Send(l) => l,
        PreflightPlan::Allow => panic!("expected a request line"),
    }
}

#[test]
fn guard_depth_is_balanced() {
    let mut cell = ShimCell::new(true);
    let g = Guard::enter(&mut cell);
    assert!(g.is_primary());
    assert!(in_shim(&cell));
    let inner = Guard::enter(&mut cell);
    assert!(!inner.is_primary());
    assert_eq!(cell.depth, 2);
    inner.exit(&mut cell);
    g.exit(&mut cell);
    assert_eq!(cell.depth, 0);
    assert!(!in_shim(&cell));
}

#[test]
fn guard_before_ready_is_disabled() {
    let mut cell = ShimCell::new(false);
    let g = Guard::enter(&mut cell);
    assert!(!g.enabled);
    assert!(!g.is_primary());
    assert!(!mediate(&g));
    assert_eq!(cell.depth, 0);
    g.exit(&mut cell);
    assert_eq!(cell.depth, 0);
    cell.set_ready();
    let g2 = Guard::enter(&mut cell);
    assert!(g2.enabled && g2.is_primary());
    g2.exit(&mut cell);
}

#[test]
fn destination_prefers_socket_path() {
    match Destination::from_env_values(Some(b"/s".to_vec()), Some(b"h:1".to_vec())) {
        Destination::Unix(p) => assert_eq!(p, b"/s".to_vec()),
        _ => panic!("socket path must win"),
    }
    match Destination::from_env_values(None, Some(b"h:1".to_vec())) {
        Destination::Tcp(a) => assert_eq!(a, b"h:1".to_vec()),
        _ => panic!("tcp endpoint expected"),
    }
    assert!(matches!(
        Destination::from_env_values(None, None),
        Destination::Disabled
    ));
}

#[test]
fn config_flags_and_timeout() {
    let c = Config::from_env_values(
        &Some(b"TrUe".to_vec()),
        &Some(b"1".to_vec()),
        &Some(b"250".to_vec()),
    );
    assert!(c.debug);
    assert!(c.fail_closed);
    assert_eq!(c.pre_timeout_ms, 250);
    let d = Config::from_env_values(&Some(b"0".to_vec()), &Some(b"yes".to_vec()), &None);
    assert!(!d.debug);
    assert!(!d.fail_closed);
    assert_eq!(d.pre_timeout_ms, 1500);
}

#[test]
fn timeout_parses_like_the_standard_library() {
    let cases: Vec<(Vec<u8>, u64)> = vec![
        (b"0".to_vec(), 0),
        (b"+42".to_vec(), 42),
        (b"1500".to_vec(), 1500),
        (b"18446744073709551615".to_vec(), u64::MAX),
        (b"18446744073709551616".to_vec(), 1500),
        (b"99999999999999999999999".to_vec(), 1500),
        (b"".to_vec(), 1500),
        (b"+".to_vec(), 1500),
        (b"12x".to_vec(), 1500),
        (b"-3".to_vec(), 1500),
        (b" 7".to_vec(), 1500),
    ];
    for (raw, want) in cases {
        let c = Config::from_env_values(&None, &None, &Some(raw.clone()));
        let std_way: u64 = String::from_utf8(raw)
            .ok()
            .and_then(|s| s.parse().ok())
            .unwrap_or(1500);
        assert_eq!(c.pre_timeout_ms, want);
        assert_eq!(c.pre_timeout_ms, std_way);
    }
}

#[test]
fn request_rendering_is_exact() {
    let line = render_request(PreOp::Modify, 4242, &b"/tmp/f".to_vec());
    assert_eq!(line, req("pre_modify", 4242, "/tmp/f"));
    let line = render_request(PreOp::Delete, 1, &b"/tmp/x".to_vec());
    assert_eq!(line, req("pre_delete", 1, "/tmp/x"));
    let line = render_request(PreOp::Rename, 77, &b"/b".to_vec());
    assert_eq!(line, req("pre_rename", 77, "/b"));
    let line = render_request(PreOp::Truncate, 18446744073709551615, &b"/t".to_vec());
    assert_eq!(line, req("pre_truncate", 18446744073709551615, "/t"));
}

#[test]
fn notification_rendering_is_exact() {
    let line = render_notification(NotifyOp::Modify, &b"/tmp/f".to_vec());
    assert_eq!(line, note("post_modify", "/tmp/f"));
    let line = render_notification(NotifyOp::Delete, &b"/tmp/x".to_vec());
    assert_eq!(line, note("post_delete", "/tmp/x"));
}

#[test]
fn rendering_escapes_json_specials() {
    let path = b"/a\"b\\c\nd\x01".to_vec();
    let line = render_notification(NotifyOp::Modify, &path);
    assert_eq!(line, note("post_modify", "/a\\\"b\\\\c\\u000ad\\u0001"));
    // The real JSON parser must read the original path back.
    let v: serde_json::Value = serde_json::from_slice(&line[..line.len() - 1]).unwrap();
    assert_eq!(
        v["params"]["path"].as_str().unwrap().as_bytes(),
        path.as_slice()
    );
}

#[test]
fn rendered_request_is_valid_json() {
    let line = render_request(PreOp::Modify, 99, &b"/tmp/f".to_vec());
    assert_eq!(*line.last().unwrap(), b'\n');
    let v: serde_json::Value = serde_json::from_slice(&line[..line.len() - 1]).unwrap();
    assert_eq!(v["jsonrpc"], "2.0");
    assert_eq!(v["id"], 1);
    assert_eq!(v["method"], "pre_modify");
    assert_eq!(v["params"]["pid"], 99);
    assert_eq!(v["params"]["path"], "/tmp/f");
}

#[test]
fn replies_collapse_to_their_verdict() {
    let yes = Some(b"{\"jsonrpc\":\"2.0\",\"id\":1,\"result\":{\"allow\":true}}".to_vec());
    let no = Some(b"{\"jsonrpc\":\"2.0\",\"id\":1,\"result\":{\"allow\":false}}".to_vec());
    assert!(preflight_conclude(&yes, false));
    assert!(preflight_conclude(&yes, true));
    assert!(!preflight_conclude(&no, false));
    assert!(!preflight_conclude(&no, true));
}

#[test]
fn protocol_failures_follow_the_fail_policy() {
    let broken: Vec<Option<Vec<u8>>> = vec![
        None,
        Some(b"".to_vec()),
        Some(b"not json".to_vec()),
        Some(b"{\"jsonrpc\":\"2.0\",\"id\":1}".to_vec()),
        Some(b"{\"result\":{}}".to_vec()),
        Some(b"{\"result\":{\"allow\":\"yes\"}}".to_vec()),
        Some(b"[1,2,3]".to_vec()),
    ];
    for reply in &broken {
        assert!(preflight_conclude(reply, false), "fail-open must allow");
        assert!(!preflight_conclude(reply, true), "fail-closed must deny");
    }
}

#[test]
fn reader_stops_at_the_first_newline() {
    let mut line: Vec<u8> = Vec::new();
    assert!(!accumulate_line(&mut line, &b"{\"result\":".to_vec()));
    assert!(accumulate_line(
        &mut line,
        &b"{\"allow\":true}}\ntrailing".to_vec()
    ));
    assert_eq!(line, b"{\"result\":{\"allow\":true}}".to_vec());
    let mut empty: Vec<u8> = Vec::new();
    assert!(accumulate_line(&mut empty, &b"\n".to_vec()));
    assert_eq!(empty, b"".to_vec());
}

#[test]
fn first_write_preflights_then_writes_then_drains_on_close() {
    // A controller at a socket path that always allows: one pre_modify for
    // the first write, none for the second, one post_modify at close.
    let dest = unix_dest();
    let mut table = FdTable::new();
    let path = || Some(b"/tmp/f".to_vec());
    let id = Some((11, 22));

    let plan = write_attempt(&mut table, &dest, 4242, 3, true, path(), id);
    let line = send_line(plan);
    assert_eq!(line, req("pre_modify", 4242, "/tmp/f"));
    let reply = Some(b"{\"jsonrpc\":\"2.0\",\"id\":1,\"result\":{\"allow\":true}}".to_vec());
    assert!(preflight_conclude(&reply, false));
    write_finish(&mut table, 3, true, 5, path(), id);

    let plan2 = write_attempt(&mut table, &dest, 4242, 3, true, path(), id);
    assert!(matches!(plan2, PreflightPlan::Allow), "one preflight per fd");
    write_finish(&mut table, 3, true, 6, path(), id);

    let notice = close_finish(&mut table, 3, true);
    assert_eq!(notice, Some(note("post_modify", "/tmp/f")));
    // The record is drained: a reopened descriptor starts a new lifetime.
    assert_eq!(close_finish(&mut table, 3, true), None);
}

#[test]
fn denied_write_reports_eperm_and_close_stays_silent() {
    let dest = unix_dest();
    let mut table = FdTable::new();
    let plan = write_attempt(&mut table, &dest, 1, 3, true, Some(b"/tmp/f".to_vec()), None);
    assert_eq!(send_line(plan), req("pre_modify", 1, "/tmp/f"));
    let reply = Some(b"{\"jsonrpc\":\"2.0\",\"id\":1,\"result\":{\"allow\":false}}".to_vec());
    assert!(!preflight_conclude(&reply, false));
    let (ret, errno) = denied_result();
    assert_eq!(ret, -1);
    assert_eq!(errno, 1);
    // The raw write never ran, so nothing is recorded and the close of the
    // never-dirtied descriptor notifies nothing.
    let notice = close_finish(&mut table, 3, true);
    assert_eq!(notice, None);
}

#[test]
fn second_write_skips_preflight_even_after_denial() {
    let dest = unix_dest();
    let mut table = FdTable::new();
    let first = write_attempt(&mut table, &dest, 1, 9, true, Some(b"/f".to_vec()), None);
    assert!(matches!(first, PreflightPlan::Send(_)));
    let second = write_attempt(&mut table, &dest, 1, 9, true, Some(b"/f".to_vec()), None);
    assert!(matches!(second, PreflightPlan::Allow));
}

#[test]
fn offline_controller_fail_closed_denies_unlink() {
    let dest = unix_dest();
    let plan = unlink_attempt(&dest, 8, &Some(b"/tmp/x".to_vec()));
    assert_eq!(send_line(plan), req("pre_delete", 8, "/tmp/x"));
    // No reply arrived: fail-closed denies, the file stays.
    assert!(!preflight_conclude(&None, true));
    let (ret, errno) = denied_result();
    assert_eq!((ret, errno), (-1, 1));
}

#[test]
fn offline_controller_fail_open_allows_unlink() {
    let dest = unix_dest();
    let plan = unlink_attempt(&dest, 8, &Some(b"/tmp/x".to_vec()));
    assert!(matches!(plan, PreflightPlan::Send(_)));
    assert!(preflight_conclude(&None, false));
    // The raw unlink runs; the notification line exists but its best-effort
    // send fails on the dead connection, which the shim ignores.
    let notice = unlink_finish(&Some(b"/tmp/x".to_vec()), true);
    assert_eq!(notice, Some(note("post_delete", "/tmp/x")));
}

#[test]
fn unlink_of_unnamed_path_passes_through() {
    let dest = unix_dest();
    let plan = unlink_attempt(&dest, 8, &None);
    assert!(matches!(plan, PreflightPlan::Allow));
    assert_eq!(unlink_finish(&None, true), None);
}

#[test]
fn pipe_write_is_untracked_and_unasked() {
    let dest = unix_dest();
    let mut table = FdTable::new();
    // fstat reported the descriptor is no regular file.
    let plan = write_attempt(&mut table, &dest, 5, 4, false, None, None);
    assert!(matches!(plan, PreflightPlan::Allow));
    write_finish(&mut table, 4, false, 128, None, None);
    assert_eq!(table.tracked_path(4), None);
    assert_eq!(close_finish(&mut table, 4, true), None);
}

#[test]
fn zero_length_write_does_not_mediate() {
    let mut cell = ShimCell::new(true);
    let g = Guard::enter(&mut cell);
    assert!(g.is_primary());
    assert!(!write_gate(&g, 0));
    assert!(write_gate(&g, 1));
    g.exit(&mut cell);
}

#[test]
fn nested_frames_do_not_mediate() {
    let mut cell = ShimCell::new(true);
    let outer = Guard::enter(&mut cell);
    let inner = Guard::enter(&mut cell);
    assert!(!mediate(&inner));
    assert!(!write_gate(&inner, 100));
    inner.exit(&mut cell);
    assert!(mediate(&outer));
    outer.exit(&mut cell);
}

#[test]
fn disabled_destination_allows_everything_silently() {
    let dest = Destination::from_env_values(None, None);
    let mut table = FdTable::new();
    let plan = write_attempt(&mut table, &dest, 2, 3, true, Some(b"/f".to_vec()), None);
    assert!(matches!(plan, PreflightPlan::Allow));
    assert!(matches!(
        unlink_attempt(&dest, 2, &Some(b"/x".to_vec())),
        PreflightPlan::Allow
    ));
    assert!(matches!(
        rename_attempt(&dest, 2, &Some(b"/y".to_vec())),
        PreflightPlan::Allow
    ));
    assert!(matches!(
        truncate_attempt(&dest, 2, &Some(b"/z".to_vec())),
        PreflightPlan::Allow
    ));
}

#[test]
fn rename_speaks_only_of_the_destination() {
    let dest = unix_dest();
    let plan = rename_attempt(&dest, 6, &Some(b"/b".to_vec()));
    let line = send_line(plan);
    assert_eq!(line, req("pre_rename", 6, "/b"));
    let notice = rename_finish(&Some(b"/b".to_vec()), true).unwrap();
    assert_eq!(notice, note("post_modify", "/b"));
    let a = b"/a";
    assert!(!line.windows(a.len()).any(|w| w == a));
    assert!(!notice.windows(a.len()).any(|w| w == a));
}

#[test]
fn rename_round_trip_asks_and_notifies_twice() {
    let dest = unix_dest();
    let there = send_line(rename_attempt(&dest, 6, &Some(b"/b".to_vec())));
    let back = send_line(rename_attempt(&dest, 6, &Some(b"/a".to_vec())));
    assert_eq!(there, req("pre_rename", 6, "/b"));
    assert_eq!(back, req("pre_rename", 6, "/a"));
    assert_ne!(there, back);
    let n1 = rename_finish(&Some(b"/b".to_vec()), true).unwrap();
    let n2 = rename_finish(&Some(b"/a".to_vec()), true).unwrap();
    assert_eq!(n1, note("post_modify", "/b"));
    assert_eq!(n2, note("post_modify", "/a"));
}

#[test]
fn failed_rename_notifies_nothing() {
    assert_eq!(rename_finish(&Some(b"/b".to_vec()), false), None);
}

#[test]
fn truncate_by_path_carries_the_exact_path() {
    let dest = unix_dest();
    let plan = truncate_attempt(&dest, 3, &Some(b"/tmp/t".to_vec()));
    assert_eq!(send_line(plan), req("pre_truncate", 3, "/tmp/t"));
    let notice = truncate_finish(&Some(b"/tmp/t".to_vec()), true).unwrap();
    assert_eq!(notice, note("post_modify", "/tmp/t"));
}

#[test]
fn ftruncate_asks_with_the_tracked_path_every_time() {
    let dest = unix_dest();
    let mut table = FdTable::new();
    // Nothing tracked yet: the call proceeds unasked.
    let plan = ftruncate_attempt(&table, &dest, 9, 3);
    assert!(matches!(plan, PreflightPlan::Allow));
    // A successful ftruncate dirties the record and captures the path.
    ftruncate_finish(&mut table, 3, true, Some(b"/tmp/t".to_vec()), Some((1, 2)));
    assert_eq!(table.tracked_path(3), Some(b"/tmp/t".to_vec()));
    // From now on every ftruncate preflights anew with that path.
    let p1 = ftruncate_attempt(&table, &dest, 9, 3);
    assert_eq!(send_line(p1), req("pre_truncate", 9, "/tmp/t"));
    let p2 = ftruncate_attempt(&table, &dest, 9, 3);
    assert_eq!(send_line(p2), req("pre_truncate", 9, "/tmp/t"));
    // The dirty record drains into a post_modify at close.
    let notice = close_finish(&mut table, 3, true);
    assert_eq!(notice, Some(note("post_modify", "/tmp/t")));
}

#[test]
fn failed_close_keeps_the_record() {
    let dest = unix_dest();
    let mut table = FdTable::new();
    let _ = write_attempt(&mut table, &dest, 1, 3, true, Some(b"/f".to_vec()), None);
    write_finish(&mut table, 3, true, 4, Some(b"/f".to_vec()), None);
    assert_eq!(close_finish(&mut table, 3, false), None);
    // The record survived the failed close and still drains later.
    assert_eq!(close_finish(&mut table, 3, true), Some(note("post_modify", "/f")));
}

#[test]
fn close_without_path_or_without_dirt_is_silent() {
    let dest = unix_dest();
    let mut table = FdTable::new();
    // Tracked but never dirtied.
    let _ = write_attempt(&mut table, &dest, 1, 3, true, Some(b"/f".to_vec()), None);
    assert_eq!(close_finish(&mut table, 3, true), None);
    // Dirtied but with no resolvable path.
    let _ = write_attempt(&mut table, &dest, 1, 4, true, None, None);
    write_finish(&mut table, 4, true, 9, None, None);
    assert_eq!(close_finish(&mut table, 4, true), None);
}

#[test]
fn writes_on_distinct_descriptors_preflight_independently() {
    let dest = unix_dest();
    let mut table = FdTable::new();
    let p1 = write_attempt(&mut table, &dest, 1, 3, true, Some(b"/f".to_vec()), None);
    let p2 = write_attempt(&mut table, &dest, 1, 4, true, Some(b"/g".to_vec()), None);
    assert_eq!(send_line(p1), req("pre_modify", 1, "/f"));
    assert_eq!(send_line(p2), req("pre_modify", 1, "/g"));
}

#[test]
fn first_touch_marks_even_without_a_path() {
    let mut table = FdTable::new();
    // Path resolution failed: no preflight can name the file, the write is
    // allowed, and the question is not repeated later.
    match table.first_touch(6, None, None) {
        FirstTouch::Proceed => {}
        FirstTouch::Preflight(_) => panic!("no path, no preflight"),
    }
    match table.first_touch(6, Some(b"/late".to_vec()), None) {
        FirstTouch::Proceed => {}
        FirstTouch::Preflight(_) => panic!("the mark must stick"),
    }
}
