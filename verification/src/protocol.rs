//! The preflight/notify wire protocol: one JSON object per line, newline
//! terminated.  A preflight is a blocking request
//! `{"jsonrpc":"2.0","id":1,"method":M,"params":{"pid":P,"path":S}}` whose
//! answer must carry `result.allow`; a notification is the fire-and-forget
//! `{"jsonrpc":"2.0","method":N,"params":{"path":S}}`.  Requests and
//! notifications are rendered here byte for byte; answers are read through
//! `serde_json` and collapsed to the boolean they carry.

use vstd::prelude::*;

verus! {

/// The four operations that ask before acting.
#[derive(Clone, Copy)]
pub enum PreOp {
    /// First data write on a descriptor.
    Modify,
    /// Removal of a path.
    Delete,
    /// Rename onto a destination path.
    Rename,
    /// Truncation of a path or descriptor.
    Truncate,
}

/// The two one-way reports of a completed mutation.
#[derive(Clone, Copy)]
pub enum NotifyOp {
    /// The file at the path was changed.
    Modify,
    /// The file at the path was removed.
    Delete,
}

/// Bytes of `{"jsonrpc":"2.0","id":1,"method":"`.
pub open spec fn req_head() -> Seq<u8> {
    seq![123u8, 34, 106, 115, 111, 110, 114, 112, 99, 34, 58, 34, 50, 46, 48, 34, 44, 34, 105, 100, 34, 58, 49, 44, 34, 109, 101, 116, 104, 111, 100, 34, 58, 34]
}

/// Bytes of `","params":{"pid":`.
pub open spec fn req_mid() -> Seq<u8> {
    seq![34u8, 44, 34, 112, 97, 114, 97, 109, 115, 34, 58, 123, 34, 112, 105, 100, 34, 58]
}

/// Bytes of `,"path":"`.
pub open spec fn req_path_key() -> Seq<u8> {
    seq![44u8, 34, 112, 97, 116, 104, 34, 58, 34]
}

/// Bytes of `"}}` and the terminating newline.
pub open spec fn line_tail() -> Seq<u8> {
    seq![34u8, 125, 125, 10]
}

/// Bytes of `{"jsonrpc":"2.0","method":"`.
pub open spec fn note_head() -> Seq<u8> {
    seq![123u8, 34, 106, 115, 111, 110, 114, 112, 99, 34, 58, 34, 50, 46, 48, 34, 44, 34, 109, 101, 116, 104, 111, 100, 34, 58, 34]
}

/// Bytes of `","params":{"path":"`.
pub open spec fn note_mid() -> Seq<u8> {
    seq![34u8, 44, 34, 112, 97, 114, 97, 109, 115, 34, 58, 123, 34, 112, 97, 116, 104, 34, 58, 34]
}

/// The method name of a preflight.
pub open spec fn pre_method(op: PreOp) -> Seq<u8> {
    match op {
        PreOp::Modify => seq![112u8, 114, 101, 95, 109, 111, 100, 105, 102, 121],
        PreOp::Delete => seq![112u8, 114, 101, 95, 100, 101, 108, 101, 116, 101],
        PreOp::Rename => seq![112u8, 114, 101, 95, 114, 101, 110, 97, 109, 101],
        PreOp::Truncate => seq![112u8, 114, 101, 95, 116, 114, 117, 110, 99, 97, 116, 101],
    }
}

/// The method name of a notification.
pub open spec fn post_method(op: NotifyOp) -> Seq<u8> {
    match op {
        NotifyOp::Modify => seq![112u8, 111, 115, 116, 95, 109, 111, 100, 105, 102, 121],
        NotifyOp::Delete => seq![112u8, 111, 115, 116, 95, 100, 101, 108, 101, 116, 101],
    }
}

/// A hexadecimal digit, lower case.
pub open spec fn hex_digit(n: u8) -> u8 {
    if n < 10 {
        (48 + n) as u8
    } else {
        (87 + n) as u8
    }
}

/// How one path byte appears inside a JSON string: quote and backslash are
/// escaped, control bytes become `\u00XX`, everything else passes through.
pub open spec fn escape_byte(b: u8) -> Seq<u8> {
    if b == 34 {
        seq![92u8, 34]
    } else if b == 92 {
        seq![92u8, 92]
    } else if b < 32 {
        seq![92u8, 117, 48, 48, hex_digit(b / 16), hex_digit(b % 16)]
    } else {
        seq![b]
    }
}

/// A path rendered as the body of a JSON string.
pub open spec fn json_escaped(s: Seq<u8>) -> Seq<u8>
    decreases s.len(),
{
    if s.len() == 0 {
        Seq::empty()
    } else {
        escape_byte(s[0]) + json_escaped(s.skip(1))
    }
}

/// Escaping one more byte extends the escaped image.
proof fn lemma_json_escaped_push(s: Seq<u8>, b: u8)
    ensures
        json_escaped(s.push(b)) == json_escaped(s) + escape_byte(b),
    decreases s.len(),
{
    if s.len() == 0 {
        assert(s.push(b)[0] == b);
        assert(s.push(b).skip(1) =~= Seq::<u8>::empty());
        assert(json_escaped(Seq::<u8>::empty()) == Seq::<u8>::empty());
        assert(json_escaped(s) == Seq::<u8>::empty());
        assert(json_escaped(s.push(b)) =~= json_escaped(s) + escape_byte(b));
    } else {
        assert(s.push(b).skip(1) =~= s.skip(1).push(b));
        lemma_json_escaped_push(s.skip(1), b);
        assert(json_escaped(s.push(b)) =~= json_escaped(s) + escape_byte(b));
    }
}

/// An unsigned number in decimal digits.
pub open spec fn dec_u64(n: u64) -> Seq<u8>
    decreases n,
{
    if n < 10 {
        seq![(48 + n) as u8]
    } else {
        dec_u64(n / 10).push((48 + n % 10) as u8)
    }
}

/// One preflight request line, byte for byte.
pub open spec fn request_line(op: PreOp, pid: u64, path: Seq<u8>) -> Seq<u8> {
    req_head() + pre_method(op) + req_mid() + dec_u64(pid) + req_path_key() + json_escaped(path)
        + line_tail()
}

/// One notification line, byte for byte.
pub open spec fn notification_line(op: NotifyOp, path: Seq<u8>) -> Seq<u8> {
    note_head() + post_method(op) + note_mid() + json_escaped(path) + line_tail()
}

fn append_req_head(out: &mut Vec<u8>)
    ensures
        final(out)@ == old(out)@ + req_head(),
{
    out.push(123); out.push(34); out.push(106); out.push(115); out.push(111); out.push(110);
    out.push(114); out.push(112); out.push(99); out.push(34); out.push(58); out.push(34);
    out.push(50); out.push(46); out.push(48); out.push(34); out.push(44); out.push(34);
    out.push(105); out.push(100); out.push(34); out.push(58); out.push(49); out.push(44);
    out.push(34); out.push(109); out.push(101); out.push(116); out.push(104); out.push(111);
    out.push(100); out.push(34); out.push(58); out.push(34);
    proof {
        assert(out@ =~= old(out)@ + req_head());
    }
}

fn append_req_mid(out: &mut Vec<u8>)
    ensures
        final(out)@ == old(out)@ + req_mid(),
{
    out.push(34); out.push(44); out.push(34); out.push(112); out.push(97); out.push(114);
    out.push(97); out.push(109); out.push(115); out.push(34); out.push(58); out.push(123);
    out.push(34); out.push(112); out.push(105); out.push(100); out.push(34); out.push(58);
    proof {
        assert(out@ =~= old(out)@ + req_mid());
    }
}

fn append_req_path_key(out: &mut Vec<u8>)
    ensures
        final(out)@ == old(out)@ + req_path_key(),
{
    out.push(44); out.push(34); out.push(112); out.push(97); out.push(116); out.push(104);
    out.push(34); out.push(58); out.push(34);
    proof {
        assert(out@ =~= old(out)@ + req_path_key());
    }
}

fn append_line_tail(out: &mut Vec<u8>)
    ensures
        final(out)@ == old(out)@ + line_tail(),
{
    out.push(34); out.push(125); out.push(125); out.push(10);
    proof {
        assert(out@ =~= old(out)@ + line_tail());
    }
}

fn append_note_head(out: &mut Vec<u8>)
    ensures
        final(out)@ == old(out)@ + note_head(),
{
    out.push(123); out.push(34); out.push(106); out.push(115); out.push(111); out.push(110);
    out.push(114); out.push(112); out.push(99); out.push(34); out.push(58); out.push(34);
    out.push(50); out.push(46); out.push(48); out.push(34); out.push(44); out.push(34);
    out.push(109); out.push(101); out.push(116); out.push(104); out.push(111); out.push(100);
    out.push(34); out.push(58); out.push(34);
    proof {
        assert(out@ =~= old(out)@ + note_head());
    }
}

fn append_note_mid(out: &mut Vec<u8>)
    ensures
        final(out)@ == old(out)@ + note_mid(),
{
    out.push(34); out.push(44); out.push(34); out.push(112); out.push(97); out.push(114);
    out.push(97); out.push(109); out.push(115); out.push(34); out.push(58); out.push(123);
    out.push(34); out.push(112); out.push(97); out.push(116); out.push(104); out.push(34);
    out.push(58); out.push(34);
    proof {
        assert(out@ =~= old(out)@ + note_mid());
    }
}

fn append_pre_method(out: &mut Vec<u8>, op: PreOp)
    ensures
        final(out)@ == old(out)@ + pre_method(op),
{
    match op {
        PreOp::Modify => {
            out.push(112); out.push(114); out.push(101); out.push(95); out.push(109);
            out.push(111); out.push(100); out.push(105); out.push(102); out.push(121);
        },
        PreOp::Delete => {
            out.push(112); out.push(114); out.push(101); out.push(95); out.push(100);
            out.push(101); out.push(108); out.push(101); out.push(116); out.push(101);
        },
        PreOp::Rename => {
            out.push(112); out.push(114); out.push(101); out.push(95); out.push(114);
            out.push(101); out.push(110); out.push(97); out.push(109); out.push(101);
        },
        PreOp::Truncate => {
            out.push(112); out.push(114); out.push(101); out.push(95); out.push(116);
            out.push(114); out.push(117); out.push(110); out.push(99); out.push(97);
            out.push(116); out.push(101);
        },
    }
    proof {
        assert(out@ =~= old(out)@ + pre_method(op));
    }
}

fn append_post_method(out: &mut Vec<u8>, op: NotifyOp)
    ensures
        final(out)@ == old(out)@ + post_method(op),
{
    match op {
        NotifyOp::Modify => {
            out.push(112); out.push(111); out.push(115); out.push(116); out.push(95);
            out.push(109); out.push(111); out.push(100); out.push(105); out.push(102);
            out.push(121);
        },
        NotifyOp::Delete => {
            out.push(112); out.push(111); out.push(115); out.push(116); out.push(95);
            out.push(100); out.push(101); out.push(108); out.push(101); out.push(116);
            out.push(101);
        },
    }
    proof {
        assert(out@ =~= old(out)@ + post_method(op));
    }
}

/// A hexadecimal digit, lower case.
fn hex_digit_of(n: u8) -> (r: u8)
    requires
        n < 16,
    ensures
        r == hex_digit(n),
{
    if n < 10 {
        48 + n
    } else {
        87 + n
    }
}

/// Append a path as the body of a JSON string.
fn append_escaped(out: &mut Vec<u8>, path: &Vec<u8>)
    ensures
        final(out)@ == old(out)@ + json_escaped(path@),
{
    let ghost out0 = out@;
    proof {
        assert(path@.take(0) =~= Seq::<u8>::empty());
        assert(out@ =~= out0 + json_escaped(path@.take(0)));
    }
    let mut i: usize = 0;
    while i < path.len()
        invariant
            i <= path.len(),
            out@ == out0 + json_escaped(path@.take(i as int)),
        decreases path.len() - i,
    {
        let b = path[i];
        if b == 34 {
            out.push(92);
            out.push(34);
        } else if b == 92 {
            out.push(92);
            out.push(92);
        } else if b < 32 {
            out.push(92);
            out.push(117);
            out.push(48);
            out.push(48);
            out.push(hex_digit_of(b / 16));
            out.push(hex_digit_of(b % 16));
        } else {
            out.push(b);
        }
        proof {
            assert(path@.take(i as int).push(b) =~= path@.take(i + 1));
            lemma_json_escaped_push(path@.take(i as int), b);
            assert(out@ =~= out0 + json_escaped(path@.take(i + 1)));
        }
        i = i + 1;
    }
    proof {
        assert(path@.take(path@.len() as int) =~= path@);
    }
}

/// Append an unsigned number in decimal digits.
fn append_dec(out: &mut Vec<u8>, n: u64)
    ensures
        final(out)@ == old(out)@ + dec_u64(n),
    decreases n,
{
    if n < 10 {
        out.push((n as u8) + 48);
        proof {
            assert(out@ =~= old(out)@ + dec_u64(n));
        }
    } else {
        append_dec(out, n / 10);
        out.push(((n % 10) as u8) + 48);
        proof {
            assert(out@ =~= old(out)@ + dec_u64(n));
        }
    }
}

/// Render one preflight request line.
pub fn render_request(op: PreOp, pid: u64, path: &Vec<u8>) -> (r: Vec<u8>)
    ensures
        r@ == request_line(op, pid, path@),
{
    let mut out: Vec<u8> = Vec::new();
    append_req_head(&mut out);
    append_pre_method(&mut out, op);
    append_req_mid(&mut out);
    append_dec(&mut out, pid);
    append_req_path_key(&mut out);
    append_escaped(&mut out, path);
    append_line_tail(&mut out);
    proof {
        assert(out@ =~= request_line(op, pid, path@));
    }
    out
}

/// Render one notification line.
pub fn render_notification(op: NotifyOp, path: &Vec<u8>) -> (r: Vec<u8>)
    ensures
        r@ == notification_line(op, path@),
{
    let mut out: Vec<u8> = Vec::new();
    append_note_head(&mut out);
    append_post_method(&mut out, op);
    append_note_mid(&mut out);
    append_escaped(&mut out, path);
    append_line_tail(&mut out);
    proof {
        assert(out@ =~= notification_line(op, path@));
    }
    out
}

/// The boolean an answer line carries: `Some` exactly when the line is JSON
/// whose `result.allow` is a boolean, `None` for every other byte string.
pub uninterp spec fn reply_allow_of(line: Seq<u8>) -> Option<bool>;

/// Relies on `serde_json::from_slice`, `serde_json::Value::get` and
/// `serde_json::Value::as_bool`: parsing a byte string as JSON and reading
/// the `result.allow` member depends on the bytes alone.
#[verifier::external_body]
fn parse_reply_allow(line: &Vec<u8>) -> (r: Option<bool>)
    ensures
        r == reply_allow_of(line@),
{
    let v: serde_json::Value = match serde_json::from_slice(line.as_slice()) {
        Ok(v) => v,
        Err(_) => return None,
    };
    match v.get("result") {
        Some(res) => match res.get("allow") {
            Some(a) => a.as_bool(),
            None => None,
        },
        None => None,
    }
}

/// The fail policy over a parsed answer: an explicit verdict is obeyed;
/// every failure (no connection, timeout, malformed answer) allows when
/// fail-open and denies when fail-closed.
pub open spec fn decision_of(parsed: Option<bool>, fail_closed: bool) -> bool {
    match parsed {
        Some(b) => b,
        None => !fail_closed,
    }
}

/// Apply the fail policy to a parsed answer.
pub fn preflight_decision(parsed: Option<bool>, fail_closed: bool) -> (allow: bool)
    ensures
        allow == decision_of(parsed, fail_closed),
{
    match parsed {
        Some(b) => b,
        None => !fail_closed,
    }
}

/// What a preflight exchange concludes from the raw answer, `None` standing
/// for any exchange that produced no answer line.
pub open spec fn conclude_of(reply: Option<Seq<u8>>, fail_closed: bool) -> bool {
    decision_of(
        match reply {
            Some(l) => reply_allow_of(l),
            None => None,
        },
        fail_closed,
    )
}

/// Conclude a preflight from the raw answer line, if one arrived.
pub fn preflight_conclude(reply: &Option<Vec<u8>>, fail_closed: bool) -> (allow: bool)
    ensures
        allow == conclude_of(reply.deep_view(), fail_closed),
{
    match reply {
        Some(l) => {
            proof {
                assert(l.deep_view() =~= l@);
            }
            preflight_decision(parse_reply_allow(l), fail_closed)
        },
        None => preflight_decision(None, fail_closed),
    }
}

/// The bytes of a chunk up to its first newline.
pub open spec fn line_prefix(s: Seq<u8>) -> Seq<u8>
    decreases s.len(),
{
    if s.len() == 0 {
        s
    } else if s[0] == 10 {
        Seq::empty()
    } else {
        seq![s[0]] + line_prefix(s.skip(1))
    }
}

/// Whether a chunk completes the line.
pub open spec fn has_newline(s: Seq<u8>) -> bool {
    exists|i: int| 0 <= i < s.len() && s[i] == 10
}

/// With the first newline at `i`, the line prefix is everything before it.
proof fn lemma_line_prefix_stops(s: Seq<u8>, i: int)
    requires
        0 <= i < s.len(),
        s[i] == 10,
        forall|j: int| 0 <= j < i ==> s[j] != 10,
    ensures
        line_prefix(s) == s.take(i),
    decreases i,
{
    if i == 0 {
        assert(line_prefix(s) =~= s.take(0));
    } else {
        lemma_line_prefix_stops(s.skip(1), i - 1);
        assert(line_prefix(s) =~= s.take(i));
    }
}

/// Without a newline, the whole chunk joins the line.
proof fn lemma_line_prefix_all(s: Seq<u8>)
    requires
        forall|j: int| 0 <= j < s.len() ==> s[j] != 10,
    ensures
        line_prefix(s) == s,
    decreases s.len(),
{
    if s.len() > 0 {
        lemma_line_prefix_all(s.skip(1));
        assert(line_prefix(s) =~= s);
    }
}

/// One step of the answer reader: consume one chunk as the stream returned
/// it.  Bytes before the chunk's first newline join the line; the newline
/// and anything after it are dropped; the result says whether the line is
/// complete.
pub fn accumulate_line(out: &mut Vec<u8>, chunk: &Vec<u8>) -> (done: bool)
    ensures
        final(out)@ == old(out)@ + line_prefix(chunk@),
        done == has_newline(chunk@),
{
    let ghost out0 = out@;
    proof {
        assert(out@ =~= out0 + chunk@.take(0));
    }
    let mut i: usize = 0;
    while i < chunk.len()
        invariant
            i <= chunk.len(),
            out0 == old(out)@,
            out@ == out0 + chunk@.take(i as int),
            forall|j: int| 0 <= j < i ==> chunk@[j] != 10,
        decreases chunk.len() - i,
    {
        let b = chunk[i];
        if b == 10 {
            proof {
                lemma_line_prefix_stops(chunk@, i as int);
                assert(has_newline(chunk@));
            }
            return true;
        }
        out.push(b);
        proof {
            assert(out@ =~= out0 + chunk@.take(i + 1));
        }
        i = i + 1;
    }
    proof {
        lemma_line_prefix_all(chunk@);
        assert(chunk@.take(chunk@.len() as int) =~= chunk@);
        assert(!has_newline(chunk@));
    }
    false
}

} // verus!
