use vstd::prelude::*;
use crate::filter::{
    body_line, dataline_echo, is_terminator, line_event, next_sessions, response, result_line,
    EventView,
};
use crate::session::SessionView;
use crate::words::ok_spec;

verus! {

/// The sessions after `lines`, fed one by one to a filter that began with `m`.
pub open spec fn run(m: Map<Seq<u8>, SessionView>, lines: Seq<Seq<u8>>) -> Map<
    Seq<u8>,
    SessionView,
>
    decreases lines.len(),
{
    if lines.len() == 0 {
        m
    } else {
        next_sessions(run(m, lines.drop_last()), line_event(lines.last()))
    }
}

/// No event but a transaction-begin for `s` opens session `s`.
pub proof fn lemma_only_begin_opens(m: Map<Seq<u8>, SessionView>, e: EventView, s: Seq<u8>)
    requires
        !m.contains_key(s),
        e != EventView::TxBegin(s),
    ensures
        !next_sessions(m, e).contains_key(s),
{
}

/// A session that no line of a stream opened is not open after it, and a
/// commit for it proceeds.
pub proof fn lemma_unopened_session_proceeds(lines: Seq<Seq<u8>>, s: Seq<u8>, t: Seq<u8>)
    requires
        forall|i: int| 0 <= i < lines.len() ==> line_event(lines[i]) != EventView::TxBegin(s),
    ensures
        !run(Map::empty(), lines).contains_key(s),
        response(run(Map::empty(), lines), EventView::Commit(s, t)) == result_line(s, t, true),
    decreases lines.len(),
{
    if lines.len() > 0 {
        let pre = lines.drop_last();
        assert forall|i: int| 0 <= i < pre.len() implies line_event(pre[i]) != EventView::TxBegin(
            s,
        ) by {
            assert(pre[i] == lines[i]);
        }
        lemma_unopened_session_proceeds(pre, s, t);
        lemma_only_begin_opens(run(Map::empty(), pre), line_event(lines.last()), s);
    }
}

/// After a link-disconnect for `s`, a commit for `s` proceeds whatever the
/// session held, and the other sessions are as they were.
pub proof fn lemma_disconnect_forgets(m: Map<Seq<u8>, SessionView>, s: Seq<u8>, t: Seq<u8>)
    ensures
        !next_sessions(m, EventView::LinkDisconnect(s)).contains_key(s),
        next_sessions(m, EventView::LinkDisconnect(s)) == m.remove(s),
        response(next_sessions(m, EventView::LinkDisconnect(s)), EventView::Commit(s, t))
            == result_line(s, t, true),
{
}

/// Every data line gets exactly its echo back, whether or not it is the
/// terminator and whether or not its session is open.
pub proof fn lemma_dataline_always_echoed(
    m1: Map<Seq<u8>, SessionView>,
    m2: Map<Seq<u8>, SessionView>,
    s: Seq<u8>,
    t: Seq<u8>,
    c: Seq<Seq<u8>>,
)
    ensures
        response(m1, EventView::DataLine(s, t, c)) == dataline_echo(s, t, c),
        response(m1, EventView::DataLine(s, t, c)) == response(m2, EventView::DataLine(s, t, c)),
{
}

/// The terminator is never added to a body; any other data line is added to
/// the end of the body of its open session, fields rejoined and newline-ended.
pub proof fn lemma_body_buffering(
    m: Map<Seq<u8>, SessionView>,
    s: Seq<u8>,
    t: Seq<u8>,
    c: Seq<Seq<u8>>,
)
    ensures
        is_terminator(c) ==> next_sessions(m, EventView::DataLine(s, t, c)) == m,
        !is_terminator(c) && m.contains_key(s) ==> next_sessions(
            m,
            EventView::DataLine(s, t, c),
        ) == m.insert(
            s,
            SessionView { recipients: m[s].recipients, body: m[s].body + body_line(c) },
        ),
        !m.contains_key(s) ==> next_sessions(m, EventView::DataLine(s, t, c)) == m,
{
}

/// A recipient line with a status other than `ok` changes nothing; one with
/// `ok` appends the address to the end of its open session's recipients,
/// duplicates kept.
pub proof fn lemma_recipient_recording(
    m: Map<Seq<u8>, SessionView>,
    s: Seq<u8>,
    status: Seq<u8>,
    r: Seq<u8>,
)
    ensures
        status != ok_spec() ==> next_sessions(m, EventView::TxRcpt(s, status, r)) == m,
        status == ok_spec() && m.contains_key(s) ==> next_sessions(
            m,
            EventView::TxRcpt(s, status, r),
        ) == m.insert(
            s,
            SessionView { recipients: m[s].recipients.push(r), body: m[s].body },
        ),
{
}

} // verus!
