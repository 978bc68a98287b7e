use vstd::prelude::*;
use crate::codec::{
    append_bytes, bytes_eq, copy_prefix, join, join_write_bytes, split, split_fields,
    trim_line_end, trimmed_len, views, FIELD_SEP, LF,
};
use crate::session::{empty_session, with_body_line, with_recipient, SessionStore, SessionView};
use crate::verdict::{commit_allowed, commit_verdict};
use crate::words::{
    commit_bytes, commit_spec, config_bytes, config_spec, data_line_bytes, data_line_spec,
    dataline_prefix_bytes, dataline_prefix_spec, dot_bytes, dot_spec, filter_bytes, filter_spec,
    handshake_bytes, handshake_spec, link_disconnect_bytes, link_disconnect_spec, proceed_bytes,
    proceed_spec, ready_bytes, ready_spec, reject_bytes, reject_spec, report_bytes, report_spec,
    result_prefix_bytes, result_prefix_spec, tx_begin_bytes, tx_begin_spec, tx_rcpt_bytes,
    tx_rcpt_spec,
};

verus! {

/// A decoded input line.
pub enum Event {
    /// `config|ready`: the host asks for the registrations.
    ConfigReady,
    /// A transaction opens.
    TxBegin { session: Vec<u8> },
    /// A recipient was declared, with the status the host gave it.
    TxRcpt { session: Vec<u8>, status: Vec<u8>, recipient: Vec<u8> },
    /// The connection of a session closed.
    LinkDisconnect { session: Vec<u8> },
    /// One line of message data, as the fields after the token.
    DataLine { session: Vec<u8>, token: Vec<u8>, content: Vec<Vec<u8>> },
    /// The transaction asks for a verdict.
    Commit { session: Vec<u8>, token: Vec<u8> },
    /// Anything else: no effect and no answer.
    Ignored,
}

/// The mathematical value of an [`Event`].
pub enum EventView {
    ConfigReady,
    TxBegin(Seq<u8>),
    TxRcpt(Seq<u8>, Seq<u8>, Seq<u8>),
    LinkDisconnect(Seq<u8>),
    DataLine(Seq<u8>, Seq<u8>, Seq<Seq<u8>>),
    Commit(Seq<u8>, Seq<u8>),
    Ignored,
}

impl View for Event {
    type V = EventView;

    open spec fn view(&self) -> EventView {
        match self {
            Event::ConfigReady => EventView::ConfigReady,
            Event::TxBegin { session } => EventView::TxBegin(session@),
            Event::TxRcpt { session, status, recipient } => EventView::TxRcpt(
                session@,
                status@,
                recipient@,
            ),
            Event::LinkDisconnect { session } => EventView::LinkDisconnect(session@),
            Event::DataLine { session, token, content } => EventView::DataLine(
                session@,
                token@,
                views(content@),
            ),
            Event::Commit { session, token } => EventView::Commit(session@, token@),
            Event::Ignored => EventView::Ignored,
        }
    }
}

/// The event that the fields `f` of a line stand for. A line with fewer fields
/// than its kind needs, or of a kind or phase this filter does not handle, is
/// ignored; fields past those a phase needs are not read.
pub open spec fn decode_spec(f: Seq<Seq<u8>>) -> EventView {
    if f.len() >= 2 && f[0] == config_spec() && f[1] == ready_spec() {
        EventView::ConfigReady
    } else if f.len() >= 6 && f[0] == report_spec() {
        if f[4] == tx_begin_spec() {
            EventView::TxBegin(f[5])
        } else if f[4] == tx_rcpt_spec() && f.len() >= 9 {
            EventView::TxRcpt(f[5], f[7], f[8])
        } else if f[4] == link_disconnect_spec() {
            EventView::LinkDisconnect(f[5])
        } else {
            EventView::Ignored
        }
    } else if f.len() >= 7 && f[0] == filter_spec() {
        if f[4] == data_line_spec() {
            EventView::DataLine(f[5], f[6], f.subrange(7, f.len() as int))
        } else if f[4] == commit_spec() {
            EventView::Commit(f[5], f[6])
        } else {
            EventView::Ignored
        }
    } else {
        EventView::Ignored
    }
}

/// The event of an input line, once its line end is cut.
pub open spec fn line_event(line: Seq<u8>) -> EventView {
    decode_spec(split(line.subrange(0, trimmed_len(line) as int), FIELD_SEP))
}

/// Whether the content of a data line is the end-of-data terminator alone.
pub open spec fn is_terminator(content: Seq<Seq<u8>>) -> bool {
    content.len() == 1 && content[0] == dot_spec()
}

/// The line that a data line adds to the body: its fields joined, then a line feed.
pub open spec fn body_line(content: Seq<Seq<u8>>) -> Seq<u8> {
    join(content, seq![FIELD_SEP]).push(LF)
}

/// The sessions after `e`.
pub open spec fn next_sessions(
    m: Map<Seq<u8>, SessionView>,
    e: EventView,
) -> Map<Seq<u8>, SessionView> {
    match e {
        EventView::TxBegin(s) => m.insert(s, empty_session()),
        EventView::TxRcpt(s, status, rcpt) => with_recipient(m, s, status, rcpt),
        EventView::LinkDisconnect(s) => m.remove(s),
        EventView::DataLine(s, _t, c) => if is_terminator(c) {
            m
        } else {
            with_body_line(m, s, body_line(c))
        },
        _ => m,
    }
}

/// The echo of a data line.
pub open spec fn dataline_echo(s: Seq<u8>, t: Seq<u8>, c: Seq<Seq<u8>>) -> Seq<u8> {
    dataline_prefix_spec() + s + seq![FIELD_SEP] + t + seq![FIELD_SEP] + join(
        c,
        seq![FIELD_SEP],
    ) + seq![LF]
}

/// The verdict line of a commit.
pub open spec fn result_line(s: Seq<u8>, t: Seq<u8>, allow: bool) -> Seq<u8> {
    result_prefix_spec() + s + seq![FIELD_SEP] + t + seq![FIELD_SEP] + (if allow {
        proceed_spec()
    } else {
        reject_spec()
    }) + seq![LF]
}

/// What the filter answers to `e` with sessions `m`.
pub open spec fn response(m: Map<Seq<u8>, SessionView>, e: EventView) -> Seq<u8> {
    match e {
        EventView::ConfigReady => handshake_spec(),
        EventView::DataLine(s, t, c) => dataline_echo(s, t, c),
        EventView::Commit(s, t) => result_line(s, t, commit_allowed(m, s)),
        _ => Seq::empty(),
    }
}

fn copy_bytes(b: &[u8]) -> (r: Vec<u8>)
    ensures
        r@ == b@,
{
    let r = copy_prefix(b, b.len());
    assert(b@.subrange(0, b@.len() as int) =~= b@);
    r
}

fn is_word(f: &Vec<u8>, w: Vec<u8>) -> (r: bool)
    ensures
        r == (f@ == w@),
{
    bytes_eq(f.as_slice(), w.as_slice())
}

/// Decodes the fields of a line into its event.
pub fn decode(f: &Vec<Vec<u8>>) -> (e: Event)
    ensures
        e@ == decode_spec(views(f@)),
{
    let ghost fv = views(f@);
    let n = f.len();
    if n >= 2 && is_word(&f[0], config_bytes()) && is_word(&f[1], ready_bytes()) {
        return Event::ConfigReady;
    }
    if n >= 6 && is_word(&f[0], report_bytes()) {
        let session = copy_bytes(f[5].as_slice());
        if is_word(&f[4], tx_begin_bytes()) {
            return Event::TxBegin { session };
        } else if is_word(&f[4], tx_rcpt_bytes()) && n >= 9 {
            let status = copy_bytes(f[7].as_slice());
            let recipient = copy_bytes(f[8].as_slice());
            return Event::TxRcpt { session, status, recipient };
        } else if is_word(&f[4], link_disconnect_bytes()) {
            return Event::LinkDisconnect { session };
        }
        return Event::Ignored;
    }
    if n >= 7 && is_word(&f[0], filter_bytes()) {
        let session = copy_bytes(f[5].as_slice());
        let token = copy_bytes(f[6].as_slice());
        if is_word(&f[4], data_line_bytes()) {
            let mut content: Vec<Vec<u8>> = Vec::new();
            let mut i: usize = 7;
            while i < n
                invariant
                    7 <= i <= n,
                    n == f@.len(),
                    fv == views(f@),
                    views(content@) == fv.subrange(7, i as int),
                decreases n - i,
            {
                assert(fv[i as int] == f@[i as int]@);
                let ghost before = views(content@);
                let item = copy_bytes(f[i].as_slice());
                content.push(item);
                assert(views(content@) =~= before.push(fv[i as int]));
                assert(fv.subrange(7, i + 1) =~= fv.subrange(7, i as int).push(fv[i as int]));
                i = i + 1;
            }
            return Event::DataLine { session, token, content };
        } else if is_word(&f[4], commit_bytes()) {
            return Event::Commit { session, token };
        }
        return Event::Ignored;
    }
    Event::Ignored
}

/// Decodes one input line, with or without its line end.
pub fn decode_line(line: &[u8]) -> (e: Event)
    ensures
        e@ == line_event(line@),
{
    let n = trim_line_end(line);
    let kept = copy_prefix(line, n);
    let fields = split_fields(kept.as_slice());
    decode(&fields)
}

/// The filter's state: the open sessions.
pub struct Filter {
    sessions: SessionStore,
}

impl View for Filter {
    type V = Map<Seq<u8>, SessionView>;

    closed spec fn view(&self) -> Map<Seq<u8>, SessionView> {
        self.sessions@
    }
}

impl Filter {
    pub closed spec fn wf(&self) -> bool {
        self.sessions.wf()
    }

    /// A filter with no open session.
    pub fn new() -> (r: Filter)
        ensures
            r.wf(),
            r@ == Map::<Seq<u8>, SessionView>::empty(),
    {
        Filter { sessions: SessionStore::new() }
    }

    /// Applies `e` to the sessions and returns the bytes to send back.
    pub fn handle_event(&mut self, e: &Event) -> (out: Vec<u8>)
        requires
            old(self).wf(),
        ensures
            final(self).wf(),
            final(self)@ == next_sessions(old(self)@, e@),
            out@ == response(old(self)@, e@),
    {
        let mut out: Vec<u8> = Vec::new();
        match e {
            Event::ConfigReady => {
                out = handshake_bytes();
            },
            Event::TxBegin { session } => {
                self.sessions.begin(session.as_slice());
            },
            Event::TxRcpt { session, status, recipient } => {
                self.sessions.record_recipient(
                    session.as_slice(),
                    status.as_slice(),
                    recipient.as_slice(),
                );
            },
            Event::LinkDisconnect { session } => {
                self.sessions.end(session.as_slice());
            },
            Event::DataLine { session, token, content } => {
                let sep: Vec<u8> = vec![FIELD_SEP];
                out = dataline_prefix_bytes();
                append_bytes(&mut out, session.as_slice());
                out.push(FIELD_SEP);
                append_bytes(&mut out, token.as_slice());
                out.push(FIELD_SEP);
                join_write_bytes(&mut out, sep.as_slice(), content.as_slice());
                out.push(LF);
                assert(sep@ =~= seq![FIELD_SEP]);
                assert(out@ =~= dataline_echo(session@, token@, views(content@)));
                let terminator = content.len() == 1 && is_word(&content[0], dot_bytes());
                assert(terminator == is_terminator(views(content@)));
                if !terminator {
                    let mut line: Vec<u8> = Vec::new();
                    join_write_bytes(&mut line, sep.as_slice(), content.as_slice());
                    line.push(LF);
                    assert(line@ =~= body_line(views(content@)));
                    self.sessions.append_body(session.as_slice(), line.as_slice());
                }
            },
            Event::Commit { session, token } => {
                let allow = commit_verdict(&self.sessions, session.as_slice());
                out = result_prefix_bytes();
                append_bytes(&mut out, session.as_slice());
                out.push(FIELD_SEP);
                append_bytes(&mut out, token.as_slice());
                out.push(FIELD_SEP);
                if allow {
                    append_bytes(&mut out, proceed_bytes().as_slice());
                } else {
                    append_bytes(&mut out, reject_bytes().as_slice());
                }
                out.push(LF);
                assert(out@ =~= result_line(session@, token@, allow));
            },
            Event::Ignored => {},
        }
        out
    }

    /// Handles one input line and returns the bytes to send back, which are
    /// empty for a line that asks for no answer.
    pub fn handle_line(&mut self, line: &[u8]) -> (out: Vec<u8>)
        requires
            old(self).wf(),
        ensures
            final(self).wf(),
            final(self)@ == next_sessions(old(self)@, line_event(line@)),
            out@ == response(old(self)@, line_event(line@)),
    {
        let e = decode_line(line);
        self.handle_event(&e)
    }
}

} // verus!
