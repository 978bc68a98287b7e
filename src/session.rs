use vstd::prelude::*;
use crate::codec::{bytes_eq, views};
use crate::words::{ok_bytes, ok_spec};

verus! {

/// What the filter has gathered about one transaction.
pub struct Session {
    /// The accepted recipients, in the order they were declared.
    pub recipients: Vec<Vec<u8>>,
    /// Every accepted body line, each followed by a line feed.
    pub body: Vec<u8>,
}

/// The mathematical value of a [`Session`].
pub struct SessionView {
    pub recipients: Seq<Seq<u8>>,
    pub body: Seq<u8>,
}

impl View for Session {
    type V = SessionView;

    open spec fn view(&self) -> SessionView {
        SessionView { recipients: views(self.recipients@), body: self.body@ }
    }
}

/// A session with no recipient and an empty body.
pub open spec fn empty_session() -> SessionView {
    SessionView { recipients: Seq::empty(), body: Seq::empty() }
}

impl Session {
    pub fn new() -> (r: Session)
        ensures
            r@ == empty_session(),
    {
        let r = Session { recipients: Vec::new(), body: Vec::new() };
        assert(r@.recipients =~= Seq::<Seq<u8>>::empty());
        r
    }
}

struct Entry {
    id: Vec<u8>,
    session: Session,
}

/// The sessions that are open, keyed by their session token.
pub struct SessionStore {
    entries: Vec<Entry>,
    model: Ghost<Map<Seq<u8>, SessionView>>,
}

impl View for SessionStore {
    type V = Map<Seq<u8>, SessionView>;

    closed spec fn view(&self) -> Map<Seq<u8>, SessionView> {
        self.model@
    }
}

/// The store after a recipient line with `status` for `id`: the address is
/// appended only for status `ok` and only where the session exists.
pub open spec fn with_recipient(
    m: Map<Seq<u8>, SessionView>,
    id: Seq<u8>,
    status: Seq<u8>,
    rcpt: Seq<u8>,
) -> Map<Seq<u8>, SessionView> {
    if status == ok_spec() && m.contains_key(id) {
        m.insert(
            id,
            SessionView { recipients: m[id].recipients.push(rcpt), body: m[id].body },
        )
    } else {
        m
    }
}

/// The store after `line` was added to the body of `id`, where it exists.
pub open spec fn with_body_line(
    m: Map<Seq<u8>, SessionView>,
    id: Seq<u8>,
    line: Seq<u8>,
) -> Map<Seq<u8>, SessionView> {
    if m.contains_key(id) {
        m.insert(
            id,
            SessionView { recipients: m[id].recipients, body: m[id].body + line },
        )
    } else {
        m
    }
}

impl SessionStore {
    /// Each token has one entry, and the entries are what the view says.
    pub closed spec fn wf(&self) -> bool {
        &&& forall|i: int, j: int|
            0 <= i < j < self.entries@.len() ==> self.entries@[i].id@
                != self.entries@[j].id@
        &&& forall|i: int|
            0 <= i < self.entries@.len() ==> self.model@.contains_key(
                #[trigger] self.entries@[i].id@,
            ) && self.model@[self.entries@[i].id@] == self.entries@[i].session@
        &&& forall|k: Seq<u8>|
            #[trigger] self.model@.contains_key(k) ==> exists|i: int|
                0 <= i < self.entries@.len() && self.entries@[i].id@ == k
    }

    pub fn new() -> (r: SessionStore)
        ensures
            r.wf(),
            r@ == Map::<Seq<u8>, SessionView>::empty(),
    {
        SessionStore { entries: Vec::new(), model: Ghost(Map::empty()) }
    }

    fn find(&self, id: &[u8]) -> (r: Option<usize>)
        requires
            self.wf(),
        ensures
            match r {
                None => !self@.contains_key(id@),
                Some(i) => i < self.entries@.len() && self.entries@[i as int].id@ == id@,
            },
    {
        let mut i: usize = 0;
        while i < self.entries.len()
            invariant
                i <= self.entries@.len(),
                forall|k: int| 0 <= k < i ==> self.entries@[k].id@ != id@,
            decreases self.entries@.len() - i,
        {
            if bytes_eq(self.entries[i].id.as_slice(), id) {
                return Some(i);
            }
            i = i + 1;
        }
        None
    }

    /// The session of `id`, if it is open.
    pub fn get(&self, id: &[u8]) -> (r: Option<&Session>)
        requires
            self.wf(),
        ensures
            match r {
                None => !self@.contains_key(id@),
                Some(s) => self@.contains_key(id@) && s@ == self@[id@],
            },
    {
        match self.find(id) {
            None => None,
            Some(i) => Some(&self.entries[i].session),
        }
    }

    /// Puts `session` under `id`, in place of any session held there.
    fn put(&mut self, id: &[u8], session: Session)
        requires
            old(self).wf(),
        ensures
            final(self).wf(),
            final(self)@ == old(self)@.insert(id@, session@),
    {
        let ghost sv = session@;
        match self.find(id) {
            None => {
                let mut key: Vec<u8> = Vec::new();
                crate::codec::append_bytes(&mut key, id);
                assert(key@ =~= id@);
                self.entries.push(Entry { id: key, session });
                self.model = Ghost(self.model@.insert(id@, sv));
                assert forall|k: Seq<u8>| #[trigger] self.model@.contains_key(k) implies exists|
                    i: int,
                |
                    0 <= i < self.entries@.len() && self.entries@[i].id@ == k by {
                    if k == id@ {
                        assert(self.entries@[self.entries@.len() - 1].id@ == k);
                    } else {
                        assert(old(self).model@.contains_key(k));
                        let i = choose|i: int|
                            0 <= i < old(self).entries@.len() && old(self).entries@[i].id@ == k;
                        assert(self.entries@[i].id@ == k);
                    }
                }
            },
            Some(i) => {
                let _previous = self.replace_at(i, session);
            },
        }
    }

    /// Puts `session` in the entry at `i` and hands back the session it held.
    fn replace_at(&mut self, i: usize, session: Session) -> (r: Session)
        requires
            old(self).wf(),
            i < old(self).entries@.len(),
        ensures
            final(self).wf(),
            final(self).entries@.len() == old(self).entries@.len(),
            final(self).entries@[i as int].id@ == old(self).entries@[i as int].id@,
            final(self)@ == old(self)@.insert(old(self).entries@[i as int].id@, session@),
            r@ == old(self)@[old(self).entries@[i as int].id@],
    {
        let ghost sv = session@;
        let ghost id = self.entries@[i as int].id@;
        let old_entry = self.entries.remove(i);
        self.entries.insert(i, Entry { id: old_entry.id, session });
        self.model = Ghost(self.model@.insert(id, sv));
        assert forall|k: Seq<u8>| #[trigger] self.model@.contains_key(k) implies exists|j: int|
            0 <= j < self.entries@.len() && self.entries@[j].id@ == k by {
            if k == id {
                assert(self.entries@[i as int].id@ == k);
            } else {
                assert(old(self).model@.contains_key(k));
                let j = choose|j: int|
                    0 <= j < old(self).entries@.len() && old(self).entries@[j].id@ == k;
                assert(self.entries@[j].id@ == k);
            }
        }
        assert forall|a: int|
            0 <= a < self.entries@.len() implies self.model@.contains_key(
            #[trigger] self.entries@[a].id@,
        ) && self.model@[self.entries@[a].id@] == self.entries@[a].session@ by {
            if a != i {
                assert(self.entries@[a] == old(self).entries@[a]);
            }
        }
        old_entry.session
    }

    /// Opens an empty session under `id`, in place of any session held there.
    pub fn begin(&mut self, id: &[u8])
        requires
            old(self).wf(),
        ensures
            final(self).wf(),
            final(self)@ == old(self)@.insert(id@, empty_session()),
    {
        self.put(id, Session::new());
    }

    /// Closes the session of `id`, whether or not it is open.
    pub fn end(&mut self, id: &[u8])
        requires
            old(self).wf(),
        ensures
            final(self).wf(),
            final(self)@ == old(self)@.remove(id@),
    {
        match self.find(id) {
            None => {
                assert(self.model@.remove(id@) =~= self.model@);
            },
            Some(i) => {
                let _gone = self.entries.remove(i);
                self.model = Ghost(self.model@.remove(id@));
                assert forall|k: Seq<u8>| #[trigger] self.model@.contains_key(k) implies exists|
                    j: int,
                |
                    0 <= j < self.entries@.len() && self.entries@[j].id@ == k by {
                    assert(old(self).model@.contains_key(k));
                    let j = choose|j: int|
                        0 <= j < old(self).entries@.len() && old(self).entries@[j].id@ == k;
                    assert(j != i);
                    if j < i {
                        assert(self.entries@[j].id@ == k);
                    } else {
                        assert(self.entries@[j - 1].id@ == k);
                    }
                }
                assert forall|a: int|
                    0 <= a < self.entries@.len() implies self.model@.contains_key(
                    #[trigger] self.entries@[a].id@,
                ) && self.model@[self.entries@[a].id@] == self.entries@[a].session@ by {
                    if a < i {
                        assert(self.entries@[a] == old(self).entries@[a]);
                    } else {
                        assert(self.entries@[a] == old(self).entries@[a + 1]);
                    }
                }
            },
        }
    }

    /// Records `rcpt` as a recipient of `id` when `status` is `ok` and the
    /// session is open; does nothing otherwise.
    pub fn record_recipient(&mut self, id: &[u8], status: &[u8], rcpt: &[u8])
        requires
            old(self).wf(),
        ensures
            final(self).wf(),
            final(self)@ == with_recipient(old(self)@, id@, status@, rcpt@),
    {
        let ok = ok_bytes();
        if !bytes_eq(status, ok.as_slice()) {
            return;
        }
        match self.find(id) {
            None => {},
            Some(i) => {
                let mut session = self.replace_at(i, Session::new());
                let ghost before = session@;
                let mut addr: Vec<u8> = Vec::new();
                crate::codec::append_bytes(&mut addr, rcpt);
                session.recipients.push(addr);
                assert(session@.recipients =~= before.recipients.push(rcpt@));
                let _empty = self.replace_at(i, session);
                assert(self@ =~= with_recipient(old(self)@, id@, status@, rcpt@));
            },
        }
    }

    /// Appends `line` to the body of `id` when that session is open.
    pub fn append_body(&mut self, id: &[u8], line: &[u8])
        requires
            old(self).wf(),
        ensures
            final(self).wf(),
            final(self)@ == with_body_line(old(self)@, id@, line@),
    {
        match self.find(id) {
            None => {},
            Some(i) => {
                let mut session = self.replace_at(i, Session::new());
                crate::codec::append_bytes(&mut session.body, line);
                let _empty = self.replace_at(i, session);
                assert(self@ =~= with_body_line(old(self)@, id@, line@));
            },
        }
    }
}

} // verus!
