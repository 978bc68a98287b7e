use vstd::prelude::*;
use crate::codec::views;
use crate::pattern::{pattern_builds, word_match, DomainPattern};
use crate::sender::{names_view, parse_sender_names, sender_names_of};
use crate::session::{Session, SessionStore, SessionView};

verus! {

/// The `@` that ends the local part of an address.
pub const AT_SIGN: u8 = 64u8;

/// The index of the last `b` in `s`, or -1 where there is none.
pub open spec fn last_index_of(s: Seq<u8>, b: u8) -> int
    decreases s.len(),
{
    if s.len() == 0 {
        -1
    } else if s.last() == b {
        s.len() - 1
    } else {
        last_index_of(s.drop_last(), b)
    }
}

/// The domain of a recipient address: what follows its last `@`, or `None`
/// where it holds no `@`.
pub open spec fn domain_of(addr: Seq<u8>) -> Option<Seq<u8>> {
    let k = last_index_of(addr, AT_SIGN);
    if k < 0 {
        None
    } else {
        Some(addr.subrange(k + 1, addr.len() as int))
    }
}

/// Whether `d` is the domain of some recipient in `recipients`.
pub open spec fn is_recipient_domain(recipients: Seq<Seq<u8>>, d: Seq<u8>) -> bool {
    exists|i: int| 0 <= i < recipients.len() && domain_of(recipients[i]) == Some(d)
}

/// Whether the pattern of `d` can be built and finds `d` in one of `names`.
pub open spec fn domain_in_names(d: Seq<u8>, names: Seq<Option<Seq<char>>>) -> bool {
    pattern_builds(d) && exists|j: int|
        0 <= j < names.len() && names[j] is Some && word_match(d, names[j]->Some_0)
}

/// Whether some display name holds some recipient domain as a whole word.
pub open spec fn sender_spoofs(recipients: Seq<Seq<u8>>, names: Seq<Option<Seq<char>>>) -> bool {
    exists|d: Seq<u8>| is_recipient_domain(recipients, d) && domain_in_names(d, names)
}

/// Whether a session may proceed at commit: it may unless its headers parse,
/// carry a sender field, and a sender display name holds a recipient domain.
pub open spec fn session_allowed(s: SessionView) -> bool {
    match sender_names_of(s.body) {
        Some(Some(names)) => !sender_spoofs(s.recipients, names),
        _ => true,
    }
}

/// The verdict for a commit of `id`: a session that is not open proceeds.
pub open spec fn commit_allowed(store: Map<Seq<u8>, SessionView>, id: Seq<u8>) -> bool {
    !store.contains_key(id) || session_allowed(store[id])
}

/// The domain of the address `addr`.
pub fn recipient_domain(addr: &[u8]) -> (r: Option<Vec<u8>>)
    ensures
        match r {
            None => domain_of(addr@) is None,
            Some(d) => domain_of(addr@) == Some(d@),
        },
{
    let mut last: usize = 0;
    let mut found = false;
    let mut i: usize = 0;
    assert(addr@.subrange(0, 0) =~= Seq::<u8>::empty());
    while i < addr.len()
        invariant
            i <= addr@.len(),
            found ==> last < i,
            last_index_of(addr@.subrange(0, i as int), AT_SIGN) == if found {
                last as int
            } else {
                -1
            },
        decreases addr@.len() - i,
    {
        assert(addr@.subrange(0, i + 1).drop_last() =~= addr@.subrange(0, i as int));
        if addr[i] == AT_SIGN {
            last = i;
            found = true;
        }
        i = i + 1;
    }
    assert(addr@.subrange(0, addr@.len() as int) =~= addr@);
    if !found {
        return None;
    }
    let mut d: Vec<u8> = Vec::new();
    let mut k: usize = last + 1;
    while k < addr.len()
        invariant
            last < k <= addr@.len(),
            d@ == addr@.subrange(last + 1, k as int),
        decreases addr@.len() - k,
    {
        d.push(addr[k]);
        k = k + 1;
        assert(d@ =~= addr@.subrange(last + 1, k as int));
    }
    Some(d)
}

/// Whether `d` is among `list`.
fn contains_bytes(list: &Vec<Vec<u8>>, d: &[u8]) -> (r: bool)
    ensures
        r == views(list@).contains(d@),
{
    let mut i: usize = 0;
    while i < list.len()
        invariant
            i <= list@.len(),
            forall|k: int| 0 <= k < i ==> list@[k]@ != d@,
        decreases list@.len() - i,
    {
        if crate::codec::bytes_eq(list[i].as_slice(), d) {
            assert(views(list@)[i as int] == d@);
            return true;
        }
        i = i + 1;
    }
    assert(!views(list@).contains(d@)) by {
        if views(list@).contains(d@) {
            let k = choose|k: int| 0 <= k < views(list@).len() && views(list@)[k] == d@;
            assert(list@[k]@ == d@);
        }
    }
    false
}

/// The domains of `recipients`, each listed once, in order of first
/// appearance: a domain shared by many recipients is checked only once.
pub fn distinct_domains(recipients: &Vec<Vec<u8>>) -> (r: Vec<Vec<u8>>)
    ensures
        views(r@).no_duplicates(),
        forall|d: Seq<u8>|
            views(r@).contains(d) <==> is_recipient_domain(views(recipients@), d),
{
    let mut out: Vec<Vec<u8>> = Vec::new();
    let mut i: usize = 0;
    while i < recipients.len()
        invariant
            i <= recipients@.len(),
            views(out@).no_duplicates(),
            forall|d: Seq<u8>|
                views(out@).contains(d) <==> is_recipient_domain(
                    views(recipients@.subrange(0, i as int)),
                    d,
                ),
        decreases recipients@.len() - i,
    {
        let ghost before = views(out@);
        let ghost pre = views(recipients@.subrange(0, i as int));
        let ghost post = views(recipients@.subrange(0, i + 1));
        assert(post =~= pre.push(recipients@[i as int]@));
        assert(post[i as int] == recipients@[i as int]@);
        match recipient_domain(recipients[i].as_slice()) {
            None => {
                assert(views(out@) == before);
            },
            Some(d) => {
                let ghost dv = d@;
                if !contains_bytes(&out, d.as_slice()) {
                    out.push(d);
                    assert(views(out@) =~= before.push(dv));
                    assert forall|x: Seq<u8>|
                        views(out@).contains(x) <==> (before.contains(x) || x == dv) by {
                        if x == dv {
                            assert(views(out@)[before.len() as int] == x);
                        }
                        if before.contains(x) {
                            let k = choose|k: int| 0 <= k < before.len() && before[k] == x;
                            assert(views(out@)[k] == x);
                        }
                        if views(out@).contains(x) {
                            let k = choose|k: int|
                                0 <= k < views(out@).len() && views(out@)[k] == x;
                            if k < before.len() {
                                assert(before[k] == x);
                            }
                        }
                    }
                }
            },
        }
        assert(forall|x: Seq<u8>|
            views(out@).contains(x) <==> (before.contains(x) || domain_of(post[i as int]) == Some(
                x,
            )));
        assert forall|d: Seq<u8>|
            views(out@).contains(d) <==> is_recipient_domain(post, d) by {
            if is_recipient_domain(post, d) {
                let k = choose|k: int| 0 <= k < post.len() && domain_of(post[k]) == Some(d);
                if k < pre.len() {
                    assert(pre[k] == post[k]);
                    assert(is_recipient_domain(pre, d));
                }
            }
            if is_recipient_domain(pre, d) {
                let k = choose|k: int| 0 <= k < pre.len() && domain_of(pre[k]) == Some(d);
                assert(post[k] == pre[k]);
            }
            if domain_of(post[i as int]) == Some(d) {
                assert(0 <= i < post.len());
                assert(is_recipient_domain(post, d));
            }
            assert(before.contains(d) <==> is_recipient_domain(pre, d));
        }
        i = i + 1;
    }
    assert(recipients@.subrange(0, recipients@.len() as int) =~= recipients@);
    out
}

/// Whether some display name among `names` holds the domain of `pattern`.
fn pattern_hits(pattern: &DomainPattern, names: &Vec<Option<String>>) -> (r: bool)
    ensures
        r == exists|j: int|
            0 <= j < names@.len() && names@[j] is Some && word_match(
                pattern.domain(),
                names@[j]->Some_0@,
            ),
{
    let mut hit = false;
    let mut j: usize = 0;
    while j < names.len()
        invariant
            j <= names@.len(),
            hit == exists|k: int|
                0 <= k < j && names@[k] is Some && word_match(
                    pattern.domain(),
                    names@[k]->Some_0@,
                ),
        decreases names@.len() - j,
    {
        match &names[j] {
            None => {},
            Some(name) => {
                if pattern.finds(name) {
                    hit = true;
                }
            },
        }
        j = j + 1;
    }
    hit
}

/// Whether a sender with display names `names` may write to `recipients`: it
/// may unless one of the names holds a recipient domain as a whole word.
/// Each distinct domain is compiled and tested once.
pub fn sender_allowed(recipients: &Vec<Vec<u8>>, names: &Vec<Option<String>>) -> (r: bool)
    ensures
        r == !sender_spoofs(views(recipients@), names_view(names@)),
{
    let domains = distinct_domains(recipients);
    let ghost nv = names_view(names@);
    let mut allow = true;
    let mut k: usize = 0;
    while k < domains.len()
        invariant
            k <= domains@.len(),
            nv == names_view(names@),
            allow == !exists|a: int|
                0 <= a < k && domain_in_names(#[trigger] views(domains@)[a], nv),
        decreases domains@.len() - k,
    {
        match DomainPattern::compile(domains[k].as_slice()) {
            None => {},
            Some(pattern) => {
                if pattern_hits(&pattern, names) {
                    allow = false;
                    assert(domain_in_names(views(domains@)[k as int], nv)) by {
                        let j = choose|j: int|
                            0 <= j < names@.len() && names@[j] is Some && word_match(
                                pattern.domain(),
                                names@[j]->Some_0@,
                            );
                        assert(nv[j] == Some(names@[j]->Some_0@));
                    }
                }
            },
        }
        assert(allow == !exists|a: int|
            0 <= a < k + 1 && domain_in_names(#[trigger] views(domains@)[a], nv)) by {
            if !pattern_builds(views(domains@)[k as int]) {
                assert(!domain_in_names(views(domains@)[k as int], nv));
            }
            if domain_in_names(views(domains@)[k as int], nv) && pattern_builds(
                views(domains@)[k as int],
            ) {
                let j = choose|j: int|
                    0 <= j < nv.len() && nv[j] is Some && word_match(
                        views(domains@)[k as int],
                        nv[j]->Some_0,
                    );
                assert(names@[j] is Some);
            }
        }
        k = k + 1;
    }
    let ghost rv = views(recipients@);
    assert(allow == !sender_spoofs(rv, nv)) by {
        if sender_spoofs(rv, nv) {
            let d = choose|d: Seq<u8>| is_recipient_domain(rv, d) && domain_in_names(d, nv);
            assert(views(domains@).contains(d));
            let a = choose|a: int| 0 <= a < views(domains@).len() && views(domains@)[a] == d;
        }
        if !allow {
            let a = choose|a: int|
                0 <= a < domains@.len() && domain_in_names(#[trigger] views(domains@)[a], nv);
            assert(views(domains@).contains(views(domains@)[a]));
        }
    }
    allow
}

/// Whether `session` may proceed at commit.
pub fn session_verdict(session: &Session) -> (r: bool)
    ensures
        r == session_allowed(session@),
{
    let parsed = parse_sender_names(session.body.as_slice());
    match parsed {
        Some(Some(names)) => sender_allowed(&session.recipients, &names),
        _ => true,
    }
}

/// Whether a commit of `id` may proceed.
pub fn commit_verdict(store: &SessionStore, id: &[u8]) -> (r: bool)
    requires
        store.wf(),
    ensures
        r == commit_allowed(store@, id@),
{
    match store.get(id) {
        None => true,
        Some(session) => session_verdict(session),
    }
}

} // verus!
