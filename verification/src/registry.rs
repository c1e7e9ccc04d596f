//! The relay's table of online hosts, keyed by session identifier.
use vstd::prelude::*;
use crate::text::{chars_of, remove_char, string_of, without_char};
use vstd::string::StringExecFns;

verus! {

/// One registered host connection.
pub struct HostEntry<C> {
    pub session_id: String,
    /// Distinguishes successive connections of the same host.
    pub conn_id: u64,
    pub handle: C,
}

/// Online hosts: at most one connection per session identifier.
pub struct HostRegistry<C> {
    entries: Vec<HostEntry<C>>,
}

pub open spec fn key_of<C>(e: HostEntry<C>) -> Seq<char> {
    e.session_id@
}

pub open spec fn keys_unique<C>(s: Seq<HostEntry<C>>) -> bool {
    forall|i: int, j: int|
        0 <= i < s.len() && 0 <= j < s.len() && i != j ==> #[trigger] key_of(s[i]) != #[trigger] key_of(
            s[j],
        )
}

pub open spec fn entries_map<C>(s: Seq<HostEntry<C>>) -> Map<Seq<char>, (u64, C)>
    decreases s.len(),
{
    if s.len() == 0 {
        Map::empty()
    } else {
        entries_map(s.drop_last()).insert(key_of(s.last()), (s.last().conn_id, s.last().handle))
    }
}

proof fn lemma_map_domain<C>(s: Seq<HostEntry<C>>, k: Seq<char>)
    ensures
        entries_map(s).contains_key(k) <==> exists|i: int| 0 <= i < s.len() && key_of(s[i]) == k,
    decreases s.len(),
{
    if s.len() > 0 {
        lemma_map_domain(s.drop_last(), k);
        if entries_map(s).contains_key(k) && key_of(s.last()) != k {
            let i = choose|i: int| 0 <= i < s.len() - 1 && key_of(s.drop_last()[i]) == k;
            assert(key_of(s[i]) == k);
        }
        if exists|i: int| 0 <= i < s.len() && key_of(s[i]) == k {
            let i = choose|i: int| 0 <= i < s.len() && key_of(s[i]) == k;
            if i < s.len() - 1 {
                assert(key_of(s.drop_last()[i]) == k);
            }
        }
    }
}

proof fn lemma_map_value<C>(s: Seq<HostEntry<C>>, i: int)
    requires
        keys_unique(s),
        0 <= i < s.len(),
    ensures
        entries_map(s).contains_key(key_of(s[i])),
        entries_map(s)[key_of(s[i])] == (s[i].conn_id, s[i].handle),
    decreases s.len(),
{
    if i < s.len() - 1 {
        let t = s.drop_last();
        assert(key_of(s[i]) != key_of(s[s.len() - 1]));
        assert(t[i] == s[i]);
        assert(keys_unique(t)) by {
            assert forall|a: int, b: int|
                0 <= a < t.len() && 0 <= b < t.len() && a != b implies #[trigger] key_of(t[a])
                != #[trigger] key_of(t[b]) by {
                assert(t[a] == s[a] && t[b] == s[b]);
            }
        }
        lemma_map_value(t, i);
    }
}

proof fn lemma_unique_remove<C>(s: Seq<HostEntry<C>>, i: int)
    requires
        keys_unique(s),
        0 <= i < s.len(),
    ensures
        keys_unique(s.remove(i)),
{
    let r = s.remove(i);
    assert forall|a: int, b: int|
        0 <= a < r.len() && 0 <= b < r.len() && a != b implies #[trigger] key_of(r[a])
        != #[trigger] key_of(r[b]) by {
        let a2 = if a < i { a } else { a + 1 };
        let b2 = if b < i { b } else { b + 1 };
        assert(r[a] == s[a2] && r[b] == s[b2]);
    }
}

proof fn lemma_map_remove<C>(s: Seq<HostEntry<C>>, i: int)
    requires
        keys_unique(s),
        0 <= i < s.len(),
    ensures
        entries_map(s.remove(i)) == entries_map(s).remove(key_of(s[i])),
{
    let r = s.remove(i);
    let k0 = key_of(s[i]);
    lemma_unique_remove(s, i);
    assert forall|k: Seq<char>| #[trigger]
        entries_map(r).contains_key(k) == entries_map(s).remove(k0).contains_key(k) by {
        lemma_map_domain(r, k);
        lemma_map_domain(s, k);
        if exists|j: int| 0 <= j < s.len() && key_of(s[j]) == k {
            let j = choose|j: int| 0 <= j < s.len() && key_of(s[j]) == k;
            if j < i {
                assert(r[j] == s[j]);
            } else if j > i {
                assert(r[j - 1] == s[j]);
            }
        }
        if exists|j: int| 0 <= j < r.len() && key_of(r[j]) == k {
            let j = choose|j: int| 0 <= j < r.len() && key_of(r[j]) == k;
            let j2 = if j < i { j } else { j + 1 };
            assert(r[j] == s[j2]);
        }
    }
    assert forall|k: Seq<char>| #[trigger] entries_map(r).contains_key(k) implies entries_map(r)[k]
        == entries_map(s).remove(k0)[k] by {
        lemma_map_domain(r, k);
        let j = choose|j: int| 0 <= j < r.len() && key_of(r[j]) == k;
        let j2 = if j < i { j } else { j + 1 };
        assert(r[j] == s[j2]);
        lemma_map_value(r, j);
        lemma_map_value(s, j2);
    }
    assert(entries_map(r) =~= entries_map(s).remove(k0));
}

proof fn lemma_map_push<C>(s: Seq<HostEntry<C>>, e: HostEntry<C>)
    requires
        keys_unique(s),
        !entries_map(s).contains_key(key_of(e)),
    ensures
        keys_unique(s.push(e)),
        entries_map(s.push(e)) == entries_map(s).insert(key_of(e), (e.conn_id, e.handle)),
{
    let p = s.push(e);
    assert(p.drop_last() == s);
    lemma_map_domain(s, key_of(e));
    assert forall|a: int, b: int|
        0 <= a < p.len() && 0 <= b < p.len() && a != b implies #[trigger] key_of(p[a])
        != #[trigger] key_of(p[b]) by {
        if a < s.len() && b < s.len() {
            assert(p[a] == s[a] && p[b] == s[b]);
        } else if a < s.len() {
            assert(p[a] == s[a]);
        } else {
            assert(p[b] == s[b]);
        }
    }
}

proof fn lemma_map_len<C>(s: Seq<HostEntry<C>>)
    requires
        keys_unique(s),
    ensures
        entries_map(s).dom().finite(),
        entries_map(s).len() == s.len(),
    decreases s.len(),
{
    if s.len() > 0 {
        let t = s.drop_last();
        assert(keys_unique(t)) by {
            assert forall|a: int, b: int|
                0 <= a < t.len() && 0 <= b < t.len() && a != b implies #[trigger] key_of(t[a])
                != #[trigger] key_of(t[b]) by {
                assert(t[a] == s[a] && t[b] == s[b]);
            }
        }
        lemma_map_len(t);
        lemma_map_domain(t, key_of(s.last()));
        if entries_map(t).contains_key(key_of(s.last())) {
            let j = choose|j: int| 0 <= j < t.len() && key_of(t[j]) == key_of(s.last());
            assert(t[j] == s[j]);
            assert(key_of(s[j]) != key_of(s[s.len() - 1]));
        }
    }
}

/// The hosts after `id` registers with connection `conn` and handle `h`.
pub open spec fn spec_register<C>(m: Map<Seq<char>, (u64, C)>, id: Seq<char>, conn: u64, h: C) -> Map<
    Seq<char>,
    (u64, C),
> {
    m.insert(id, (conn, h))
}

/// The hosts after connection `conn` of `id` closes: the host leaves only if
/// that is its current connection.
pub open spec fn spec_release<C>(m: Map<Seq<char>, (u64, C)>, id: Seq<char>, conn: u64) -> Map<
    Seq<char>,
    (u64, C),
> {
    if m.contains_key(id) && m[id].0 == conn {
        m.remove(id)
    } else {
        m
    }
}

/// A host that registers is found under its session identifier, with the
/// handle it registered, whatever was registered before.
pub proof fn lemma_registered_host_is_found<C>(m: Map<Seq<char>, (u64, C)>, id: Seq<char>, conn: u64, h: C)
    ensures
        spec_register(m, id, conn, h).contains_key(id),
        spec_register(m, id, conn, h)[id] == (conn, h),
{
}

/// When a host reconnects, the old connection closing does not unregister
/// the new one.
pub proof fn lemma_stale_release_keeps_newer<C>(
    m: Map<Seq<char>, (u64, C)>,
    id: Seq<char>,
    stale: u64,
    fresh: u64,
    h: C,
)
    requires
        stale != fresh,
    ensures
        spec_release(spec_register(m, id, fresh, h), id, stale) == spec_register(m, id, fresh, h),
{
}

/// A connection that closes while it is the current one unregisters its host,
/// leaving the others as they were.
pub proof fn lemma_own_release_removes<C>(m: Map<Seq<char>, (u64, C)>, id: Seq<char>, conn: u64, h: C)
    ensures
        spec_release(spec_register(m, id, conn, h), id, conn) == m.remove(id),
{
    assert(spec_register(m, id, conn, h).remove(id) =~= m.remove(id));
}

/// Registering again replaces the earlier registration: one entry per
/// session identifier.
pub proof fn lemma_reregister_replaces<C>(
    m: Map<Seq<char>, (u64, C)>,
    id: Seq<char>,
    c1: u64,
    h1: C,
    c2: u64,
    h2: C,
)
    ensures
        spec_register(spec_register(m, id, c1, h1), id, c2, h2) == spec_register(m, id, c2, h2),
{
    assert(spec_register(spec_register(m, id, c1, h1), id, c2, h2) =~= spec_register(m, id, c2, h2));
}

impl<C> HostRegistry<C> {
    /// The registered hosts: session identifier to connection id and handle.
    pub closed spec fn view(&self) -> Map<Seq<char>, (u64, C)> {
        entries_map(self.entries@)
    }

    /// No session identifier is registered twice.
    pub closed spec fn wf(&self) -> bool {
        keys_unique(self.entries@)
    }

    pub fn new() -> (r: Self)
        ensures
            r.wf(),
            r@ == Map::<Seq<char>, (u64, C)>::empty(),
    {
        HostRegistry { entries: Vec::new() }
    }

    /// Number of registered hosts.
    pub fn len(&self) -> (n: usize)
        requires
            self.wf(),
        ensures
            n == self@.len(),
            self@.dom().finite(),
    {
        proof {
            lemma_map_len(self.entries@);
        }
        self.entries.len()
    }

    fn position(&self, id: &String) -> (r: Option<usize>)
        requires
            self.wf(),
        ensures
            r matches Some(i) ==> i < self.entries@.len() && key_of(self.entries@[i as int])
                == id@,
            r is None ==> !self@.contains_key(id@),
    {
        let mut i: usize = 0;
        while i < self.entries.len()
            invariant
                i <= self.entries@.len(),
                forall|j: int| 0 <= j < i ==> key_of(self.entries@[j]) != id@,
            decreases self.entries.len() - i,
        {
            if self.entries[i].session_id == *id {
                return Some(i);
            }
            i += 1;
        }
        proof {
            lemma_map_domain(self.entries@, id@);
        }
        None
    }

    /// Registers (or re-registers) a host; hands back the connection it replaces.
    pub fn register(&mut self, session_id: String, conn_id: u64, handle: C) -> (old_handle: Option<C>)
        requires
            old(self).wf(),
        ensures
            final(self).wf(),
            final(self)@ == spec_register(old(self)@, session_id@, conn_id, handle),
            old_handle is Some <==> old(self)@.contains_key(session_id@),
            old_handle matches Some(c) ==> c == old(self)@[session_id@].1,
    {
        let ghost key = session_id@;
        let ghost v = (conn_id, handle);
        match self.position(&session_id) {
            Some(i) => {
                proof {
                    lemma_map_value(self.entries@, i as int);
                }
                let ghost s0 = self.entries@;
                proof {
                    lemma_map_remove(s0, i as int);
                    lemma_unique_remove(s0, i as int);
                }
                let old_entry = self.entries.remove(i);
                let e = HostEntry { session_id, conn_id, handle };
                proof {
                    lemma_map_push(self.entries@, e);
                    assert(old(self)@.remove(key).insert(key, v) =~= old(self)@.insert(key, v));
                }
                self.entries.push(e);
                Some(old_entry.handle)
            },
            None => {
                let e = HostEntry { session_id, conn_id, handle };
                proof {
                    lemma_map_push(self.entries@, e);
                }
                self.entries.push(e);
                None
            },
        }
    }

    /// The handle registered for `session_id`.
    pub fn get(&self, session_id: &str) -> (r: Option<&C>)
        requires
            self.wf(),
        ensures
            r is Some <==> self@.contains_key(session_id@),
            r matches Some(c) ==> *c == self@[session_id@].1,
    {
        let key = String::from_str(session_id);
        match self.position(&key) {
            Some(i) => {
                proof {
                    lemma_map_value(self.entries@, i as int);
                }
                Some(&self.entries[i].handle)
            },
            None => None,
        }
    }

    /// Looks `session_id` up as given, then with its spaces removed, the way a
    /// browser viewer's request is matched.
    pub fn get_lenient(&self, session_id: &str) -> (r: Option<&C>)
        requires
            self.wf(),
        ensures
            self@.contains_key(session_id@) ==> (r matches Some(c) && *c == self@[session_id@].1),
            !self@.contains_key(session_id@) ==> (r is Some <==> self@.contains_key(
                without_char(session_id@, ' '),
            )),
            !self@.contains_key(session_id@) ==> (r matches Some(c) ==> *c == self@[without_char(
                session_id@,
                ' ',
            )].1),
    {
        match self.get(session_id) {
            Some(c) => Some(c),
            None => {
                let chars = chars_of(session_id);
                let compact = string_of(remove_char(chars.as_slice(), ' ').as_slice());
                self.get(compact.as_str())
            },
        }
    }

    /// Removes the host registered for `session_id` and hands its handle back.
    pub fn take(&mut self, session_id: &str) -> (r: Option<C>)
        requires
            old(self).wf(),
        ensures
            final(self).wf(),
            final(self)@ == old(self)@.remove(session_id@),
            r is Some <==> old(self)@.contains_key(session_id@),
            r matches Some(c) ==> c == old(self)@[session_id@].1,
    {
        let key = String::from_str(session_id);
        match self.position(&key) {
            Some(i) => {
                proof {
                    lemma_map_value(self.entries@, i as int);
                    lemma_map_remove(self.entries@, i as int);
                    lemma_unique_remove(self.entries@, i as int);
                }
                let e = self.entries.remove(i);
                Some(e.handle)
            },
            None => {
                assert(self@.remove(session_id@) =~= self@);
                None
            },
        }
    }

    /// Removes `session_id` only if its current connection is `conn_id`, so that
    /// a stale connection closing cannot unregister the host's newer one.
    pub fn release(&mut self, session_id: &str, conn_id: u64) -> (removed: bool)
        requires
            old(self).wf(),
        ensures
            final(self).wf(),
            removed == (old(self)@.contains_key(session_id@) && old(self)@[session_id@].0
                == conn_id),
            final(self)@ == spec_release(old(self)@, session_id@, conn_id),
    {
        let key = String::from_str(session_id);
        match self.position(&key) {
            Some(i) => {
                proof {
                    lemma_map_value(self.entries@, i as int);
                }
                if self.entries[i].conn_id == conn_id {
                    proof {
                        lemma_map_remove(self.entries@, i as int);
                        lemma_unique_remove(self.entries@, i as int);
                    }
                    let _ = self.entries.remove(i);
                    true
                } else {
                    false
                }
            },
            None => false,
        }
    }
}

} // verus!
