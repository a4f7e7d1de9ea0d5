//! The session/correlation registry.
//!
//! Three tables, all keyed by byte strings: live sessions by request id,
//! trace-to-request correlations, and cached query payloads by trace id.
//! Every operation is total: a missing key is reported by an `Option`,
//! never by an error.

use vstd::prelude::*;
use vstd::map::*;

use crate::bytes::bytes_eq;

verus! {

/// Pairwise-distinct keys in an entry list.
pub open spec fn distinct_keys<V>(s: Seq<(Vec<u8>, V)>) -> bool {
    forall|i: int, j: int| 0 <= i < j < s.len() ==> s[i].0@ != s[j].0@
}

/// The finite map described by an entry list; a later entry wins.
pub open spec fn entry_map<V>(s: Seq<(Vec<u8>, V)>) -> Map<Seq<u8>, V>
    decreases s.len(),
{
    if s.len() == 0 {
        Map::empty()
    } else {
        entry_map(s.drop_last()).insert(s.last().0@, s.last().1)
    }
}

proof fn lemma_entry_map_domain<V>(s: Seq<(Vec<u8>, V)>, k: Seq<u8>)
    ensures
        entry_map(s).contains_key(k) <==> exists|i: int| 0 <= i < s.len() && s[i].0@ == k,
    decreases s.len(),
{
    if s.len() == 0 {
    } else {
        lemma_entry_map_domain(s.drop_last(), k);
        if s.last().0@ == k {
            assert(s[s.len() - 1].0@ == k);
        } else {
            if entry_map(s).contains_key(k) {
                let i = choose|i: int| 0 <= i < s.drop_last().len() && s.drop_last()[i].0@ == k;
                assert(s[i].0@ == k);
            }
            if exists|i: int| 0 <= i < s.len() && s[i].0@ == k {
                let i = choose|i: int| 0 <= i < s.len() && s[i].0@ == k;
                assert(i < s.len() - 1);
                assert(s.drop_last()[i].0@ == k);
            }
        }
    }
}

proof fn lemma_entry_map_at<V>(s: Seq<(Vec<u8>, V)>, i: int)
    requires
        distinct_keys(s),
        0 <= i < s.len(),
    ensures
        entry_map(s).contains_key(s[i].0@),
        entry_map(s)[s[i].0@] == s[i].1,
    decreases s.len(),
{
    if i == s.len() - 1 {
    } else {
        assert(distinct_keys(s.drop_last()));
        assert(s.drop_last()[i] == s[i]);
        lemma_entry_map_at(s.drop_last(), i);
        assert(s.last().0@ != s[i].0@);
    }
}

proof fn lemma_distinct_remove<V>(s: Seq<(Vec<u8>, V)>, i: int)
    requires
        distinct_keys(s),
        0 <= i < s.len(),
    ensures
        distinct_keys(s.remove(i)),
{
    let t = s.remove(i);
    assert forall|a: int, b: int| 0 <= a < b < t.len() implies t[a].0@ != t[b].0@ by {
        let a0: int = if a < i { a } else { a + 1 };
        let b0: int = if b < i { b } else { b + 1 };
        assert(t[a] == s[a0]);
        assert(t[b] == s[b0]);
    }
}

proof fn lemma_entry_map_remove_at<V>(s: Seq<(Vec<u8>, V)>, i: int)
    requires
        distinct_keys(s),
        0 <= i < s.len(),
    ensures
        entry_map(s.remove(i)) == entry_map(s).remove(s[i].0@),
    decreases s.len(),
{
    let k = s[i].0@;
    if i == s.len() - 1 {
        assert(s.remove(i) =~= s.drop_last());
        lemma_entry_map_domain(s.drop_last(), k);
        assert forall|j: int| 0 <= j < s.drop_last().len() implies s.drop_last()[j].0@ != k by {
            assert(s.drop_last()[j] == s[j]);
        }
        assert(!entry_map(s.drop_last()).contains_key(k));
        assert(entry_map(s.drop_last()).insert(k, s[i].1).remove(k) =~= entry_map(s.drop_last()));
    } else {
        let t = s.remove(i);
        assert(distinct_keys(s.drop_last()));
        assert(s.drop_last()[i] == s[i]);
        lemma_entry_map_remove_at(s.drop_last(), i);
        assert(t.drop_last() =~= s.drop_last().remove(i));
        assert(t.last() == s.last());
        assert(s.last().0@ != k);
        assert(entry_map(t) == entry_map(s.drop_last()).remove(k).insert(s.last().0@, s.last().1));
        assert(entry_map(s.drop_last()).remove(k).insert(s.last().0@, s.last().1) =~= entry_map(
            s.drop_last(),
        ).insert(s.last().0@, s.last().1).remove(k));
    }
}

/// Finds the index of the entry holding the given key, if any.
fn find_key<V>(entries: &Vec<(Vec<u8>, V)>, k: &Vec<u8>) -> (r: Option<usize>)
    ensures
        match r {
            Some(i) => 0 <= i < entries@.len() && entries@[i as int].0@ == k@,
            None => forall|i: int| 0 <= i < entries@.len() ==> entries@[i].0@ != k@,
        },
{
    let mut i: usize = 0;
    while i < entries.len()
        invariant
            0 <= i <= entries@.len(),
            forall|j: int| 0 <= j < i ==> entries@[j].0@ != k@,
        decreases entries@.len() - i,
    {
        if bytes_eq(&entries[i].0, k) {
            return Some(i);
        }
        i += 1;
    }
    None
}

/// A table from byte-string keys to values; its mathematical contents are a
/// finite map from byte sequences to values.
pub struct KeyMap<V> {
    entries: Vec<(Vec<u8>, V)>,
}

impl<V> View for KeyMap<V> {
    type V = Map<Seq<u8>, V>;

    closed spec fn view(&self) -> Map<Seq<u8>, V> {
        entry_map(self.entries@)
    }
}

impl<V> KeyMap<V> {
    #[verifier::type_invariant]
    spec fn inv(self) -> bool {
        distinct_keys(self.entries@)
    }

    /// An empty table.
    pub fn new() -> (r: Self)
        ensures
            r@ == Map::<Seq<u8>, V>::empty(),
    {
        KeyMap { entries: Vec::new() }
    }

    /// Inserts a binding; an existing binding for the same key is overwritten.
    pub fn insert(&mut self, k: Vec<u8>, v: V)
        ensures
            final(self)@ == old(self)@.insert(k@, v),
    {
        proof {
            use_type_invariant(&*self);
        }
        let mut entries: Vec<(Vec<u8>, V)> = Vec::new();
        std::mem::swap(&mut entries, &mut self.entries);
        let ghost s0 = entries@;
        match find_key(&entries, &k) {
            Some(i) => {
                let _ = entries.remove(i);
                proof {
                    lemma_distinct_remove(s0, i as int);
                    lemma_entry_map_remove_at(s0, i as int);
                    assert forall|j: int| 0 <= j < entries@.len() implies entries@[j].0@ != k@ by {
                        let j0: int = if j < i { j } else { j + 1 };
                        assert(entries@[j] == s0[j0]);
                    }
                }
            },
            None => {},
        }
        let ghost s1 = entries@;
        entries.push((k, v));
        proof {
            assert(entries@.drop_last() =~= s1);
            assert(distinct_keys(entries@));
            assert(entry_map(entries@) == entry_map(s1).insert(k@, v));
            assert(entry_map(s1).insert(k@, v) =~= entry_map(s0).insert(k@, v));
        }
        self.entries = entries;
    }

    /// Removes a binding, handing back the removed value if the key was bound.
    pub fn remove(&mut self, k: &Vec<u8>) -> (r: Option<V>)
        ensures
            final(self)@ == old(self)@.remove(k@),
            match r {
                Some(v) => old(self)@.contains_key(k@) && v == old(self)@[k@],
                None => !old(self)@.contains_key(k@),
            },
    {
        proof {
            use_type_invariant(&*self);
        }
        let mut entries: Vec<(Vec<u8>, V)> = Vec::new();
        std::mem::swap(&mut entries, &mut self.entries);
        let ghost s0 = entries@;
        let r = match find_key(&entries, k) {
            Some(i) => {
                proof {
                    lemma_entry_map_at(s0, i as int);
                    lemma_distinct_remove(s0, i as int);
                    lemma_entry_map_remove_at(s0, i as int);
                }
                let (_, v) = entries.remove(i);
                Some(v)
            },
            None => {
                proof {
                    lemma_entry_map_domain(s0, k@);
                    assert(entry_map(s0).remove(k@) =~= entry_map(s0));
                }
                None
            },
        };
        self.entries = entries;
        r
    }

    /// Looks a key up without changing the table.
    pub fn get(&self, k: &Vec<u8>) -> (r: Option<&V>)
        ensures
            match r {
                Some(v) => self@.contains_key(k@) && *v == self@[k@],
                None => !self@.contains_key(k@),
            },
    {
        proof {
            use_type_invariant(&*self);
        }
        match find_key(&self.entries, k) {
            Some(i) => {
                proof {
                    lemma_entry_map_at(self.entries@, i as int);
                }
                Some(&self.entries[i].1)
            },
            None => {
                proof {
                    lemma_entry_map_domain(self.entries@, k@);
                }
                None
            },
        }
    }

    /// True exactly when the key is bound.
    pub fn contains(&self, k: &Vec<u8>) -> (r: bool)
        ensures
            r == self@.contains_key(k@),
    {
        match self.get(k) {
            Some(_) => true,
            None => false,
        }
    }
}

/// The contents of a byte-valued table, with the stored byte strings read as
/// sequences.
pub open spec fn byte_map_view(m: Map<Seq<u8>, Vec<u8>>) -> Map<Seq<u8>, Seq<u8>> {
    Map::new(|k: Seq<u8>| m.contains_key(k), |k: Seq<u8>| m[k]@)
}

proof fn lemma_byte_map_view_insert(m: Map<Seq<u8>, Vec<u8>>, k: Seq<u8>, v: Vec<u8>)
    ensures
        byte_map_view(m.insert(k, v)) == byte_map_view(m).insert(k, v@),
{
    assert(byte_map_view(m.insert(k, v)) =~= byte_map_view(m).insert(k, v@));
}

proof fn lemma_byte_map_view_remove(m: Map<Seq<u8>, Vec<u8>>, k: Seq<u8>)
    ensures
        byte_map_view(m.remove(k)) == byte_map_view(m).remove(k),
{
    assert(byte_map_view(m.remove(k)) =~= byte_map_view(m).remove(k));
}

/// The process-wide registry: live sessions by request id, the trace-to-request
/// correlation map, and the pending query cache by trace id.
///
/// The session handle type is the caller's; the registry only stores and
/// hands back handles.
pub struct Registry<S> {
    session_map: KeyMap<S>,
    trace_map: KeyMap<Vec<u8>>,
    query_map: KeyMap<Vec<u8>>,
}

impl<S> Registry<S> {
    /// Live sessions by request id.
    pub closed spec fn sessions(&self) -> Map<Seq<u8>, S> {
        self.session_map@
    }

    /// The trace-to-request correlation map.
    pub closed spec fn traces(&self) -> Map<Seq<u8>, Seq<u8>> {
        byte_map_view(self.trace_map@)
    }

    /// Cached query payloads by trace id.
    pub closed spec fn queries(&self) -> Map<Seq<u8>, Seq<u8>> {
        byte_map_view(self.query_map@)
    }

    /// An empty registry.
    pub fn new() -> (r: Self)
        ensures
            r.sessions() == Map::<Seq<u8>, S>::empty(),
            r.traces() == Map::<Seq<u8>, Seq<u8>>::empty(),
            r.queries() == Map::<Seq<u8>, Seq<u8>>::empty(),
    {
        let r = Registry { session_map: KeyMap::new(), trace_map: KeyMap::new(), query_map: KeyMap::new() };
        proof {
            assert(byte_map_view(Map::empty()) =~= Map::<Seq<u8>, Seq<u8>>::empty());
        }
        r
    }

    /// Inserts a session under its request id; a session already registered
    /// under the same request id is superseded.
    pub fn register_session(&mut self, request_id: Vec<u8>, session: S)
        ensures
            final(self).sessions() == old(self).sessions().insert(request_id@, session),
            final(self).traces() == old(self).traces(),
            final(self).queries() == old(self).queries(),
    {
        self.session_map.insert(request_id, session);
    }

    /// Hands back the session registered under the request id, if any.
    pub fn lookup_session(&self, request_id: &Vec<u8>) -> (r: Option<&S>)
        ensures
            match r {
                Some(s) => self.sessions().contains_key(request_id@) && *s == self.sessions()[request_id@],
                None => !self.sessions().contains_key(request_id@),
            },
    {
        self.session_map.get(request_id)
    }

    /// Removes the session registered under the request id; a missing key is
    /// a no-op.
    pub fn unregister_session(&mut self, request_id: &Vec<u8>)
        ensures
            final(self).sessions() == old(self).sessions().remove(request_id@),
            final(self).traces() == old(self).traces(),
            final(self).queries() == old(self).queries(),
    {
        let _ = self.session_map.remove(request_id);
    }

    /// Records that the session named by the request id awaits the result for
    /// the trace id.
    pub fn register_trace(&mut self, trace_id: Vec<u8>, request_id: Vec<u8>)
        ensures
            final(self).traces() == old(self).traces().insert(trace_id@, request_id@),
            final(self).sessions() == old(self).sessions(),
            final(self).queries() == old(self).queries(),
    {
        proof {
            lemma_byte_map_view_insert(self.trace_map@, trace_id@, request_id);
        }
        self.trace_map.insert(trace_id, request_id);
    }

    /// Hands back the request id awaiting the trace id, if any.
    pub fn resolve_trace(&self, trace_id: &Vec<u8>) -> (r: Option<&Vec<u8>>)
        ensures
            match r {
                Some(v) => self.traces().contains_key(trace_id@) && v@ == self.traces()[trace_id@],
                None => !self.traces().contains_key(trace_id@),
            },
    {
        self.trace_map.get(trace_id)
    }

    /// Removes the trace-to-request correlation after a delivery; a missing
    /// key is a no-op.
    pub fn retire_trace(&mut self, trace_id: &Vec<u8>)
        ensures
            final(self).traces() == old(self).traces().remove(trace_id@),
            final(self).sessions() == old(self).sessions(),
            final(self).queries() == old(self).queries(),
    {
        proof {
            lemma_byte_map_view_remove(self.trace_map@, trace_id@);
        }
        let _ = self.trace_map.remove(trace_id);
    }

    /// Stores the query payload a client attached to a trace registration.
    pub fn cache_query(&mut self, trace_id: Vec<u8>, query: Vec<u8>)
        ensures
            final(self).queries() == old(self).queries().insert(trace_id@, query@),
            final(self).sessions() == old(self).sessions(),
            final(self).traces() == old(self).traces(),
    {
        proof {
            lemma_byte_map_view_insert(self.query_map@, trace_id@, query);
        }
        self.query_map.insert(trace_id, query);
    }

    /// A consuming read of the cached query payload: on a hit the entry is
    /// removed, on a miss nothing changes.
    pub fn take_query(&mut self, trace_id: &Vec<u8>) -> (r: Option<Vec<u8>>)
        ensures
            final(self).queries() == old(self).queries().remove(trace_id@),
            match r {
                Some(q) => old(self).queries().contains_key(trace_id@) && q@ == old(
                    self,
                ).queries()[trace_id@],
                None => !old(self).queries().contains_key(trace_id@),
            },
            final(self).sessions() == old(self).sessions(),
            final(self).traces() == old(self).traces(),
    {
        proof {
            lemma_byte_map_view_remove(self.query_map@, trace_id@);
        }
        self.query_map.remove(trace_id)
    }
}

/// One operation on the session table, as the registry's contracts describe
/// it: `register_session` inserts into `sessions()`, `unregister_session`
/// removes from it.
pub enum SessionOp<S> {
    Register { request_id: Seq<u8>, session: S },
    Unregister { request_id: Seq<u8> },
}

/// The request id an operation touches.
pub open spec fn op_request_id<S>(op: SessionOp<S>) -> Seq<u8> {
    match op {
        SessionOp::Register { request_id, .. } => request_id,
        SessionOp::Unregister { request_id } => request_id,
    }
}

/// The effect of one operation on the session table.
pub open spec fn apply_session_op<S>(m: Map<Seq<u8>, S>, op: SessionOp<S>) -> Map<Seq<u8>, S> {
    match op {
        SessionOp::Register { request_id, session } => m.insert(request_id, session),
        SessionOp::Unregister { request_id } => m.remove(request_id),
    }
}

/// The effect of a sequence of operations, applied first to last.
pub open spec fn apply_session_ops<S>(m: Map<Seq<u8>, S>, ops: Seq<SessionOp<S>>) -> Map<
    Seq<u8>,
    S,
>
    decreases ops.len(),
{
    if ops.len() == 0 {
        m
    } else {
        apply_session_ops(apply_session_op(m, ops[0]), ops.subrange(1, ops.len() as int))
    }
}

/// Registry correctness: a registered session stays visible to lookup under
/// every sequence of register/unregister operations on other request ids, and
/// unregistering its request id afterwards removes it.
pub proof fn lemma_registry_correctness<S>(
    m: Map<Seq<u8>, S>,
    request_id: Seq<u8>,
    session: S,
    ops: Seq<SessionOp<S>>,
)
    requires
        forall|i: int| 0 <= i < ops.len() ==> op_request_id(ops[i]) != request_id,
    ensures
        apply_session_ops(m.insert(request_id, session), ops).contains_key(request_id),
        apply_session_ops(m.insert(request_id, session), ops)[request_id] == session,
        !apply_session_ops(m.insert(request_id, session), ops).remove(request_id).contains_key(
            request_id,
        ),
{
    lemma_session_ops_preserve(m.insert(request_id, session), request_id, session, ops);
}

proof fn lemma_session_ops_preserve<S>(
    m: Map<Seq<u8>, S>,
    request_id: Seq<u8>,
    session: S,
    ops: Seq<SessionOp<S>>,
)
    requires
        m.contains_key(request_id),
        m[request_id] == session,
        forall|i: int| 0 <= i < ops.len() ==> op_request_id(ops[i]) != request_id,
    ensures
        apply_session_ops(m, ops).contains_key(request_id),
        apply_session_ops(m, ops)[request_id] == session,
    decreases ops.len(),
{
    if ops.len() == 0 {
    } else {
        let m1 = apply_session_op(m, ops[0]);
        assert(op_request_id(ops[0]) != request_id);
        assert(m1.contains_key(request_id) && m1[request_id] == session);
        let rest = ops.subrange(1, ops.len() as int);
        assert forall|i: int| 0 <= i < rest.len() implies op_request_id(rest[i]) != request_id by {
            assert(rest[i] == ops[i + 1]);
        }
        lemma_session_ops_preserve(m1, request_id, session, rest);
    }
}

} // verus!
