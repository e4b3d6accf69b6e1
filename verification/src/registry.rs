//! Event registry and dispatch planning.
//!
//! The registry maps an event name to the ordered collection of handlers
//! registered for it. Any number of handlers may share a name: registering
//! the same name twice yields two independent entries, never a replacement.
//! Dispatch looks the envelope's name up and yields every handler for it,
//! in registration order; the surrounding runtime invokes them
//! independently, so one handler's failure cannot reach its siblings.
//! Unknown names yield nothing and are dropped by the caller with a
//! diagnostic record.

use vstd::prelude::*;

use crate::text::str_eq;

verus! {

/// One inbound or outbound unit: an event name and its structured payload,
/// carried opaquely. Immutable once received.
#[derive(Clone, Debug)]
pub struct EventEnvelope {
    pub name: String,
    pub payload: String,
}

impl EventEnvelope {
    /// Pairs a name with a payload.
    pub fn new(name: String, payload: String) -> (r: EventEnvelope)
        ensures
            r.name@ == name@,
            r.payload@ == payload@,
    {
        EventEnvelope { name, payload }
    }
}

/// Registered handlers, grouped by event name; names are pairwise distinct.
pub struct EventRegistry<H> {
    entries: Vec<(String, Vec<H>)>,
}

/// The registry's mathematical model: the name groups in insertion order.
pub type RegistryModel<H> = Seq<(Seq<char>, Seq<H>)>;

/// The handlers a model holds for a name, in registration order.
pub open spec fn model_handlers<H>(m: RegistryModel<H>, name: Seq<char>) -> Seq<H>
    decreases m.len(),
{
    if m.len() == 0 {
        seq![]
    } else if m[0].0 == name {
        m[0].1
    } else {
        model_handlers(m.drop_first(), name)
    }
}

/// The model after one registration: the handler joins its name's group at
/// the end, and a first registration opens a new group at the end.
pub open spec fn model_register<H>(m: RegistryModel<H>, name: Seq<char>, h: H) -> RegistryModel<H>
    decreases m.len(),
{
    if m.len() == 0 {
        seq![(name, seq![h])]
    } else if m[0].0 == name {
        seq![(m[0].0, m[0].1.push(h))] + m.drop_first()
    } else {
        seq![m[0]] + model_register(m.drop_first(), name, h)
    }
}

/// Group names are pairwise distinct, and no group is empty.
pub open spec fn model_wf<H>(m: RegistryModel<H>) -> bool {
    &&& forall|i: int, j: int| 0 <= i < j < m.len() ==> m[i].0 != m[j].0
    &&& forall|i: int| 0 <= i < m.len() ==> (#[trigger] m[i].1).len() > 0
}

impl<H> EventRegistry<H> {
    /// The model of this registry.
    pub closed spec fn model(&self) -> RegistryModel<H> {
        self.entries@.map(|i: int, e: (String, Vec<H>)| (e.0@, e.1@))
    }

    /// The registry's invariant: one group per name.
    pub open spec fn wf(&self) -> bool {
        model_wf(self.model())
    }

    /// The handlers registered for a name, in registration order.
    pub open spec fn handlers(&self, name: Seq<char>) -> Seq<H> {
        model_handlers(self.model(), name)
    }

    /// An empty registry: no handlers for any name.
    pub fn new() -> (r: EventRegistry<H>)
        ensures
            r.wf(),
            r.model() == Seq::<(Seq<char>, Seq<H>)>::empty(),
    {
        let r = EventRegistry { entries: Vec::new() };
        proof {
            assert(r.model() =~= Seq::<(Seq<char>, Seq<H>)>::empty());
        }
        r
    }

    /// The position of the group for `name`, if one exists.
    fn find_index(&self, name: &str) -> (r: Option<usize>)
        ensures
            match r {
                Some(i) => i < self.model().len() && self.model()[i as int].0 == name@
                    && (forall|j: int| 0 <= j < i ==> self.model()[j].0 != name@),
                None => forall|j: int|
                    0 <= j < self.model().len() ==> self.model()[j].0 != name@,
            },
    {
        let n = self.entries.len();
        let mut i: usize = 0;
        while i < n
            invariant
                i <= n,
                n == self.entries@.len(),
                forall|j: int| 0 <= j < i ==> self.model()[j].0 != name@,
            decreases n - i,
        {
            if str_eq(self.entries[i].0.as_str(), name) {
                return Some(i);
            }
            i += 1;
        }
        None
    }

    /// Register one more handler for `name`. Registration never fails and
    /// never replaces: the handler is appended to the name's group, and
    /// every other name's group is untouched.
    pub fn register(&mut self, name: String, handler: H)
        requires
            old(self).wf(),
        ensures
            final(self).wf(),
            final(self).model() == model_register(old(self).model(), name@, handler),
            final(self).handlers(name@) == old(self).handlers(name@).push(handler),
            forall|n: Seq<char>| n != name@
                ==> final(self).handlers(n) == old(self).handlers(n),
    {
        let ghost m0 = self.model();
        match self.find_index(name.as_str()) {
            Some(i) => {
                let mut entry = self.entries.remove(i);
                entry.1.push(handler);
                self.entries.insert(i, entry);
                proof {
                    assert(self.model() =~= m0.update(
                        i as int,
                        (m0[i as int].0, m0[i as int].1.push(handler)),
                    ));
                    lemma_register_at(m0, name@, handler, i as int);
                }
            },
            None => {
                let mut group: Vec<H> = Vec::new();
                group.push(handler);
                self.entries.push((name, group));
                proof {
                    assert(self.model() =~= m0.push((name@, seq![handler])));
                    lemma_register_absent(m0, name@, handler);
                }
            },
        }
        proof {
            lemma_register_wf(m0, name@, handler);
            lemma_register_groups_nonempty(m0, name@, handler);
            lemma_register_same(m0, name@, handler);
            assert forall|n: Seq<char>| n != name@
                implies model_handlers(self.model(), n) == model_handlers(m0, n) by {
                lemma_register_other(m0, name@, handler, n);
            }
        }
    }

    /// The dispatch plan for an envelope: every handler registered for its
    /// name, in registration order, or nothing when the name is unknown.
    pub fn dispatch_plan(&self, envelope: &EventEnvelope) -> (r: Option<&Vec<H>>)
        requires
            self.wf(),
        ensures
            match r {
                Some(v) => v@ == self.handlers(envelope.name@) && v@.len() > 0,
                None => self.handlers(envelope.name@) == Seq::<H>::empty(),
            },
    {
        match self.find_index(envelope.name.as_str()) {
            Some(i) => {
                proof {
                    lemma_handlers_at(self.model(), envelope.name@, i as int);
                }
                Some(&self.entries[i].1)
            },
            None => {
                proof {
                    lemma_handlers_absent(self.model(), envelope.name@);
                }
                None
            },
        }
    }
}

/// Looking a name up lands on its group.
proof fn lemma_handlers_at<H>(m: RegistryModel<H>, name: Seq<char>, i: int)
    requires
        0 <= i < m.len(),
        m[i].0 == name,
        forall|j: int| 0 <= j < i ==> m[j].0 != name,
    ensures
        model_handlers(m, name) == m[i].1,
    decreases i,
{
    if i > 0 {
        lemma_handlers_at(m.drop_first(), name, i - 1);
    }
}

/// A name with no group has no handlers.
proof fn lemma_handlers_absent<H>(m: RegistryModel<H>, name: Seq<char>)
    requires
        forall|j: int| 0 <= j < m.len() ==> m[j].0 != name,
    ensures
        model_handlers(m, name) == Seq::<H>::empty(),
    decreases m.len(),
{
    if m.len() > 0 {
        lemma_handlers_absent(m.drop_first(), name);
    }
}

/// Registration at the found position is what the model transition says.
proof fn lemma_register_at<H>(m: RegistryModel<H>, name: Seq<char>, h: H, i: int)
    requires
        0 <= i < m.len(),
        m[i].0 == name,
        forall|j: int| 0 <= j < i ==> m[j].0 != name,
    ensures
        model_register(m, name, h) == m.update(i, (m[i].0, m[i].1.push(h))),
    decreases i,
{
    if i == 0 {
        assert(model_register(m, name, h) =~= m.update(0, (m[0].0, m[0].1.push(h))));
    } else {
        lemma_register_at(m.drop_first(), name, h, i - 1);
        assert(model_register(m, name, h) =~= m.update(i, (m[i].0, m[i].1.push(h))));
    }
}

/// Registration of an unknown name appends a fresh group.
proof fn lemma_register_absent<H>(m: RegistryModel<H>, name: Seq<char>, h: H)
    requires
        forall|j: int| 0 <= j < m.len() ==> m[j].0 != name,
    ensures
        model_register(m, name, h) == m.push((name, seq![h])),
    decreases m.len(),
{
    if m.len() == 0 {
        assert(model_register(m, name, h) =~= m.push((name, seq![h])));
    } else {
        lemma_register_absent(m.drop_first(), name, h);
        assert(model_register(m, name, h) =~= m.push((name, seq![h])));
    }
}

/// Registration keeps names pairwise distinct.
proof fn lemma_register_wf<H>(m: RegistryModel<H>, name: Seq<char>, h: H)
    requires
        model_wf(m),
    ensures
        forall|i: int, j: int| 0 <= i < j < model_register(m, name, h).len()
            ==> model_register(m, name, h)[i].0 != model_register(m, name, h)[j].0,
    decreases m.len(),
{
    let r = model_register(m, name, h);
    if m.len() == 0 {
    } else if m[0].0 == name {
        assert forall|i: int, j: int| 0 <= i < j < r.len() implies r[i].0 != r[j].0 by {
            assert(r[i].0 == m[i].0 && r[j].0 == m[j].0);
        }
    } else {
        lemma_register_wf(m.drop_first(), name, h);
        let rr = model_register(m.drop_first(), name, h);
        assert forall|i: int, j: int| 0 <= i < j < r.len() implies r[i].0 != r[j].0 by {
            if i > 0 {
                assert(r[i].0 == rr[i - 1].0 && r[j].0 == rr[j - 1].0);
            } else {
                assert(r[j].0 == rr[j - 1].0);
                lemma_register_names(m.drop_first(), name, h, j - 1);
            }
        }
    }
}

/// Registration leaves no group empty.
proof fn lemma_register_groups_nonempty<H>(m: RegistryModel<H>, name: Seq<char>, h: H)
    requires
        forall|i: int| 0 <= i < m.len() ==> (#[trigger] m[i].1).len() > 0,
    ensures
        forall|i: int| 0 <= i < model_register(m, name, h).len()
            ==> (#[trigger] model_register(m, name, h)[i].1).len() > 0,
    decreases m.len(),
{
    let r = model_register(m, name, h);
    if m.len() == 0 {
    } else if m[0].0 == name {
        assert forall|i: int| 0 <= i < r.len() implies (#[trigger] r[i].1).len() > 0 by {
            if i > 0 {
                assert(r[i].1 == m[i].1);
            }
        }
    } else {
        lemma_register_groups_nonempty(m.drop_first(), name, h);
        let rr = model_register(m.drop_first(), name, h);
        assert forall|i: int| 0 <= i < r.len() implies (#[trigger] r[i].1).len() > 0 by {
            if i > 0 {
                assert(r[i].1 == rr[i - 1].1);
            }
        }
    }
}

/// A group name after registration is an old name or the registered one.
proof fn lemma_register_names<H>(m: RegistryModel<H>, name: Seq<char>, h: H, i: int)
    requires
        0 <= i < model_register(m, name, h).len(),
    ensures
        model_register(m, name, h)[i].0 == name
            || exists|j: int| 0 <= j < m.len() && m[j].0 == model_register(m, name, h)[i].0,
    decreases m.len(),
{
    let r = model_register(m, name, h);
    if m.len() == 0 {
    } else if m[0].0 == name {
        if i > 0 {
            assert(m[i].0 == r[i].0);
        }
    } else {
        if i > 0 {
            lemma_register_names(m.drop_first(), name, h, i - 1);
            if r[i].0 != name {
                let j = choose|j: int|
                    0 <= j < m.drop_first().len() && m.drop_first()[j].0 == r[i].0;
                assert(m[j + 1].0 == r[i].0);
            }
        }
    }
}

/// After registration the name's handlers are the old ones plus the new
/// handler, in order.
proof fn lemma_register_same<H>(m: RegistryModel<H>, name: Seq<char>, h: H)
    ensures
        model_handlers(model_register(m, name, h), name) == model_handlers(m, name).push(h),
    decreases m.len(),
{
    let r = model_register(m, name, h);
    if m.len() == 0 {
        assert(model_handlers(r, name) =~= model_handlers(m, name).push(h));
    } else if m[0].0 == name {
        assert(r[0].1 =~= m[0].1.push(h));
    } else {
        lemma_register_same(m.drop_first(), name, h);
        assert(r.drop_first() =~= model_register(m.drop_first(), name, h));
    }
}

/// Registration leaves every other name's handlers untouched.
proof fn lemma_register_other<H>(m: RegistryModel<H>, name: Seq<char>, h: H, other: Seq<char>)
    requires
        other != name,
    ensures
        model_handlers(model_register(m, name, h), other) == model_handlers(m, other),
    decreases m.len(),
{
    let r = model_register(m, name, h);
    if m.len() == 0 {
        assert(r.drop_first() =~= Seq::<(Seq<char>, Seq<H>)>::empty());
        assert(model_handlers(r, other) == model_handlers(r.drop_first(), other));
    } else if m[0].0 == name {
        assert(r.drop_first() =~= m.drop_first());
    } else {
        lemma_register_other(m.drop_first(), name, h, other);
        assert(r.drop_first() =~= model_register(m.drop_first(), name, h));
    }
}

/// The model after a whole sequence of registrations for one name.
pub open spec fn model_register_all<H>(
    m: RegistryModel<H>,
    name: Seq<char>,
    hs: Seq<H>,
) -> RegistryModel<H>
    decreases hs.len(),
{
    if hs.len() == 0 {
        m
    } else {
        model_register(model_register_all(m, name, hs.drop_last()), name, hs.last())
    }
}

/// Fan-out: registering any number of handlers for one event name makes the
/// dispatch plan for that name list exactly those handlers, each once, in
/// registration order, after whatever was registered before; every other
/// name's plan is untouched.
pub proof fn lemma_fanout<H>(m: RegistryModel<H>, name: Seq<char>, hs: Seq<H>)
    ensures
        model_handlers(model_register_all(m, name, hs), name) == model_handlers(m, name) + hs,
        forall|n: Seq<char>| n != name
            ==> model_handlers(model_register_all(m, name, hs), n) == model_handlers(m, n),
    decreases hs.len(),
{
    if hs.len() == 0 {
        assert(model_handlers(m, name) + hs =~= model_handlers(m, name));
    } else {
        lemma_fanout(m, name, hs.drop_last());
        let prev = model_register_all(m, name, hs.drop_last());
        lemma_register_same(prev, name, hs.last());
        assert(model_handlers(m, name) + hs.drop_last() + seq![hs.last()]
            =~= model_handlers(m, name) + hs);
        assert((model_handlers(m, name) + hs.drop_last()).push(hs.last())
            =~= model_handlers(m, name) + hs.drop_last() + seq![hs.last()]);
        assert forall|n: Seq<char>| n != name
            implies model_handlers(model_register_all(m, name, hs), n)
                == model_handlers(m, n) by {
            lemma_register_other(prev, name, hs.last(), n);
        }
    }
}

} // verus!
