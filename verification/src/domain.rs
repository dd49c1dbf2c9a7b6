//! Domain membership and dependency-ordered resource creation.
//!
//! A `DomainMembership` is this process's presence in a numbered exchange
//! domain: the root from which publishers, subscribers and topics are
//! created. Topic declaration is idempotent: declaring the same name with
//! the same type tag and addressing mode again returns a handle to the same
//! logical channel; redeclaring a name with an incompatible type or mode is
//! refused.

use vstd::prelude::*;

use crate::errors::SetupError;
use crate::qos::QosPolicy;

verus! {

/// Whether samples on a topic are independent instances (`NoKey`) or
/// updates to identified instances (`Keyed`).
#[derive(Clone, Copy, Debug, PartialEq, Eq, Structural)]
pub enum TopicKind {
    NoKey,
    Keyed,
}

/// A named, typed channel descriptor within a domain. Its name, type tag
/// and addressing mode are immutable once created.
#[derive(Debug)]
pub struct Topic {
    pub name: String,
    pub type_tag: String,
    pub kind: TopicKind,
    pub qos: QosPolicy,
}

/// Mathematical image of a `Topic`.
pub struct TopicView {
    pub name: Seq<char>,
    pub type_tag: Seq<char>,
    pub kind: TopicKind,
    pub qos: QosPolicy,
}

impl View for Topic {
    type V = TopicView;

    open spec fn view(&self) -> TopicView {
        TopicView {
            name: self.name@,
            type_tag: self.type_tag@,
            kind: self.kind,
            qos: self.qos,
        }
    }
}

/// Handle to a declared topic: an index into the membership's registry.
/// Two equal handles refer to the same logical channel.
#[derive(Clone, Copy, Debug, PartialEq, Eq, Structural)]
pub struct TopicId {
    pub index: usize,
}

/// Some topic in `ts` bears `name`.
pub open spec fn has_named(ts: Seq<TopicView>, name: Seq<char>) -> bool {
    exists|i: int| 0 <= i < ts.len() && ts[i].name == name
}

/// The index of the topic bearing `name`; meaningful when `has_named`
/// holds and names are unique.
pub open spec fn named_index(ts: Seq<TopicView>, name: Seq<char>) -> int {
    choose|i: int| 0 <= i < ts.len() && ts[i].name == name
}

/// No two topics in `ts` share a name.
pub open spec fn unique_names(ts: Seq<TopicView>) -> bool {
    forall|i: int, j: int| 0 <= i < j < ts.len() ==> ts[i].name != ts[j].name
}

/// One topic declaration, as a transition on the registry: the resulting
/// registry together with either the handle index or the refusal.
pub open spec fn spec_declare(
    ts: Seq<TopicView>,
    name: Seq<char>,
    type_tag: Seq<char>,
    qos: QosPolicy,
    kind: TopicKind,
) -> (Seq<TopicView>, Result<int, SetupError>) {
    if has_named(ts, name) {
        let i = named_index(ts, name);
        if ts[i].type_tag == type_tag && ts[i].kind == kind {
            (ts, Ok(i))
        } else {
            (ts, Err(SetupError::ResourceCreationFailed))
        }
    } else {
        (ts.push(TopicView { name, type_tag, kind, qos }), Ok(ts.len() as int))
    }
}

/// Local handle from which publishing endpoints are created.
#[derive(Clone, Copy, Debug, PartialEq, Eq, Structural)]
pub struct Publisher {
    pub qos: QosPolicy,
}

/// Local handle from which subscribing endpoints are created.
#[derive(Clone, Copy, Debug, PartialEq, Eq, Structural)]
pub struct Subscriber {
    pub qos: QosPolicy,
}

/// This process's presence in a numbered exchange domain, owning the
/// registry of topics declared through it.
#[derive(Debug)]
pub struct DomainMembership {
    pub domain_id: u16,
    pub topics: Vec<Topic>,
}

/// Mathematical image of a `DomainMembership`.
pub struct DomainView {
    pub domain_id: u16,
    pub topics: Seq<TopicView>,
}

impl View for DomainMembership {
    type V = DomainView;

    open spec fn view(&self) -> DomainView {
        DomainView {
            domain_id: self.domain_id,
            topics: self.topics@.map_values(|t: Topic| t@),
        }
    }
}

impl DomainMembership {
    /// Well-formedness: topic names are unique, so a handle index denotes
    /// one logical channel.
    pub open spec fn wf(&self) -> bool {
        unique_names(self@.topics)
    }

    /// Joins the exchange domain `domain_id`. Every 16-bit id denotes a
    /// valid domain, so joining always succeeds here; a transport that
    /// fails to initialize is reported by the driver as
    /// `SetupError::DomainUnavailable` before any membership exists.
    pub fn join(domain_id: u16) -> (r: Result<DomainMembership, SetupError>)
        ensures
            r matches Ok(dm) && dm@.domain_id == domain_id && dm@.topics.len() == 0 && dm.wf(),
    {
        Ok(DomainMembership { domain_id, topics: Vec::new() })
    }

    /// Creates a publisher handle carrying `qos`.
    pub fn create_publisher(&self, qos: QosPolicy) -> (p: Publisher)
        ensures
            p.qos == qos,
    {
        Publisher { qos }
    }

    /// Creates a subscriber handle carrying `qos`.
    pub fn create_subscriber(&self, qos: QosPolicy) -> (s: Subscriber)
        ensures
            s.qos == qos,
    {
        Subscriber { qos }
    }

    /// Declares the topic `name` with payload type `type_tag` and
    /// addressing mode `kind`. If the name is new, the topic is recorded
    /// and its fresh handle returned; if it is already declared with the
    /// same type tag and mode, the existing handle is returned unchanged
    /// (idempotent declaration); a name collision with an incompatible
    /// type or mode is refused and changes nothing.
    #[verifier::loop_isolation(false)]
    pub fn create_topic(
        &mut self,
        name: String,
        type_tag: String,
        qos: QosPolicy,
        kind: TopicKind,
    ) -> (r: Result<TopicId, SetupError>)
        requires
            old(self).wf(),
        ensures
            final(self).wf(),
            final(self)@.domain_id == old(self)@.domain_id,
            ({
                let (ts2, sr) = spec_declare(old(self)@.topics, name@, type_tag@, qos, kind);
                &&& final(self)@.topics == ts2
                &&& match r {
                    Ok(id) => sr == Ok::<int, SetupError>(id.index as int),
                    Err(e) => sr == Err::<int, SetupError>(e),
                }
            }),
    {
        let ghost ts = self@.topics;
        let n = self.topics.len();
        let mut i: usize = 0;
        while i < n
            invariant
                i <= n,
                forall|j: int| 0 <= j < i ==> ts[j].name != name@,
            decreases n - i,
        {
            let t = &self.topics[i];
            if t.name == name {
                proof {
                    assert(ts[i as int].name == name@);
                    assert(has_named(ts, name@));
                    let k = named_index(ts, name@);
                    assert(0 <= k < ts.len() && ts[k].name == name@);
                    if k != i as int {
                        assert(ts[k].name != ts[i as int].name);
                    }
                    assert(k == i as int);
                }
                if t.type_tag == type_tag && t.kind == kind {
                    return Ok(TopicId { index: i });
                } else {
                    return Err(SetupError::ResourceCreationFailed);
                }
            }
            i += 1;
        }
        proof {
            assert(forall|j: int| 0 <= j < ts.len() ==> ts[j].name != name@);
            assert(!has_named(ts, name@));
        }
        let ghost tv = TopicView { name: name@, type_tag: type_tag@, kind, qos };
        self.topics.push(Topic { name, type_tag, kind, qos });
        proof {
            assert(self@.topics =~= ts.push(tv));
            assert forall|a: int, b: int|
                0 <= a < b < self@.topics.len() implies self@.topics[a].name
                != self@.topics[b].name by {
                if b < ts.len() {
                } else {
                    assert(self@.topics[b].name == name@);
                    assert(ts[a].name != name@);
                }
            }
        }
        Ok(TopicId { index: n })
    }
}

/// Topic declaration leaves name uniqueness intact.
pub proof fn lemma_declare_preserves_unique(
    ts: Seq<TopicView>,
    name: Seq<char>,
    type_tag: Seq<char>,
    qos: QosPolicy,
    kind: TopicKind,
)
    requires
        unique_names(ts),
    ensures
        unique_names(spec_declare(ts, name, type_tag, qos, kind).0),
{
    if !has_named(ts, name) {
        let ts1 = spec_declare(ts, name, type_tag, qos, kind).0;
        assert forall|a: int, b: int| 0 <= a < b < ts1.len() implies ts1[a].name
            != ts1[b].name by {
            if b < ts.len() {
            } else {
                assert(ts1[b].name == name);
                assert(ts[a].name != name);
            }
        }
    }
}

/// Idempotent declaration: declaring a topic twice with the same name,
/// type tag and addressing mode yields the same outcome both times and the
/// second declaration changes nothing — the two handles refer to the same
/// logical channel. On a name not yet declared, the first declaration
/// succeeds with the fresh handle.
pub proof fn lemma_declare_idempotent(
    ts: Seq<TopicView>,
    name: Seq<char>,
    type_tag: Seq<char>,
    qos: QosPolicy,
    qos2: QosPolicy,
    kind: TopicKind,
)
    requires
        unique_names(ts),
    ensures
        ({
            let (ts1, r1) = spec_declare(ts, name, type_tag, qos, kind);
            let (ts2, r2) = spec_declare(ts1, name, type_tag, qos2, kind);
            &&& r2 == r1
            &&& ts2 == ts1
            &&& !has_named(ts, name) ==> r1 == Ok::<int, SetupError>(ts.len() as int)
        }),
{
    let (ts1, r1) = spec_declare(ts, name, type_tag, qos, kind);
    if has_named(ts, name) {
        assert(ts1 == ts);
    } else {
        let tv = TopicView { name, type_tag, kind, qos };
        assert(ts1 == ts.push(tv));
        assert(ts1[ts.len() as int].name == name);
        assert(has_named(ts1, name));
        let k = named_index(ts1, name);
        assert(0 <= k < ts1.len() && ts1[k].name == name);
        if k < ts.len() {
            assert(ts[k].name == name);
            assert(has_named(ts, name));
        }
        assert(k == ts.len() as int);
        assert(ts1[k].type_tag == type_tag && ts1[k].kind == kind);
    }
}

} // verus!
