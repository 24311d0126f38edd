//! The pieces of an instance runtime: its input gateway, its conversation
//! ledger and its output router.
use vstd::prelude::*;

use crate::text::{opt_clone, owned, str_eq};

verus! {

broadcast use vstd::string::group_string_axioms;

/// Where input comes from.
#[derive(Debug, Clone, Copy, PartialEq, Eq, Structural)]
pub enum GatewaySource {
    Cli,
    Tui,
    Web,
    External,
}

/// Where a message came from: its source, and for external messages the
/// platform, target, sender and group flags.
#[derive(Debug, Clone, PartialEq, Eq)]
pub struct TransportEnvelope {
    pub source: GatewaySource,
    pub platform: Option<String>,
    pub target_id: Option<String>,
    pub sender_id: Option<String>,
    pub is_group: bool,
    pub mentioned_bot: bool,
}

impl TransportEnvelope {
    /// An identical copy.
    pub fn duplicate(&self) -> (r: Self)
        ensures
            r == *self,
    {
        TransportEnvelope {
            source: self.source,
            platform: opt_clone(&self.platform),
            target_id: opt_clone(&self.target_id),
            sender_id: opt_clone(&self.sender_id),
            is_group: self.is_group,
            mentioned_bot: self.mentioned_bot,
        }
    }
}

/// A user input as the gateway accepted it.
#[derive(Debug, Clone, PartialEq, Eq)]
pub struct GatewayInput {
    pub envelope: TransportEnvelope,
    pub content: String,
}

/// The input gateway of one instance.
#[derive(Debug, Clone, PartialEq, Eq)]
pub struct InstanceIoGateway {
    instance_id: String,
}

impl InstanceIoGateway {
    /// The instance this gateway serves.
    pub closed spec fn instance_view(&self) -> Seq<char> {
        self.instance_id@
    }

    /// A gateway for `instance_id`.
    pub fn new(instance_id: &str) -> (r: Self)
        ensures
            r.instance_view() == instance_id@,
    {
        InstanceIoGateway { instance_id: owned(instance_id) }
    }

    /// Accepts user input as it is.
    pub fn normalize_user_input(&self, envelope: TransportEnvelope, content: &str) -> (r: GatewayInput)
        ensures
            r.envelope == envelope,
            r.content@ == content@,
    {
        GatewayInput { envelope, content: owned(content) }
    }

    /// The instance this gateway serves.
    pub fn instance_id(&self) -> (r: &str)
        ensures
            r@ == self.instance_view(),
    {
        self.instance_id.as_str()
    }
}

/// Who a ledger event is from.
#[derive(Debug, Clone, Copy, PartialEq, Eq, Structural)]
pub enum LedgerRole {
    User,
    Assistant,
    System,
    Control,
}

/// What a ledger event is.
#[derive(Debug, Clone, Copy, PartialEq, Eq, Structural)]
pub enum LedgerEventKind {
    Message,
    Output,
    Control,
}

/// One event of a conversation, numbered by its position.
#[derive(Debug, Clone, PartialEq, Eq)]
pub struct LedgerEvent {
    pub seq: usize,
    pub kind: LedgerEventKind,
    pub role: LedgerRole,
    pub content: String,
}

/// The events of a conversation, in order; each is numbered by its position.
#[derive(Debug)]
pub struct MessageLedger {
    events: Vec<LedgerEvent>,
}

impl MessageLedger {
    #[verifier::type_invariant]
    spec fn numbered_by_position(self) -> bool {
        forall|i: int| 0 <= i < self.events@.len() ==> (#[trigger] self.events@[i]).seq == i
    }

    /// The events, in order.
    pub closed spec fn events_view(&self) -> Seq<LedgerEvent> {
        self.events@
    }

    /// An empty ledger.
    pub fn new() -> (r: Self)
        ensures
            r.events_view() == Seq::<LedgerEvent>::empty(),
    {
        MessageLedger { events: Vec::new() }
    }

    /// Appends `event`, numbered with the next position.
    pub fn append(&mut self, event: LedgerEvent)
        ensures
            final(self).events_view() == old(self).events_view().push(LedgerEvent { seq: old(self).events_view().len() as usize, ..event }),
    {
        proof { use_type_invariant(&*self); }
        let seq = self.events.len();
        let numbered = LedgerEvent { seq, ..event };
        let mut events = Vec::new();
        std::mem::swap(&mut events, &mut self.events);
        events.push(numbered);
        self.events = events;
    }

    /// The events, in order; each is numbered by its position.
    pub fn events(&self) -> (r: &[LedgerEvent])
        ensures
            r@ == self.events_view(),
            forall|i: int| 0 <= i < r@.len() ==> (#[trigger] r@[i]).seq == i,
    {
        proof { use_type_invariant(self); }
        self.events.as_slice()
    }

    /// The position the next event will have.
    pub fn next_cursor(&self) -> (r: usize)
        ensures
            r == self.events_view().len(),
    {
        self.events.len()
    }
}

impl Default for MessageLedger {
    fn default() -> (r: Self)
        ensures
            r.events_view() == Seq::<LedgerEvent>::empty(),
    {
        MessageLedger::new()
    }
}

/// One conversation of an instance and its ledger.
#[derive(Debug)]
pub struct ConversationController {
    instance_id: String,
    conversation_id: String,
    ledger: MessageLedger,
}

impl ConversationController {
    /// The instance it belongs to.
    pub closed spec fn instance_view(&self) -> Seq<char> {
        self.instance_id@
    }

    /// Its id.
    pub closed spec fn conversation_view(&self) -> Seq<char> {
        self.conversation_id@
    }

    /// Its events, in order.
    pub closed spec fn events_view(&self) -> Seq<LedgerEvent> {
        self.ledger.events_view()
    }

    /// A conversation with no events.
    pub fn new(instance_id: &str, conversation_id: &str) -> (r: Self)
        ensures
            r.instance_view() == instance_id@,
            r.conversation_view() == conversation_id@,
            r.events_view() == Seq::<LedgerEvent>::empty(),
    {
        ConversationController { instance_id: owned(instance_id), conversation_id: owned(conversation_id), ledger: MessageLedger::new() }
    }

    /// Appends `event`, numbered with the next position.
    pub fn append(&mut self, event: LedgerEvent)
        ensures
            final(self).instance_view() == old(self).instance_view(),
            final(self).conversation_view() == old(self).conversation_view(),
            final(self).events_view() == old(self).events_view().push(LedgerEvent { seq: old(self).events_view().len() as usize, ..event }),
    {
        self.ledger.append(event);
    }

    /// Its events, in order.
    pub fn events(&self) -> (r: &[LedgerEvent])
        ensures
            r@ == self.events_view(),
    {
        self.ledger.events()
    }

    /// The instance it belongs to.
    pub fn instance_id(&self) -> (r: &str)
        ensures
            r@ == self.instance_view(),
    {
        self.instance_id.as_str()
    }

    /// Its id.
    pub fn conversation_id(&self) -> (r: &str)
        ensures
            r@ == self.conversation_view(),
    {
        self.conversation_id.as_str()
    }

    /// The position the next event will have.
    pub fn next_cursor(&self) -> (r: usize)
        ensures
            r == self.events_view().len(),
    {
        self.ledger.next_cursor()
    }
}

/// Who receives an output: the active views, or one external chat.
#[derive(Debug, Clone, PartialEq, Eq)]
pub enum DeliveryIdentity {
    ActiveViews,
    External { platform: String, target_id: String },
}

/// A delivery identity as values: nothing for the active views, or the
/// external platform and target.
pub open spec fn identity_key(d: DeliveryIdentity) -> Option<(Seq<char>, Seq<char>)> {
    match d {
        DeliveryIdentity::ActiveViews => None,
        DeliveryIdentity::External { platform, target_id } => Some((platform@, target_id@)),
    }
}

impl DeliveryIdentity {
    /// An identical copy.
    pub fn duplicate(&self) -> (r: Self)
        ensures
            r == *self,
    {
        match self {
            DeliveryIdentity::ActiveViews => DeliveryIdentity::ActiveViews,
            DeliveryIdentity::External { platform, target_id } => DeliveryIdentity::External {
                platform: platform.clone(),
                target_id: target_id.clone(),
            },
        }
    }

    /// Whether two identities name the same receiver.
    pub fn same_as(&self, other: &DeliveryIdentity) -> (r: bool)
        ensures
            r == (identity_key(*self) == identity_key(*other)),
    {
        match (self, other) {
            (DeliveryIdentity::ActiveViews, DeliveryIdentity::ActiveViews) => true,
            (
                DeliveryIdentity::External { platform: p1, target_id: t1 },
                DeliveryIdentity::External { platform: p2, target_id: t2 },
            ) => str_eq(p1.as_str(), p2.as_str()) && str_eq(t1.as_str(), t2.as_str()),
            _ => false,
        }
    }
}

/// Where an output is addressed.
#[derive(Debug, Clone, Copy, PartialEq, Eq, Structural)]
pub enum OutputTarget {
    Origin,
    ActiveViews,
    FollowedExternal,
}

/// One output for one receiver.
#[derive(Debug, Clone, PartialEq, Eq)]
pub struct OutputEvent {
    pub target: OutputTarget,
    pub identity: DeliveryIdentity,
    pub content: String,
}

impl OutputEvent {
    /// An identical copy.
    pub fn duplicate(&self) -> (r: Self)
        ensures
            r == *self,
    {
        OutputEvent { target: self.target, identity: self.identity.duplicate(), content: self.content.clone() }
    }
}

/// The outputs of one reply, at most one per receiver.
#[derive(Debug, Clone, PartialEq, Eq)]
pub struct RoutedOutputs {
    pub events: Vec<OutputEvent>,
}

/// Routes replies to a default target.
#[derive(Debug, Clone, PartialEq, Eq)]
pub struct OutputRouter {
    default_target: OutputTarget,
}

impl OutputRouter {
    /// The target replies go to.
    pub closed spec fn target_view(&self) -> OutputTarget {
        self.default_target
    }

    /// A router to `default_target`.
    pub fn new(default_target: OutputTarget) -> (r: Self)
        ensures
            r.target_view() == default_target,
    {
        OutputRouter { default_target }
    }

    /// A reply to the active views, addressed to the default target.
    pub fn route_reply(&self, content: &str) -> (r: OutputEvent)
        ensures
            r.target == self.target_view(),
            r.identity == DeliveryIdentity::ActiveViews,
            r.content@ == content@,
    {
        OutputEvent { target: self.default_target, identity: DeliveryIdentity::ActiveViews, content: owned(content) }
    }
}

/// Whether an earlier event of `s` (before position `i`) has the receiver of `s[i]`.
pub open spec fn seen_before(s: Seq<OutputEvent>, i: int) -> bool {
    exists|j: int| 0 <= j < i && identity_key(#[trigger] s[j].identity) == identity_key(s[i].identity)
}

/// `s` keeping only the first event for each receiver, in order.
pub open spec fn dedupe(s: Seq<OutputEvent>) -> Seq<OutputEvent>
    decreases s.len(),
{
    if s.len() == 0 {
        Seq::empty()
    } else {
        let d = dedupe(s.drop_last());
        if seen_before(s, s.len() - 1) { d } else { d.push(s.last()) }
    }
}

/// The receivers of events `s`.
pub open spec fn receivers(s: Seq<OutputEvent>) -> Set<Option<(Seq<char>, Seq<char>)>> {
    Set::new(|k: Option<(Seq<char>, Seq<char>)>| exists|i: int| 0 <= i < s.len() && identity_key(#[trigger] s[i].identity) == k)
}

/// Keeps the first output for each receiver, in order.
pub fn dedupe_outputs(events: Vec<OutputEvent>) -> (r: RoutedOutputs)
    ensures
        r.events@ == dedupe(events@),
{
    let mut deduped: Vec<OutputEvent> = Vec::new();
    let mut i: usize = 0;
    while i < events.len()
        invariant
            i <= events.len(),
            deduped@ == dedupe(events@.subrange(0, i as int)),
        decreases events.len() - i,
    {
        let ghost pre = events@.subrange(0, i + 1);
        assert(pre.drop_last() =~= events@.subrange(0, i as int));
        let mut seen = false;
        let mut j: usize = 0;
        while j < i
            invariant
                j <= i < events.len(),
                pre == events@.subrange(0, i + 1),
                seen == (exists|k: int| 0 <= k < j && identity_key(#[trigger] pre[k].identity) == identity_key(pre[i as int].identity)),
            decreases i - j,
        {
            if events[j].identity.same_as(&events[i].identity) {
                assert(pre[j as int] == events@[j as int]);
                seen = true;
            }
            proof {
                if !seen {
                    assert forall|k: int| 0 <= k < j + 1 implies identity_key(#[trigger] pre[k].identity) != identity_key(pre[i as int].identity) by {
                        if k == j {
                            assert(pre[k] == events@[k]);
                        }
                    }
                }
            }
            j = j + 1;
        }
        assert(seen == seen_before(pre, i as int));
        if !seen {
            deduped.push(events[i].duplicate());
        }
        i = i + 1;
    }
    assert(events@.subrange(0, events.len() as int) =~= events@);
    RoutedOutputs { events: deduped }
}

/// Every event of `dedupe(s)` is an event of `s`, and no two have the same receiver.
pub proof fn lemma_dedupe_distinct(s: Seq<OutputEvent>)
    ensures
        forall|a: int, b: int| 0 <= a < b < dedupe(s).len() ==>
            identity_key(#[trigger] dedupe(s)[a].identity) != identity_key(#[trigger] dedupe(s)[b].identity),
        forall|a: int| 0 <= a < dedupe(s).len() ==> s.contains(#[trigger] dedupe(s)[a]),
    decreases s.len(),
{
    if s.len() > 0 {
        let p = s.drop_last();
        lemma_dedupe_distinct(p);
        let d = dedupe(p);
        assert forall|a: int| 0 <= a < d.len() implies s.contains(#[trigger] d[a]) by {
            let k = choose|k: int| 0 <= k < p.len() && p[k] == d[a];
            assert(s[k] == d[a]);
        }
        if !seen_before(s, s.len() - 1) {
            assert forall|a: int| 0 <= a < d.len() implies identity_key(#[trigger] d[a].identity) != identity_key(s.last().identity) by {
                let k = choose|k: int| 0 <= k < p.len() && p[k] == d[a];
                assert(s[k] == p[k]);
            }
            assert(s.contains(s[s.len() - 1]));
        }
    }
}

/// Events with distinct receivers are kept as they are.
proof fn lemma_dedupe_of_distinct(s: Seq<OutputEvent>)
    requires
        forall|a: int, b: int| 0 <= a < b < s.len() ==>
            identity_key(#[trigger] s[a].identity) != identity_key(#[trigger] s[b].identity),
    ensures
        dedupe(s) == s,
    decreases s.len(),
{
    if s.len() > 0 {
        let p = s.drop_last();
        assert forall|a: int, b: int| 0 <= a < b < p.len() implies
            identity_key(#[trigger] p[a].identity) != identity_key(#[trigger] p[b].identity) by {
            assert(p[a] == s[a] && p[b] == s[b]);
        }
        lemma_dedupe_of_distinct(p);
        if seen_before(s, s.len() - 1) {
            let j = choose|j: int| 0 <= j < s.len() - 1 && identity_key(#[trigger] s[j].identity) == identity_key(s[s.len() - 1].identity);
            assert(identity_key(s[j].identity) != identity_key(s[s.len() - 1].identity));
        }
        assert(p.push(s.last()) =~= s);
    }
}

/// Removing repeated receivers twice removes nothing more than once.
pub proof fn lemma_dedupe_idempotent(s: Seq<OutputEvent>)
    ensures
        dedupe(dedupe(s)) == dedupe(s),
{
    lemma_dedupe_distinct(s);
    lemma_dedupe_of_distinct(dedupe(s));
}

/// Every receiver of `s` keeps an event in `dedupe(s)`.
pub proof fn lemma_dedupe_keeps_receivers(s: Seq<OutputEvent>)
    ensures
        receivers(dedupe(s)) == receivers(s),
    decreases s.len(),
{
    if s.len() > 0 {
        let p = s.drop_last();
        lemma_dedupe_keeps_receivers(p);
        let d = dedupe(s);
        assert forall|k: Option<(Seq<char>, Seq<char>)>| receivers(s).contains(k) implies receivers(d).contains(k) by {
            let i = choose|i: int| 0 <= i < s.len() && identity_key(#[trigger] s[i].identity) == k;
            if i < s.len() - 1 {
                assert(p[i] == s[i]);
                assert(receivers(p).contains(k));
                assert(receivers(dedupe(p)).contains(k));
                let m = choose|m: int| 0 <= m < dedupe(p).len() && identity_key(#[trigger] dedupe(p)[m].identity) == k;
                assert(d[m] == dedupe(p)[m]);
            } else if seen_before(s, i) {
                let j = choose|j: int| 0 <= j < i && identity_key(#[trigger] s[j].identity) == identity_key(s[i].identity);
                assert(p[j] == s[j]);
                assert(receivers(p).contains(k));
                let m = choose|m: int| 0 <= m < dedupe(p).len() && identity_key(#[trigger] dedupe(p)[m].identity) == k;
                assert(d[m] == dedupe(p)[m]);
            } else {
                assert(d[d.len() - 1] == s[i]);
            }
        }
        assert forall|k: Option<(Seq<char>, Seq<char>)>| receivers(d).contains(k) implies receivers(s).contains(k) by {
            let m = choose|m: int| 0 <= m < d.len() && identity_key(#[trigger] d[m].identity) == k;
            if m < dedupe(p).len() {
                assert(dedupe(p)[m] == d[m]);
                assert(receivers(dedupe(p)).contains(k));
                let i = choose|i: int| 0 <= i < p.len() && identity_key(#[trigger] p[i].identity) == k;
                assert(s[i] == p[i]);
            } else {
                assert(identity_key(s[s.len() - 1].identity) == k);
            }
        }
        assert(receivers(d) =~= receivers(s));
    }
}

/// Whether an instance runtime is handling input.
#[derive(Debug, Clone, Copy, PartialEq, Eq, Structural)]
pub enum RuntimeStatus {
    Idle,
    HandlingInput,
}

/// Where a conversation stands.
#[derive(Debug, Clone, Copy, PartialEq, Eq, Structural)]
pub enum ConversationStatus {
    Idle,
    Running,
    Queued,
    Interrupted,
}

} // verus!
