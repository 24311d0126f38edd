//! The runtime of one instance: its conversation, its active turn, the
//! input waiting behind it, and the external chats that follow it.
use vstd::prelude::*;

use crate::instance::model::{
    dedupe, dedupe_outputs, identity_key, lemma_dedupe_distinct, ConversationController, ConversationStatus,
    DeliveryIdentity, GatewaySource, InstanceIoGateway, LedgerEvent, LedgerEventKind, LedgerRole, OutputEvent,
    OutputRouter, OutputTarget, RoutedOutputs, RuntimeStatus, TransportEnvelope,
};
use crate::text::{decimal, owned, push_decimal};

verus! {

broadcast use vstd::string::group_string_axioms;

/// Where a turn stands.
#[derive(Debug, Clone, Copy, PartialEq, Eq, Structural)]
pub enum TurnStatus {
    Running,
    Completed,
    Interrupted,
    CancelRequested,
}

/// The turn in progress, and the external message that started it, if any.
#[derive(Debug, Clone, PartialEq, Eq)]
pub struct ActiveTurn {
    pub id: String,
    pub status: TurnStatus,
    pub origin: Option<TransportEnvelope>,
}

/// How new input should treat a turn in progress.
#[derive(Debug, Clone, Copy, PartialEq, Eq, Structural)]
pub enum InterruptMode {
    Queue,
    AppendContext,
    SoftInterrupt,
    HardInterrupt,
}

/// The turn in progress and the length of the queue.
#[derive(Debug, Clone, PartialEq, Eq)]
pub struct TurnState {
    pub active_turn_id: Option<String>,
    pub active_turn_status: Option<TurnStatus>,
    pub queue_len: usize,
}

/// Input waiting for the turn in progress.
#[derive(Debug, Clone, PartialEq, Eq)]
pub struct QueuedMessage {
    pub envelope: TransportEnvelope,
    pub content: String,
    pub interrupt_mode: InterruptMode,
}

/// What new input does.
#[derive(Debug, Clone, Copy, PartialEq, Eq, Structural)]
pub enum InterruptDecision {
    StartTurn,
    Queue,
    AppendContext,
    SoftInterrupt,
    HardInterrupt,
}

/// An external chat that receives the replies written from `cursor` on.
#[derive(Debug, Clone, PartialEq, Eq)]
pub struct FollowSubscription {
    pub cursor: usize,
    pub envelope: TransportEnvelope,
}

/// A summary of an instance runtime.
#[derive(Debug, Clone, PartialEq, Eq)]
pub struct RuntimeSummary {
    pub instance_id: String,
    pub conversation_id: String,
    pub event_count: usize,
    pub status: RuntimeStatus,
    pub queue_len: usize,
    pub conversation_status: ConversationStatus,
}

/// What happened to an input.
#[derive(Debug, Clone, PartialEq, Eq)]
pub struct IngressResult {
    pub accepted_source: GatewaySource,
    pub event_count: usize,
    pub decision: InterruptDecision,
    pub active_turn_id: Option<String>,
    pub queue_len: usize,
}

/// The external chat a message came from: its platform and target, when it names both.
pub open spec fn external_key(envelope: TransportEnvelope) -> Option<(Seq<char>, Seq<char>)> {
    match (envelope.platform, envelope.target_id) {
        (Some(p), Some(t)) => Some((p@, t@)),
        _ => None,
    }
}

/// What input does, given whether a turn is in progress and the requested mode.
pub open spec fn interrupt_decision(turn_active: bool, mode: InterruptMode) -> InterruptDecision {
    if !turn_active {
        InterruptDecision::StartTurn
    } else {
        match mode {
            InterruptMode::Queue => InterruptDecision::Queue,
            InterruptMode::AppendContext => InterruptDecision::AppendContext,
            InterruptMode::SoftInterrupt => InterruptDecision::SoftInterrupt,
            InterruptMode::HardInterrupt => InterruptDecision::HardInterrupt,
        }
    }
}

/// The status of a turn after an interrupt of `mode`.
pub open spec fn interrupted_status(status: TurnStatus, mode: InterruptMode) -> TurnStatus {
    match mode {
        InterruptMode::HardInterrupt => TurnStatus::CancelRequested,
        InterruptMode::SoftInterrupt => TurnStatus::Interrupted,
        _ => status,
    }
}

/// Where the conversation stands after a reply or a completed turn.
pub open spec fn settled_status(turn_active: bool, queue_empty: bool) -> ConversationStatus {
    if turn_active {
        ConversationStatus::Running
    } else if queue_empty {
        ConversationStatus::Idle
    } else {
        ConversationStatus::Queued
    }
}

/// An output as values: its target, its receiver and its content.
pub open spec fn output_key(e: OutputEvent) -> (OutputTarget, Option<(Seq<char>, Seq<char>)>, Seq<char>) {
    (e.target, identity_key(e.identity), e.content@)
}

/// The outputs to the followers of `follows` for a reply at position `seq`:
/// one for each follower whose cursor is not after it.
pub open spec fn follower_outputs(follows: Seq<FollowSubscription>, seq: nat, content: Seq<char>)
    -> Seq<(OutputTarget, Option<(Seq<char>, Seq<char>)>, Seq<char>)>
    decreases follows.len(),
{
    if follows.len() == 0 {
        Seq::empty()
    } else {
        let rest = follower_outputs(follows.drop_last(), seq, content);
        let f = follows.last();
        if seq >= f.cursor && external_key(f.envelope) is Some {
            rest.push((OutputTarget::FollowedExternal, external_key(f.envelope), content))
        } else {
            rest
        }
    }
}

/// The outputs of a reply before duplicates are dropped: the active views,
/// the origin of the turn in progress, then the followers.
pub open spec fn reply_outputs(target: OutputTarget, turn: Option<ActiveTurn>, follows: Seq<FollowSubscription>, seq: nat, content: Seq<char>)
    -> Seq<(OutputTarget, Option<(Seq<char>, Seq<char>)>, Seq<char>)>
{
    let origin = match turn {
        Some(t) => match t.origin {
            Some(o) => if external_key(o) is Some {
                seq![(OutputTarget::Origin, external_key(o), content)]
            } else {
                Seq::empty()
            },
            None => Seq::empty(),
        },
        None => Seq::empty(),
    };
    seq![(target, None::<(Seq<char>, Seq<char>)>, content)] + origin + follower_outputs(follows, seq, content)
}

/// The runtime of one instance.
#[derive(Debug)]
pub struct InstanceRuntime {
    gateway: InstanceIoGateway,
    conversation: ConversationController,
    output_router: OutputRouter,
    status: RuntimeStatus,
    active_turn: Option<ActiveTurn>,
    pending_queue: Vec<QueuedMessage>,
    follow_subscriptions: Followers,
    conversation_status: ConversationStatus,
}

/// Whether the follows of `fs` each name an external chat, no two the same.
pub open spec fn follows_distinct(fs: Seq<FollowSubscription>) -> bool {
    &&& forall|i: int| 0 <= i < fs.len() ==> external_key(#[trigger] fs[i].envelope) is Some
    &&& forall|i: int, j: int| 0 <= i < j < fs.len() ==> external_key(#[trigger] fs[i].envelope) != external_key(#[trigger] fs[j].envelope)
}

/// Filtering keeps every element exactly when each satisfies the predicate.
proof fn lemma_filter_keeps_all(s: Seq<FollowSubscription>, p: spec_fn(FollowSubscription) -> bool)
    ensures
        (s.filter(p).len() == s.len()) == (forall|i: int| 0 <= i < s.len() ==> p(#[trigger] s[i])),
    decreases s.len(),
{
    reveal(Seq::filter);
    if s.len() > 0 {
        let d = s.drop_last();
        lemma_filter_keeps_all(d, p);
        d.lemma_filter_len(p);
        if forall|i: int| 0 <= i < d.len() ==> p(#[trigger] d[i]) {
            if p(s.last()) {
                assert forall|i: int| 0 <= i < s.len() implies p(#[trigger] s[i]) by {
                    if i < d.len() {
                        assert(s[i] == d[i]);
                    }
                }
            }
        } else {
            let k = choose|i: int| 0 <= i < d.len() && !p(#[trigger] d[i]);
            assert(s[k] == d[k]);
        }
    }
}

/// The external chats that follow an instance: each names a chat, no two the same.
#[derive(Debug)]
pub struct Followers {
    subs: Vec<FollowSubscription>,
}

impl Followers {
    #[verifier::type_invariant]
    spec fn distinct(self) -> bool {
        follows_distinct(self.subs@)
    }

    /// The followers, in order.
    pub closed spec fn view_seq(&self) -> Seq<FollowSubscription> {
        self.subs@
    }

    /// No followers.
    pub fn new() -> (r: Self)
        ensures
            r.view_seq() == Seq::<FollowSubscription>::empty(),
    {
        Followers { subs: Vec::new() }
    }

    /// Whether the chat with `key` follows.
    fn follows(&self, identity: &DeliveryIdentity) -> (r: bool)
        ensures
            r == exists|i: int| 0 <= i < self.view_seq().len() && external_key(#[trigger] self.view_seq()[i].envelope) == identity_key(*identity),
    {
        proof { use_type_invariant(self); }
        let mut i: usize = 0;
        while i < self.subs.len()
            invariant
                i <= self.subs.len(),
                follows_distinct(self.subs@),
                forall|j: int| 0 <= j < i ==> external_key(#[trigger] self.subs@[j].envelope) != identity_key(*identity),
            decreases self.subs.len() - i,
        {
            match external_identity_from_envelope(&self.subs[i].envelope) {
                Some(existing) => {
                    if existing.same_as(identity) {
                        return true;
                    }
                },
                None => {},
            }
            i = i + 1;
        }
        false
    }

    /// Adds a follower whose chat does not follow yet.
    fn add(&mut self, sub: FollowSubscription)
        requires
            external_key(sub.envelope) is Some,
            forall|i: int| 0 <= i < old(self).view_seq().len() ==> external_key(#[trigger] old(self).view_seq()[i].envelope) != external_key(sub.envelope),
        ensures
            final(self).view_seq() == old(self).view_seq().push(sub),
    {
        proof { use_type_invariant(&*self); }
        let ghost before = self.subs@;
        assert(follows_distinct(before));
        assert(before == old(self).view_seq());
        let mut subs = Vec::new();
        std::mem::swap(&mut subs, &mut self.subs);
        assert(subs@ == before);
        subs.push(sub);
        proof {
            assert forall|i: int, j: int| 0 <= i < j < subs@.len() implies
                external_key(#[trigger] subs@[i].envelope) != external_key(#[trigger] subs@[j].envelope) by {
                if j == subs@.len() - 1 {
                    assert(subs@[i] == before[i]);
                    assert(subs@[j] == sub);
                    assert(external_key(old(self).view_seq()[i].envelope) != external_key(sub.envelope));
                } else {
                    assert(subs@[i] == before[i] && subs@[j] == before[j]);
                }
            }
        }
        self.subs = subs;
    }

    /// Drops the followers whose chat is `identity`.
    fn remove(&mut self, identity: &DeliveryIdentity)
        ensures
            final(self).view_seq() == old(self).view_seq().filter(
                |f: FollowSubscription| external_key(f.envelope) != identity_key(*identity)),
    {
        proof { use_type_invariant(&*self); }
        let ghost keep = |f: FollowSubscription| external_key(f.envelope) != identity_key(*identity);
        let mut old_follows = Vec::new();
        std::mem::swap(&mut old_follows, &mut self.subs);
        let ghost of = old_follows@;
        let mut kept: Vec<FollowSubscription> = Vec::new();
        let mut i: usize = 0;
        while i < old_follows.len()
            invariant
                i <= old_follows.len(),
                of == old_follows@,
                follows_distinct(of),
                keep == (|f: FollowSubscription| external_key(f.envelope) != identity_key(*identity)),
                kept@ == of.subrange(0, i as int).filter(keep),
                follows_distinct(kept@),
                forall|k: int| 0 <= k < kept@.len() ==> exists|m: int| 0 <= m < i && #[trigger] kept@[k] == of[m],
            decreases old_follows.len() - i,
        {
            proof {
                reveal_with_fuel(Seq::<FollowSubscription>::filter, 1);
                let b = of.subrange(0, i + 1);
                assert(b.drop_last() =~= of.subrange(0, i as int));
            }
            let f = &old_follows[i];
            let matches = match external_identity_from_envelope(&f.envelope) {
                Some(existing) => existing.same_as(identity),
                None => false,
            };
            if !matches {
                let copy = FollowSubscription { cursor: f.cursor, envelope: f.envelope.duplicate() };
                proof {
                    assert forall|k: int| 0 <= k < kept@.len() implies external_key(#[trigger] kept@[k].envelope) != external_key(copy.envelope) by {
                        let m = choose|m: int| 0 <= m < i && #[trigger] kept@[k] == of[m];
                        assert(external_key(of[m].envelope) != external_key(of[i as int].envelope));
                    }
                }
                kept.push(copy);
                proof {
                    assert forall|k: int| 0 <= k < kept@.len() implies exists|m: int| 0 <= m < i + 1 && #[trigger] kept@[k] == of[m] by {
                        if k < kept@.len() - 1 {
                            let m = choose|m: int| 0 <= m < i && #[trigger] kept@[k] == of[m];
                            assert(kept@[k] == of[m]);
                        } else {
                            assert(kept@[k] == of[i as int]);
                        }
                    }
                }
            }
            i = i + 1;
        }
        assert(of.subrange(0, of.len() as int) =~= of);
        self.subs = kept;
    }

    /// The followers, in order.
    pub fn as_slice(&self) -> (r: &[FollowSubscription])
        ensures
            r@ == self.view_seq(),
            follows_distinct(r@),
    {
        proof { use_type_invariant(self); }
        self.subs.as_slice()
    }
}

fn external_identity_from_envelope(envelope: &TransportEnvelope) -> (r: Option<DeliveryIdentity>)
    ensures
        match r {
            Some(d) => external_key(*envelope) is Some && identity_key(d) == external_key(*envelope),
            None => external_key(*envelope) is None,
        },
{
    match (&envelope.platform, &envelope.target_id) {
        (Some(p), Some(t)) => Some(DeliveryIdentity::External { platform: p.clone(), target_id: t.clone() }),
        _ => None,
    }
}

impl InstanceRuntime {
    /// The target its replies are addressed to.
    pub closed spec fn router_target_view(&self) -> OutputTarget {
        self.output_router.target_view()
    }

    /// Its instance.
    pub closed spec fn instance_view(&self) -> Seq<char> {
        self.conversation.instance_view()
    }

    /// Its conversation.
    pub closed spec fn conversation_view(&self) -> Seq<char> {
        self.conversation.conversation_view()
    }

    /// The events of its conversation.
    pub closed spec fn events_view(&self) -> Seq<LedgerEvent> {
        self.conversation.events_view()
    }

    /// Whether it is handling input.
    pub closed spec fn status_view(&self) -> RuntimeStatus {
        self.status
    }

    /// The turn in progress.
    pub closed spec fn turn_view(&self) -> Option<ActiveTurn> {
        self.active_turn
    }

    /// The input waiting.
    pub closed spec fn queue_view(&self) -> Seq<QueuedMessage> {
        self.pending_queue@
    }

    /// The external chats that follow it.
    pub closed spec fn follows_view(&self) -> Seq<FollowSubscription> {
        self.follow_subscriptions.view_seq()
    }

    /// Where its conversation stands.
    pub closed spec fn conversation_status_view(&self) -> ConversationStatus {
        self.conversation_status
    }

    /// A runtime for `instance_id` with one empty conversation, no turn, no
    /// queue and no followers.
    pub fn new(instance_id: &str, conversation_id: &str) -> (r: Self)
        ensures
            r.instance_view() == instance_id@,
            r.conversation_view() == conversation_id@,
            r.events_view() == Seq::<LedgerEvent>::empty(),
            r.status_view() == RuntimeStatus::Idle,
            r.turn_view() is None,
            r.queue_view() == Seq::<QueuedMessage>::empty(),
            r.follows_view() == Seq::<FollowSubscription>::empty(),
            r.conversation_status_view() == ConversationStatus::Idle,
            r.router_target_view() == OutputTarget::ActiveViews,
    {
        InstanceRuntime {
            gateway: InstanceIoGateway::new(instance_id),
            conversation: ConversationController::new(instance_id, conversation_id),
            output_router: OutputRouter::new(OutputTarget::ActiveViews),
            status: RuntimeStatus::Idle,
            active_turn: None,
            pending_queue: Vec::new(),
            follow_subscriptions: Followers::new(),
            conversation_status: ConversationStatus::Idle,
        }
    }

    fn active_turn_id_string(&self) -> (r: Option<String>)
        ensures
            match self.turn_view() {
                Some(t) => r matches Some(id) && id@ == t.id@,
                None => r is None,
            },
    {
        match &self.active_turn {
            Some(t) => Some(t.id.clone()),
            None => None,
        }
    }

    /// Records user input as a message, whatever turn is in progress.
    pub fn ingest_user_input(&mut self, envelope: TransportEnvelope, content: &str) -> (r: IngressResult)
        ensures
            final(self).events_view() == old(self).events_view().push(LedgerEvent {
                seq: old(self).events_view().len() as usize,
                kind: LedgerEventKind::Message,
                role: LedgerRole::User,
                content: final(self).events_view().last().content,
            }),
            final(self).events_view().last().content@ == content@,
            final(self).status_view() == RuntimeStatus::Idle,
            final(self).conversation_status_view() == ConversationStatus::Idle,
            final(self).turn_view() == old(self).turn_view(),
            final(self).queue_view() == old(self).queue_view(),
            final(self).follows_view() == old(self).follows_view(),
            final(self).instance_view() == old(self).instance_view(),
            final(self).conversation_view() == old(self).conversation_view(),
            r.accepted_source == envelope.source,
            r.event_count == final(self).events_view().len(),
            r.decision == InterruptDecision::StartTurn,
            r.queue_len == old(self).queue_view().len(),
            match old(self).turn_view() {
                Some(t) => r.active_turn_id matches Some(id) && id@ == t.id@,
                None => r.active_turn_id is None,
            },
    {
        self.status = RuntimeStatus::HandlingInput;
        self.conversation_status = ConversationStatus::Running;
        let normalized = self.gateway.normalize_user_input(envelope, content);
        let accepted_source = normalized.envelope.source;
        self.conversation.append(LedgerEvent { seq: 0, kind: LedgerEventKind::Message, role: LedgerRole::User, content: normalized.content });
        self.status = RuntimeStatus::Idle;
        self.conversation_status = ConversationStatus::Idle;
        IngressResult {
            accepted_source,
            event_count: self.conversation.events().len(),
            decision: InterruptDecision::StartTurn,
            active_turn_id: self.active_turn_id_string(),
            queue_len: self.pending_queue.len(),
        }
    }

    /// What input with `requested_mode` does: it starts a turn when none is in
    /// progress, else the mode decides.
    pub fn decide_interrupt(&self, envelope: &TransportEnvelope, requested_mode: InterruptMode) -> (r: InterruptDecision)
        ensures
            r == interrupt_decision(self.turn_view() is Some, requested_mode),
    {
        if self.active_turn.is_none() {
            return InterruptDecision::StartTurn;
        }
        match requested_mode {
            InterruptMode::Queue => InterruptDecision::Queue,
            InterruptMode::AppendContext => InterruptDecision::AppendContext,
            InterruptMode::SoftInterrupt => InterruptDecision::SoftInterrupt,
            InterruptMode::HardInterrupt => InterruptDecision::HardInterrupt,
        }
    }

    /// Starts turn `turn_id`, with no origin.
    pub fn begin_turn(&mut self, turn_id: &str)
        ensures
            final(self).turn_view() matches Some(t) && t.id@ == turn_id@ && t.status == TurnStatus::Running && t.origin is None,
            final(self).conversation_status_view() == ConversationStatus::Running,
            final(self).events_view() == old(self).events_view(),
            final(self).status_view() == old(self).status_view(),
            final(self).queue_view() == old(self).queue_view(),
            final(self).follows_view() == old(self).follows_view(),
            final(self).instance_view() == old(self).instance_view(),
            final(self).conversation_view() == old(self).conversation_view(),
    {
        self.active_turn = Some(ActiveTurn { id: owned(turn_id), status: TurnStatus::Running, origin: None });
        self.conversation_status = ConversationStatus::Running;
    }

    /// Starts turn `turn_id` for the external message `origin`.
    pub fn begin_turn_with_origin(&mut self, turn_id: &str, origin: TransportEnvelope)
        ensures
            final(self).turn_view() matches Some(t) && t.id@ == turn_id@ && t.status == TurnStatus::Running && t.origin == Some(origin),
            final(self).conversation_status_view() == ConversationStatus::Running,
            final(self).events_view() == old(self).events_view(),
            final(self).status_view() == old(self).status_view(),
            final(self).queue_view() == old(self).queue_view(),
            final(self).follows_view() == old(self).follows_view(),
            final(self).instance_view() == old(self).instance_view(),
            final(self).conversation_view() == old(self).conversation_view(),
    {
        self.active_turn = Some(ActiveTurn { id: owned(turn_id), status: TurnStatus::Running, origin: Some(origin) });
        self.conversation_status = ConversationStatus::Running;
    }

    /// Ends the turn in progress; the conversation is queued when input waits.
    pub fn complete_turn(&mut self)
        ensures
            final(self).turn_view() is None,
            final(self).conversation_status_view() == settled_status(false, old(self).queue_view().len() == 0),
            final(self).events_view() == old(self).events_view(),
            final(self).status_view() == old(self).status_view(),
            final(self).queue_view() == old(self).queue_view(),
            final(self).follows_view() == old(self).follows_view(),
            final(self).instance_view() == old(self).instance_view(),
            final(self).conversation_view() == old(self).conversation_view(),
    {
        self.active_turn = None;
        self.conversation_status = if self.pending_queue.len() == 0 { ConversationStatus::Idle } else { ConversationStatus::Queued };
    }

    /// Queues input behind the turn in progress.
    pub fn queue_message(&mut self, envelope: TransportEnvelope, content: &str, mode: InterruptMode)
        ensures
            final(self).queue_view().len() == old(self).queue_view().len() + 1,
            final(self).queue_view().drop_last() == old(self).queue_view(),
            final(self).queue_view().last().envelope == envelope,
            final(self).queue_view().last().content@ == content@,
            final(self).queue_view().last().interrupt_mode == mode,
            final(self).conversation_status_view() == (if old(self).turn_view() is Some {
                ConversationStatus::Running
            } else {
                ConversationStatus::Queued
            }),
            final(self).turn_view() == old(self).turn_view(),
            final(self).events_view() == old(self).events_view(),
            final(self).status_view() == old(self).status_view(),
            final(self).follows_view() == old(self).follows_view(),
            final(self).instance_view() == old(self).instance_view(),
            final(self).conversation_view() == old(self).conversation_view(),
    {
        self.pending_queue.push(QueuedMessage { envelope, content: owned(content), interrupt_mode: mode });
        self.conversation_status = if self.active_turn.is_some() { ConversationStatus::Running } else { ConversationStatus::Queued };
    }

    /// Drops all waiting input.
    pub fn clear_queue(&mut self)
        ensures
            final(self).queue_view() == Seq::<QueuedMessage>::empty(),
            final(self).conversation_status_view() == settled_status(old(self).turn_view() is Some, true),
            final(self).turn_view() == old(self).turn_view(),
            final(self).events_view() == old(self).events_view(),
            final(self).status_view() == old(self).status_view(),
            final(self).follows_view() == old(self).follows_view(),
            final(self).instance_view() == old(self).instance_view(),
            final(self).conversation_view() == old(self).conversation_view(),
    {
        self.pending_queue.clear();
        self.conversation_status = if self.active_turn.is_some() { ConversationStatus::Running } else { ConversationStatus::Idle };
    }

    /// Interrupts the turn in progress: a hard interrupt asks it to cancel, a
    /// soft one marks it interrupted, and either marks the conversation
    /// interrupted; other modes change nothing.
    pub fn interrupt(&mut self, mode: InterruptMode)
        ensures
            match old(self).turn_view() {
                Some(t) => final(self).turn_view() == Some(ActiveTurn { status: interrupted_status(t.status, mode), ..t }),
                None => final(self).turn_view() is None,
            },
            final(self).conversation_status_view() == (if mode == InterruptMode::SoftInterrupt || mode == InterruptMode::HardInterrupt {
                ConversationStatus::Interrupted
            } else {
                old(self).conversation_status_view()
            }),
            final(self).events_view() == old(self).events_view(),
            final(self).status_view() == old(self).status_view(),
            final(self).queue_view() == old(self).queue_view(),
            final(self).follows_view() == old(self).follows_view(),
            final(self).instance_view() == old(self).instance_view(),
            final(self).conversation_view() == old(self).conversation_view(),
    {
        let turn = self.active_turn.take();
        self.active_turn = match turn {
            Some(t) => {
                let status = match mode {
                    InterruptMode::HardInterrupt => TurnStatus::CancelRequested,
                    InterruptMode::SoftInterrupt => TurnStatus::Interrupted,
                    _ => t.status,
                };
                Some(ActiveTurn { status, ..t })
            },
            None => None,
        };
        match mode {
            InterruptMode::SoftInterrupt | InterruptMode::HardInterrupt => {
                self.conversation_status = ConversationStatus::Interrupted;
            },
            _ => {},
        }
    }

    /// Handles input from `envelope` with `requested_mode`. With no turn in
    /// progress it starts turn `turn_<position of the message>` (with the
    /// message as origin when it is external) and records the message; else
    /// it queues the input, appends it as context, or interrupts the turn,
    /// as the mode says.
    pub fn handle_ingress(&mut self, envelope: TransportEnvelope, content: &str, requested_mode: InterruptMode) -> (r: IngressResult)
        ensures
            r.decision == interrupt_decision(old(self).turn_view() is Some, requested_mode),
            r.accepted_source == envelope.source,
            r.event_count == final(self).events_view().len(),
            r.queue_len == final(self).queue_view().len(),
            match final(self).turn_view() {
                Some(t) => r.active_turn_id matches Some(id) && id@ == t.id@,
                None => r.active_turn_id is None,
            },
            final(self).follows_view() == old(self).follows_view(),
            final(self).instance_view() == old(self).instance_view(),
            final(self).conversation_view() == old(self).conversation_view(),
            final(self).status_view() == (if r.decision == InterruptDecision::StartTurn { RuntimeStatus::Idle } else { old(self).status_view() }),
            r.decision == InterruptDecision::StartTurn ==> {
                &&& final(self).turn_view() matches Some(t)
                    && t.id@ == "turn_"@ + decimal(old(self).events_view().len())
                    && t.status == TurnStatus::Running
                    && t.origin == (if envelope.source == GatewaySource::External { Some(envelope) } else { None })
                &&& final(self).events_view().len() == old(self).events_view().len() + 1
                &&& final(self).events_view().drop_last() == old(self).events_view()
                &&& final(self).events_view().last().seq == old(self).events_view().len()
                &&& final(self).events_view().last().kind == LedgerEventKind::Message
                &&& final(self).events_view().last().role == LedgerRole::User
                &&& final(self).events_view().last().content@ == content@
                &&& final(self).queue_view() == old(self).queue_view()
                &&& final(self).conversation_status_view() == ConversationStatus::Running
            },
            r.decision == InterruptDecision::Queue ==> {
                &&& final(self).queue_view().drop_last() == old(self).queue_view()
                &&& final(self).queue_view().len() == old(self).queue_view().len() + 1
                &&& final(self).queue_view().last().envelope == envelope
                &&& final(self).queue_view().last().content@ == content@
                &&& final(self).queue_view().last().interrupt_mode == requested_mode
                &&& final(self).events_view() == old(self).events_view()
                &&& final(self).turn_view() == old(self).turn_view()
                &&& final(self).conversation_status_view() == ConversationStatus::Running
            },
            r.decision == InterruptDecision::AppendContext ==> {
                &&& final(self).events_view() == old(self).events_view()
                &&& final(self).queue_view() == old(self).queue_view()
                &&& final(self).turn_view() == old(self).turn_view()
                &&& final(self).conversation_status_view() == ConversationStatus::Running
            },
            (r.decision == InterruptDecision::SoftInterrupt || r.decision == InterruptDecision::HardInterrupt) ==> {
                &&& final(self).events_view() == old(self).events_view()
                &&& final(self).queue_view() == old(self).queue_view()
                &&& old(self).turn_view() matches Some(t)
                    && final(self).turn_view() == Some(ActiveTurn { status: interrupted_status(t.status, requested_mode), ..t })
                &&& final(self).conversation_status_view() == ConversationStatus::Interrupted
            },
    {
        let accepted_source = envelope.source;
        let decision = self.decide_interrupt(&envelope, requested_mode);
        match decision {
            InterruptDecision::StartTurn => {
                let mut turn_id = owned("turn_");
                push_decimal(&mut turn_id, self.conversation.next_cursor() as u64);
                if accepted_source == GatewaySource::External {
                    self.begin_turn_with_origin(turn_id.as_str(), envelope.duplicate());
                } else {
                    self.begin_turn(turn_id.as_str());
                }
                self.status = RuntimeStatus::HandlingInput;
                let normalized = self.gateway.normalize_user_input(envelope, content);
                self.conversation.append(LedgerEvent { seq: 0, kind: LedgerEventKind::Message, role: LedgerRole::User, content: normalized.content });
                self.status = RuntimeStatus::Idle;
            },
            InterruptDecision::Queue => {
                self.queue_message(envelope, content, requested_mode);
            },
            InterruptDecision::AppendContext => {
                self.conversation_status = ConversationStatus::Running;
            },
            _ => {
                self.interrupt(requested_mode);
            },
        }
        IngressResult {
            accepted_source,
            event_count: self.conversation.events().len(),
            decision,
            active_turn_id: self.active_turn_id_string(),
            queue_len: self.pending_queue.len(),
        }
    }

    /// Records a reply and routes it: to the active views, to the external
    /// origin of the turn in progress, and to each follower whose cursor is
    /// not after the reply; at most one output per receiver, the first.
    pub fn append_assistant_output(&mut self, content: &str) -> (r: RoutedOutputs)
        ensures
            final(self).events_view() == old(self).events_view().push(LedgerEvent {
                seq: old(self).events_view().len() as usize,
                kind: LedgerEventKind::Message,
                role: LedgerRole::Assistant,
                content: final(self).events_view().last().content,
            }),
            final(self).events_view().last().content@ == content@,
            exists|outs: Seq<OutputEvent>|
                outs.map_values(|e: OutputEvent| output_key(e))
                    == reply_outputs(old(self).router_target_view(), old(self).turn_view(), old(self).follows_view(), old(self).events_view().len(), content@)
                && r.events@ == #[trigger] dedupe(outs),
            forall|a: int, b: int| 0 <= a < b < r.events@.len() ==>
                identity_key(#[trigger] r.events@[a].identity) != identity_key(#[trigger] r.events@[b].identity),
            final(self).conversation_status_view() == settled_status(old(self).turn_view() is Some, old(self).queue_view().len() == 0),
            final(self).router_target_view() == old(self).router_target_view(),
            final(self).turn_view() == old(self).turn_view(),
            final(self).queue_view() == old(self).queue_view(),
            final(self).follows_view() == old(self).follows_view(),
            final(self).status_view() == old(self).status_view(),
            final(self).instance_view() == old(self).instance_view(),
            final(self).conversation_view() == old(self).conversation_view(),
    {
        self.conversation_status = ConversationStatus::Running;
        let seq = self.conversation.next_cursor();
        self.conversation.append(LedgerEvent { seq: 0, kind: LedgerEventKind::Message, role: LedgerRole::Assistant, content: owned(content) });
        let mut events: Vec<OutputEvent> = Vec::new();
        events.push(self.output_router.route_reply(content));
        let ghost first = events@;
        match &self.active_turn {
            Some(t) => match &t.origin {
                Some(o) => match external_identity_from_envelope(o) {
                    Some(identity) => {
                        events.push(OutputEvent { target: OutputTarget::Origin, identity, content: owned(content) });
                    },
                    None => {},
                },
                None => {},
            },
            None => {},
        }
        let ghost start = events@;
        let ghost keys = |e: OutputEvent| output_key(e);
        assert(start.map_values(keys) =~= reply_outputs(self.output_router.target_view(), self.active_turn, Seq::empty(), seq as nat, content@).subrange(0, start.len() as int));
        let follows = self.follow_subscriptions.as_slice();
        let mut i: usize = 0;
        while i < follows.len()
            invariant
                i <= follows.len(),
                follows@ == self.follow_subscriptions.view_seq(),
                keys == (|e: OutputEvent| output_key(e)),
                start.len() <= events@.len(),
                events@.subrange(0, start.len() as int) == start,
                start.map_values(keys) + follower_outputs(follows@.subrange(0, i as int), seq as nat, content@)
                    == events@.map_values(keys),
            decreases follows.len() - i,
        {
            let f = &follows[i];
            let ghost before = events@;
            proof {
                let fs = follows@.subrange(0, i + 1);
                assert(fs.drop_last() =~= follows@.subrange(0, i as int));
                assert(fs.last() == follows@[i as int]);
            }
            if seq >= f.cursor {
                match external_identity_from_envelope(&f.envelope) {
                    Some(identity) => {
                        events.push(OutputEvent { target: OutputTarget::FollowedExternal, identity, content: owned(content) });
                        assert(events@.map_values(keys) =~= before.map_values(keys).push(output_key(events@.last())));
                        assert(events@.subrange(0, start.len() as int) =~= before.subrange(0, start.len() as int));
                    },
                    None => {},
                }
            }
            i = i + 1;
        }
        assert(follows@.subrange(0, follows.len() as int) =~= follows@);
        assert(events@.map_values(keys) =~= reply_outputs(self.output_router.target_view(), self.active_turn, self.follow_subscriptions.view_seq(), seq as nat, content@));
        self.conversation_status = if self.active_turn.is_some() {
            ConversationStatus::Running
        } else if self.pending_queue.len() == 0 {
            ConversationStatus::Idle
        } else {
            ConversationStatus::Queued
        };
        let ghost outs = events@;
        let r = dedupe_outputs(events);
        proof {
            lemma_dedupe_distinct(outs);
            assert(r.events@ == dedupe(outs));
        }
        r
    }

    /// The external receiver of the turn in progress, if it has one.
    pub fn active_turn_origin_identity(&self) -> (r: Option<DeliveryIdentity>)
        ensures
            match self.turn_view() {
                Some(t) => match t.origin {
                    Some(o) => match r {
                        Some(d) => external_key(o) is Some && identity_key(d) == external_key(o),
                        None => external_key(o) is None,
                    },
                    None => r is None,
                },
                None => r is None,
            },
    {
        match &self.active_turn {
            Some(t) => match &t.origin {
                Some(o) => external_identity_from_envelope(o),
                None => None,
            },
            None => None,
        }
    }

    /// The external receiver a message names, if it names a platform and a target.
    pub fn external_identity_from_envelope(envelope: &TransportEnvelope) -> (r: Option<DeliveryIdentity>)
        ensures
            match r {
                Some(d) => external_key(*envelope) is Some && identity_key(d) == external_key(*envelope),
                None => external_key(*envelope) is None,
            },
    {
        external_identity_from_envelope(envelope)
    }

    /// Its conversation.
    pub fn conversation(&self) -> (r: &ConversationController)
        ensures
            r.events_view() == self.events_view(),
            r.instance_view() == self.instance_view(),
            r.conversation_view() == self.conversation_view(),
    {
        &self.conversation
    }

    /// Whether it is handling input.
    pub fn status(&self) -> (r: &RuntimeStatus)
        ensures
            *r == self.status_view(),
    {
        &self.status
    }

    /// A summary of it.
    pub fn summary(&self) -> (r: RuntimeSummary)
        ensures
            r.instance_id@ == self.instance_view(),
            r.conversation_id@ == self.conversation_view(),
            r.event_count == self.events_view().len(),
            r.status == self.status_view(),
            r.queue_len == self.queue_view().len(),
            r.conversation_status == self.conversation_status_view(),
    {
        RuntimeSummary {
            instance_id: owned(self.conversation.instance_id()),
            conversation_id: owned(self.conversation.conversation_id()),
            event_count: self.conversation.events().len(),
            status: self.status,
            queue_len: self.pending_queue.len(),
            conversation_status: self.conversation_status,
        }
    }

    /// How much input waits.
    pub fn queue_len(&self) -> (r: usize)
        ensures
            r == self.queue_view().len(),
    {
        self.pending_queue.len()
    }

    /// How much input waits.
    pub fn pending_queue_len(&self) -> (r: usize)
        ensures
            r == self.queue_view().len(),
    {
        self.pending_queue.len()
    }

    /// The id of the turn in progress.
    pub fn active_turn_id(&self) -> (r: Option<&str>)
        ensures
            match self.turn_view() {
                Some(t) => r matches Some(id) && id@ == t.id@,
                None => r is None,
            },
    {
        match &self.active_turn {
            Some(t) => Some(t.id.as_str()),
            None => None,
        }
    }

    /// The turn in progress and the length of the queue.
    pub fn turn_state(&self) -> (r: TurnState)
        ensures
            match self.turn_view() {
                Some(t) => (r.active_turn_id matches Some(id) && id@ == t.id@) && r.active_turn_status == Some(t.status),
                None => r.active_turn_id is None && r.active_turn_status is None,
            },
            r.queue_len == self.queue_view().len(),
    {
        let status = match &self.active_turn {
            Some(t) => Some(t.status),
            None => None,
        };
        TurnState { active_turn_id: self.active_turn_id_string(), active_turn_status: status, queue_len: self.pending_queue.len() }
    }

    /// Has the external chat of `envelope` follow the replies written from now
    /// on, unless it names no chat or that chat already follows.
    pub fn follow_external(&mut self, envelope: TransportEnvelope)
        ensures
            (external_key(envelope) is None || exists|i: int| 0 <= i < old(self).follows_view().len()
                && external_key(#[trigger] old(self).follows_view()[i].envelope) == external_key(envelope))
                ==> final(self).follows_view() == old(self).follows_view(),
            !(external_key(envelope) is None || exists|i: int| 0 <= i < old(self).follows_view().len()
                && external_key(#[trigger] old(self).follows_view()[i].envelope) == external_key(envelope))
                ==> final(self).follows_view() == old(self).follows_view().push(FollowSubscription {
                    cursor: old(self).events_view().len() as usize,
                    envelope,
                }),
            follows_distinct(final(self).follows_view()),
            final(self).events_view() == old(self).events_view(),
            final(self).turn_view() == old(self).turn_view(),
            final(self).queue_view() == old(self).queue_view(),
            final(self).status_view() == old(self).status_view(),
            final(self).conversation_status_view() == old(self).conversation_status_view(),
            final(self).instance_view() == old(self).instance_view(),
            final(self).conversation_view() == old(self).conversation_view(),
    {
        proof { use_type_invariant(&self.follow_subscriptions); }
        let identity = match external_identity_from_envelope(&envelope) {
            Some(d) => d,
            None => {
                return;
            },
        };
        if self.follow_subscriptions.follows(&identity) {
            return;
        }
        let cursor = self.conversation.next_cursor();
        self.follow_subscriptions.add(FollowSubscription { cursor, envelope });
        proof { use_type_invariant(&self.follow_subscriptions); }
    }

    /// The external chats that follow it.
    pub fn follow_subscriptions(&self) -> (r: &[FollowSubscription])
        ensures
            r@ == self.follows_view(),
            follows_distinct(r@),
    {
        self.follow_subscriptions.as_slice()
    }

    /// How many external chats follow it.
    pub fn follow_count(&self) -> (r: usize)
        ensures
            r == self.follows_view().len(),
    {
        self.follow_subscriptions.as_slice().len()
    }

    /// Stops the external chat `identity` from following; whether it did follow.
    pub fn unfollow_external(&mut self, identity: &DeliveryIdentity) -> (removed: bool)
        ensures
            final(self).follows_view() == old(self).follows_view().filter(
                |f: FollowSubscription| external_key(f.envelope) != identity_key(*identity)),
            removed == (final(self).follows_view().len() != old(self).follows_view().len()),
            removed == exists|i: int| 0 <= i < old(self).follows_view().len()
                && external_key(#[trigger] old(self).follows_view()[i].envelope) == identity_key(*identity),
            follows_distinct(old(self).follows_view()),
            follows_distinct(final(self).follows_view()),
            final(self).events_view() == old(self).events_view(),
            final(self).turn_view() == old(self).turn_view(),
            final(self).queue_view() == old(self).queue_view(),
            final(self).status_view() == old(self).status_view(),
            final(self).conversation_status_view() == old(self).conversation_status_view(),
            final(self).instance_view() == old(self).instance_view(),
            final(self).conversation_view() == old(self).conversation_view(),
    {
        let original_len = self.follow_subscriptions.as_slice().len();
        let ghost before = self.follows_view();
        self.follow_subscriptions.remove(identity);
        let new_len = self.follow_subscriptions.as_slice().len();
        proof {
            lemma_filter_keeps_all(before, |f: FollowSubscription| external_key(f.envelope) != identity_key(*identity));
        }
        new_len != original_len
    }
}

/// A soft interrupt pauses a turn, whatever its status (`Interrupted`); a
/// hard interrupt asks for it to be cancelled (`CancelRequested`); the two
/// never agree; queueing and appending context leave the status as it was.
pub proof fn lemma_interrupt_modes(status: TurnStatus)
    ensures
        interrupted_status(status, InterruptMode::SoftInterrupt) == TurnStatus::Interrupted,
        interrupted_status(status, InterruptMode::HardInterrupt) == TurnStatus::CancelRequested,
        interrupted_status(status, InterruptMode::SoftInterrupt) != interrupted_status(status, InterruptMode::HardInterrupt),
        interrupted_status(status, InterruptMode::Queue) == status,
        interrupted_status(status, InterruptMode::AppendContext) == status,
{
}

} // verus!
