use aicore_kernel::default_runtime;
use aicore_kernel::instance::model::{
    dedupe_outputs, ConversationStatus, DeliveryIdentity, GatewaySource, OutputEvent, OutputTarget, TransportEnvelope,
};
use aicore_kernel::instance::runtime::{InterruptDecision, InterruptMode, TurnStatus};

fn cli() -> TransportEnvelope {
    TransportEnvelope { source: GatewaySource::Cli, platform: None, target_id: None, sender_id: None, is_group: false, mentioned_bot: false }
}

fn external(platform: &str, target: &str) -> TransportEnvelope {
    TransportEnvelope {
        source: GatewaySource::External,
        platform: Some(platform.to_string()),
        target_id: Some(target.to_string()),
        sender_id: Some("user".to_string()),
        is_group: false,
        mentioned_bot: true,
    }
}

#[test]
fn first_input_starts_a_turn_and_later_input_follows_the_mode() {
    let mut runtime = default_runtime();
    let first = runtime.handle_ingress(cli(), "hello", InterruptMode::Queue);
    assert_eq!(first.decision, InterruptDecision::StartTurn);
    assert_eq!(first.active_turn_id.as_deref(), Some("turn_0"));
    assert_eq!(first.event_count, 1);

    let second = runtime.handle_ingress(cli(), "more", InterruptMode::Queue);
    assert_eq!(second.decision, InterruptDecision::Queue);
    assert_eq!(second.queue_len, 1);
    assert_eq!(second.event_count, 1);

    let third = runtime.handle_ingress(cli(), "stop", InterruptMode::HardInterrupt);
    assert_eq!(third.decision, InterruptDecision::HardInterrupt);
    assert_eq!(runtime.turn_state().active_turn_status, Some(TurnStatus::CancelRequested));
    assert_eq!(runtime.summary().conversation_status, ConversationStatus::Interrupted);
}

#[test]
fn replies_go_once_to_each_receiver() {
    let mut runtime = default_runtime();
    runtime.follow_external(external("chat", "room-1"));
    runtime.follow_external(external("chat", "room-1"));
    assert_eq!(runtime.follow_count(), 1);
    runtime.handle_ingress(external("chat", "room-1"), "hi", InterruptMode::Queue);

    let routed = runtime.append_assistant_output("answer");

    assert_eq!(routed.events.len(), 2);
    assert_eq!(routed.events[0].target, OutputTarget::ActiveViews);
    assert_eq!(routed.events[1].target, OutputTarget::Origin);
    assert_eq!(
        routed.events[1].identity,
        DeliveryIdentity::External { platform: "chat".to_string(), target_id: "room-1".to_string() }
    );
    assert_eq!(runtime.conversation().events().len(), 2);
    assert_eq!(runtime.conversation().events()[1].seq, 1);
}

#[test]
fn unfollow_removes_the_follower() {
    let mut runtime = default_runtime();
    runtime.follow_external(external("chat", "a"));
    runtime.follow_external(external("chat", "b"));
    let identity = DeliveryIdentity::External { platform: "chat".to_string(), target_id: "a".to_string() };
    assert!(runtime.unfollow_external(&identity));
    assert!(!runtime.unfollow_external(&identity));
    assert_eq!(runtime.follow_count(), 1);
    runtime.follow_external(cli());
    assert_eq!(runtime.follow_count(), 1);
}

#[test]
fn dedupe_keeps_first_output_per_receiver() {
    let views = |c: &str| OutputEvent { target: OutputTarget::ActiveViews, identity: DeliveryIdentity::ActiveViews, content: c.to_string() };
    let routed = dedupe_outputs(vec![views("a"), views("b")]);
    assert_eq!(routed.events.len(), 1);
    assert_eq!(routed.events[0].content, "a");
}

#[test]
fn completing_a_turn_with_waiting_input_queues_the_conversation() {
    let mut runtime = default_runtime();
    runtime.handle_ingress(cli(), "one", InterruptMode::Queue);
    runtime.handle_ingress(cli(), "two", InterruptMode::Queue);
    runtime.complete_turn();
    assert_eq!(runtime.summary().conversation_status, ConversationStatus::Queued);
    runtime.clear_queue();
    assert_eq!(runtime.summary().conversation_status, ConversationStatus::Idle);
    assert_eq!(runtime.queue_len(), 0);
}
