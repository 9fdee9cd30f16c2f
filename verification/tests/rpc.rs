use autoloop_engine::rpc::{
    command_effect, command_text, drain_rpc_events, CommandEffect, RpcCommand, RpcEvent,
};

#[test]
fn drained_events_keep_their_order() {
    let polled = Some(vec![vec!["start"], vec![], vec!["route", "ask"], vec!["text"]]);
    assert_eq!(
        drain_rpc_events(polled),
        vec![
            RpcEvent::Mapped("start"),
            RpcEvent::Mapped("route"),
            RpcEvent::Mapped("ask"),
            RpcEvent::Mapped("text"),
        ]
    );
}

#[test]
fn a_poll_without_events_emits_nothing() {
    assert!(drain_rpc_events::<u8>(None).is_empty());
    assert!(drain_rpc_events::<u8>(Some(vec![])).is_empty());
    assert!(drain_rpc_events::<u8>(Some(vec![vec![], vec![]])).is_empty());
}

#[test]
fn blank_lines_hold_no_command() {
    assert_eq!(command_text(""), None);
    assert_eq!(command_text("  \t\r"), None);
}

#[test]
fn a_command_is_read_without_the_space_around_it() {
    let line = "  {\"type\":\"abort\"}\r";
    assert_eq!(command_text(line), Some("{\"type\":\"abort\"}"));
}

#[test]
fn only_abort_cancels() {
    assert_eq!(command_effect(Some(RpcCommand::Abort)), CommandEffect::Cancel);
    for other in [
        RpcCommand::Prompt,
        RpcCommand::Guidance,
        RpcCommand::Steer,
        RpcCommand::FollowUp,
        RpcCommand::GetState,
        RpcCommand::GetIterations,
        RpcCommand::SetHat,
    ] {
        assert_eq!(command_effect(Some(other)), CommandEffect::Ignored);
    }
    assert_eq!(command_effect(None), CommandEffect::Malformed);
}
