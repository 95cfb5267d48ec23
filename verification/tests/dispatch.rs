use swampbot::dispatch::{dispatch, Dispatch, GatewayEvent, SYNC_ACTION};
use swampbot::sync::SyncRequest;

#[test]
fn the_sync_button_is_called_sync() {
    assert_eq!(SYNC_ACTION, "sync");
}

#[test]
fn the_sync_button_starts_a_sync() {
    let event = GatewayEvent::Component { custom_id: "sync".to_string(), user_id: 42, guild_id: Some(9000) };
    assert_eq!(dispatch(event), Dispatch::Sync { request: SyncRequest { user_id: 42, guild_id: Some(9000) } });
}

#[test]
fn the_sync_button_outside_a_guild_still_starts_a_sync() {
    let event = GatewayEvent::Component { custom_id: "sync".to_string(), user_id: 42, guild_id: None };
    assert_eq!(dispatch(event), Dispatch::Sync { request: SyncRequest { user_id: 42, guild_id: None } });
}

#[test]
fn any_other_component_is_ignored() {
    for custom_id in ["", "Sync", "sync ", " sync", "syn", "syncs", "link", "s\u{fd}nc"] {
        let event = GatewayEvent::Component { custom_id: custom_id.to_string(), user_id: 42, guild_id: Some(9000) };
        assert_eq!(dispatch(event), Dispatch::Ignore);
    }
}

#[test]
fn a_message_goes_to_the_watcher() {
    let event = GatewayEvent::Message { channel_id: 5, message_id: 6 };
    assert_eq!(dispatch(event), Dispatch::Watch { channel_id: 5, message_id: 6 });
}

#[test]
fn readiness_is_announced() {
    let event = GatewayEvent::Ready { user_name: "Swampbot".to_string() };
    assert_eq!(dispatch(event), Dispatch::Announce { user_name: "Swampbot".to_string() });
}

#[test]
fn everything_else_is_ignored() {
    assert_eq!(dispatch(GatewayEvent::Other), Dispatch::Ignore);
}
