use superide::sdk::event::{AiSurface, SuperEvent};
use superide::services::event_bus::{event_topic, EventBus};

#[test]
fn test_ai_requested_event() {
    let event = SuperEvent::AiRequested { surface: AiSurface::Chat };
    assert_eq!(event, SuperEvent::AiRequested { surface: AiSurface::Chat });
}

#[test]
fn test_custom_event() {
    let event = SuperEvent::Custom { topic: "test.topic".to_string(), payload: "test payload".to_string() };
    match &event {
        SuperEvent::Custom { topic, payload } => {
            assert_eq!(topic, "test.topic");
            assert_eq!(payload, "test payload");
        }
        _ => panic!("Wrong event variant"),
    }
}

#[test]
fn test_event_clone() {
    let event = SuperEvent::WorkspaceOpened { root: "/home/test".to_string() };
    let cloned = event.clone();
    assert_eq!(event, cloned);
}

#[test]
fn topics_of_events() {
    assert_eq!(event_topic(&SuperEvent::FileSaved { path: "a".to_string() }), "file.saved");
    assert_eq!(event_topic(&SuperEvent::GitStatusChanged { workspace: "w".to_string() }), "git.status_changed");
    assert_eq!(
        event_topic(&SuperEvent::Custom { topic: "my.topic".to_string(), payload: String::new() }),
        "my.topic"
    );
}

#[test]
fn publish_reaches_subscribers_of_the_topic_in_order() {
    let mut bus = EventBus::new();
    let a = bus.subscribe("file.saved");
    let b = bus.subscribe("file.opened");
    let c = bus.subscribe("file.saved");
    assert_eq!((a, b, c), (1, 2, 3));
    assert_eq!(bus.publish(&SuperEvent::FileSaved { path: "x".to_string() }), vec![1, 3]);
    assert_eq!(bus.publish(&SuperEvent::FileOpened { path: "x".to_string() }), vec![2]);
    assert!(bus.publish(&SuperEvent::AgentStarted { agent_id: "n".to_string() }).is_empty());
}
