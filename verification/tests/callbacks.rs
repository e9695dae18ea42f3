use tun_shim::tun_callbacks::{NotificationBus, RecordingCallback};

fn recorded(bus: &NotificationBus<RecordingCallback>) -> Vec<i32> {
    bus.current_callback()
        .as_ref()
        .expect("a callback should be registered")
        .recorded()
        .clone()
}

#[test]
fn fresh_bus_dispatches_to_noop() {
    let mut bus = NotificationBus::<RecordingCallback>::new();
    bus.on_socket_created(5);
    assert!(bus.current_callback().is_none());
}

#[test]
fn dispatch_reaches_registered_callback_with_exact_handle() {
    let mut bus = NotificationBus::new();
    bus.set_socket_created_callback(Some(RecordingCallback::new()));
    bus.on_socket_created(42);
    bus.on_socket_created(0);
    bus.on_socket_created(-7);
    bus.on_socket_created(i32::MIN);
    assert_eq!(recorded(&bus), vec![42, 0, -7, i32::MIN]);
}

#[test]
fn reset_callback_restores_noop() {
    let mut bus = NotificationBus::new();
    bus.set_socket_created_callback(Some(RecordingCallback::new()));
    bus.on_socket_created(1);
    assert_eq!(recorded(&bus), vec![1]);
    bus.set_socket_created_callback(None);
    bus.on_socket_created(99);
    assert!(bus.current_callback().is_none());
    bus.set_socket_created_callback(Some(RecordingCallback::new()));
    bus.on_socket_created(2);
    assert_eq!(recorded(&bus), vec![2]);
}

#[test]
fn replacing_callback_redirects_dispatch() {
    let mut bus = NotificationBus::new();
    bus.set_socket_created_callback(Some(RecordingCallback::new()));
    bus.on_socket_created(10);
    bus.set_socket_created_callback(Some(RecordingCallback::new()));
    bus.on_socket_created(20);
    assert_eq!(recorded(&bus), vec![20]);
}
