use dbus_service::DBusConnection;
use dbus_service::DBusError;
use dbus_service::DBusMessage;

fn message(serial: u32) -> DBusMessage {
    DBusMessage::signal(serial, None, "org.example.Iface".to_string(), "Tick".to_string())
}

#[test]
fn new_connection_is_open_and_empty() {
    let mut conn = DBusConnection::new();
    assert!(conn.connected());
    assert_eq!(conn.pending(), 0);
    assert!(conn.take_outgoing().is_empty());
}

#[test]
fn sent_messages_wait_in_order() {
    let mut conn = DBusConnection::new();
    assert_eq!(conn.send(message(1)), Ok(()));
    assert_eq!(conn.send(message(2)), Ok(()));
    assert_eq!(conn.send(message(3)), Ok(()));
    assert_eq!(conn.pending(), 3);
    let taken = conn.take_outgoing();
    assert_eq!(taken, vec![message(1), message(2), message(3)]);
    assert_eq!(conn.pending(), 0);
    assert!(conn.connected());
    assert_eq!(conn.send(message(4)), Ok(()));
    assert_eq!(conn.take_outgoing(), vec![message(4)]);
}

#[test]
fn closed_connection_refuses_messages() {
    let mut conn = DBusConnection::new();
    assert_eq!(conn.send(message(1)), Ok(()));
    conn.close();
    assert!(!conn.connected());
    assert_eq!(conn.send(message(2)), Err(DBusError::Disconnected));
    assert_eq!(conn.pending(), 1);
    assert_eq!(conn.take_outgoing(), vec![message(1)]);
    assert!(!conn.connected());
    conn.close();
    assert_eq!(conn.send(message(3)), Err(DBusError::Disconnected));
    assert_eq!(conn.pending(), 0);
}
