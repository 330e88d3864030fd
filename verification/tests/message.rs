use dbus_service::DBusCallHeaders;
use dbus_service::DBusMessage;
use dbus_service::DBusMessageKind;
use dbus_service::DBusValue;

fn call() -> DBusMessage {
    DBusMessage::method_call(
        12,
        Some(":1.5".to_string()),
        "org.example.Iface".to_string(),
        "Method".to_string(),
    )
}

#[test]
fn method_call_has_its_headers() {
    let msg = call();
    assert_eq!(msg.kind(), DBusMessageKind::MethodCall);
    assert_eq!(msg.serial(), 12);
    assert_eq!(msg.reply_serial(), None);
    assert_eq!(msg.sender(), Some(&":1.5".to_string()));
    assert_eq!(msg.destination(), None);
    assert_eq!(msg.interface(), Some(&"org.example.Iface".to_string()));
    assert_eq!(msg.member(), Some(&"Method".to_string()));
    assert_eq!(msg.error_name(), None);
    assert!(msg.arguments().is_empty());
}

#[test]
fn call_headers_of_a_call() {
    assert_eq!(
        call().call_headers(),
        Some(DBusCallHeaders {
            interface: "org.example.Iface".to_string(),
            method: "Method".to_string()
        })
    );
}

#[test]
fn call_headers_of_other_messages() {
    let signal =
        DBusMessage::signal(1, None, "org.example.Iface".to_string(), "Changed".to_string());
    assert_eq!(signal.kind(), DBusMessageKind::Signal);
    assert_eq!(signal.interface(), Some(&"org.example.Iface".to_string()));
    assert_eq!(signal.member(), Some(&"Changed".to_string()));
    assert_eq!(signal.call_headers(), None);
    assert_eq!(call().return_message().call_headers(), None);
    assert_eq!(call().error_message("org.example.Failed").call_headers(), None);
}

#[test]
fn return_message_answers_the_call() {
    let reply = call().return_message();
    assert_eq!(reply.kind(), DBusMessageKind::MethodReturn);
    assert_eq!(reply.serial(), 0);
    assert_eq!(reply.reply_serial(), Some(12));
    assert_eq!(reply.destination(), Some(&":1.5".to_string()));
    assert_eq!(reply.sender(), None);
    assert_eq!(reply.interface(), None);
    assert_eq!(reply.member(), None);
    assert_eq!(reply.error_name(), None);
    assert!(reply.arguments().is_empty());
}

#[test]
fn return_message_leaves_the_arguments_of_the_call() {
    let reply = call().add_argument(DBusValue::Int32(1)).return_message();
    assert!(reply.arguments().is_empty());
}

#[test]
fn error_message_carries_the_name() {
    let reply = call().error_message("org.example.Failed");
    assert_eq!(reply.kind(), DBusMessageKind::Error);
    assert_eq!(reply.error_name(), Some(&"org.example.Failed".to_string()));
    assert_eq!(reply.serial(), 0);
    assert_eq!(reply.reply_serial(), Some(12));
    assert_eq!(reply.destination(), Some(&":1.5".to_string()));
    assert_eq!(reply.sender(), None);
    assert!(reply.arguments().is_empty());
}

#[test]
fn reply_to_an_anonymous_call_has_no_destination() {
    let anonymous =
        DBusMessage::method_call(3, None, "org.example.Iface".to_string(), "Method".to_string());
    assert_eq!(anonymous.return_message().destination(), None);
    assert_eq!(anonymous.error_message("org.example.Failed").destination(), None);
}

#[test]
fn arguments_are_added_behind() {
    let msg = call()
        .add_argument(DBusValue::Int32(1))
        .add_argument(DBusValue::String("two".to_string()));
    assert_eq!(
        msg.arguments(),
        &vec![DBusValue::Int32(1), DBusValue::String("two".to_string())]
    );
    let msg = msg.add_arguments(vec![DBusValue::Byte(3), DBusValue::Boolean(false)]);
    assert_eq!(
        msg.arguments(),
        &vec![
            DBusValue::Int32(1),
            DBusValue::String("two".to_string()),
            DBusValue::Byte(3),
            DBusValue::Boolean(false)
        ]
    );
    let msg = msg.add_arguments(Vec::new());
    assert_eq!(msg.arguments().len(), 4);
    assert_eq!(msg.serial(), 12);
    assert_eq!(msg.kind(), DBusMessageKind::MethodCall);
}

#[test]
fn clone_is_equal() {
    let msg = call().add_argument(DBusValue::UInt64(9));
    assert_eq!(msg.clone(), msg);
    let reply = msg.error_message("org.example.Failed").add_argument(DBusValue::Byte(1));
    assert_eq!(reply.clone(), reply);
}
