use dbus_service::descriptor::arguments_signature;
use dbus_service::descriptor::arguments_well_typed;
use dbus_service::DBusAnnotation;
use dbus_service::DBusAnnotations;
use dbus_service::DBusArgument;
use dbus_service::DBusErrorMessage;
use dbus_service::DBusSignal;

fn arg(name: &str, signature: &str) -> DBusArgument {
    DBusArgument::new(name.to_string(), signature.to_string())
}

#[test]
fn argument_keeps_name_and_signature() {
    let a = arg("count", "u");
    assert_eq!(a.name(), "count");
    assert_eq!(a.signature(), "u");
    assert_eq!(a.clone(), a);
    assert_ne!(a, arg("count", "i"));
}

#[test]
fn annotation_keeps_name_and_value() {
    let a = DBusAnnotation::new(
        "org.freedesktop.DBus.Deprecated".to_string(),
        "true".to_string(),
    );
    assert_eq!(a.name(), "org.freedesktop.DBus.Deprecated");
    assert_eq!(a.value(), "true");
    assert_eq!(a.clone(), a);
}

#[test]
fn error_message_keeps_name_and_detail() {
    let e = DBusErrorMessage::new("org.example.Failed".to_string(), "bad input".to_string());
    assert_eq!(e.name(), "org.example.Failed");
    assert_eq!(e.message(), "bad input");
    assert_eq!(e.clone(), e);
    assert_eq!(e.into_parts(), ("org.example.Failed".to_string(), "bad input".to_string()));
}

#[test]
fn declared_signature_joins_the_arguments() {
    assert_eq!(arguments_signature(&Vec::new()), "");
    assert_eq!(arguments_signature(&vec![arg("a", "i"), arg("b", "i")]), "ii");
    assert_eq!(arguments_signature(&vec![arg("a", "s"), arg("b", ""), arg("c", "ut")]), "sut");
}

#[test]
fn well_typed_arguments_have_one_type_each() {
    assert!(arguments_well_typed(&Vec::new()));
    assert!(arguments_well_typed(&vec![arg("a", "i"), arg("b", "s")]));
    assert!(!arguments_well_typed(&vec![arg("a", "i"), arg("b", "")]));
    assert!(!arguments_well_typed(&vec![arg("a", "ii")]));
    assert!(!arguments_well_typed(&vec![arg("a", "z"), arg("b", "i")]));
}

#[test]
fn signal_keeps_its_description() {
    let anns: DBusAnnotations =
        vec![DBusAnnotation::new("org.example.Note".to_string(), "often".to_string())];
    let signal = DBusSignal::new(vec![arg("key", "s"), arg("value", "u")], anns);
    assert_eq!(signal.arguments(), &vec![arg("key", "s"), arg("value", "u")]);
    assert_eq!(signal.get_annotations().len(), 1);
    assert_eq!(signal.get_annotations()[0].value(), "often");
    assert!(signal.is_well_typed());
    assert!(!DBusSignal::new(vec![arg("pair", "su")], Vec::new()).is_well_typed());
}
