use dbus_service::DBusArgument;
use dbus_service::DBusError;
use dbus_service::DBusInterface;
use dbus_service::DBusInterfaceMap;
use dbus_service::DBusMessage;
use dbus_service::DBusMethod;
use dbus_service::DBusMethodHandler;
use dbus_service::DBusProperty;
use dbus_service::DBusPropertyGetResult;
use dbus_service::DBusPropertyReadHandler;
use dbus_service::DBusPropertyReadWriteHandler;
use dbus_service::DBusPropertyWriteHandler;
use dbus_service::DBusSignal;
use dbus_service::DBusSignature;
use dbus_service::DBusValue;

type Reader = Box<dyn DBusPropertyReadHandler>;
type ReadWriter = Box<dyn DBusPropertyReadWriteHandler>;
type Writer = Box<dyn DBusPropertyWriteHandler>;
type Property = DBusProperty<Reader, ReadWriter, Writer>;
type Interface = DBusInterface<DBusMethodHandler, Reader, ReadWriter, Writer>;
type Registry = DBusInterfaceMap<DBusMethodHandler, Reader, ReadWriter, Writer>;

struct Fixed(u8);

impl DBusPropertyReadHandler for Fixed {
    fn get(&self) -> DBusPropertyGetResult {
        Ok(DBusValue::Byte(self.0))
    }
}

fn arg(name: &str, signature: &str) -> DBusArgument {
    DBusArgument::new(name.to_string(), signature.to_string())
}

fn method(
    in_args: Vec<DBusArgument>,
    out_args: Vec<DBusArgument>,
) -> DBusMethod<DBusMethodHandler> {
    DBusMethod::new(in_args, out_args, Box::new(|_msg: &DBusMessage| Ok(Vec::new())), Vec::new())
}

fn plain_method() -> DBusMethod<DBusMethodHandler> {
    method(Vec::new(), Vec::new())
}

fn property(signature: &str) -> Property {
    let signature = match DBusSignature::parse(signature) {
        Some(signature) => signature,
        None => panic!("not a signature"),
    };
    Property::read_only(signature, Box::new(Fixed(1)), Vec::new())
}

fn signal(args: Vec<DBusArgument>) -> DBusSignal {
    DBusSignal::new(args, Vec::new())
}

fn registry_of(interfaces: Vec<(&str, Interface)>) -> Registry {
    let mut registry = Registry::new();
    for (name, iface) in interfaces {
        registry.add_interface(name.to_string(), iface);
    }
    registry
}

fn fault_of(iface: Interface) -> Option<DBusError> {
    registry_of(vec![("org.example.One", iface)]).finalize().err()
}

fn one() -> String {
    "org.example.One".to_string()
}

#[test]
fn new_registry_is_being_built() {
    let registry = Registry::new();
    assert!(!registry.serving());
    assert!(registry.interface(&"org.example.One".to_string()).is_none());
}

#[test]
fn finalize_makes_a_consistent_registry_serve() {
    let mut iface = Interface::new();
    iface.add_method("Get".to_string(), method(vec![arg("key", "s")], vec![arg("value", "u")]));
    iface.add_property("Size".to_string(), property("t"));
    iface.add_signal("Changed".to_string(), signal(vec![arg("key", "s")]));
    let registry =
        registry_of(vec![("org.example.One", iface), ("org.example.Two", Interface::new())]);
    assert!(!registry.serving());
    let registry = match registry.finalize() {
        Ok(registry) => registry,
        Err(e) => panic!("refused: {:?}", e),
    };
    assert!(registry.serving());
    let one = match registry.interface(&"org.example.One".to_string()) {
        Some(one) => one,
        None => panic!("the interface is gone"),
    };
    assert!(one.method(&"Get".to_string()).is_some());
    assert!(one.method(&"Size".to_string()).is_none());
    assert!(one.property(&"Size".to_string()).is_some());
    assert!(one.property(&"Changed".to_string()).is_none());
    assert!(one.signal(&"Changed".to_string()).is_some());
    assert!(one.signal(&"Get".to_string()).is_none());
    assert!(registry.interface(&"org.example.Two".to_string()).is_some());
    assert!(registry.interface(&"org.example.Three".to_string()).is_none());
}

#[test]
fn finalize_twice_keeps_serving() {
    let registry = registry_of(vec![("org.example.One", Interface::new())]);
    let registry = match registry.finalize() {
        Ok(registry) => registry,
        Err(e) => panic!("refused: {:?}", e),
    };
    let registry = match registry.finalize() {
        Ok(registry) => registry,
        Err(e) => panic!("refused: {:?}", e),
    };
    assert!(registry.serving());
    assert!(registry.interface(&"org.example.One".to_string()).is_some());
}

#[test]
fn duplicate_interface_is_refused() {
    let registry = registry_of(vec![
        ("org.example.One", Interface::new()),
        ("org.example.Two", Interface::new()),
        ("org.example.One", Interface::new()),
    ]);
    assert_eq!(
        registry.finalize().err(),
        Some(DBusError::DuplicateInterface { interface: one() })
    );
}

#[test]
fn first_repeated_interface_name_is_reported() {
    let registry = registry_of(vec![
        ("org.example.One", Interface::new()),
        ("org.example.Two", Interface::new()),
        ("org.example.Three", Interface::new()),
        ("org.example.Three", Interface::new()),
        ("org.example.One", Interface::new()),
        ("org.example.Two", Interface::new()),
    ]);
    assert_eq!(
        registry.finalize().err(),
        Some(DBusError::DuplicateInterface { interface: "org.example.Three".to_string() })
    );
}

#[test]
fn duplicate_method_is_refused() {
    let mut iface = Interface::new();
    iface.add_method("Get".to_string(), plain_method());
    iface.add_method("Set".to_string(), plain_method());
    iface.add_method("Set".to_string(), plain_method());
    iface.add_method("Get".to_string(), plain_method());
    let fault = DBusError::DuplicateMethod { interface: one(), method: "Set".to_string() };
    assert_eq!(iface.validate("org.example.One"), Err(fault.clone()));
    assert_eq!(fault_of(iface), Some(fault));
}

#[test]
fn duplicate_property_is_refused() {
    let mut iface = Interface::new();
    iface.add_property("Size".to_string(), property("u"));
    iface.add_property("Size".to_string(), property("t"));
    let fault = DBusError::DuplicateProperty { interface: one(), property: "Size".to_string() };
    assert_eq!(iface.validate("org.example.One"), Err(fault.clone()));
    assert_eq!(fault_of(iface), Some(fault));
}

#[test]
fn duplicate_signal_is_refused() {
    let mut iface = Interface::new();
    iface.add_signal("Changed".to_string(), signal(Vec::new()));
    iface.add_signal("Changed".to_string(), signal(Vec::new()));
    let fault = DBusError::DuplicateSignal { interface: one(), signal: "Changed".to_string() };
    assert_eq!(iface.validate("org.example.One"), Err(fault.clone()));
    assert_eq!(fault_of(iface), Some(fault));
}

#[test]
fn one_name_may_serve_in_each_kind() {
    let mut iface = Interface::new();
    iface.add_method("Volume".to_string(), plain_method());
    iface.add_property("Volume".to_string(), property("u"));
    iface.add_signal("Volume".to_string(), signal(Vec::new()));
    assert_eq!(iface.validate("org.example.One"), Ok(()));
    assert_eq!(fault_of(iface), None);
}

#[test]
fn one_member_name_may_serve_in_two_interfaces() {
    let mut one = Interface::new();
    one.add_method("Get".to_string(), plain_method());
    let mut two = Interface::new();
    two.add_method("Get".to_string(), plain_method());
    let registry = registry_of(vec![("org.example.One", one), ("org.example.Two", two)]);
    assert!(registry.finalize().is_ok());
}

#[test]
fn argument_with_two_types_is_refused() {
    let mut iface = Interface::new();
    iface.add_method("Put".to_string(), plain_method());
    iface.add_method("Get".to_string(), method(vec![arg("both", "ii")], Vec::new()));
    iface.add_method("Set".to_string(), method(vec![arg("odd", "z")], Vec::new()));
    let fault = DBusError::InvalidMethod { interface: one(), method: "Get".to_string() };
    assert_eq!(iface.validate("org.example.One"), Err(fault.clone()));
    assert_eq!(fault_of(iface), Some(fault));
}

#[test]
fn argument_without_a_type_is_refused() {
    let mut iface = Interface::new();
    iface.add_method("Get".to_string(), method(Vec::new(), vec![arg("none", "")]));
    assert_eq!(
        fault_of(iface),
        Some(DBusError::InvalidMethod { interface: one(), method: "Get".to_string() })
    );
}

#[test]
fn argument_of_unknown_type_is_refused() {
    let mut iface = Interface::new();
    iface.add_method("Get".to_string(), method(vec![arg("odd", "z")], Vec::new()));
    assert_eq!(
        fault_of(iface),
        Some(DBusError::InvalidMethod { interface: one(), method: "Get".to_string() })
    );
    let mut iface = Interface::new();
    iface.add_signal("Changed".to_string(), signal(vec![arg("ok", "s"), arg("odd", "I")]));
    assert_eq!(
        fault_of(iface),
        Some(DBusError::InvalidSignal { interface: one(), signal: "Changed".to_string() })
    );
}

#[test]
fn property_of_several_types_is_refused() {
    let mut iface = Interface::new();
    iface.add_property("Size".to_string(), property("u"));
    iface.add_property("Pair".to_string(), property("su"));
    assert_eq!(
        fault_of(iface),
        Some(DBusError::InvalidProperty { interface: one(), property: "Pair".to_string() })
    );
    let mut iface = Interface::new();
    iface.add_property("Nothing".to_string(), property(""));
    assert_eq!(
        fault_of(iface),
        Some(DBusError::InvalidProperty { interface: one(), property: "Nothing".to_string() })
    );
}

#[test]
fn faults_are_reported_in_a_fixed_order() {
    let mut iface = Interface::new();
    iface.add_signal("Changed".to_string(), signal(Vec::new()));
    iface.add_signal("Changed".to_string(), signal(Vec::new()));
    let name = "org.example.One";
    assert_eq!(
        iface.validate(name),
        Err(DBusError::DuplicateSignal { interface: one(), signal: "Changed".to_string() })
    );
    iface.add_property("Pair".to_string(), property("su"));
    assert_eq!(
        iface.validate(name),
        Err(DBusError::InvalidProperty { interface: one(), property: "Pair".to_string() })
    );
    iface.add_property("Pair".to_string(), property("u"));
    assert_eq!(
        iface.validate(name),
        Err(DBusError::DuplicateProperty { interface: one(), property: "Pair".to_string() })
    );
    iface.add_method("Get".to_string(), method(vec![arg("odd", "z")], Vec::new()));
    assert_eq!(
        iface.validate(name),
        Err(DBusError::InvalidMethod { interface: one(), method: "Get".to_string() })
    );
    iface.add_method("Get".to_string(), plain_method());
    assert_eq!(
        iface.validate(name),
        Err(DBusError::DuplicateMethod { interface: one(), method: "Get".to_string() })
    );
}

#[test]
fn first_faulty_interface_is_reported() {
    let mut second = Interface::new();
    second.add_signal("Changed".to_string(), signal(Vec::new()));
    second.add_signal("Changed".to_string(), signal(Vec::new()));
    let mut third = Interface::new();
    third.add_method("Get".to_string(), plain_method());
    third.add_method("Get".to_string(), plain_method());
    let registry = registry_of(vec![
        ("org.example.One", Interface::new()),
        ("org.example.Two", second),
        ("org.example.Three", third),
    ]);
    assert_eq!(
        registry.finalize().err(),
        Some(DBusError::DuplicateSignal {
            interface: "org.example.Two".to_string(),
            signal: "Changed".to_string()
        })
    );
}

#[test]
fn duplicate_interface_comes_before_faults_inside() {
    let mut faulty = Interface::new();
    faulty.add_method("Get".to_string(), plain_method());
    faulty.add_method("Get".to_string(), plain_method());
    let registry = registry_of(vec![
        ("org.example.One", faulty),
        ("org.example.Two", Interface::new()),
        ("org.example.Two", Interface::new()),
    ]);
    assert_eq!(
        registry.finalize().err(),
        Some(DBusError::DuplicateInterface { interface: "org.example.Two".to_string() })
    );
}
