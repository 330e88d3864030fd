use dbus_service::value::names_single_type;
use dbus_service::value::type_code_is_known;
use dbus_service::value::values_signature;
use dbus_service::DBusSignature;
use dbus_service::DBusValue;

fn one_of_each() -> Vec<DBusValue> {
    vec![
        DBusValue::Byte(1),
        DBusValue::Boolean(true),
        DBusValue::Int16(-2),
        DBusValue::UInt16(2),
        DBusValue::Int32(-3),
        DBusValue::UInt32(3),
        DBusValue::Int64(-4),
        DBusValue::UInt64(4),
        DBusValue::Double(0x4014_0000_0000_0000),
        DBusValue::String("text".to_string()),
        DBusValue::ObjectPath("/org/example".to_string()),
        DBusValue::Signature("su".to_string()),
    ]
}

#[test]
fn every_value_has_its_type_code() {
    let codes: Vec<char> = one_of_each().iter().map(|v| v.type_code()).collect();
    assert_eq!(codes, vec!['y', 'b', 'n', 'q', 'i', 'u', 'x', 't', 'd', 's', 'o', 'g']);
}

#[test]
fn type_signature_is_the_code_as_text() {
    for value in one_of_each() {
        assert_eq!(value.type_signature(), value.type_code().to_string());
    }
}

#[test]
fn signature_of_values_lists_their_codes() {
    assert_eq!(values_signature(&one_of_each()), "ybnqiuxtdsog");
    assert_eq!(values_signature(&Vec::new()), "");
    assert_eq!(values_signature(&vec![DBusValue::Int32(2), DBusValue::Int32(3)]), "ii");
    assert_eq!(DBusSignature::of_values(&one_of_each()).as_str(), "ybnqiuxtdsog");
    assert_eq!(DBusSignature::of_values(&Vec::new()).as_str(), "");
}

#[test]
fn known_type_codes_are_the_twelve() {
    let known: String = ('\0'..='\u{7f}').filter(|c| type_code_is_known(*c)).collect();
    assert_eq!(known, "bdginoqstuxy");
    assert!(!type_code_is_known('é'));
    assert!(!type_code_is_known('I'));
}

#[test]
fn parse_accepts_strings_of_type_codes() {
    for text in ["", "i", "ii", "sus", "ybnqiuxtdsog"] {
        match DBusSignature::parse(text) {
            Some(signature) => assert_eq!(signature.as_str(), text),
            None => panic!("{:?} is a signature", text),
        }
    }
}

#[test]
fn parse_refuses_other_characters() {
    for text in ["z", "iz", "zi", "i i", "I", "a", "(ii)", "v", "ié", "é"] {
        assert_eq!(DBusSignature::parse(text), None);
    }
}

#[test]
fn single_type_is_one_code() {
    let single = |text: &str| match DBusSignature::parse(text) {
        Some(signature) => signature.is_single(),
        None => panic!("{:?} is a signature", text),
    };
    assert!(single("i"));
    assert!(single("s"));
    assert!(!single(""));
    assert!(!single("ii"));
    assert!(names_single_type("u"));
    assert!(!names_single_type(""));
    assert!(!names_single_type("uu"));
    assert!(!names_single_type("z"));
    assert!(!names_single_type("é"));
}

#[test]
fn signature_admits_values_of_its_one_type() {
    let int32 = match DBusSignature::parse("i") {
        Some(signature) => signature,
        None => panic!("a signature"),
    };
    assert!(int32.admits(&DBusValue::Int32(7)));
    assert!(!int32.admits(&DBusValue::UInt32(7)));
    assert!(!int32.admits(&DBusValue::String("7".to_string())));
    let pair = match DBusSignature::parse("ii") {
        Some(signature) => signature,
        None => panic!("a signature"),
    };
    assert!(!pair.admits(&DBusValue::Int32(7)));
    let empty = match DBusSignature::parse("") {
        Some(signature) => signature,
        None => panic!("a signature"),
    };
    assert!(!empty.admits(&DBusValue::Int32(7)));
}

#[test]
fn clones_are_equal() {
    for value in one_of_each() {
        assert_eq!(value.clone(), value);
    }
    let signature = match DBusSignature::parse("sus") {
        Some(signature) => signature,
        None => panic!("a signature"),
    };
    assert_eq!(signature.clone(), signature);
}
