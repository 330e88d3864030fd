//! Messages: calls, their replies, errors and signals.

use vstd::prelude::*;

use crate::value::values_view;
use crate::value::DBusValue;
use crate::value::DBusValueView;

verus! {

/// The four shapes of message that travel on the bus.
#[derive(Clone, Copy, Debug, PartialEq, Eq, Structural)]
pub enum DBusMessageKind {
    MethodCall,
    MethodReturn,
    Error,
    Signal,
}

/// One message, with its headers and its arguments.
#[derive(Debug, PartialEq, Eq)]
pub struct DBusMessage {
    kind: DBusMessageKind,
    serial: u32,
    reply_serial: Option<u32>,
    sender: Option<String>,
    destination: Option<String>,
    interface: Option<String>,
    member: Option<String>,
    error_name: Option<String>,
    arguments: Vec<DBusValue>,
}

/// The mathematical model of a [`DBusMessage`].
pub struct DBusMessageView {
    pub kind: DBusMessageKind,
    /// The number the sender gave the message; 0 while none is assigned.
    pub serial: u32,
    /// For a reply, the serial of the call it answers.
    pub reply_serial: Option<u32>,
    pub sender: Option<Seq<char>>,
    pub destination: Option<Seq<char>>,
    pub interface: Option<Seq<char>>,
    pub member: Option<Seq<char>>,
    pub error_name: Option<Seq<char>>,
    pub arguments: Seq<DBusValueView>,
}

/// The view of a string that may be absent.
pub open spec fn text_view(text: Option<String>) -> Option<Seq<char>> {
    match text {
        Some(t) => Some(t@),
        None => None,
    }
}

impl View for DBusMessage {
    type V = DBusMessageView;

    closed spec fn view(&self) -> DBusMessageView {
        DBusMessageView {
            kind: self.kind,
            serial: self.serial,
            reply_serial: self.reply_serial,
            sender: text_view(self.sender),
            destination: text_view(self.destination),
            interface: text_view(self.interface),
            member: text_view(self.member),
            error_name: text_view(self.error_name),
            arguments: values_view(self.arguments@),
        }
    }
}

/// The target of a method call: the interface and the method in it.
#[derive(Debug, PartialEq, Eq)]
pub struct DBusCallHeaders {
    pub interface: String,
    pub method: String,
}

impl DBusMessageView {
    /// Whether the message is a method call that names its interface and
    /// its method.
    pub open spec fn is_call(self) -> bool {
        self.kind == DBusMessageKind::MethodCall && self.interface is Some && self.member is Some
    }

    /// The return message that answers this message, without arguments.
    pub open spec fn return_message(self) -> DBusMessageView {
        DBusMessageView {
            kind: DBusMessageKind::MethodReturn,
            serial: 0,
            reply_serial: Some(self.serial),
            sender: self.destination,
            destination: self.sender,
            interface: None,
            member: None,
            error_name: None,
            arguments: Seq::empty(),
        }
    }

    /// The error message called `name` that answers this message, without
    /// arguments.
    pub open spec fn error_message(self, name: Seq<char>) -> DBusMessageView {
        DBusMessageView {
            kind: DBusMessageKind::Error,
            error_name: Some(name),
            ..self.return_message()
        }
    }

    /// This message with `value` added behind its arguments.
    pub open spec fn add_argument(self, value: DBusValueView) -> DBusMessageView {
        DBusMessageView { arguments: self.arguments.push(value), ..self }
    }

    /// This message with `values` added behind its arguments, in order.
    pub open spec fn add_arguments(self, values: Seq<DBusValueView>) -> DBusMessageView {
        DBusMessageView { arguments: self.arguments + values, ..self }
    }

    /// Whether this message is a reply, of either kind, to `call`: it
    /// carries the serial of `call` and goes to the sender of `call`.
    pub open spec fn answers(self, call: DBusMessageView) -> bool {
        &&& self.kind == DBusMessageKind::MethodReturn || self.kind == DBusMessageKind::Error
        &&& self.reply_serial == Some(call.serial)
        &&& self.destination == call.sender
    }
}

/// A copy of a string that may be absent.
fn clone_text(text: &Option<String>) -> (copy: Option<String>)
    ensures
        text_view(copy) == text_view(*text),
{
    match text {
        Some(t) => Some(t.clone()),
        None => None,
    }
}

impl Clone for DBusMessage {
    fn clone(&self) -> (copy: DBusMessage)
        ensures
            copy@ == self@,
    {
        let arguments = self.arguments.clone();
        assert(values_view(arguments@) =~= values_view(self.arguments@));
        DBusMessage {
            kind: self.kind,
            serial: self.serial,
            reply_serial: self.reply_serial,
            sender: clone_text(&self.sender),
            destination: clone_text(&self.destination),
            interface: clone_text(&self.interface),
            member: clone_text(&self.member),
            error_name: clone_text(&self.error_name),
            arguments,
        }
    }
}

impl DBusMessage {
    /// A call of `method` of `interface`, numbered `serial` by its sender.
    pub fn method_call(
        serial: u32,
        sender: Option<String>,
        interface: String,
        method: String,
    ) -> (msg: DBusMessage)
        ensures
            msg@ == (DBusMessageView {
                kind: DBusMessageKind::MethodCall,
                serial: serial,
                reply_serial: None,
                sender: text_view(sender),
                destination: None,
                interface: Some(interface@),
                member: Some(method@),
                error_name: None,
                arguments: Seq::empty(),
            }),
    {
        let msg = DBusMessage {
            kind: DBusMessageKind::MethodCall,
            serial,
            reply_serial: None,
            sender,
            destination: None,
            interface: Some(interface),
            member: Some(method),
            error_name: None,
            arguments: Vec::new(),
        };
        assert(msg@.arguments =~= Seq::empty());
        msg
    }

    /// The signal `member` of `interface`, numbered `serial` by its sender.
    pub fn signal(
        serial: u32,
        sender: Option<String>,
        interface: String,
        member: String,
    ) -> (msg: DBusMessage)
        ensures
            msg@ == (DBusMessageView {
                kind: DBusMessageKind::Signal,
                serial: serial,
                reply_serial: None,
                sender: text_view(sender),
                destination: None,
                interface: Some(interface@),
                member: Some(member@),
                error_name: None,
                arguments: Seq::empty(),
            }),
    {
        let msg = DBusMessage {
            kind: DBusMessageKind::Signal,
            serial,
            reply_serial: None,
            sender,
            destination: None,
            interface: Some(interface),
            member: Some(member),
            error_name: None,
            arguments: Vec::new(),
        };
        assert(msg@.arguments =~= Seq::empty());
        msg
    }

    /// The interface and the method that a method call names. `None` for
    /// every other message.
    pub fn call_headers(&self) -> (headers: Option<DBusCallHeaders>)
        ensures
            headers is Some <==> self@.is_call(),
            headers matches Some(h) ==> Some(h.interface@) == self@.interface && Some(h.method@)
                == self@.member,
    {
        match self.kind {
            DBusMessageKind::MethodCall => match (&self.interface, &self.member) {
                (Some(interface), Some(member)) => Some(
                    DBusCallHeaders { interface: interface.clone(), method: member.clone() },
                ),
                _ => None,
            },
            _ => None,
        }
    }

    /// A return message that answers this message, still without arguments.
    pub fn return_message(&self) -> (reply: DBusMessage)
        ensures
            reply@ == self@.return_message(),
    {
        let reply = DBusMessage {
            kind: DBusMessageKind::MethodReturn,
            serial: 0,
            reply_serial: Some(self.serial),
            sender: clone_text(&self.destination),
            destination: clone_text(&self.sender),
            interface: None,
            member: None,
            error_name: None,
            arguments: Vec::new(),
        };
        assert(reply@.arguments =~= Seq::empty());
        reply
    }

    /// An error message called `name` that answers this message, still
    /// without arguments.
    pub fn error_message(&self, name: &str) -> (reply: DBusMessage)
        ensures
            reply@ == self@.error_message(name@),
    {
        let reply = DBusMessage {
            kind: DBusMessageKind::Error,
            serial: 0,
            reply_serial: Some(self.serial),
            sender: clone_text(&self.destination),
            destination: clone_text(&self.sender),
            interface: None,
            member: None,
            error_name: Some(name.to_owned()),
            arguments: Vec::new(),
        };
        assert(reply@.arguments =~= Seq::empty());
        reply
    }

    /// Adds `value` behind the arguments of the message.
    pub fn add_argument(self, value: DBusValue) -> (msg: DBusMessage)
        ensures
            msg@ == self@.add_argument(value@),
    {
        let mut msg = self;
        msg.arguments.push(value);
        assert(msg@.arguments =~= self@.arguments.push(value@));
        msg
    }

    /// Adds `values`, in order, behind the arguments of the message.
    pub fn add_arguments(self, values: Vec<DBusValue>) -> (msg: DBusMessage)
        ensures
            msg@ == self@.add_arguments(values_view(values@)),
    {
        let mut msg = self;
        let mut values = values;
        let ghost added = values@;
        msg.arguments.append(&mut values);
        assert(msg@.arguments =~= self@.arguments + values_view(added));
        msg
    }

    pub fn kind(&self) -> (kind: DBusMessageKind)
        ensures
            kind == self@.kind,
    {
        self.kind
    }

    pub fn serial(&self) -> (serial: u32)
        ensures
            serial == self@.serial,
    {
        self.serial
    }

    pub fn reply_serial(&self) -> (serial: Option<u32>)
        ensures
            serial == self@.reply_serial,
    {
        self.reply_serial
    }

    pub fn sender(&self) -> (sender: Option<&String>)
        ensures
            sender is Some <==> self@.sender is Some,
            sender matches Some(s) ==> Some(s@) == self@.sender,
    {
        self.sender.as_ref()
    }

    pub fn destination(&self) -> (destination: Option<&String>)
        ensures
            destination is Some <==> self@.destination is Some,
            destination matches Some(s) ==> Some(s@) == self@.destination,
    {
        self.destination.as_ref()
    }

    pub fn interface(&self) -> (interface: Option<&String>)
        ensures
            interface is Some <==> self@.interface is Some,
            interface matches Some(s) ==> Some(s@) == self@.interface,
    {
        self.interface.as_ref()
    }

    pub fn member(&self) -> (member: Option<&String>)
        ensures
            member is Some <==> self@.member is Some,
            member matches Some(s) ==> Some(s@) == self@.member,
    {
        self.member.as_ref()
    }

    pub fn error_name(&self) -> (name: Option<&String>)
        ensures
            name is Some <==> self@.error_name is Some,
            name matches Some(s) ==> Some(s@) == self@.error_name,
    {
        self.error_name.as_ref()
    }

    pub fn arguments(&self) -> (arguments: &Vec<DBusValue>)
        ensures
            values_view(arguments@) == self@.arguments,
    {
        &self.arguments
    }
}

} // verus!
