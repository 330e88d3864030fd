//! Interfaces and the registry of interfaces, with the dispatch of calls.
//!
//! A registry is built by registration and then made to serve by
//! `finalize`, which checks it. A serving registry is only read: `handle`
//! finds the method that a call names, lets it answer, and hands the
//! answer to the connection.

use vstd::prelude::*;

use crate::connection::DBusConnection;
use crate::error::DBusError;
use crate::error::DBusErrorView;
use crate::error::DBusPropertyError;
use crate::error::DispatchError;
use crate::map::all_pass;
use crate::map::first_failing;
use crate::map::first_repeat;
use crate::map::lemma_first_failing;
use crate::map::DBusMap;
use crate::message::DBusMessage;
use crate::message::DBusMessageView;
use crate::method::reply_view;
use crate::method::DBusMethod;
use crate::method::DBusMethodResult;
use crate::property::get_view;
use crate::property::set_view;
use crate::property::DBusProperty;
use crate::property::DBusPropertyReadHandler;
use crate::property::DBusPropertyReadWriteHandler;
use crate::property::DBusPropertyWriteHandler;
use crate::signal::DBusSignal;
use crate::value::DBusValue;

verus! {

/// The methods, properties and signals of one interface, each kind under
/// names of its own: a method and a property may share a name.
pub struct DBusInterface<H: Fn(&DBusMessage) -> DBusMethodResult, R, RW, W> {
    methods: DBusMap<DBusMethod<H>>,
    properties: DBusMap<DBusProperty<R, RW, W>>,
    signals: DBusMap<DBusSignal>,
}

/// Whether every method of `methods` declares well-typed arguments.
pub open spec fn methods_well_typed<H: Fn(&DBusMessage) -> DBusMethodResult>(
    methods: Seq<DBusMethod<H>>,
) -> bool {
    all_pass(methods, |m: DBusMethod<H>| m.well_typed())
}

/// Whether every property of `properties` names exactly one type.
pub open spec fn properties_well_typed<
    R: DBusPropertyReadHandler,
    RW: DBusPropertyReadWriteHandler,
    W: DBusPropertyWriteHandler,
>(properties: Seq<DBusProperty<R, RW, W>>) -> bool {
    all_pass(properties, |p: DBusProperty<R, RW, W>| p.well_typed())
}

/// Whether every signal of `signals` declares well-typed arguments.
pub open spec fn signals_well_typed(signals: Seq<DBusSignal>) -> bool {
    all_pass(signals, |s: DBusSignal| s.well_typed())
}

impl<
    H: Fn(&DBusMessage) -> DBusMethodResult,
    R: DBusPropertyReadHandler,
    RW: DBusPropertyReadWriteHandler,
    W: DBusPropertyWriteHandler,
> DBusInterface<H, R, RW, W> {
    /// The methods, under their names.
    pub closed spec fn methods(&self) -> DBusMap<DBusMethod<H>> {
        self.methods
    }

    /// The properties, under their names.
    pub closed spec fn properties(&self) -> DBusMap<DBusProperty<R, RW, W>> {
        self.properties
    }

    /// The signals, under their names.
    pub closed spec fn signals(&self) -> DBusMap<DBusSignal> {
        self.signals
    }

    /// What is wrong with the interface, registered under `name`, if
    /// anything. Of several faults the one that stands first here is
    /// reported, and of several members with that fault the one that was
    /// registered first.
    pub open spec fn violation(&self, name: Seq<char>) -> Option<DBusErrorView> {
        if !self.methods().unique() {
            Some(
                DBusErrorView::DuplicateMethod {
                    interface: name,
                    method: self.methods().names()[first_repeat(self.methods().names())],
                },
            )
        } else if !methods_well_typed(self.methods().items()) {
            Some(
                DBusErrorView::InvalidMethod {
                    interface: name,
                    method: self.methods().names()[first_failing(
                        self.methods().items(),
                        |m: DBusMethod<H>| m.well_typed(),
                    )],
                },
            )
        } else if !self.properties().unique() {
            Some(
                DBusErrorView::DuplicateProperty {
                    interface: name,
                    property: self.properties().names()[first_repeat(self.properties().names())],
                },
            )
        } else if !properties_well_typed(self.properties().items()) {
            Some(
                DBusErrorView::InvalidProperty {
                    interface: name,
                    property: self.properties().names()[first_failing(
                        self.properties().items(),
                        |p: DBusProperty<R, RW, W>| p.well_typed(),
                    )],
                },
            )
        } else if !self.signals().unique() {
            Some(
                DBusErrorView::DuplicateSignal {
                    interface: name,
                    signal: self.signals().names()[first_repeat(self.signals().names())],
                },
            )
        } else if !signals_well_typed(self.signals().items()) {
            Some(
                DBusErrorView::InvalidSignal {
                    interface: name,
                    signal: self.signals().names()[first_failing(
                        self.signals().items(),
                        |s: DBusSignal| s.well_typed(),
                    )],
                },
            )
        } else {
            None
        }
    }

    /// Whether the interface is consistent: within each kind no name is
    /// used twice, and every declared argument and every property names
    /// exactly one type.
    pub open spec fn valid(&self) -> bool {
        &&& self.methods().unique()
        &&& methods_well_typed(self.methods().items())
        &&& self.properties().unique()
        &&& properties_well_typed(self.properties().items())
        &&& self.signals().unique()
        &&& signals_well_typed(self.signals().items())
    }

    /// An interface is consistent exactly when nothing is wrong with it,
    /// whatever its name.
    pub proof fn lemma_valid_iff_no_violation(&self, name: Seq<char>)
        ensures
            self.valid() <==> self.violation(name) is None,
    {
    }

    /// An interface without methods, properties or signals.
    pub fn new() -> (iface: DBusInterface<H, R, RW, W>)
        ensures
            iface.methods()@ == Seq::<(Seq<char>, DBusMethod<H>)>::empty(),
            iface.properties()@ == Seq::<(Seq<char>, DBusProperty<R, RW, W>)>::empty(),
            iface.signals()@ == Seq::<(Seq<char>, DBusSignal)>::empty(),
    {
        DBusInterface {
            methods: DBusMap::new(),
            properties: DBusMap::new(),
            signals: DBusMap::new(),
        }
    }

    /// Registers `method` under `name`.
    pub fn add_method(&mut self, name: String, method: DBusMethod<H>)
        ensures
            final(self).methods()@ == old(self).methods()@.push((name@, method)),
            final(self).properties() == old(self).properties(),
            final(self).signals() == old(self).signals(),
    {
        self.methods.insert(name, method);
    }

    /// Registers `property` under `name`.
    pub fn add_property(&mut self, name: String, property: DBusProperty<R, RW, W>)
        ensures
            final(self).properties()@ == old(self).properties()@.push((name@, property)),
            final(self).methods() == old(self).methods(),
            final(self).signals() == old(self).signals(),
    {
        self.properties.insert(name, property);
    }

    /// Registers `signal` under `name`.
    pub fn add_signal(&mut self, name: String, signal: DBusSignal)
        ensures
            final(self).signals()@ == old(self).signals()@.push((name@, signal)),
            final(self).methods() == old(self).methods(),
            final(self).properties() == old(self).properties(),
    {
        self.signals.insert(name, signal);
    }

    /// The method registered under `name`, if there is one.
    pub fn method(&self, name: &String) -> (found: Option<&DBusMethod<H>>)
        ensures
            found is Some <==> self.methods().contains(name@),
            found matches Some(method) ==> *method == self.methods().get(name@),
    {
        self.methods.find(name)
    }

    /// The property registered under `name`, if there is one.
    pub fn property(&self, name: &String) -> (found: Option<&DBusProperty<R, RW, W>>)
        ensures
            found is Some <==> self.properties().contains(name@),
            found matches Some(property) ==> *property == self.properties().get(name@),
    {
        self.properties.find(name)
    }

    /// The signal registered under `name`, if there is one.
    pub fn signal(&self, name: &String) -> (found: Option<&DBusSignal>)
        ensures
            found is Some <==> self.signals().contains(name@),
            found matches Some(signal) ==> *signal == self.signals().get(name@),
    {
        self.signals.find(name)
    }

    /// Checks the interface, registered under `name`, and says what is
    /// wrong with it, if anything.
    pub fn validate(&self, name: &str) -> (res: Result<(), DBusError>)
        ensures
            res is Ok <==> self.valid(),
            res matches Err(e) ==> self.violation(name@) == Some(e@),
    {
        if let Some(i) = self.methods.first_repeated() {
            return Err(
                DBusError::DuplicateMethod {
                    interface: name.to_owned(),
                    method: self.methods.name_at(i).clone(),
                },
            );
        }
        if let Some(i) = self.first_ill_typed_method() {
            return Err(
                DBusError::InvalidMethod {
                    interface: name.to_owned(),
                    method: self.methods.name_at(i).clone(),
                },
            );
        }
        if let Some(i) = self.properties.first_repeated() {
            return Err(
                DBusError::DuplicateProperty {
                    interface: name.to_owned(),
                    property: self.properties.name_at(i).clone(),
                },
            );
        }
        if let Some(i) = self.first_ill_typed_property() {
            return Err(
                DBusError::InvalidProperty {
                    interface: name.to_owned(),
                    property: self.properties.name_at(i).clone(),
                },
            );
        }
        if let Some(i) = self.signals.first_repeated() {
            return Err(
                DBusError::DuplicateSignal {
                    interface: name.to_owned(),
                    signal: self.signals.name_at(i).clone(),
                },
            );
        }
        if let Some(i) = self.first_ill_typed_signal() {
            return Err(
                DBusError::InvalidSignal {
                    interface: name.to_owned(),
                    signal: self.signals.name_at(i).clone(),
                },
            );
        }
        Ok(())
    }

    /// The position of the first method with an ill-typed argument.
    fn first_ill_typed_method(&self) -> (found: Option<usize>)
        ensures
            found is None <==> methods_well_typed(self.methods().items()),
            found matches Some(i) ==> i < self.methods()@.len() && i == first_failing(
                self.methods().items(),
                |m: DBusMethod<H>| m.well_typed(),
            ),
    {
        let ghost ok = |m: DBusMethod<H>| m.well_typed();
        let mut i: usize = 0;
        while i < self.methods.len()
            invariant
                i <= self.methods()@.len(),
                ok == |m: DBusMethod<H>| m.well_typed(),
                forall|j: int| 0 <= j < i ==> ok(#[trigger] self.methods().items()[j]),
            decreases self.methods()@.len() - i,
        {
            if !self.methods.item_at(i).is_well_typed() {
                proof {
                    lemma_first_failing(self.methods().items(), ok, i as int);
                }
                return Some(i);
            }
            i += 1;
        }
        None
    }

    /// The position of the first property that has not exactly one type.
    fn first_ill_typed_property(&self) -> (found: Option<usize>)
        ensures
            found is None <==> properties_well_typed(self.properties().items()),
            found matches Some(i) ==> i < self.properties()@.len() && i == first_failing(
                self.properties().items(),
                |p: DBusProperty<R, RW, W>| p.well_typed(),
            ),
    {
        let ghost ok = |p: DBusProperty<R, RW, W>| p.well_typed();
        let mut i: usize = 0;
        while i < self.properties.len()
            invariant
                i <= self.properties()@.len(),
                ok == |p: DBusProperty<R, RW, W>| p.well_typed(),
                forall|j: int| 0 <= j < i ==> ok(#[trigger] self.properties().items()[j]),
            decreases self.properties()@.len() - i,
        {
            if !self.properties.item_at(i).is_well_typed() {
                proof {
                    lemma_first_failing(self.properties().items(), ok, i as int);
                }
                return Some(i);
            }
            i += 1;
        }
        None
    }

    /// The position of the first signal with an ill-typed argument.
    fn first_ill_typed_signal(&self) -> (found: Option<usize>)
        ensures
            found is None <==> signals_well_typed(self.signals().items()),
            found matches Some(i) ==> i < self.signals()@.len() && i == first_failing(
                self.signals().items(),
                |s: DBusSignal| s.well_typed(),
            ),
    {
        let ghost ok = |s: DBusSignal| s.well_typed();
        let mut i: usize = 0;
        while i < self.signals.len()
            invariant
                i <= self.signals()@.len(),
                ok == |s: DBusSignal| s.well_typed(),
                forall|j: int| 0 <= j < i ==> ok(#[trigger] self.signals().items()[j]),
            decreases self.signals()@.len() - i,
        {
            if !self.signals.item_at(i).is_well_typed() {
                proof {
                    lemma_first_failing(self.signals().items(), ok, i as int);
                }
                return Some(i);
            }
            i += 1;
        }
        None
    }
}

/// The registry: every interface of the service, under its name.
///
/// A registry is either being built or serving. Interfaces are added
/// while it is being built; `finalize` checks it and makes it serve; a
/// serving registry dispatches calls and is not changed any more.
pub struct DBusInterfaceMap<H: Fn(&DBusMessage) -> DBusMethodResult, R, RW, W> {
    map: DBusMap<DBusInterface<H, R, RW, W>>,
    serving: bool,
}

/// Whether every interface of `interfaces` is consistent.
pub open spec fn interfaces_valid<
    H: Fn(&DBusMessage) -> DBusMethodResult,
    R: DBusPropertyReadHandler,
    RW: DBusPropertyReadWriteHandler,
    W: DBusPropertyWriteHandler,
>(interfaces: Seq<DBusInterface<H, R, RW, W>>) -> bool {
    all_pass(interfaces, |x: DBusInterface<H, R, RW, W>| x.valid())
}

/// What became of the answer of a method: `res` and the connection
/// `after`, for the connection `before` and the `reply` to deliver.
///
/// An answer that could not be built is the result, and the connection
/// stays as it was. One that was built goes to the connection: an open
/// connection takes it behind what it holds; a closed one refuses it,
/// and the refusal is the result.
pub open spec fn delivered(
    before: DBusConnection,
    after: DBusConnection,
    reply: Result<DBusMessageView, DispatchError>,
    res: Result<(), DispatchError>,
) -> bool {
    &&& after.is_open() == before.is_open()
    &&& match reply {
        Ok(msg) => if before.is_open() {
            res == Ok::<(), DispatchError>(()) && after.outgoing() == before.outgoing().push(msg)
        } else {
            res == Err::<(), DispatchError>(DispatchError::Send(DBusError::Disconnected))
                && after.outgoing() == before.outgoing()
        },
        Err(e) => res == Err::<(), DispatchError>(e) && after.outgoing() == before.outgoing(),
    }
}

/// Hands the answer of a method to `conn`, where there is one, and says
/// how the dispatch ended.
pub fn deliver(
    conn: &mut DBusConnection,
    reply: Result<DBusMessage, DispatchError>,
) -> (res: Result<(), DispatchError>)
    ensures
        delivered(*old(conn), *final(conn), reply_view(reply), res),
{
    match reply {
        Ok(msg) => match conn.send(msg) {
            Ok(()) => Ok(()),
            Err(e) => Err(DispatchError::Send(e)),
        },
        Err(e) => Err(e),
    }
}

impl<
    H: Fn(&DBusMessage) -> DBusMethodResult,
    R: DBusPropertyReadHandler,
    RW: DBusPropertyReadWriteHandler,
    W: DBusPropertyWriteHandler,
> DBusInterfaceMap<H, R, RW, W> {
    /// The interfaces, under their names.
    pub closed spec fn interfaces(&self) -> DBusMap<DBusInterface<H, R, RW, W>> {
        self.map
    }

    /// Whether the registry serves; if not, it is being built.
    pub closed spec fn is_serving(&self) -> bool {
        self.serving
    }

    /// What is wrong with the registry, if anything: the first name
    /// under which a second interface is registered, and else what is
    /// wrong with the first interface that has a fault.
    pub open spec fn violation(&self) -> Option<DBusErrorView> {
        if !self.interfaces().unique() {
            Some(
                DBusErrorView::DuplicateInterface {
                    interface: self.interfaces().names()[first_repeat(self.interfaces().names())],
                },
            )
        } else if !interfaces_valid(self.interfaces().items()) {
            let i = first_failing(
                self.interfaces().items(),
                |x: DBusInterface<H, R, RW, W>| x.valid(),
            );
            self.interfaces().items()[i].violation(self.interfaces().names()[i])
        } else {
            None
        }
    }

    /// Whether the registry is consistent: no two interfaces share a name
    /// and every interface is consistent.
    pub open spec fn valid(&self) -> bool {
        self.interfaces().unique() && interfaces_valid(self.interfaces().items())
    }

    /// The method that `call` names: the method of that name in the
    /// interface of that name. `None` where `call` is no method call, or
    /// names an interface or a method that is not registered.
    pub open spec fn target(&self, call: DBusMessageView) -> Option<DBusMethod<H>> {
        if call.is_call() && self.interfaces().contains(call.interface.unwrap()) {
            let methods = self.interfaces().get(call.interface.unwrap()).methods();
            if methods.contains(call.member.unwrap()) {
                Some(methods.get(call.member.unwrap()))
            } else {
                None
            }
        } else {
            None
        }
    }

    /// The property called `property` of the interface called
    /// `interface`, where both are registered.
    pub open spec fn target_property(
        &self,
        interface: Seq<char>,
        property: Seq<char>,
    ) -> Option<DBusProperty<R, RW, W>> {
        if self.interfaces().contains(interface)
            && self.interfaces().get(interface).properties().contains(property) {
            Some(self.interfaces().get(interface).properties().get(property))
        } else {
            None
        }
    }

    /// In a consistent registry, a call that names a registered
    /// interface and a method registered in it has that very method as
    /// its target: `handle` lets that method answer, and no other.
    pub proof fn lemma_registered_pair_is_target(&self, call: DBusMessageView, i: int, j: int)
        requires
            self.valid(),
            call.is_call(),
            0 <= i < self.interfaces()@.len(),
            self.interfaces().names()[i] == call.interface.unwrap(),
            0 <= j < self.interfaces().items()[i].methods()@.len(),
            self.interfaces().items()[i].methods().names()[j] == call.member.unwrap(),
        ensures
            self.target(call) == Some(self.interfaces().items()[i].methods().items()[j]),
    {
        self.interfaces().lemma_get_unique(i);
        self.interfaces().items()[i].methods().lemma_get_unique(j);
    }

    /// A message that is no method call, or that names a pair of
    /// interface and method that is not registered, has no target:
    /// `handle` returns `None` on it and sends nothing.
    pub proof fn lemma_unregistered_pair_has_no_target(&self, call: DBusMessageView)
        requires
            !call.is_call() || forall|i: int, j: int|
                0 <= i < self.interfaces()@.len() && 0 <= j
                    < self.interfaces().items()[i].methods()@.len() ==> !(
                #[trigger] self.interfaces().names()[i] == call.interface.unwrap()
                    && #[trigger] self.interfaces().items()[i].methods().names()[j]
                    == call.member.unwrap()),
        ensures
            self.target(call) is None,
    {
        if call.is_call() && self.interfaces().contains(call.interface.unwrap()) {
            self.interfaces().lemma_contains(call.interface.unwrap());
            let methods = self.interfaces().get(call.interface.unwrap()).methods();
            if methods.contains(call.member.unwrap()) {
                methods.lemma_contains(call.member.unwrap());
            }
        }
    }

    /// A dispatch that ends well has sent one message, and that message
    /// answers the call that was dispatched: it carries the serial of that
    /// call and goes to its sender. So however many calls are dispatched,
    /// each reply belongs to its own call.
    pub proof fn lemma_sent_reply_answers_call(
        &self,
        call: &DBusMessage,
        before: DBusConnection,
        reply: Result<DBusMessageView, DispatchError>,
        after: DBusConnection,
    )
        requires
            self.target(call@) is Some,
            self.target(call@).unwrap().may_answer(call, reply),
            delivered(before, after, reply, Ok(())),
        ensures
            reply is Ok,
            after.outgoing() == before.outgoing().push(reply->Ok_0),
            after.outgoing().last().answers(call@),
    {
    }

    /// Two dispatches of one call, from connections in one state, on a
    /// target whose handler can return only one thing on that call, end
    /// alike: in the same result, with the same reply sent.
    pub proof fn lemma_same_call_same_dispatch(
        &self,
        call: &DBusMessage,
        before: DBusConnection,
        first_reply: Result<DBusMessageView, DispatchError>,
        first_after: DBusConnection,
        first: Result<(), DispatchError>,
        second_reply: Result<DBusMessageView, DispatchError>,
        second_after: DBusConnection,
        second: Result<(), DispatchError>,
    )
        requires
            self.target(call@) is Some,
            self.target(call@).unwrap().settled_on(call),
            self.target(call@).unwrap().may_answer(call, first_reply),
            delivered(before, first_after, first_reply, first),
            self.target(call@).unwrap().may_answer(call, second_reply),
            delivered(before, second_after, second_reply, second),
        ensures
            first == second,
            first_reply == second_reply,
            first_after.outgoing() == second_after.outgoing(),
    {
        self.target(call@).unwrap().lemma_same_call_same_answer(call, first_reply, second_reply);
    }

    /// A registry without interfaces, to be built.
    pub fn new() -> (registry: DBusInterfaceMap<H, R, RW, W>)
        ensures
            !registry.is_serving(),
            registry.interfaces()@ == Seq::<(Seq<char>, DBusInterface<H, R, RW, W>)>::empty(),
    {
        DBusInterfaceMap { map: DBusMap::new(), serving: false }
    }

    /// Tells whether the registry serves.
    pub fn serving(&self) -> (serving: bool)
        ensures
            serving == self.is_serving(),
    {
        self.serving
    }

    /// Registers `interface` under `name` in a registry that is being
    /// built.
    pub fn add_interface(&mut self, name: String, interface: DBusInterface<H, R, RW, W>)
        requires
            !old(self).is_serving(),
        ensures
            !final(self).is_serving(),
            final(self).interfaces()@ == old(self).interfaces()@.push((name@, interface)),
    {
        self.map.insert(name, interface);
    }

    /// The interface registered under `name`, if there is one.
    pub fn interface(&self, name: &String) -> (found: Option<&DBusInterface<H, R, RW, W>>)
        ensures
            found is Some <==> self.interfaces().contains(name@),
            found matches Some(interface) ==> *interface == self.interfaces().get(name@),
    {
        self.map.find(name)
    }

    /// Checks the registry and, where nothing is wrong with it, makes it
    /// serve, with the interfaces that it has. Where something is wrong
    /// the result says what.
    pub fn finalize(self) -> (res: Result<DBusInterfaceMap<H, R, RW, W>, DBusError>)
        ensures
            res is Ok <==> self.valid(),
            res matches Ok(registry) ==> registry.is_serving() && registry.valid()
                && registry.interfaces() == self.interfaces(),
            res matches Err(e) ==> self.violation() == Some(e@),
    {
        if let Some(i) = self.map.first_repeated() {
            return Err(DBusError::DuplicateInterface { interface: self.map.name_at(i).clone() });
        }
        let ghost ok = |x: DBusInterface<H, R, RW, W>| x.valid();
        let mut i: usize = 0;
        while i < self.map.len()
            invariant
                i <= self.interfaces()@.len(),
                self.interfaces().unique(),
                ok == |x: DBusInterface<H, R, RW, W>| x.valid(),
                forall|j: int| 0 <= j < i ==> ok(#[trigger] self.interfaces().items()[j]),
            decreases self.interfaces()@.len() - i,
        {
            match self.map.item_at(i).validate(self.map.name_at(i).as_str()) {
                Ok(()) => {},
                Err(e) => {
                    proof {
                        lemma_first_failing(self.interfaces().items(), ok, i as int);
                    }
                    return Err(e);
                },
            }
            i += 1;
        }
        Ok(DBusInterfaceMap { map: self.map, serving: true })
    }

    /// Dispatches `msg`.
    ///
    /// The result is `None`, and nothing is sent, where `msg` is not a
    /// method call or names an interface or a method that is not
    /// registered: such a message is left to others. Else the method
    /// answers: it checks the arguments, calls its handler once where
    /// they fit, and builds the reply; the reply goes to `conn`. The
    /// result then says whether a reply was sent, and if not, why.
    pub fn handle(
        &self,
        conn: &mut DBusConnection,
        msg: &DBusMessage,
    ) -> (res: Option<Result<(), DispatchError>>)
        requires
            self.is_serving(),
        ensures
            res is None <==> self.target(msg@) is None,
            res is None ==> *final(conn) == *old(conn),
            res matches Some(sent) ==> exists|reply: Result<DBusMessageView, DispatchError>|
                self.target(msg@).unwrap().may_answer(msg, reply) && #[trigger] delivered(
                    *old(conn),
                    *final(conn),
                    reply,
                    sent,
                ),
    {
        let headers = match msg.call_headers() {
            Some(headers) => headers,
            None => {
                return None;
            },
        };
        let interface = match self.map.find(&headers.interface) {
            Some(interface) => interface,
            None => {
                return None;
            },
        };
        let method = match interface.method(&headers.method) {
            Some(method) => method,
            None => {
                return None;
            },
        };
        Some(deliver(conn, method.answer(msg)))
    }

    /// Reads the property called `property` of the interface called
    /// `interface`. The result is `None` where no such property is
    /// registered.
    pub fn get_property(
        &self,
        interface: &String,
        property: &String,
    ) -> (res: Option<Result<DBusValue, DBusPropertyError>>)
        requires
            self.is_serving(),
        ensures
            res is None <==> self.target_property(interface@, property@) is None,
            self.target_property(interface@, property@) matches Some(p) ==> p.may_read(
                get_view(res.unwrap()),
            ),
    {
        let found = match self.map.find(interface) {
            Some(found) => found,
            None => {
                return None;
            },
        };
        match found.property(property) {
            Some(p) => Some(p.get()),
            None => None,
        }
    }

    /// Writes `value` to the property called `property` of the interface
    /// called `interface`. The result is `None` where no such property is
    /// registered.
    pub fn set_property(
        &self,
        interface: &String,
        property: &String,
        value: &DBusValue,
    ) -> (res: Option<Result<(), DBusPropertyError>>)
        requires
            self.is_serving(),
        ensures
            res is None <==> self.target_property(interface@, property@) is None,
            self.target_property(interface@, property@) matches Some(p) ==> p.may_write(
                value,
                set_view(res.unwrap()),
            ),
    {
        let found = match self.map.find(interface) {
            Some(found) => found,
            None => {
                return None;
            },
        };
        match found.property(property) {
            Some(p) => Some(p.set(value)),
            None => None,
        }
    }
}

} // verus!
