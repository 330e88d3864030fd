//! Methods: what a call must bring, what it gets back, and the handler
//! that does the work.

use vstd::prelude::*;

use crate::descriptor::annotations_view;
use crate::descriptor::arguments_signature;
use crate::descriptor::arguments_view;
use crate::descriptor::arguments_well_typed;
use crate::descriptor::declared_signature;
use crate::descriptor::well_typed;
use crate::descriptor::DBusAnnotation;
use crate::descriptor::DBusAnnotationView;
use crate::descriptor::DBusAnnotations;
use crate::descriptor::DBusArgument;
use crate::descriptor::DBusArgumentView;
use crate::descriptor::DBusErrorMessage;
use crate::descriptor::DBusErrorMessageView;
use crate::error::DispatchError;
use crate::message::DBusMessage;
use crate::message::DBusMessageKind;
use crate::message::DBusMessageView;
use crate::value::signature_of;
use crate::value::values_signature;
use crate::value::values_view;
use crate::value::DBusValue;
use crate::value::DBusValueView;

verus! {

/// What a method handler returns: the values of the reply, in order, or
/// the failure to report to the caller.
pub type DBusMethodResult = Result<Vec<DBusValue>, DBusErrorMessage>;

/// A handler kept behind a pointer, so that the methods of one registry
/// can each have a handler of their own.
pub type DBusMethodHandler = Box<dyn Fn(&DBusMessage) -> DBusMethodResult>;

/// A method: its declared arguments in both directions, its handler and
/// its annotations.
///
/// The handler is a function kept by the method. State that it changes
/// from call to call lies behind a cell or a lock of its own; one call at
/// a time per handler is the business of the handler's author.
pub struct DBusMethod<H: Fn(&DBusMessage) -> DBusMethodResult> {
    in_args: Vec<DBusArgument>,
    out_args: Vec<DBusArgument>,
    cb: H,
    anns: DBusAnnotations,
}

/// The mathematical model of what a handler returned.
pub open spec fn outcome_view(
    outcome: DBusMethodResult,
) -> Result<Seq<DBusValueView>, DBusErrorMessageView> {
    match outcome {
        Ok(values) => Ok(values_view(values@)),
        Err(err) => Err(err@),
    }
}

/// The mathematical model of a reply that may have failed to be built.
pub open spec fn reply_view(
    reply: Result<DBusMessage, DispatchError>,
) -> Result<DBusMessageView, DispatchError> {
    match reply {
        Ok(msg) => Ok(msg@),
        Err(e) => Err(e),
    }
}

/// Whether the arguments of `call` have the types that `in_args` declares.
pub open spec fn arguments_match(in_args: Seq<DBusArgumentView>, call: DBusMessageView) -> bool {
    signature_of(call.arguments) == declared_signature(in_args)
}

/// The answer to `call` of a method that declares `out_args`, for what
/// its handler returned.
///
/// Values that have the declared types travel in a return message, in
/// the order in which the handler gave them. Values of other types are
/// not sent. A failure travels in an error message named as the failure
/// is, with the detail as its only argument, a string.
pub open spec fn reply_to(
    call: DBusMessageView,
    out_args: Seq<DBusArgumentView>,
    outcome: Result<Seq<DBusValueView>, DBusErrorMessageView>,
) -> Result<DBusMessageView, DispatchError> {
    match outcome {
        Ok(values) => if signature_of(values) == declared_signature(out_args) {
            Ok(call.return_message().add_arguments(values))
        } else {
            Err(DispatchError::ReplyMismatch)
        },
        Err(err) => Ok(
            call.error_message(err.name).add_argument(DBusValueView::String(err.message)),
        ),
    }
}

/// Values of the declared types come back as the arguments of a return
/// message, each where the handler put it.
pub proof fn lemma_reply_carries_values(
    call: DBusMessageView,
    out_args: Seq<DBusArgumentView>,
    values: Seq<DBusValueView>,
)
    requires
        signature_of(values) == declared_signature(out_args),
    ensures
        reply_to(call, out_args, Ok(values)) matches Ok(reply) && reply.kind
            == DBusMessageKind::MethodReturn && reply.arguments == values,
{
}

/// A failure comes back as an error message that has the name of the
/// failure and, as its only argument, the detail as a string.
pub proof fn lemma_reply_carries_failure(
    call: DBusMessageView,
    out_args: Seq<DBusArgumentView>,
    err: DBusErrorMessageView,
)
    ensures
        reply_to(call, out_args, Err(err)) matches Ok(reply) && reply.kind
            == DBusMessageKind::Error && reply.error_name == Some(err.name) && reply.arguments
            == seq![DBusValueView::String(err.message)],
{
    assert(call.error_message(err.name).add_argument(
        DBusValueView::String(err.message),
    ).arguments =~= seq![DBusValueView::String(err.message)]);
}

/// Whatever the handler returned, a reply that is built answers the call
/// it was built for: it carries the serial of that call and goes to the
/// sender of that call.
pub proof fn lemma_reply_answers_call(
    call: DBusMessageView,
    out_args: Seq<DBusArgumentView>,
    outcome: Result<Seq<DBusValueView>, DBusErrorMessageView>,
)
    ensures
        reply_to(call, out_args, outcome) matches Ok(reply) ==> reply.answers(call),
{
}

impl<H: Fn(&DBusMessage) -> DBusMethodResult> DBusMethod<H> {
    /// The handler may be called on every message whose arguments have
    /// the declared types.
    #[verifier::type_invariant]
    spec fn callable(&self) -> bool {
        forall|msg: &DBusMessage|
            arguments_match(arguments_view(self.in_args@), msg@) ==> #[trigger] call_requires(
                self.cb,
                (msg,),
            )
    }

    /// The arguments that a call must bring.
    pub closed spec fn in_args(&self) -> Seq<DBusArgumentView> {
        arguments_view(self.in_args@)
    }

    /// The values that a reply brings back.
    pub closed spec fn out_args(&self) -> Seq<DBusArgumentView> {
        arguments_view(self.out_args@)
    }

    /// The handler.
    pub closed spec fn handler(&self) -> H {
        self.cb
    }

    pub closed spec fn annotations(&self) -> Seq<DBusAnnotationView> {
        annotations_view(self.anns@)
    }

    /// Whether the arguments of `call` have the declared types.
    pub open spec fn accepts(&self, call: DBusMessageView) -> bool {
        arguments_match(self.in_args(), call)
    }

    /// Whether every declared argument, in both directions, names
    /// exactly one type.
    pub open spec fn well_typed(&self) -> bool {
        well_typed(self.in_args()) && well_typed(self.out_args())
    }

    /// Whether `reply` is an answer that this method may give to `call`:
    /// a refusal where the arguments do not fit, and else the answer for
    /// something that the handler may return on `call`.
    pub open spec fn may_answer(
        &self,
        call: &DBusMessage,
        reply: Result<DBusMessageView, DispatchError>,
    ) -> bool {
        if self.accepts(call@) {
            exists|outcome: DBusMethodResult| #[trigger]
                call_ensures(self.handler(), (call,), outcome) && reply == reply_to(
                    call@,
                    self.out_args(),
                    outcome_view(outcome),
                )
        } else {
            reply == Err::<DBusMessageView, DispatchError>(DispatchError::ArgumentMismatch)
        }
    }

    /// Whether the handler can return only one thing on `call`, as one
    /// that reads and does not change what it works on.
    pub open spec fn settled_on(&self, call: &DBusMessage) -> bool {
        forall|first: DBusMethodResult, second: DBusMethodResult|
            #[trigger] call_ensures(self.handler(), (call,), first) && #[trigger] call_ensures(
                self.handler(),
                (call,),
                second,
            ) ==> outcome_view(first) == outcome_view(second)
    }

    /// Asked the same call twice, a method whose handler can return only
    /// one thing on it gives the same answer twice.
    pub proof fn lemma_same_call_same_answer(
        &self,
        call: &DBusMessage,
        first: Result<DBusMessageView, DispatchError>,
        second: Result<DBusMessageView, DispatchError>,
    )
        requires
            self.settled_on(call),
            self.may_answer(call, first),
            self.may_answer(call, second),
        ensures
            first == second,
    {
    }

    /// A method that takes `in_args`, gives `out_args` and is carried out
    /// by `cb`.
    pub fn new(
        in_args: Vec<DBusArgument>,
        out_args: Vec<DBusArgument>,
        cb: H,
        anns: DBusAnnotations,
    ) -> (method: DBusMethod<H>)
        requires
            forall|msg: &DBusMessage|
                arguments_match(arguments_view(in_args@), msg@) ==> #[trigger] call_requires(
                    cb,
                    (msg,),
                ),
        ensures
            method.in_args() == arguments_view(in_args@),
            method.out_args() == arguments_view(out_args@),
            method.handler() == cb,
            method.annotations() == annotations_view(anns@),
    {
        DBusMethod { in_args, out_args, cb, anns }
    }

    pub fn input_arguments(&self) -> (args: &Vec<DBusArgument>)
        ensures
            arguments_view(args@) == self.in_args(),
    {
        &self.in_args
    }

    pub fn output_arguments(&self) -> (args: &Vec<DBusArgument>)
        ensures
            arguments_view(args@) == self.out_args(),
    {
        &self.out_args
    }

    pub fn get_annotations(&self) -> (anns: &Vec<DBusAnnotation>)
        ensures
            annotations_view(anns@) == self.annotations(),
    {
        &self.anns
    }

    /// Tells whether every declared argument names exactly one type.
    pub fn is_well_typed(&self) -> (ok: bool)
        ensures
            ok == self.well_typed(),
    {
        arguments_well_typed(&self.in_args) && arguments_well_typed(&self.out_args)
    }

    /// Tells whether the arguments of `call` have the declared types.
    pub fn accepts_call(&self, call: &DBusMessage) -> (ok: bool)
        ensures
            ok == self.accepts(call@),
    {
        let found = values_signature(call.arguments());
        let declared = arguments_signature(&self.in_args);
        found == declared
    }

    /// Calls the handler on `call`, once.
    pub fn invoke(&self, call: &DBusMessage) -> (outcome: DBusMethodResult)
        requires
            self.accepts(call@),
        ensures
            call_ensures(self.handler(), (call,), outcome),
    {
        proof {
            use_type_invariant(self);
        }
        (self.cb)(call)
    }

    /// Builds the answer to `call` for what the handler returned.
    pub fn reply(
        &self,
        call: &DBusMessage,
        outcome: DBusMethodResult,
    ) -> (reply: Result<DBusMessage, DispatchError>)
        ensures
            reply_view(reply) == reply_to(call@, self.out_args(), outcome_view(outcome)),
    {
        match outcome {
            Ok(values) => {
                let found = values_signature(&values);
                let declared = arguments_signature(&self.out_args);
                if found == declared {
                    Ok(call.return_message().add_arguments(values))
                } else {
                    Err(DispatchError::ReplyMismatch)
                }
            },
            Err(err) => {
                let (name, message) = err.into_parts();
                Ok(call.error_message(name.as_str()).add_argument(DBusValue::String(message)))
            },
        }
    }

    /// Answers `call`: checks its arguments, calls the handler once where
    /// they fit, and builds the answer for what it returned.
    pub fn answer(&self, call: &DBusMessage) -> (reply: Result<DBusMessage, DispatchError>)
        ensures
            self.may_answer(call, reply_view(reply)),
    {
        if !self.accepts_call(call) {
            return Err(DispatchError::ArgumentMismatch);
        }
        self.reply(call, self.invoke(call))
    }
}

} // verus!
