//! Plain records that describe arguments, annotations and handler failures.

use vstd::prelude::*;

use crate::value::is_signature;
use crate::value::is_single_type;
use crate::value::names_single_type;

verus! {

/// One declared argument of a method or of a signal: a name and the
/// signature of its type.
#[derive(Debug, PartialEq, Eq)]
pub struct DBusArgument {
    name: String,
    signature: String,
}

/// The mathematical model of a [`DBusArgument`].
pub struct DBusArgumentView {
    pub name: Seq<char>,
    pub signature: Seq<char>,
}

impl View for DBusArgument {
    type V = DBusArgumentView;

    closed spec fn view(&self) -> DBusArgumentView {
        DBusArgumentView { name: self.name@, signature: self.signature@ }
    }
}

impl Clone for DBusArgument {
    fn clone(&self) -> (copy: DBusArgument)
        ensures
            copy@ == self@,
    {
        DBusArgument { name: self.name.clone(), signature: self.signature.clone() }
    }
}

impl DBusArgument {
    /// An argument called `name` whose type is written `signature`.
    pub fn new(name: String, signature: String) -> (arg: DBusArgument)
        ensures
            arg@.name == name@,
            arg@.signature == signature@,
    {
        DBusArgument { name, signature }
    }

    pub fn name(&self) -> (s: &str)
        ensures
            s@ == self@.name,
    {
        self.name.as_str()
    }

    pub fn signature(&self) -> (s: &str)
        ensures
            s@ == self@.signature,
    {
        self.signature.as_str()
    }
}

/// The views of the arguments of `args`, in order.
pub open spec fn arguments_view(args: Seq<DBusArgument>) -> Seq<DBusArgumentView> {
    args.map_values(|a: DBusArgument| a@)
}

/// The signature that a list of arguments declares: the signatures of the
/// arguments, one behind the other.
pub open spec fn declared_signature(args: Seq<DBusArgumentView>) -> Seq<char>
    decreases args.len(),
{
    if args.len() == 0 {
        Seq::empty()
    } else {
        declared_signature(args.drop_last()) + args.last().signature
    }
}

/// Whether each argument of `args` declares exactly one type.
pub open spec fn well_typed(args: Seq<DBusArgumentView>) -> bool {
    forall|i: int| 0 <= i < args.len() ==> is_single_type((#[trigger] args[i]).signature)
}

/// Where each argument declares exactly one type, the declared signature
/// has one type code for each argument, in order: it is a signature, and
/// the number of arguments is the number of types.
pub proof fn lemma_declared_signature_of_well_typed(args: Seq<DBusArgumentView>)
    requires
        well_typed(args),
    ensures
        declared_signature(args).len() == args.len(),
        forall|i: int| 0 <= i < args.len() ==> declared_signature(args)[i] == args[i].signature[0],
        is_signature(declared_signature(args)),
    decreases args.len(),
{
    if args.len() > 0 {
        lemma_declared_signature_of_well_typed(args.drop_last());
    }
}

/// The signature that `args` declares.
pub fn arguments_signature(args: &Vec<DBusArgument>) -> (s: String)
    ensures
        s@ == declared_signature(arguments_view(args@)),
{
    let ghost all = arguments_view(args@);
    let mut s = String::new();
    let mut i: usize = 0;
    while i < args.len()
        invariant
            all == arguments_view(args@),
            i <= args.len(),
            s@ == declared_signature(all.take(i as int)),
        decreases args.len() - i,
    {
        s.append(args[i].signature());
        proof {
            assert(all.take(i + 1).drop_last() =~= all.take(i as int));
        }
        i += 1;
    }
    assert(all.take(args.len() as int) =~= all);
    s
}

/// Tells whether each argument of `args` declares exactly one type.
pub fn arguments_well_typed(args: &Vec<DBusArgument>) -> (ok: bool)
    ensures
        ok == well_typed(arguments_view(args@)),
{
    let mut i: usize = 0;
    while i < args.len()
        invariant
            i <= args.len(),
            forall|j: int|
                0 <= j < i ==> is_single_type((#[trigger] arguments_view(args@)[j]).signature),
        decreases args.len() - i,
    {
        if !names_single_type(args[i].signature()) {
            assert(!is_single_type(arguments_view(args@)[i as int].signature));
            return false;
        }
        i += 1;
    }
    true
}

/// A piece of metadata attached to a method, a property or a signal.
#[derive(Debug, PartialEq, Eq)]
pub struct DBusAnnotation {
    name: String,
    value: String,
}

/// The mathematical model of a [`DBusAnnotation`].
pub struct DBusAnnotationView {
    pub name: Seq<char>,
    pub value: Seq<char>,
}

impl View for DBusAnnotation {
    type V = DBusAnnotationView;

    closed spec fn view(&self) -> DBusAnnotationView {
        DBusAnnotationView { name: self.name@, value: self.value@ }
    }
}

impl Clone for DBusAnnotation {
    fn clone(&self) -> (copy: DBusAnnotation)
        ensures
            copy@ == self@,
    {
        DBusAnnotation { name: self.name.clone(), value: self.value.clone() }
    }
}

impl DBusAnnotation {
    pub fn new(name: String, value: String) -> (ann: DBusAnnotation)
        ensures
            ann@.name == name@,
            ann@.value == value@,
    {
        DBusAnnotation { name, value }
    }

    pub fn name(&self) -> (s: &str)
        ensures
            s@ == self@.name,
    {
        self.name.as_str()
    }

    pub fn value(&self) -> (s: &str)
        ensures
            s@ == self@.value,
    {
        self.value.as_str()
    }
}

/// The annotations of one method, property or signal, in the order given.
pub type DBusAnnotations = Vec<DBusAnnotation>;

/// The views of the annotations of `anns`, in order.
pub open spec fn annotations_view(anns: Seq<DBusAnnotation>) -> Seq<DBusAnnotationView> {
    anns.map_values(|a: DBusAnnotation| a@)
}

/// What a handler returns to report a failure: the identifier of the
/// error and a detail for human readers.
#[derive(Debug, PartialEq, Eq)]
pub struct DBusErrorMessage {
    name: String,
    message: String,
}

/// The mathematical model of a [`DBusErrorMessage`].
pub struct DBusErrorMessageView {
    pub name: Seq<char>,
    pub message: Seq<char>,
}

impl View for DBusErrorMessage {
    type V = DBusErrorMessageView;

    closed spec fn view(&self) -> DBusErrorMessageView {
        DBusErrorMessageView { name: self.name@, message: self.message@ }
    }
}

impl Clone for DBusErrorMessage {
    fn clone(&self) -> (copy: DBusErrorMessage)
        ensures
            copy@ == self@,
    {
        DBusErrorMessage { name: self.name.clone(), message: self.message.clone() }
    }
}

impl DBusErrorMessage {
    pub fn new(name: String, message: String) -> (err: DBusErrorMessage)
        ensures
            err@.name == name@,
            err@.message == message@,
    {
        DBusErrorMessage { name, message }
    }

    pub fn name(&self) -> (s: &str)
        ensures
            s@ == self@.name,
    {
        self.name.as_str()
    }

    pub fn message(&self) -> (s: &str)
        ensures
            s@ == self@.message,
    {
        self.message.as_str()
    }

    /// Takes the record apart into its name and its detail.
    pub fn into_parts(self) -> (parts: (String, String))
        ensures
            parts.0@ == self@.name,
            parts.1@ == self@.message,
    {
        (self.name, self.message)
    }
}

} // verus!
