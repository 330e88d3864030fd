//! Typed values and the signatures that name their types.
//!
//! A value is of one of the basic bus types. Its type is written as a
//! single character, its type code; the signature of a sequence of values
//! is the string of their codes.

use vstd::prelude::*;

verus! {

/// A value of one of the basic types.
#[derive(Debug, PartialEq, Eq)]
pub enum DBusValue {
    Byte(u8),
    Boolean(bool),
    Int16(i16),
    UInt16(u16),
    Int32(i32),
    UInt32(u32),
    Int64(i64),
    UInt64(u64),
    /// A double-precision number, held as its IEEE 754 bit pattern.
    Double(u64),
    String(String),
    ObjectPath(String),
    Signature(String),
}

/// The mathematical model of a [`DBusValue`].
pub enum DBusValueView {
    Byte(u8),
    Boolean(bool),
    Int16(i16),
    UInt16(u16),
    Int32(i32),
    UInt32(u32),
    Int64(i64),
    UInt64(u64),
    Double(u64),
    String(Seq<char>),
    ObjectPath(Seq<char>),
    Signature(Seq<char>),
}

impl DBusValueView {
    /// The character that names the type of the value.
    pub open spec fn type_code(self) -> char {
        match self {
            DBusValueView::Byte(_) => 'y',
            DBusValueView::Boolean(_) => 'b',
            DBusValueView::Int16(_) => 'n',
            DBusValueView::UInt16(_) => 'q',
            DBusValueView::Int32(_) => 'i',
            DBusValueView::UInt32(_) => 'u',
            DBusValueView::Int64(_) => 'x',
            DBusValueView::UInt64(_) => 't',
            DBusValueView::Double(_) => 'd',
            DBusValueView::String(_) => 's',
            DBusValueView::ObjectPath(_) => 'o',
            DBusValueView::Signature(_) => 'g',
        }
    }
}

impl View for DBusValue {
    type V = DBusValueView;

    open spec fn view(&self) -> DBusValueView {
        match self {
            DBusValue::Byte(v) => DBusValueView::Byte(*v),
            DBusValue::Boolean(v) => DBusValueView::Boolean(*v),
            DBusValue::Int16(v) => DBusValueView::Int16(*v),
            DBusValue::UInt16(v) => DBusValueView::UInt16(*v),
            DBusValue::Int32(v) => DBusValueView::Int32(*v),
            DBusValue::UInt32(v) => DBusValueView::UInt32(*v),
            DBusValue::Int64(v) => DBusValueView::Int64(*v),
            DBusValue::UInt64(v) => DBusValueView::UInt64(*v),
            DBusValue::Double(v) => DBusValueView::Double(*v),
            DBusValue::String(v) => DBusValueView::String(v@),
            DBusValue::ObjectPath(v) => DBusValueView::ObjectPath(v@),
            DBusValue::Signature(v) => DBusValueView::Signature(v@),
        }
    }
}

impl Clone for DBusValue {
    fn clone(&self) -> (copy: DBusValue)
        ensures
            copy@ == self@,
    {
        match self {
            DBusValue::Byte(v) => DBusValue::Byte(*v),
            DBusValue::Boolean(v) => DBusValue::Boolean(*v),
            DBusValue::Int16(v) => DBusValue::Int16(*v),
            DBusValue::UInt16(v) => DBusValue::UInt16(*v),
            DBusValue::Int32(v) => DBusValue::Int32(*v),
            DBusValue::UInt32(v) => DBusValue::UInt32(*v),
            DBusValue::Int64(v) => DBusValue::Int64(*v),
            DBusValue::UInt64(v) => DBusValue::UInt64(*v),
            DBusValue::Double(v) => DBusValue::Double(*v),
            DBusValue::String(v) => DBusValue::String(v.clone()),
            DBusValue::ObjectPath(v) => DBusValue::ObjectPath(v.clone()),
            DBusValue::Signature(v) => DBusValue::Signature(v.clone()),
        }
    }
}

/// Whether `c` names one of the basic types.
pub open spec fn is_type_code(c: char) -> bool {
    c == 'y' || c == 'b' || c == 'n' || c == 'q' || c == 'i' || c == 'u' || c == 'x' || c == 't'
        || c == 'd' || c == 's' || c == 'o' || c == 'g'
}

/// Whether `s` is a signature: a string of type codes, possibly empty.
pub open spec fn is_signature(s: Seq<char>) -> bool {
    forall|i: int| 0 <= i < s.len() ==> is_type_code(#[trigger] s[i])
}

/// Whether `s` names exactly one type.
pub open spec fn is_single_type(s: Seq<char>) -> bool {
    s.len() == 1 && is_type_code(s[0])
}

/// The views of the values of `values`, in order.
pub open spec fn values_view(values: Seq<DBusValue>) -> Seq<DBusValueView> {
    values.map_values(|v: DBusValue| v@)
}

/// The signature of a sequence of values: the code of each, in order.
pub open spec fn signature_of(values: Seq<DBusValueView>) -> Seq<char> {
    values.map_values(|v: DBusValueView| v.type_code())
}

/// Every value has a type, so the signature of any values is a signature.
pub proof fn lemma_signature_of_is_signature(values: Seq<DBusValueView>)
    ensures
        is_signature(signature_of(values)),
        signature_of(values).len() == values.len(),
{
}

impl DBusValue {
    /// The character that names the type of this value.
    pub fn type_code(&self) -> (c: char)
        ensures
            c == self@.type_code(),
    {
        match self {
            DBusValue::Byte(_) => 'y',
            DBusValue::Boolean(_) => 'b',
            DBusValue::Int16(_) => 'n',
            DBusValue::UInt16(_) => 'q',
            DBusValue::Int32(_) => 'i',
            DBusValue::UInt32(_) => 'u',
            DBusValue::Int64(_) => 'x',
            DBusValue::UInt64(_) => 't',
            DBusValue::Double(_) => 'd',
            DBusValue::String(_) => 's',
            DBusValue::ObjectPath(_) => 'o',
            DBusValue::Signature(_) => 'g',
        }
    }

    /// The signature of this value alone: its type code as a string.
    pub fn type_signature(&self) -> (s: &'static str)
        ensures
            s@ == seq![self@.type_code()],
    {
        proof {
            reveal_strlit("y");
            reveal_strlit("b");
            reveal_strlit("n");
            reveal_strlit("q");
            reveal_strlit("i");
            reveal_strlit("u");
            reveal_strlit("x");
            reveal_strlit("t");
            reveal_strlit("d");
            reveal_strlit("s");
            reveal_strlit("o");
            reveal_strlit("g");
        }
        let s = match self {
            DBusValue::Byte(_) => "y",
            DBusValue::Boolean(_) => "b",
            DBusValue::Int16(_) => "n",
            DBusValue::UInt16(_) => "q",
            DBusValue::Int32(_) => "i",
            DBusValue::UInt32(_) => "u",
            DBusValue::Int64(_) => "x",
            DBusValue::UInt64(_) => "t",
            DBusValue::Double(_) => "d",
            DBusValue::String(_) => "s",
            DBusValue::ObjectPath(_) => "o",
            DBusValue::Signature(_) => "g",
        };
        s
    }
}

/// Tells whether `c` names one of the basic types.
pub fn type_code_is_known(c: char) -> (known: bool)
    ensures
        known == is_type_code(c),
{
    c == 'y' || c == 'b' || c == 'n' || c == 'q' || c == 'i' || c == 'u' || c == 'x' || c == 't'
        || c == 'd' || c == 's' || c == 'o' || c == 'g'
}

/// The signature of `values`: the type code of each, in order.
pub fn values_signature(values: &Vec<DBusValue>) -> (s: String)
    ensures
        s@ == signature_of(values_view(values@)),
{
    let mut s = String::new();
    let mut i: usize = 0;
    while i < values.len()
        invariant
            i <= values.len(),
            s@.len() == i,
            forall|j: int| 0 <= j < i ==> s@[j] == (#[trigger] values@[j])@.type_code(),
        decreases values.len() - i,
    {
        s.append(values[i].type_signature());
        i += 1;
    }
    s
}

/// A signature that has been checked: a string of type codes.
#[derive(Debug, PartialEq, Eq)]
pub struct DBusSignature {
    text: String,
}

impl View for DBusSignature {
    type V = Seq<char>;

    closed spec fn view(&self) -> Seq<char> {
        self.text@
    }
}

impl Clone for DBusSignature {
    fn clone(&self) -> (copy: DBusSignature)
        ensures
            copy@ == self@,
    {
        proof {
            use_type_invariant(self);
        }
        DBusSignature { text: self.text.clone() }
    }
}

impl DBusSignature {
    #[verifier::type_invariant]
    spec fn well_formed(&self) -> bool {
        is_signature(self.text@)
    }

    /// Reads `text` as a signature. The result is `None` exactly when
    /// some character of `text` names no type.
    pub fn parse(text: &str) -> (sig: Option<DBusSignature>)
        ensures
            sig is Some <==> is_signature(text@),
            sig matches Some(s) ==> s@ == text@,
    {
        if !text.is_ascii() {
            return None;
        }
        let n = ascii_len(text);
        let mut i: usize = 0;
        while i < n
            invariant
                text.is_ascii(),
                n == text@.len(),
                i <= n,
                forall|j: int| 0 <= j < i ==> is_type_code(#[trigger] text@[j]),
            decreases n - i,
        {
            if !type_code_is_known(ascii_char(text, i)) {
                return None;
            }
            i += 1;
        }
        Some(DBusSignature { text: text.to_owned() })
    }

    /// The signature of `values`.
    pub fn of_values(values: &Vec<DBusValue>) -> (sig: DBusSignature)
        ensures
            sig@ == signature_of(values_view(values@)),
    {
        proof {
            lemma_signature_of_is_signature(values_view(values@));
        }
        DBusSignature { text: values_signature(values) }
    }

    pub fn as_str(&self) -> (s: &str)
        ensures
            s@ == self@,
            is_signature(self@),
    {
        proof {
            use_type_invariant(self);
        }
        self.text.as_str()
    }

    /// Tells whether the signature names exactly one type.
    pub fn is_single(&self) -> (single: bool)
        ensures
            single == is_single_type(self@),
    {
        proof {
            use_type_invariant(self);
        }
        ascii_len(self.text.as_str()) == 1
    }

    /// Tells whether `value` has the one type that this signature names.
    pub fn admits(&self, value: &DBusValue) -> (admitted: bool)
        ensures
            admitted == (self@ == seq![value@.type_code()]),
    {
        proof {
            use_type_invariant(self);
        }
        let text = self.text.as_str();
        let admitted = ascii_len(text) == 1 && ascii_char(text, 0) == value.type_code();
        assert(admitted == (self@ =~= seq![value@.type_code()]));
        admitted
    }
}

/// Tells whether `text` names exactly one type.
pub fn names_single_type(text: &str) -> (single: bool)
    ensures
        single == is_single_type(text@),
{
    text.is_ascii() && ascii_len(text) == 1 && type_code_is_known(ascii_char(text, 0))
}

/// The number of characters of a text of ASCII characters.
fn ascii_len(text: &str) -> (n: usize)
    requires
        text.is_ascii(),
    ensures
        n == text@.len(),
{
    broadcast use vstd::string::is_ascii_spec_bytes;

    text.as_bytes().len()
}

/// The character at position `i` of a text of ASCII characters.
fn ascii_char(text: &str, i: usize) -> (c: char)
    requires
        text.is_ascii(),
        i < text@.len(),
    ensures
        c == text@[i as int],
{
    let b = text.get_ascii(i);
    b as char
}

} // verus!
