//! Dynamic values, errors that cross back into the interpreter, and the heap
//! that attaches native payloads to object handles.

use vstd::prelude::*;
use vstd::string::*;

use crate::time::Time;

verus! {

/// The native types that the heap can hold.
#[derive(Debug, Clone, Copy, PartialEq, Eq, Structural)]
pub enum NativeTag {
    Time,
    Container,
}

/// A handle to a heap object: its slot, and the class the object claims to
/// have. Retrieval trusts the slot's own payload, never the claimed class.
#[derive(Debug, Clone, Copy, PartialEq, Eq, Structural)]
pub struct Handle {
    pub id: usize,
    pub class: NativeTag,
}

/// A value of the dynamic language, as it reaches native code.
#[derive(Debug)]
pub enum Value {
    Nil,
    Bool(bool),
    Fixnum(i64),
    Str(String),
    Symbol(String),
    Hash(Vec<(Value, Value)>),
    Object(Handle),
}

/// A native payload attached to a heap object.
#[derive(Debug)]
pub enum Native {
    Time(Time),
    Container(i64),
}

/// The kinds of error raised back into the interpreter.
#[derive(Debug, Clone, Copy, PartialEq, Eq, Structural)]
pub enum ErrorKind {
    ArgumentError,
    TypeError,
    RangeError,
    RuntimeError,
    NotImplementedError,
}

/// An error raised back into the interpreter: its kind and its message.
#[derive(Debug, Clone)]
pub struct Error {
    pub kind: ErrorKind,
    pub message: String,
}

/// `r` is the error of this kind with this message.
pub open spec fn fails_with<T>(r: Result<T, Error>, kind: ErrorKind, message: Seq<char>) -> bool {
    r matches Err(e) && e.kind == kind && e.message@ == message
}

/// `r` is an error of this kind.
pub open spec fn fails_as<T>(r: Result<T, Error>, kind: ErrorKind) -> bool {
    r matches Err(e) && e.kind == kind
}

impl Error {
    /// An error of `kind` carrying `message`.
    pub fn with_message(kind: ErrorKind, message: &str) -> (r: Error)
        ensures
            r.kind == kind,
            r.message@ == message@,
    {
        Error { kind, message: String::from_str(message) }
    }

    /// The operation is not implemented yet.
    pub fn not_implemented() -> (r: Error)
        ensures
            r.kind == ErrorKind::NotImplementedError,
            r.message@ == "not implemented"@,
    {
        Error::with_message(ErrorKind::NotImplementedError, "not implemented")
    }
}

/// The class name the language shows for a value.
pub open spec fn class_name(v: Value) -> Seq<char> {
    match v {
        Value::Nil => "nil"@,
        Value::Bool(b) => if b {
            "true"@
        } else {
            "false"@
        },
        Value::Fixnum(_) => "Integer"@,
        Value::Str(_) => "String"@,
        Value::Symbol(_) => "Symbol"@,
        Value::Hash(_) => "Hash"@,
        Value::Object(h) => match h.class {
            NativeTag::Time => "Time"@,
            NativeTag::Container => "Container"@,
        },
    }
}

/// The tag of a native payload.
pub open spec fn tag_of(n: Native) -> NativeTag {
    match n {
        Native::Time(_) => NativeTag::Time,
        Native::Container(_) => NativeTag::Container,
    }
}

impl Value {
    /// The class name the language shows for this value.
    pub fn class_name(&self) -> (r: &'static str)
        ensures
            r@ == class_name(*self),
    {
        match self {
            Value::Nil => "nil",
            Value::Bool(b) => if *b {
                "true"
            } else {
                "false"
            },
            Value::Fixnum(_) => "Integer",
            Value::Str(_) => "String",
            Value::Symbol(_) => "Symbol",
            Value::Hash(_) => "Hash",
            Value::Object(h) => match h.class {
                NativeTag::Time => "Time",
                NativeTag::Container => "Container",
            },
        }
    }

    /// The integer this value holds; any other value is a type error naming its class.
    pub fn to_int(&self) -> (r: Result<i64, Error>)
        ensures
            *self matches Value::Fixnum(n) ==> r == Ok::<i64, Error>(n),
            !(*self is Fixnum) ==> fails_with(
                r,
                ErrorKind::TypeError,
                "no implicit conversion of "@ + class_name(*self) + " into Integer"@,
            ),
    {
        match self {
            Value::Fixnum(n) => Ok(*n),
            _ => {
                let mut message = String::from_str("no implicit conversion of ");
                message.append(self.class_name());
                message.append(" into Integer");
                Err(Error { kind: ErrorKind::TypeError, message })
            },
        }
    }
}

/// The objects of one interpreter, each owning one native payload. Slots are
/// never freed, so a handle that was handed out stays valid.
pub struct Heap {
    slots: Vec<Native>,
}

impl Heap {
    /// The payloads, by slot.
    pub closed spec fn payloads(self) -> Seq<Native> {
        self.slots@
    }

    /// The payload that `v` refers to, if `v` is a handle to a slot.
    pub open spec fn payload_of(self, v: Value) -> Option<Native> {
        match v {
            Value::Object(h) => if h.id < self.payloads().len() {
                Some(self.payloads()[h.id as int])
            } else {
                None
            },
            _ => None,
        }
    }

    /// The time that `v` refers to, if `v` is a handle to a slot holding one.
    pub open spec fn time_of(self, v: Value) -> Option<Time> {
        match self.payload_of(v) {
            Some(Native::Time(t)) => Some(t),
            _ => None,
        }
    }

    /// An empty heap.
    pub fn new() -> (r: Heap)
        ensures
            r.payloads() == Seq::<Native>::empty(),
    {
        Heap { slots: Vec::new() }
    }

    /// The number of objects.
    pub fn len(&self) -> (r: usize)
        ensures
            r == self.payloads().len(),
    {
        self.slots.len()
    }

    /// Moves `payload` into a new object and returns its handle.
    pub fn allocate(&mut self, payload: Native) -> (r: Value)
        requires
            old(self).payloads().len() < usize::MAX,
        ensures
            final(self).payloads() == old(self).payloads().push(payload),
            r == Value::Object(Handle { id: old(self).payloads().len() as usize, class: tag_of(payload) }),
    {
        let id = self.slots.len();
        let class = match &payload {
            Native::Time(_) => NativeTag::Time,
            Native::Container(_) => NativeTag::Container,
        };
        self.slots.push(payload);
        Value::Object(Handle { id, class })
    }

    /// Replaces the payload of the object that `target` refers to.
    pub fn overwrite(&mut self, payload: Native, target: &Value) -> (r: Result<(), Error>)
        ensures
            old(self).payload_of(*target) is Some ==> (r is Ok && final(self).payloads()
                == old(self).payloads().update(target->Object_0.id as int, payload)),
            old(self).payload_of(*target) is None ==> (fails_as(r, ErrorKind::TypeError)
                && final(self).payloads() == old(self).payloads()),
    {
        match target {
            Value::Object(h) => {
                if h.id < self.slots.len() {
                    self.slots.set(h.id, payload);
                    Ok(())
                } else {
                    Err(Error::with_message(ErrorKind::TypeError, "uninitialized object"))
                }
            },
            _ => {
                let mut message = String::from_str("wrong argument type ");
                message.append(target.class_name());
                message.append(" (expected Data)");
                Err(Error { kind: ErrorKind::TypeError, message })
            },
        }
    }

    /// The time that `v` refers to. Fails with a type error unless `v` is a
    /// handle whose slot holds a time, whatever class the handle claims.
    pub fn retrieve_time(&self, v: &Value) -> (r: Result<&Time, Error>)
        ensures
            self.time_of(*v) matches Some(t) ==> r == Ok::<&Time, Error>(&t),
            self.time_of(*v) is None ==> fails_as(r, ErrorKind::TypeError),
    {
        match v {
            Value::Object(h) => {
                if h.id < self.slots.len() {
                    match &self.slots[h.id] {
                        Native::Time(t) => Ok(t),
                        Native::Container(_) => {
                            let mut message = String::from_str("wrong argument type ");
                            message.append(v.class_name());
                            message.append(" (expected Time)");
                            Err(Error { kind: ErrorKind::TypeError, message })
                        },
                    }
                } else {
                    Err(Error::with_message(ErrorKind::TypeError, "uninitialized Time"))
                }
            },
            _ => {
                let mut message = String::from_str("wrong argument type ");
                message.append(v.class_name());
                message.append(" (expected Time)");
                Err(Error { kind: ErrorKind::TypeError, message })
            },
        }
    }

    /// The integer that a `Container` object holds. Fails with a type error unless
    /// `v` is a handle whose slot holds a container, whatever class it claims.
    pub fn retrieve_container(&self, v: &Value) -> (r: Result<i64, Error>)
        ensures
            self.payload_of(*v) matches Some(Native::Container(n)) ==> r == Ok::<i64, Error>(n),
            !(self.payload_of(*v) matches Some(Native::Container(_))) ==> fails_as(
                r,
                ErrorKind::TypeError,
            ),
    {
        match v {
            Value::Object(h) => {
                if h.id < self.slots.len() {
                    match &self.slots[h.id] {
                        Native::Container(n) => Ok(*n),
                        Native::Time(_) => Err(
                            Error::with_message(ErrorKind::TypeError, "expected Container"),
                        ),
                    }
                } else {
                    Err(Error::with_message(ErrorKind::TypeError, "uninitialized Container"))
                }
            },
            _ => Err(Error::with_message(ErrorKind::TypeError, "expected Container")),
        }
    }
}

} // verus!
