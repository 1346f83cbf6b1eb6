//! The failure shapes: a marker error with one fixed cause, an enumerated
//! error that keeps what caused it, and an opaque error for boundaries that
//! only render and chain.

use crate::parse::MalformedInput;
use vstd::prelude::*;

verus! {

/// What every failure of the taxonomy can do: render a one-line message and
/// expose its immediate cause. A cause is the collaborator's failure, which
/// has no cause of its own, so every chain ends after at most one link.
pub trait Failure: Sized {
    /// The one-line human message.
    spec fn message_view(&self) -> Seq<char>;

    /// The immediate cause, if there is one.
    spec fn cause_view(&self) -> Option<MalformedInput>;

    fn message(&self) -> (r: String)
        ensures
            r@ == self.message_view(),
    ;

    fn source(&self) -> (r: Option<&MalformedInput>)
        ensures
            match r {
                Some(c) => self.cause_view() == Some(*c),
                None => self.cause_view() is None,
            },
    ;

    /// Gives up the failure, keeping only its immediate cause.
    fn into_source(self) -> (r: Option<MalformedInput>)
        ensures
            r == self.cause_view(),
    ;
}

/// A failure with one fixed cause: the first item to double was missing or
/// unusable.
#[derive(Debug, Clone, Copy, PartialEq, Eq)]
pub struct EmptyVec;

impl Failure for EmptyVec {
    open spec fn message_view(&self) -> Seq<char> {
        "invalid first item to double"@
    }

    open spec fn cause_view(&self) -> Option<MalformedInput> {
        None
    }

    fn message(&self) -> (r: String) {
        "invalid first item to double".to_owned()
    }

    fn source(&self) -> (r: Option<&MalformedInput>) {
        None
    }

    fn into_source(self) -> (r: Option<MalformedInput>) {
        None
    }
}

/// A failure with two distinct causes: there was no input at all, or the
/// input could not be read as a number (the collaborator's failure is kept).
#[derive(Debug, PartialEq, Eq)]
pub enum DoubleError {
    EmptyVec,
    Parse(MalformedInput),
}

impl Failure for DoubleError {
    open spec fn message_view(&self) -> Seq<char> {
        match self {
            DoubleError::EmptyVec => "please use a vector with at least one element"@,
            DoubleError::Parse(_) => "the provided string could not be parsed as int"@,
        }
    }

    open spec fn cause_view(&self) -> Option<MalformedInput> {
        match self {
            DoubleError::EmptyVec => None,
            DoubleError::Parse(e) => Some(*e),
        }
    }

    fn message(&self) -> (r: String) {
        match self {
            DoubleError::EmptyVec => "please use a vector with at least one element".to_owned(),
            DoubleError::Parse(_) => "the provided string could not be parsed as int".to_owned(),
        }
    }

    fn source(&self) -> (r: Option<&MalformedInput>) {
        match self {
            DoubleError::EmptyVec => None,
            DoubleError::Parse(e) => Some(e),
        }
    }

    fn into_source(self) -> (r: Option<MalformedInput>) {
        match self {
            DoubleError::EmptyVec => None,
            DoubleError::Parse(e) => Some(e),
        }
    }
}

/// Every collaborator failure widens to exactly one taxonomy error, which
/// keeps it as its cause.
impl From<MalformedInput> for DoubleError {
    fn from(err: MalformedInput) -> (r: DoubleError)
        ensures
            r == DoubleError::Parse(err),
    {
        DoubleError::Parse(err)
    }
}

impl vstd::std_specs::convert::FromSpecImpl<MalformedInput> for DoubleError {
    open spec fn obeys_from_spec() -> bool {
        true
    }

    open spec fn from_spec(v: MalformedInput) -> DoubleError {
        DoubleError::Parse(v)
    }
}

/// A failure whose concrete shape has been erased: it keeps the message of
/// the failure it was made from and that failure's immediate cause.
#[derive(Debug, PartialEq, Eq)]
pub struct OpaqueError {
    message: String,
    cause: Option<MalformedInput>,
}

impl OpaqueError {
    pub closed spec fn message_spec(&self) -> Seq<char> {
        self.message@
    }

    pub closed spec fn cause_spec(&self) -> Option<MalformedInput> {
        self.cause
    }

    /// Erases the shape of any failure of the taxonomy.
    pub fn erase<E: Failure>(e: E) -> (r: OpaqueError)
        ensures
            r.message_view() == e.message_view(),
            r.cause_view() == e.cause_view(),
    {
        let message = e.message();
        let cause = e.into_source();
        OpaqueError { message, cause }
    }
}

impl Failure for OpaqueError {
    open spec fn message_view(&self) -> Seq<char> {
        self.message_spec()
    }

    open spec fn cause_view(&self) -> Option<MalformedInput> {
        self.cause_spec()
    }

    fn message(&self) -> (r: String) {
        self.message.clone()
    }

    fn source(&self) -> (r: Option<&MalformedInput>) {
        match &self.cause {
            Some(c) => Some(c),
            None => None,
        }
    }

    fn into_source(self) -> (r: Option<MalformedInput>) {
        self.cause
    }
}

impl From<DoubleError> for OpaqueError {
    fn from(e: DoubleError) -> (r: OpaqueError)
        ensures
            r.message_view() == e.message_view(),
            r.cause_view() == e.cause_view(),
    {
        OpaqueError::erase(e)
    }
}

/// An erased failure has no spec-level constructor, so `from` is described by
/// its own `ensures` alone.
impl vstd::std_specs::convert::FromSpecImpl<DoubleError> for OpaqueError {
    open spec fn obeys_from_spec() -> bool {
        false
    }

    open spec fn from_spec(v: DoubleError) -> OpaqueError {
        arbitrary()
    }
}

impl From<EmptyVec> for OpaqueError {
    fn from(e: EmptyVec) -> (r: OpaqueError)
        ensures
            r.message_view() == e.message_view(),
            r.cause_view() == e.cause_view(),
    {
        OpaqueError::erase(e)
    }
}

/// An erased failure has no spec-level constructor, so `from` is described by
/// its own `ensures` alone.
impl vstd::std_specs::convert::FromSpecImpl<EmptyVec> for OpaqueError {
    open spec fn obeys_from_spec() -> bool {
        false
    }

    open spec fn from_spec(v: EmptyVec) -> OpaqueError {
        arbitrary()
    }
}

/// A collaborator failure erased at a boundary keeps its own message, and
/// the failure itself is the one link to follow from it.
impl From<MalformedInput> for OpaqueError {
    fn from(m: MalformedInput) -> (r: OpaqueError)
        ensures
            r.message_view() == m.message_view(),
            r.cause_view() == Some(m),
    {
        let message = m.message();
        OpaqueError { message, cause: Some(m) }
    }
}

/// An erased failure has no spec-level constructor, so `from` is described by
/// its own `ensures` alone.
impl vstd::std_specs::convert::FromSpecImpl<MalformedInput> for OpaqueError {
    open spec fn obeys_from_spec() -> bool {
        false
    }

    open spec fn from_spec(v: MalformedInput) -> OpaqueError {
        arbitrary()
    }
}

} // verus!
