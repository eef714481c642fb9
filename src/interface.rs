//! The capability set every component offers, and the host's callback
//! connection it may use between attach and detach.

use vstd::prelude::*;
use crate::metadata::{ComponentFuncDescription, ComponentPropDescription, encode_utf16, utf16_encode};
use crate::value::{ParamValue, ValueModel};

verus! {

/// How serious a reported error is; the dialog kinds make the host show a
/// modal window.
#[derive(Clone, Copy, PartialEq, Eq, Structural, Debug)]
pub enum Error {
    /// a plain message, with no icon
    Message,
    Ordinary,
    Attention,
    Important,
    VeryImportant,
    Info,
    Fail,
    DialogAttention,
    DialogInfo,
    DialogFail,
}

/// The host's number for each severity.
pub open spec fn error_code(e: Error) -> u16 {
    match e {
        Error::Message => 1000,
        Error::Ordinary => 1001,
        Error::Attention => 1002,
        Error::Important => 1003,
        Error::VeryImportant => 1004,
        Error::Info => 1005,
        Error::Fail => 1006,
        Error::DialogAttention => 1007,
        Error::DialogInfo => 1008,
        Error::DialogFail => 1009,
    }
}

impl Error {
    /// The host's number for this severity.
    pub fn code(&self) -> (r: u16)
        ensures
            r == error_code(*self),
    {
        match self {
            Error::Message => 1000,
            Error::Ordinary => 1001,
            Error::Attention => 1002,
            Error::Important => 1003,
            Error::VeryImportant => 1004,
            Error::Info => 1005,
            Error::Fail => 1006,
            Error::DialogAttention => 1007,
            Error::DialogInfo => 1008,
            Error::DialogFail => 1009,
        }
    }
}

/// A string as the host takes it: UTF-16 with a terminating zero.
pub fn os_string_nil(s: &str) -> (r: Vec<u16>)
    ensures
        r@ == utf16_encode(s@).push(0),
{
    let mut r = encode_utf16(s);
    r.push(0);
    r
}

/// The callback object that the host hands over at attach time. Every
/// answer is the host's: verified callers handle each of them.
pub trait Connection {
    /// Reports an error of severity `code` to the host.
    fn add_error(&self, code: Error, source: &str, description: &str) -> bool;

    /// Raises an event for the host's event handlers.
    fn external_event(&self, caller: &str, name: &str, data: &str) -> bool;

    /// Sets how many external events the host queues.
    fn set_event_buffer_depth(&self, depth: i64) -> bool;

    /// How many external events the host queues.
    fn get_event_buffer_depth(&self) -> i64;

    /// Drops the events the host has queued.
    fn clean_event_buffer(&self);

    /// Shows `status` in the host's status line.
    fn set_status_line(&self, status: &str) -> bool;

    /// Clears the host's status line.
    fn reset_status_line(&self);

    /// Names the profile under which the component keeps its settings.
    fn register_profile_as(&self, profile_name: &str) -> bool;
}

/// Why a component's method failed.
#[derive(Clone, Copy, PartialEq, Eq, Structural, Debug)]
pub enum CallError {
    /// a parameter is missing or of the wrong kind
    InvalidParameter,
    /// a duration beyond what a timer accepts
    TooLong,
    /// the counter reached its ceiling
    PropTooBig,
    /// the method does work that only the host side can do
    HostOnly,
}

impl CallError {
    /// A human-readable description of the failure.
    pub fn message(&self) -> (r: &'static str)
        ensures
            r@ == call_error_text(*self),
    {
        match self {
            CallError::InvalidParameter => "Invalid parameter",
            CallError::TooLong => "Too long",
            CallError::PropTooBig => "Prop is too big",
            CallError::HostOnly => "Not available here",
        }
    }
}

pub open spec fn call_error_text(e: CallError) -> Seq<char> {
    match e {
        CallError::InvalidParameter => "Invalid parameter"@,
        CallError::TooLong => "Too long"@,
        CallError::PropTooBig => "Prop is too big"@,
        CallError::HostOnly => "Not available here"@,
    }
}

/// The content of an optional value.
pub open spec fn opt_model(v: Option<ParamValue>) -> Option<ValueModel> {
    match v {
        Some(x) => Some(x@),
        None => None,
    }
}

/// The content of a method's result.
pub open spec fn result_model(r: Result<Option<ParamValue>, CallError>) -> Result<
    Option<ValueModel>,
    CallError,
> {
    match r {
        Ok(v) => Ok(opt_model(v)),
        Err(e) => Err(e),
    }
}

/// What a component offers the host. The method and property tables are
/// fixed when the component is made: positions in them are the only
/// identifiers that cross the boundary.
pub trait AddIn {
    /// The method table.
    spec fn functions_spec(&self) -> Seq<ComponentFuncDescription>;

    /// The property table.
    spec fn props_spec(&self) -> Seq<ComponentPropDescription>;

    /// Attaches to the host; `false` refuses the attachment.
    fn init<C: Connection>(&mut self, interface: &C) -> (r: bool)
        ensures
            final(self).functions_spec() == old(self).functions_spec(),
            final(self).props_spec() == old(self).props_spec(),
    ;

    /// Detaches from the host.
    fn done(&mut self)
        ensures
            final(self).functions_spec() == old(self).functions_spec(),
            final(self).props_spec() == old(self).props_spec(),
    ;

    /// The name under which the component registers.
    spec fn name_spec(&self) -> Seq<u16>;

    /// The value of property `prop` in this state, where it has one.
    spec fn prop_value(&self, prop: usize) -> Option<ValueModel>;

    /// What method `method` returns when run with `params` in this state.
    spec fn call_outcome(&self, method: usize, params: Seq<ParamValue>) -> Result<
        Option<ValueModel>,
        CallError,
    >;

    /// The component's name, in UTF-16 with a terminating zero.
    fn add_in_name(&self) -> (r: Vec<u16>)
        ensures
            r@ == self.name_spec(),
    ;

    fn list_functions(&self) -> (r: &Vec<ComponentFuncDescription>)
        ensures
            r@ == self.functions_spec(),
    ;

    fn list_parameters(&self) -> (r: &Vec<ComponentPropDescription>)
        ensures
            r@ == self.props_spec(),
    ;

    /// Runs method `method` of the table.
    fn call_function(&mut self, method: usize, params: &[ParamValue]) -> (r: Result<
        Option<ParamValue>,
        CallError,
    >)
        requires
            method < old(self).functions_spec().len(),
        ensures
            result_model(r) == old(self).call_outcome(method, params@),
            final(self).functions_spec() == old(self).functions_spec(),
            final(self).props_spec() == old(self).props_spec(),
    ;

    /// Reads property `prop` of the table.
    fn get_parameter(&self, prop: usize) -> (r: Option<ParamValue>)
        requires
            prop < self.props_spec().len(),
        ensures
            opt_model(r) == self.prop_value(prop),
    ;

    /// Writes property `prop` of the table; `false` when the value is refused.
    fn set_parameter(&mut self, prop: usize, value: &ParamValue) -> (r: bool)
        requires
            prop < old(self).props_spec().len(),
        ensures
            final(self).functions_spec() == old(self).functions_spec(),
            final(self).props_spec() == old(self).props_spec(),
    ;

    /// Takes note of the host's locale.
    fn set_locale(&mut self, loc: &[u16])
        ensures
            final(self).functions_spec() == old(self).functions_spec(),
            final(self).props_spec() == old(self).props_spec(),
    ;

    /// Takes note of the language of the host's user interface.
    fn set_user_interface_language_code(&mut self, lang: &[u16])
        ensures
            final(self).functions_spec() == old(self).functions_spec(),
            final(self).props_spec() == old(self).props_spec(),
    ;
}

} // verus!
