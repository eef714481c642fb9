//! The example component: a counter property, an iteration method that
//! raises it to a ceiling, and a timer that asks for an event after a delay.

use vstd::prelude::*;
use crate::interface::{os_string_nil, result_model, AddIn, CallError, Connection};
use crate::metadata::{
    encode_utf16, func_table, lemma_lookup_by_any_name, lemma_utf16_len_bmp, lookup_result,
    names_unique, prop_table, utf16_encode, ComponentFuncDescription, ComponentPropDescription,
};
use crate::value::{copy_slice, ParamValue, ValueModel};

verus! {

/// The value the counter reaches when the component is attached.
pub const ATTACHED_START: i32 = 100;

/// The counter's ceiling: iteration fails once it is reached.
pub const COUNTER_CEILING: i32 = 105;

/// The longest delay a timer accepts, in milliseconds.
pub const MAX_TIMER_MS: i32 = 100000;

/// How many external events the host is asked to queue.
pub const EVENT_BUFFER_DEPTH: i64 = 10;

/// An external event to be raised once `delay_ms` milliseconds have passed.
/// The component only asks for it: the host side waits and raises it.
#[derive(Clone, Copy, Debug)]
pub struct DelayedEvent {
    pub delay_ms: u64,
    pub caller: &'static str,
    pub name: &'static str,
    pub data: &'static str,
}

/// The example component's state.
pub struct MyAddInDescription {
    name: &'static str,
    attached: bool,
    functions: Vec<ComponentFuncDescription>,
    props: Vec<ComponentPropDescription>,
    some_prop_container: i32,
    pending_events: Vec<DelayedEvent>,
}

/// The methods: names, return flag and parameter defaults.
pub open spec fn my_functions_ok(fs: Seq<ComponentFuncDescription>) -> bool {
    &&& fs.len() == 4
    &&& fs[0].names_spec() == seq![utf16_encode("Итерировать"@), utf16_encode("Iterate"@)]
    &&& !fs[0].has_ret_val
    &&& fs[0].default_values@.len() == 0
    &&& fs[1].names_spec() == seq![utf16_encode("Таймер"@), utf16_encode("Timer"@)]
    &&& fs[1].has_ret_val
    &&& fs[1].default_values@.len() == 1
    &&& fs[1].default_values@[0] matches Some(v) && v@ == ValueModel::I32(1000)
    &&& fs[2].names_spec() == seq![utf16_encode("ПолучитьХэТэТэПэ"@), utf16_encode("FetchHTTP"@)]
    &&& fs[2].has_ret_val
    &&& fs[2].default_values@.len() == 0
    &&& fs[3].names_spec() == seq![
        utf16_encode("ИнициализироватьЛоггер"@),
        utf16_encode("InitLogger"@),
    ]
    &&& !fs[3].has_ret_val
    &&& fs[3].default_values@.len() == 1
    &&& fs[3].default_values@[0] is None
}

/// The one property: the counter, readable and writable.
pub open spec fn my_props_ok(ps: Seq<ComponentPropDescription>) -> bool {
    &&& ps.len() == 1
    &&& ps[0].names_spec() == seq![utf16_encode("prop"@)]
    &&& ps[0].readable
    &&& ps[0].writable
}

/// The UTF-16 lengths of the component's names.
proof fn lemma_my_name_lengths()
    ensures
        utf16_encode("Итерировать"@).len() == 11,
        utf16_encode("Iterate"@).len() == 7,
        utf16_encode("Таймер"@).len() == 6,
        utf16_encode("Timer"@).len() == 5,
        utf16_encode("ПолучитьХэТэТэПэ"@).len() == 16,
        utf16_encode("FetchHTTP"@).len() == 9,
        utf16_encode("ИнициализироватьЛоггер"@).len() == 22,
        utf16_encode("InitLogger"@).len() == 10,
{
    reveal_strlit("Итерировать");
    reveal_strlit("Iterate");
    reveal_strlit("Таймер");
    reveal_strlit("Timer");
    reveal_strlit("ПолучитьХэТэТэПэ");
    reveal_strlit("FetchHTTP");
    reveal_strlit("ИнициализироватьЛоггер");
    reveal_strlit("InitLogger");
    lemma_utf16_len_bmp("Итерировать"@);
    lemma_utf16_len_bmp("Iterate"@);
    lemma_utf16_len_bmp("Таймер"@);
    lemma_utf16_len_bmp("Timer"@);
    lemma_utf16_len_bmp("ПолучитьХэТэТэПэ"@);
    lemma_utf16_len_bmp("FetchHTTP"@);
    lemma_utf16_len_bmp("ИнициализироватьЛоггер"@);
    lemma_utf16_len_bmp("InitLogger"@);
}

/// No name stands in two entries of the component's method table.
pub proof fn lemma_my_functions_unique(fs: Seq<ComponentFuncDescription>)
    requires
        my_functions_ok(fs),
    ensures
        names_unique(func_table(fs)),
{
    lemma_my_name_lengths();
    let t = func_table(fs);
    assert(t[0] == fs[0].names_spec());
    assert(t[1] == fs[1].names_spec());
    assert(t[2] == fs[2].names_spec());
    assert(t[3] == fs[3].names_spec());
    assert forall|i1: int, j1: int, i2: int, j2: int|
        0 <= i1 < t.len() && 0 <= i2 < t.len() && 0 <= j1 < t[i1].len() && 0 <= j2 < t[i2].len()
            && #[trigger] t[i1][j1] == #[trigger] t[i2][j2] implies i1 == i2 by {
        assert(t[i1][j1].len() == t[i2][j2].len());
    }
}

/// No name stands in two entries of the component's property table.
pub proof fn lemma_my_props_unique(ps: Seq<ComponentPropDescription>)
    requires
        my_props_ok(ps),
    ensures
        names_unique(prop_table(ps)),
{
    let u = prop_table(ps);
    assert(u[0] == ps[0].names_spec());
}

/// Looking up any name of method `i` of the component finds method `i`,
/// whichever of its names is used.
pub proof fn lemma_my_method_by_any_name(
    fs: Seq<ComponentFuncDescription>,
    i: int,
    j: int,
    r: Option<usize>,
)
    requires
        my_functions_ok(fs),
        0 <= i < 4,
        0 <= j < 2,
        lookup_result(func_table(fs), func_table(fs)[i][j], r),
    ensures
        r == Some(i as usize),
{
    lemma_my_functions_unique(fs);
    assert(func_table(fs)[i] == fs[i].names_spec());
    lemma_lookup_by_any_name(func_table(fs), i, j, r);
}

impl MyAddInDescription {
    pub closed spec fn counter(&self) -> i32 {
        self.some_prop_container
    }

    pub closed spec fn is_attached(&self) -> bool {
        self.attached
    }

    pub closed spec fn pending(&self) -> Seq<DelayedEvent> {
        self.pending_events@
    }

    pub closed spec fn caller_name(&self) -> Seq<char> {
        self.name@
    }

    /// A fresh component: counter at zero, detached, nothing pending.
    pub fn new() -> (r: Self)
        ensures
            r.counter() == 0,
            !r.is_attached(),
            r.caller_name() == "MyAddIn"@,
            r.pending().len() == 0,
            my_functions_ok(r.functions_spec()),
            my_props_ok(r.props_spec()),
    {
        MyAddInDescription {
            name: "MyAddIn",
            attached: false,
            functions: Self::generate_func_list(),
            props: Self::generate_prop_list(),
            some_prop_container: 0,
            pending_events: Vec::new(),
        }
    }

    /// The method table.
    pub fn generate_func_list() -> (r: Vec<ComponentFuncDescription>)
        ensures
            my_functions_ok(r@),
    {
        let mut r: Vec<ComponentFuncDescription> = Vec::new();
        r.push(ComponentFuncDescription::new(&["Итерировать", "Iterate"], false, Vec::new()));
        let mut timer_defaults: Vec<Option<ParamValue>> = Vec::new();
        timer_defaults.push(Some(ParamValue::I32(1000)));
        r.push(ComponentFuncDescription::new(&["Таймер", "Timer"], true, timer_defaults));
        r.push(ComponentFuncDescription::new(&["ПолучитьХэТэТэПэ", "FetchHTTP"], true, Vec::new()));
        let mut logger_defaults: Vec<Option<ParamValue>> = Vec::new();
        logger_defaults.push(None);
        r.push(
            ComponentFuncDescription::new(
                &["ИнициализироватьЛоггер", "InitLogger"],
                false,
                logger_defaults,
            ),
        );
        assert(r@[0].names_spec() =~= seq![utf16_encode("Итерировать"@), utf16_encode("Iterate"@)]);
        assert(r@[1].names_spec() =~= seq![utf16_encode("Таймер"@), utf16_encode("Timer"@)]);
        assert(r@[2].names_spec() =~= seq![
            utf16_encode("ПолучитьХэТэТэПэ"@),
            utf16_encode("FetchHTTP"@),
        ]);
        assert(r@[3].names_spec() =~= seq![
            utf16_encode("ИнициализироватьЛоггер"@),
            utf16_encode("InitLogger"@),
        ]);
        r
    }

    /// The property table.
    pub fn generate_prop_list() -> (r: Vec<ComponentPropDescription>)
        ensures
            my_props_ok(r@),
    {
        let mut r: Vec<ComponentPropDescription> = Vec::new();
        r.push(ComponentPropDescription::new(&["prop"], true, true));
        assert(r@[0].names_spec() =~= seq![utf16_encode("prop"@)]);
        r
    }

    /// The counter's value.
    pub fn get_prop(&self) -> (r: Option<ParamValue>)
        ensures
            r matches Some(v) && v@ == ValueModel::I32(self.counter()),
    {
        Some(ParamValue::I32(self.some_prop_container))
    }

    /// Sets the counter to an integer; any other value is refused.
    pub fn set_prop(&mut self, value: &ParamValue) -> (r: bool)
        ensures
            r == value is I32,
            r ==> final(self).counter() == value->I32_0,
            !r ==> final(self).counter() == old(self).counter(),
            final(self).is_attached() == old(self).is_attached(),
            final(self).pending() == old(self).pending(),
            final(self).caller_name() == old(self).caller_name(),
            final(self).functions_spec() == old(self).functions_spec(),
            final(self).props_spec() == old(self).props_spec(),
    {
        match value {
            ParamValue::I32(val) => {
                self.some_prop_container = *val;
                true
            },
            _ => false,
        }
    }

    /// Raises the counter by one, unless it has reached its ceiling.
    pub fn iterate(&mut self, params: &[ParamValue]) -> (r: Result<Option<ParamValue>, CallError>)
        ensures
            old(self).counter() >= COUNTER_CEILING ==> r == Err::<Option<ParamValue>, CallError>(
                CallError::PropTooBig,
            ) && final(self).counter() == old(self).counter(),
            old(self).counter() < COUNTER_CEILING ==> (r matches Ok(None) && final(self).counter()
                == old(self).counter() + 1),
            final(self).is_attached() == old(self).is_attached(),
            final(self).pending() == old(self).pending(),
            final(self).caller_name() == old(self).caller_name(),
            final(self).functions_spec() == old(self).functions_spec(),
            final(self).props_spec() == old(self).props_spec(),
    {
        if self.some_prop_container >= COUNTER_CEILING {
            return Err(CallError::PropTooBig);
        }
        self.some_prop_container = self.some_prop_container + 1;
        Ok(None)
    }

    /// Starts a timer of `params[0]` milliseconds: returns the delay at once
    /// and, while attached, asks for a "TimerEnd" event with data "OK" when
    /// it runs out. A missing, non-integer or negative delay, or one over
    /// `MAX_TIMER_MS`, fails with nothing asked for.
    pub fn timer(&mut self, params: &[ParamValue]) -> (r: Result<Option<ParamValue>, CallError>)
        ensures
            timer_outcome(params@, r),
            r is Ok && old(self).is_attached() ==> final(self).pending().len() == old(
                self,
            ).pending().len() + 1 && final(self).pending().drop_last() == old(self).pending()
                && timer_event(final(self).pending().last(), params@[0]->I32_0, old(self).caller_name()),
            !(r is Ok && old(self).is_attached()) ==> final(self).pending() == old(self).pending(),
            final(self).counter() == old(self).counter(),
            final(self).is_attached() == old(self).is_attached(),
            final(self).caller_name() == old(self).caller_name(),
            final(self).functions_spec() == old(self).functions_spec(),
            final(self).props_spec() == old(self).props_spec(),
    {
        if params.len() == 0 {
            return Err(CallError::InvalidParameter);
        }
        let sleep_duration_ms = match &params[0] {
            ParamValue::I32(val) => *val,
            _ => {
                return Err(CallError::InvalidParameter);
            },
        };
        if sleep_duration_ms < 0 {
            return Err(CallError::InvalidParameter);
        }
        if sleep_duration_ms > MAX_TIMER_MS {
            return Err(CallError::TooLong);
        }
        if self.attached {
            self.pending_events.push(
                DelayedEvent {
                    delay_ms: sleep_duration_ms as u64,
                    caller: self.name,
                    name: "TimerEnd",
                    data: "OK",
                },
            );
        }
        Ok(Some(ParamValue::I32(sleep_duration_ms)))
    }

    /// Runs method `method` of the table. Iterate and Timer run here; the HTTP
    /// and logger methods need network and file access, which the host side
    /// supplies, so here they fail with nothing changed.
    pub fn call_method(&mut self, method: usize, params: &[ParamValue]) -> (r: Result<
        Option<ParamValue>,
        CallError,
    >)
        ensures
            result_model(r) == old(self).call_outcome(method, params@),
            method == 0 && old(self).counter() >= COUNTER_CEILING ==> r == Err::<
                Option<ParamValue>,
                CallError,
            >(CallError::PropTooBig) && final(self).counter() == old(self).counter(),
            method == 0 && old(self).counter() < COUNTER_CEILING ==> (r matches Ok(None)
                && final(self).counter() == old(self).counter() + 1),
            method == 1 ==> timer_outcome(params@, r) && final(self).counter() == old(
                self,
            ).counter(),
            method >= 2 ==> r == Err::<Option<ParamValue>, CallError>(CallError::HostOnly)
                && final(self).counter() == old(self).counter() && final(self).pending() == old(
                self,
            ).pending(),
            final(self).is_attached() == old(self).is_attached(),
            final(self).caller_name() == old(self).caller_name(),
            final(self).functions_spec() == old(self).functions_spec(),
            final(self).props_spec() == old(self).props_spec(),
    {
        if method == 0 {
            self.iterate(params)
        } else if method == 1 {
            self.timer(params)
        } else {
            Err(CallError::HostOnly)
        }
    }

    /// The events asked for since the last call, oldest first; none remain.
    pub fn take_pending_events(&mut self) -> (r: Vec<DelayedEvent>)
        ensures
            r@ == old(self).pending(),
            final(self).pending().len() == 0,
            final(self).counter() == old(self).counter(),
            final(self).is_attached() == old(self).is_attached(),
            final(self).caller_name() == old(self).caller_name(),
            final(self).functions_spec() == old(self).functions_spec(),
            final(self).props_spec() == old(self).props_spec(),
    {
        let mut r: Vec<DelayedEvent> = Vec::new();
        std::mem::swap(&mut r, &mut self.pending_events);
        r
    }

    /// Attaches to the host: asks it to queue `EVENT_BUFFER_DEPTH` events,
    /// and starts the counter at `ATTACHED_START`. Attaching never fails.
    pub fn attach<C: Connection>(&mut self, interface: &C) -> (r: bool)
        ensures
            r,
            final(self).is_attached(),
            final(self).counter() == ATTACHED_START,
            final(self).pending() == old(self).pending(),
            final(self).caller_name() == old(self).caller_name(),
            final(self).functions_spec() == old(self).functions_spec(),
            final(self).props_spec() == old(self).props_spec(),
    {
        interface.set_event_buffer_depth(EVENT_BUFFER_DEPTH);
        self.attached = true;
        self.some_prop_container = ATTACHED_START;
        true
    }

    /// Detaches from the host: events asked for and not yet raised are
    /// dropped, and none is asked for until the next attach.
    pub fn detach(&mut self)
        ensures
            !final(self).is_attached(),
            final(self).pending().len() == 0,
            final(self).counter() == old(self).counter(),
            final(self).caller_name() == old(self).caller_name(),
            final(self).functions_spec() == old(self).functions_spec(),
            final(self).props_spec() == old(self).props_spec(),
    {
        self.attached = false;
        self.pending_events = Vec::new();
    }

    /// The counter's value.
    pub fn counter_value(&self) -> (r: i32)
        ensures
            r == self.counter(),
    {
        self.some_prop_container
    }

    /// Is the component attached to a host?
    pub fn attached(&self) -> (r: bool)
        ensures
            r == self.is_attached(),
    {
        self.attached
    }
}

/// The event a timer of `delay` milliseconds asks for on behalf of `caller`:
/// "TimerEnd" with data "OK".
pub open spec fn timer_event(e: DelayedEvent, delay: i32, caller: Seq<char>) -> bool {
    &&& e.delay_ms == delay as u64
    &&& e.caller@ == caller
    &&& e.name@ == "TimerEnd"@
    &&& e.data@ == "OK"@
}

/// What the timer answers for the parameters `params`.
pub open spec fn timer_result(params: Seq<ParamValue>) -> Result<Option<ValueModel>, CallError> {
    if params.len() == 0 || !(params[0] is I32) || params[0]->I32_0 < 0 {
        Err(CallError::InvalidParameter)
    } else if params[0]->I32_0 > MAX_TIMER_MS {
        Err(CallError::TooLong)
    } else {
        Ok(Some(ValueModel::I32(params[0]->I32_0)))
    }
}

/// The timer's result `r` is its answer for `params`.
pub open spec fn timer_outcome(params: Seq<ParamValue>, r: Result<Option<ParamValue>, CallError>) -> bool {
    result_model(r) == timer_result(params)
}

/// What iterating answers with the counter at `counter`.
pub open spec fn iterate_result(counter: i32) -> Result<Option<ValueModel>, CallError> {
    if counter >= COUNTER_CEILING {
        Err(CallError::PropTooBig)
    } else {
        Ok(None)
    }
}

/// The value that the HTTP method returns for a response body: the body as
/// a UTF-16 string.
pub fn body_value(body: &str) -> (r: ParamValue)
    ensures
        r@ == ValueModel::Str(utf16_encode(body@)),
{
    ParamValue::Str(encode_utf16(body))
}

/// The log file path that the logger method was given: its first parameter,
/// which must be a string.
pub fn logger_path(params: &[ParamValue]) -> (r: Result<Vec<u16>, CallError>)
    ensures
        params@.len() > 0 && params@[0] is Str ==> (r matches Ok(p) && p@ == params@[0]->Str_0@),
        !(params@.len() > 0 && params@[0] is Str) ==> r == Err::<Vec<u16>, CallError>(
            CallError::InvalidParameter,
        ),
{
    if params.len() == 0 {
        return Err(CallError::InvalidParameter);
    }
    match &params[0] {
        ParamValue::Str(val) => Ok(copy_slice(val.as_slice())),
        _ => Err(CallError::InvalidParameter),
    }
}

impl AddIn for MyAddInDescription {
    closed spec fn functions_spec(&self) -> Seq<ComponentFuncDescription> {
        self.functions@
    }

    closed spec fn props_spec(&self) -> Seq<ComponentPropDescription> {
        self.props@
    }

    open spec fn name_spec(&self) -> Seq<u16> {
        utf16_encode(self.caller_name()).push(0)
    }

    open spec fn prop_value(&self, prop: usize) -> Option<ValueModel> {
        Some(ValueModel::I32(self.counter()))
    }

    open spec fn call_outcome(&self, method: usize, params: Seq<ParamValue>) -> Result<
        Option<ValueModel>,
        CallError,
    > {
        if method == 0 {
            iterate_result(self.counter())
        } else if method == 1 {
            timer_result(params)
        } else {
            Err(CallError::HostOnly)
        }
    }

    fn init<C: Connection>(&mut self, interface: &C) -> (r: bool) {
        self.attach(interface)
    }

    fn done(&mut self) {
        self.detach()
    }

    fn add_in_name(&self) -> Vec<u16> {
        os_string_nil(self.name)
    }

    fn list_functions(&self) -> (r: &Vec<ComponentFuncDescription>) {
        &self.functions
    }

    fn list_parameters(&self) -> (r: &Vec<ComponentPropDescription>) {
        &self.props
    }

    fn call_function(&mut self, method: usize, params: &[ParamValue]) -> (r: Result<
        Option<ParamValue>,
        CallError,
    >) {
        self.call_method(method, params)
    }

    fn get_parameter(&self, prop: usize) -> Option<ParamValue> {
        self.get_prop()
    }

    fn set_parameter(&mut self, prop: usize, value: &ParamValue) -> (r: bool) {
        self.set_prop(value)
    }

    fn set_locale(&mut self, loc: &[u16]) {
    }

    fn set_user_interface_language_code(&mut self, lang: &[u16]) {
    }
}

} // verus!
