use native_addin::container::AddInContainer;
use native_addin::date::Timestamp;
use native_addin::entry::{attach_type, capabilities_ack, class_names, create_component, AttachType};
use native_addin::interface::{os_string_nil, AddIn, CallError, Connection, Error};
use native_addin::memory::{str_bytes, MemoryManager};
use native_addin::my_add_in::{body_value, logger_path, MyAddInDescription};
use native_addin::slot::ReturnValue;
use native_addin::value::{ParamValue, TVariant, Tm, VariantType};
use std::cell::{Cell, RefCell};

/// A host allocator that hands out increasing addresses, or refuses all.
struct TestHeap {
    refuse: bool,
    next: Cell<usize>,
    asked: RefCell<Vec<usize>>,
}

impl TestHeap {
    fn new(refuse: bool) -> TestHeap {
        TestHeap { refuse, next: Cell::new(0x1000), asked: RefCell::new(Vec::new()) }
    }
}

impl MemoryManager for TestHeap {
    fn alloc_memory(&self, size: usize) -> Option<usize> {
        self.asked.borrow_mut().push(size);
        if self.refuse {
            return None;
        }
        let p = self.next.get();
        self.next.set(p + size + 16);
        Some(p)
    }

    fn free_memory(&self, _ptr: usize) {}
}

/// A host connection that keeps the event buffer depth it is given.
struct TestConnection {
    depth: Cell<i64>,
}

impl TestConnection {
    fn new() -> TestConnection {
        TestConnection { depth: Cell::new(0) }
    }
}

impl Connection for TestConnection {
    fn add_error(&self, _code: Error, _source: &str, _description: &str) -> bool {
        true
    }

    fn external_event(&self, _caller: &str, _name: &str, _data: &str) -> bool {
        true
    }

    fn set_event_buffer_depth(&self, depth: i64) -> bool {
        self.depth.set(depth);
        true
    }

    fn get_event_buffer_depth(&self) -> i64 {
        self.depth.get()
    }

    fn clean_event_buffer(&self) {}

    fn set_status_line(&self, _status: &str) -> bool {
        true
    }

    fn reset_status_line(&self) {}

    fn register_profile_as(&self, _profile_name: &str) -> bool {
        true
    }
}

fn utf16(s: &str) -> Vec<u16> {
    s.encode_utf16().collect()
}

fn sample_tm() -> Tm {
    Tm {
        sec: 56,
        min: 34,
        hour: 12,
        mday: 29,
        mon: 1,
        year: 124,
        wday: 0,
        yday: 0,
        isdst: 0,
        gmtoff: 10800,
        zone: 0,
    }
}

fn write_value(heap: &TestHeap, slot: &mut TVariant, value: &ParamValue) -> bool {
    let mut ok = true;
    ReturnValue { mem: heap, variant: slot, result: &mut ok }.write(value);
    ok
}

fn attached_container(conn: &TestConnection) -> AddInContainer<MyAddInDescription> {
    let mut c = create_component(&utf16("1")).unwrap();
    assert!(c.init(conn));
    c
}

#[test]
fn wire_values_survive_read_and_write() {
    let heap = TestHeap::new(false);
    let mut inputs: Vec<TVariant> = Vec::new();
    let mut w = TVariant::new();
    w.vt = VariantType::Bool;
    w.bool_val = true;
    inputs.push(w);
    let mut w = TVariant::new();
    w.vt = VariantType::Int32;
    w.i32_val = -17;
    inputs.push(w);
    let mut w = TVariant::new();
    w.vt = VariantType::Double;
    w.f64_bits = 2.5f64.to_bits();
    inputs.push(w);
    let mut w = TVariant::new();
    w.vt = VariantType::Time;
    w.tm = sample_tm();
    inputs.push(w);
    let mut w = TVariant::new();
    w.vt = VariantType::WStr;
    w.data_str.data = utf16("Привет, host");
    inputs.push(w);
    let mut w = TVariant::new();
    w.vt = VariantType::Blob;
    w.data_blob.data = vec![0, 255, 7, 7, 128];
    inputs.push(w);
    inputs.push(TVariant::new());

    for wire in inputs.iter() {
        let read = ParamValue::from_variant(wire);
        let mut out = TVariant::new();
        assert!(write_value(&heap, &mut out, &read));
        assert_eq!(out.vt, wire.vt);
        match wire.vt {
            VariantType::Bool => assert_eq!(out.bool_val, wire.bool_val),
            VariantType::Int32 => assert_eq!(out.i32_val, wire.i32_val),
            VariantType::Double => {
                assert_eq!(f64::from_bits(out.f64_bits), 2.5);
            }
            VariantType::Time => assert_eq!(out.tm, wire.tm),
            VariantType::WStr => assert_eq!(out.data_str.data, wire.data_str.data),
            VariantType::Blob => assert_eq!(out.data_blob.data, wire.data_blob.data),
            _ => {}
        }
    }
    // one wide string of 12 units (24 bytes) and one blob of 5 bytes
    assert_eq!(*heap.asked.borrow(), vec![24, 5]);
}

#[test]
fn unhandled_wire_kinds_read_as_empty() {
    let mut w = TVariant::new();
    w.vt = VariantType::Int64;
    w.i32_val = 9;
    assert!(matches!(ParamValue::from_variant(&w), ParamValue::Empty));
}

#[test]
fn string_write_copies_into_the_given_block() {
    let heap = TestHeap::new(false);
    let mut out = TVariant::new();
    let mut ok = true;
    ReturnValue { mem: &heap, variant: &mut out, result: &mut ok }.set_str(&utf16("abc"));
    assert!(ok);
    assert_eq!(out.vt, VariantType::WStr);
    assert_eq!(out.data_str.ptr, 0x1000);
    assert_eq!(out.data_str.data, utf16("abc"));
    assert_eq!(*heap.asked.borrow(), vec![6]);
}

#[test]
fn refused_allocation_keeps_the_slot() {
    let heap = TestHeap::new(true);
    let mut out = TVariant::new();
    out.vt = VariantType::Int32;
    out.i32_val = 7;

    let mut ok = true;
    ReturnValue { mem: &heap, variant: &mut out, result: &mut ok }.set_str(&utf16("text"));
    assert!(!ok);
    assert_eq!(out.vt, VariantType::Int32);
    assert_eq!(out.i32_val, 7);

    let mut ok = true;
    ReturnValue { mem: &heap, variant: &mut out, result: &mut ok }.set_blob(&[1, 2, 3]);
    assert!(!ok);
    assert_eq!(out.vt, VariantType::Int32);
    assert_eq!(out.i32_val, 7);

    let mut ok = true;
    ReturnValue { mem: &heap, variant: &mut out, result: &mut ok }
        .write(&ParamValue::Str(utf16("x")));
    assert!(!ok);
    assert_eq!(out.vt, VariantType::Int32);
    assert!(out.data_str.data.is_empty());
}

#[test]
fn oversized_string_is_refused_without_asking() {
    let heap = TestHeap::new(false);
    assert_eq!(heap.alloc_str(usize::MAX / 2 + 1), None);
    assert!(heap.asked.borrow().is_empty());
    assert_eq!(heap.alloc_str(4), Some(0x1000));
    assert_eq!(heap.alloc_blob(3), Some(0x1000 + 8 + 16));
    assert_eq!(*heap.asked.borrow(), vec![8, 3]);
}

#[test]
fn out_of_range_calendar_fields_give_the_epoch() {
    let epoch = Timestamp::epoch();
    assert_eq!(epoch.year, 1970);
    assert_eq!((epoch.month, epoch.day, epoch.hour, epoch.minute, epoch.second, epoch.offset), (1, 1, 0, 0, 0, 0));
    let mut bad: Vec<Tm> = Vec::new();
    let mut t = sample_tm();
    t.mon = 12; // a thirteenth month
    bad.push(t);
    let mut t = sample_tm();
    t.mon = 0;
    t.mday = 32;
    bad.push(t);
    let mut t = sample_tm();
    t.year = 123; // 2023 has no February 29
    bad.push(t);
    let mut t = sample_tm();
    t.mday = 0;
    bad.push(t);
    let mut t = sample_tm();
    t.hour = 24;
    bad.push(t);
    let mut t = sample_tm();
    t.min = -1;
    bad.push(t);
    let mut t = sample_tm();
    t.sec = 60;
    bad.push(t);
    let mut t = sample_tm();
    t.gmtoff = 86_400;
    bad.push(t);
    let mut t = sample_tm();
    t.year = i32::MAX;
    bad.push(t);
    let mut t = sample_tm();
    t.mon = i32::MAX;
    bad.push(t);
    for t in bad.iter() {
        assert_eq!(Timestamp::from_tm(t), epoch);
    }
}

#[test]
fn calendar_record_round_trips() {
    let tm = sample_tm();
    let ts = Timestamp::from_tm(&tm);
    assert_eq!(
        (ts.year, ts.month, ts.day, ts.hour, ts.minute, ts.second, ts.offset),
        (2024, 2, 29, 12, 34, 56, 10800)
    );
    let back = ts.to_tm();
    assert_eq!((back.sec, back.min, back.hour), (tm.sec, tm.min, tm.hour));
    assert_eq!((back.mday, back.mon, back.year), (tm.mday, tm.mon, tm.year));
    assert_eq!(back.gmtoff, tm.gmtoff);
    // 2024-02-29 was a Thursday, the 60th day of the year
    assert_eq!(back.wday, 4);
    assert_eq!(back.yday, 59);
    assert_eq!(back.isdst, 0);
    assert_eq!(back.zone, b'+' as i8);

    let mut west = sample_tm();
    west.gmtoff = -3600;
    assert_eq!(Timestamp::from_tm(&west).to_tm().zone, b'-' as i8);
}

#[test]
fn epoch_written_back_is_a_thursday() {
    let tm = Timestamp::epoch().to_tm();
    assert_eq!((tm.year, tm.mon, tm.mday), (70, 0, 1));
    assert_eq!(tm.wday, 4);
    assert_eq!(tm.yday, 0);
}

#[test]
fn lookup_by_any_name_gives_one_index() {
    let c = create_component(&utf16("1")).unwrap();
    assert_eq!(c.find_method(&utf16("Iterate")), Some(0));
    assert_eq!(c.find_method(&utf16("Итерировать")), Some(0));
    assert_eq!(c.find_method(&utf16("Timer")), Some(1));
    assert_eq!(c.find_method(&utf16("Таймер")), Some(1));
    assert_eq!(c.find_method(&utf16("FetchHTTP")), Some(2));
    assert_eq!(c.find_method(&utf16("ИнициализироватьЛоггер")), Some(3));
    assert_eq!(c.find_method(&utf16("InitLogger")), Some(3));
    assert_eq!(c.find_method(&utf16("Iterate")), c.find_method(&utf16("Iterate")));
    assert_eq!(c.find_method(&utf16("iterate")), None);
    assert_eq!(c.find_method(&utf16("")), None);
    assert_eq!(c.find_prop(&utf16("prop")), Some(0));
    assert_eq!(c.find_prop(&utf16("Iterate")), None);
}

#[test]
fn names_counts_and_flags() {
    let c = create_component(&utf16("1")).unwrap();
    assert_eq!(c.get_n_methods(), 4);
    assert_eq!(c.get_n_props(), 1);
    assert_eq!(c.get_method_name(0, 1), Some(utf16("Iterate")));
    assert_eq!(c.get_method_name(1, 0), Some(utf16("Таймер")));
    assert_eq!(c.get_method_name(1, 2), None);
    assert_eq!(c.get_method_name(4, 0), None);
    assert_eq!(c.get_prop_name(0, 0), Some(utf16("prop")));
    assert_eq!(c.get_prop_name(0, 1), None);
    assert_eq!(c.get_n_params(0), 0);
    assert_eq!(c.get_n_params(1), 1);
    assert_eq!(c.get_n_params(3), 1);
    assert_eq!(c.get_n_params(9), 0);
    assert!(!c.has_ret_val(0));
    assert!(c.has_ret_val(1));
    assert!(c.has_ret_val(2));
    assert!(!c.has_ret_val(3));
    assert!(!c.has_ret_val(4));
    assert!(c.is_prop_readable(0) && c.is_prop_writable(0));
    assert!(!c.is_prop_readable(1) && !c.is_prop_writable(1));
    assert_eq!(c.get_info(), 2000);
    assert_eq!(c.register_extension_as(), os_string_nil("MyAddIn"));
}

#[test]
fn parameter_defaults() {
    let heap = TestHeap::new(false);
    let c = create_component(&utf16("1")).unwrap();
    let mut out = TVariant::new();
    let mut ok = true;
    assert!(c.get_param_def_value(1, 0, ReturnValue { mem: &heap, variant: &mut out, result: &mut ok }));
    assert!(ok);
    assert_eq!(out.vt, VariantType::Int32);
    assert_eq!(out.i32_val, 1000);

    let mut out = TVariant::new();
    out.vt = VariantType::Bool;
    let mut ok = true;
    assert!(!c.get_param_def_value(3, 0, ReturnValue { mem: &heap, variant: &mut out, result: &mut ok }));
    assert!(!c.get_param_def_value(1, 1, ReturnValue { mem: &heap, variant: &mut out, result: &mut ok }));
    assert!(!c.get_param_def_value(7, 0, ReturnValue { mem: &heap, variant: &mut out, result: &mut ok }));
    assert!(ok);
    assert_eq!(out.vt, VariantType::Bool);
}

#[test]
fn out_of_range_method_is_refused() {
    let heap = TestHeap::new(false);
    let conn = TestConnection::new();
    let mut c = attached_container(&conn);
    assert!(!c.call_as_proc(4, &[]));
    assert!(!c.call_as_proc(usize::MAX, &[ParamValue::I32(1)]));
    let mut out = TVariant::new();
    out.vt = VariantType::Int32;
    out.i32_val = 5;
    let mut ok = true;
    assert!(!c.call_as_func(10, &[], ReturnValue { mem: &heap, variant: &mut out, result: &mut ok }));
    assert!(ok);
    assert_eq!(out.vt, VariantType::Int32);
    assert_eq!(out.i32_val, 5);
    assert_eq!(c.component.counter_value(), 100);
    assert!(c.component.take_pending_events().is_empty());
}

#[test]
fn counter_climbs_to_its_ceiling() {
    let heap = TestHeap::new(false);
    let conn = TestConnection::new();
    let mut c = create_component(&utf16("1")).unwrap();
    assert_eq!(c.component.counter_value(), 0);
    assert!(c.init(&conn));
    assert_eq!(conn.get_event_buffer_depth(), 10);
    assert_eq!(c.component.counter_value(), 100);
    for _ in 0..3 {
        assert!(c.call_as_proc(0, &[]));
    }
    assert_eq!(c.component.counter_value(), 103);
    assert!(c.call_as_proc(0, &[]));
    assert_eq!(c.component.counter_value(), 104);
    assert!(c.call_as_proc(0, &[]));
    assert_eq!(c.component.counter_value(), 105);
    assert!(!c.call_as_proc(0, &[]));
    assert_eq!(c.component.counter_value(), 105);
    let err = c.component.iterate(&[]).unwrap_err();
    assert_eq!(err, CallError::PropTooBig);
    assert_eq!(err.message(), "Prop is too big");
    assert_eq!(c.component.counter_value(), 105);

    let mut out = TVariant::new();
    let mut ok = true;
    assert!(c.get_prop_val(0, ReturnValue { mem: &heap, variant: &mut out, result: &mut ok }));
    assert_eq!(out.vt, VariantType::Int32);
    assert_eq!(out.i32_val, 105);
}

#[test]
fn property_writes() {
    let heap = TestHeap::new(false);
    let mut c = create_component(&utf16("1")).unwrap();
    assert!(c.set_prop_val(0, &ParamValue::I32(42)));
    assert_eq!(c.component.counter_value(), 42);
    assert!(!c.set_prop_val(0, &ParamValue::Bool(true)));
    assert!(!c.set_prop_val(0, &ParamValue::Str(utf16("43"))));
    assert!(!c.set_prop_val(1, &ParamValue::I32(1)));
    assert_eq!(c.component.counter_value(), 42);
    let mut out = TVariant::new();
    let mut ok = true;
    assert!(!c.get_prop_val(1, ReturnValue { mem: &heap, variant: &mut out, result: &mut ok }));
    assert_eq!(out.vt, VariantType::Empty);
}

#[test]
fn timer_answers_at_once_and_asks_for_an_event() {
    let heap = TestHeap::new(false);
    let conn = TestConnection::new();
    let mut c = attached_container(&conn);
    let mut out = TVariant::new();
    let mut ok = true;
    assert!(c.call_as_func(1, &[ParamValue::I32(50)], ReturnValue { mem: &heap, variant: &mut out, result: &mut ok }));
    assert!(ok);
    assert_eq!(out.vt, VariantType::Int32);
    assert_eq!(out.i32_val, 50);
    let events = c.component.take_pending_events();
    assert_eq!(events.len(), 1);
    assert_eq!(events[0].delay_ms, 50);
    assert_eq!(events[0].caller, "MyAddIn");
    assert_eq!(events[0].name, "TimerEnd");
    assert_eq!(events[0].data, "OK");
    assert!(c.component.take_pending_events().is_empty());
}

#[test]
fn timer_refuses_bad_delays_without_an_event() {
    let conn = TestConnection::new();
    let mut c = attached_container(&conn);
    assert_eq!(c.component.timer(&[ParamValue::I32(-1)]).unwrap_err(), CallError::InvalidParameter);
    let err = c.component.timer(&[ParamValue::I32(200000)]).unwrap_err();
    assert_eq!(err, CallError::TooLong);
    assert_eq!(err.message(), "Too long");
    assert_eq!(c.component.timer(&[]).unwrap_err(), CallError::InvalidParameter);
    assert_eq!(c.component.timer(&[ParamValue::Bool(true)]).unwrap_err(), CallError::InvalidParameter);
    assert!(!c.call_as_proc(1, &[ParamValue::I32(100001)]));
    assert!(c.component.take_pending_events().is_empty());
    assert!(matches!(c.component.timer(&[ParamValue::I32(100000)]), Ok(Some(ParamValue::I32(100000)))));
    assert_eq!(c.component.take_pending_events().len(), 1);
}

#[test]
fn detached_timer_asks_for_nothing() {
    let mut c = MyAddInDescription::new();
    assert!(matches!(c.timer(&[ParamValue::I32(10)]), Ok(Some(ParamValue::I32(10)))));
    assert!(c.take_pending_events().is_empty());
    let conn = TestConnection::new();
    assert!(c.init(&conn));
    assert!(c.attached());
    assert!(c.timer(&[ParamValue::I32(10)]).is_ok());
    c.done();
    assert!(!c.attached());
    assert!(c.take_pending_events().is_empty());
}

#[test]
fn host_side_methods_are_not_run_here() {
    let conn = TestConnection::new();
    let mut c = attached_container(&conn);
    assert!(!c.call_as_proc(2, &[]));
    assert_eq!(c.component.call_function(3, &[]).unwrap_err(), CallError::HostOnly);
}

#[test]
fn http_body_and_logger_path() {
    assert!(matches!(body_value("hi"), ParamValue::Str(ref s) if *s == vec![104u16, 105]));
    assert!(matches!(body_value(""), ParamValue::Str(ref s) if s.is_empty()));
    assert_eq!(logger_path(&[ParamValue::Str(utf16("/tmp/a.log"))]).unwrap(), utf16("/tmp/a.log"));
    assert_eq!(logger_path(&[ParamValue::I32(1)]).unwrap_err(), CallError::InvalidParameter);
    assert_eq!(logger_path(&[]).unwrap_err(), CallError::InvalidParameter);
}

#[test]
fn entry_points() {
    assert_eq!(class_names(), vec![0x31u16, 0]);
    assert!(create_component(&utf16("1")).is_some());
    assert!(create_component(&[0x31, 0]).is_some());
    assert!(create_component(&utf16("2")).is_none());
    assert!(create_component(&utf16("11")).is_none());
    assert!(create_component(&[]).is_none());
    assert_eq!(attach_type(), AttachType::Any);
    assert_eq!(capabilities_ack(), 3);
}

#[test]
fn severities_and_wide_strings() {
    assert_eq!(Error::Message.code(), 1000);
    assert_eq!(Error::Important.code(), 1003);
    assert_eq!(Error::DialogFail.code(), 1009);
    assert_eq!(os_string_nil("ab"), vec![97u16, 98, 0]);
    assert_eq!(os_string_nil("𝄞"), vec![0xD834u16, 0xDD1E, 0]);
    assert_eq!(os_string_nil(""), vec![0u16]);
}

#[test]
fn allocated_buffers_are_zeroed_and_land_in_the_slot() {
    let heap = TestHeap::new(false);
    let mut out = TVariant::new();
    let mut ok = true;
    {
        let buf = ReturnValue { mem: &heap, variant: &mut out, result: &mut ok }.alloc_str(3).unwrap();
        assert_eq!(*buf, vec![0u16, 0, 0]);
        buf[1] = 0x41;
    }
    assert!(ok);
    assert_eq!(out.vt, VariantType::WStr);
    assert_eq!(out.data_str.data, vec![0u16, 0x41, 0]);
    assert_eq!(*heap.asked.borrow(), vec![6]);

    let mut out = TVariant::new();
    {
        let buf = ReturnValue { mem: &heap, variant: &mut out, result: &mut ok }.alloc_blob(2).unwrap();
        assert_eq!(*buf, vec![0u8, 0]);
        buf[0] = 9;
    }
    assert_eq!(out.vt, VariantType::Blob);
    assert_eq!(out.data_blob.data, vec![9u8, 0]);

    let refusing = TestHeap::new(true);
    let mut out = TVariant::new();
    out.vt = VariantType::Bool;
    let mut ok = true;
    assert!(ReturnValue { mem: &refusing, variant: &mut out, result: &mut ok }.alloc_str(4).is_none());
    assert!(!ok);
    assert_eq!(out.vt, VariantType::Bool);
    let mut ok = true;
    assert!(ReturnValue { mem: &refusing, variant: &mut out, result: &mut ok }.alloc_blob(4).is_none());
    assert!(!ok);
    assert_eq!(out.vt, VariantType::Bool);
}

#[test]
fn wire_type_numbers() {
    assert_eq!(VariantType::Empty.code(), 0);
    assert_eq!(VariantType::Int32.code(), 3);
    assert_eq!(VariantType::Double.code(), 5);
    assert_eq!(VariantType::Time.code(), 7);
    assert_eq!(VariantType::Bool.code(), 11);
    assert_eq!(VariantType::WStr.code(), 22);
    assert_eq!(VariantType::Blob.code(), 23);
    assert_eq!(VariantType::ClsID.code(), 24);
    assert_eq!(VariantType::Undefined.code(), 0xFFFF);
    for code in 0u16..=24 {
        assert_eq!(VariantType::from_code(code).code(), code);
    }
    assert_eq!(VariantType::from_code(25), VariantType::Undefined);
    assert_eq!(VariantType::from_code(0xFFFF), VariantType::Undefined);
    assert_eq!(AttachType::Any.code(), 3);
    assert_eq!(AttachType::NotIsolated.code(), 1);
    assert_eq!(AttachType::Isolated.code(), 2);
}

#[test]
fn placed_buffers_take_the_given_block() {
    let heap = TestHeap::new(false);
    let mut out = TVariant::new();
    let mut ok = true;
    {
        let buf = ReturnValue { mem: &heap, variant: &mut out, result: &mut ok }
            .place_str(Some(0x5000), 2)
            .unwrap();
        assert_eq!(*buf, vec![0u16, 0]);
        buf[0] = 7;
    }
    assert!(ok);
    assert_eq!(out.vt, VariantType::WStr);
    assert_eq!(out.data_str.ptr, 0x5000);
    assert_eq!(out.data_str.data, vec![7u16, 0]);

    let mut out = TVariant::new();
    assert!(ReturnValue { mem: &heap, variant: &mut out, result: &mut ok }
        .place_blob(Some(0x6000), 1)
        .is_some());
    assert_eq!(out.vt, VariantType::Blob);
    assert_eq!(out.data_blob.ptr, 0x6000);
    assert_eq!(out.data_blob.data, vec![0u8]);

    let mut out = TVariant::new();
    out.vt = VariantType::Int32;
    out.i32_val = 3;
    let mut ok = true;
    assert!(ReturnValue { mem: &heap, variant: &mut out, result: &mut ok }.place_str(None, 2).is_none());
    assert!(!ok);
    assert_eq!((out.vt, out.i32_val), (VariantType::Int32, 3));
    let mut ok = true;
    assert!(ReturnValue { mem: &heap, variant: &mut out, result: &mut ok }.place_blob(None, 2).is_none());
    assert!(!ok);
    assert_eq!((out.vt, out.i32_val), (VariantType::Int32, 3));
    assert!(heap.asked.borrow().is_empty());
}

#[test]
fn string_byte_sizes() {
    assert_eq!(str_bytes(0), Some(0));
    assert_eq!(str_bytes(5), Some(10));
    assert_eq!(str_bytes(usize::MAX / 2), Some(usize::MAX - 1));
    assert_eq!(str_bytes(usize::MAX / 2 + 1), None);
}

#[test]
fn oversized_allocation_in_a_slot_is_refused() {
    let heap = TestHeap::new(false);
    let mut out = TVariant::new();
    out.vt = VariantType::Bool;
    let mut ok = true;
    assert!(ReturnValue { mem: &heap, variant: &mut out, result: &mut ok }
        .alloc_str(usize::MAX / 2 + 1)
        .is_none());
    assert!(!ok);
    assert_eq!(out.vt, VariantType::Bool);
    assert!(heap.asked.borrow().is_empty());
}

#[test]
fn failures_are_kept_for_the_host_side() {
    let heap = TestHeap::new(false);
    let conn = TestConnection::new();
    let mut c = attached_container(&conn);
    assert_eq!(c.take_last_error(), None);
    assert!(c.set_prop_val(0, &ParamValue::I32(105)));
    assert!(!c.call_as_proc(0, &[]));
    assert_eq!(c.take_last_error(), Some(CallError::PropTooBig));
    assert_eq!(c.take_last_error(), None);
    let mut out = TVariant::new();
    let mut ok = true;
    assert!(!c.call_as_func(1, &[ParamValue::I32(200000)], ReturnValue { mem: &heap, variant: &mut out, result: &mut ok }));
    assert_eq!(c.last_error, Some(CallError::TooLong));
    assert_eq!(out.vt, VariantType::Empty);
    assert!(!c.call_as_proc(9, &[]));
    assert_eq!(c.take_last_error(), Some(CallError::TooLong));
}

#[test]
fn procedure_run_as_function_writes_empty() {
    let heap = TestHeap::new(false);
    let conn = TestConnection::new();
    let mut c = attached_container(&conn);
    let mut out = TVariant::new();
    out.vt = VariantType::Int32;
    let mut ok = true;
    assert!(c.call_as_func(0, &[], ReturnValue { mem: &heap, variant: &mut out, result: &mut ok }));
    assert_eq!(out.vt, VariantType::Empty);
    assert_eq!(c.component.counter_value(), 101);
}

#[test]
fn weekday_of_year_zero() {
    let mut tm = sample_tm();
    tm.year = -1900;
    tm.mon = 0;
    tm.mday = 1;
    let back = Timestamp::from_tm(&tm).to_tm();
    assert_eq!(back.year, -1900);
    // 0000-01-01 of the proleptic Gregorian calendar was a Saturday
    assert_eq!(back.wday, 6);
    assert_eq!(back.yday, 0);
    let mut tm = sample_tm();
    tm.year = 100;
    tm.mon = 11;
    tm.mday = 31;
    let back = Timestamp::from_tm(&tm).to_tm();
    // 2000-12-31: a Sunday, day 366 of a leap year
    assert_eq!(back.wday, 0);
    assert_eq!(back.yday, 365);
}
