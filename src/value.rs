//! Wire values exchanged with the host and the native values components use.

use vstd::prelude::*;

verus! {

/// The tag of a wire value, as the host numbers its kinds.
#[derive(Clone, Copy, PartialEq, Eq, Structural, Debug)]
pub enum VariantType {
    Empty,
    Null,
    Int16,
    Int32,
    Float,
    Double,
    Date,
    Time,
    PStr,
    Interface,
    Error,
    Bool,
    Variant,
    Int8,
    UInt8,
    UInt16,
    UInt32,
    Int64,
    UInt64,
    Int,
    UInt,
    HResult,
    WStr,
    Blob,
    ClsID,
    Undefined,
}

/// The host's number for each kind of wire value.
pub open spec fn type_code(t: VariantType) -> u16 {
    match t {
        VariantType::Empty => 0,
        VariantType::Null => 1,
        VariantType::Int16 => 2,
        VariantType::Int32 => 3,
        VariantType::Float => 4,
        VariantType::Double => 5,
        VariantType::Date => 6,
        VariantType::Time => 7,
        VariantType::PStr => 8,
        VariantType::Interface => 9,
        VariantType::Error => 10,
        VariantType::Bool => 11,
        VariantType::Variant => 12,
        VariantType::Int8 => 13,
        VariantType::UInt8 => 14,
        VariantType::UInt16 => 15,
        VariantType::UInt32 => 16,
        VariantType::Int64 => 17,
        VariantType::UInt64 => 18,
        VariantType::Int => 19,
        VariantType::UInt => 20,
        VariantType::HResult => 21,
        VariantType::WStr => 22,
        VariantType::Blob => 23,
        VariantType::ClsID => 24,
        VariantType::Undefined => 0xFFFF,
    }
}

impl VariantType {
    /// The host's number for this kind.
    pub fn code(&self) -> (r: u16)
        ensures
            r == type_code(*self),
    {
        match self {
            VariantType::Empty => 0,
            VariantType::Null => 1,
            VariantType::Int16 => 2,
            VariantType::Int32 => 3,
            VariantType::Float => 4,
            VariantType::Double => 5,
            VariantType::Date => 6,
            VariantType::Time => 7,
            VariantType::PStr => 8,
            VariantType::Interface => 9,
            VariantType::Error => 10,
            VariantType::Bool => 11,
            VariantType::Variant => 12,
            VariantType::Int8 => 13,
            VariantType::UInt8 => 14,
            VariantType::UInt16 => 15,
            VariantType::UInt32 => 16,
            VariantType::Int64 => 17,
            VariantType::UInt64 => 18,
            VariantType::Int => 19,
            VariantType::UInt => 20,
            VariantType::HResult => 21,
            VariantType::WStr => 22,
            VariantType::Blob => 23,
            VariantType::ClsID => 24,
            VariantType::Undefined => 0xFFFF,
        }
    }

    /// The kind that the host numbers `code`; `Undefined` for a number the
    /// host does not use.
    pub fn from_code(code: u16) -> (r: VariantType)
        ensures
            (code <= 24 || code == 0xFFFF) ==> type_code(r) == code,
            !(code <= 24 || code == 0xFFFF) ==> r == VariantType::Undefined,
    {
        match code {
            0 => VariantType::Empty,
            1 => VariantType::Null,
            2 => VariantType::Int16,
            3 => VariantType::Int32,
            4 => VariantType::Float,
            5 => VariantType::Double,
            6 => VariantType::Date,
            7 => VariantType::Time,
            8 => VariantType::PStr,
            9 => VariantType::Interface,
            10 => VariantType::Error,
            11 => VariantType::Bool,
            12 => VariantType::Variant,
            13 => VariantType::Int8,
            14 => VariantType::UInt8,
            15 => VariantType::UInt16,
            16 => VariantType::UInt32,
            17 => VariantType::Int64,
            18 => VariantType::UInt64,
            19 => VariantType::Int,
            20 => VariantType::UInt,
            21 => VariantType::HResult,
            22 => VariantType::WStr,
            23 => VariantType::Blob,
            24 => VariantType::ClsID,
            _ => VariantType::Undefined,
        }
    }
}

/// Calendar fields of a host date-time value.
#[derive(Clone, Copy, PartialEq, Eq, Structural, Debug, Default)]
pub struct Tm {
    /// seconds after the minute, 0 to 60
    pub sec: i32,
    /// minutes after the hour, 0 to 59
    pub min: i32,
    /// hours since midnight, 0 to 23
    pub hour: i32,
    /// day of the month, 1 to 31
    pub mday: i32,
    /// months since January, 0 to 11
    pub mon: i32,
    /// years since 1900
    pub year: i32,
    /// days since Sunday, 0 to 6
    pub wday: i32,
    /// days since January 1, 0 to 365
    pub yday: i32,
    /// daylight saving time flag
    pub isdst: i32,
    /// seconds east of UTC
    pub gmtoff: i64,
    /// first byte of the zone's name
    pub zone: i8,
}

/// A value as a component sees it: owned, with no tie to host memory.
/// A double travels as its IEEE-754 bit pattern.
#[derive(Debug)]
pub enum ParamValue {
    Empty,
    Bool(bool),
    I32(i32),
    F64(u64),
    Date(Tm),
    Str(Vec<u16>),
    Blob(Vec<u8>),
}

/// The mathematical content of a `ParamValue`.
pub enum ValueModel {
    Empty,
    Bool(bool),
    I32(i32),
    F64(u64),
    Date(Tm),
    Str(Seq<u16>),
    Blob(Seq<u8>),
}

impl View for ParamValue {
    type V = ValueModel;

    open spec fn view(&self) -> ValueModel {
        match self {
            ParamValue::Empty => ValueModel::Empty,
            ParamValue::Bool(b) => ValueModel::Bool(*b),
            ParamValue::I32(i) => ValueModel::I32(*i),
            ParamValue::F64(f) => ValueModel::F64(*f),
            ParamValue::Date(t) => ValueModel::Date(*t),
            ParamValue::Str(s) => ValueModel::Str(s@),
            ParamValue::Blob(b) => ValueModel::Blob(b@),
        }
    }
}

/// A wide string or a blob placed in a block that the host allocator gave:
/// `ptr` is the block's address, `data` what was copied into it.
pub struct HostData<T> {
    pub ptr: usize,
    pub data: Vec<T>,
}

/// The host's tagged union. Each payload has its own field; the tag says
/// which one holds the value, and the others are stale.
pub struct TVariant {
    pub vt: VariantType,
    pub bool_val: bool,
    pub i32_val: i32,
    pub f64_bits: u64,
    pub tm: Tm,
    pub data_str: HostData<u16>,
    pub data_blob: HostData<u8>,
    /// dimension of a one-dimensional array; unused
    pub elements: u32,
}

/// What a wire value holds, read by its tag; kinds that components do not
/// handle read as empty.
pub open spec fn wire_model(v: TVariant) -> ValueModel {
    match v.vt {
        VariantType::Bool => ValueModel::Bool(v.bool_val),
        VariantType::Int32 => ValueModel::I32(v.i32_val),
        VariantType::Double => ValueModel::F64(v.f64_bits),
        VariantType::Time => ValueModel::Date(v.tm),
        VariantType::WStr => ValueModel::Str(v.data_str.data@),
        VariantType::Blob => ValueModel::Blob(v.data_blob.data@),
        _ => ValueModel::Empty,
    }
}

/// A fresh vector holding the items of `src`.
pub fn copy_slice<T: Copy>(src: &[T]) -> (r: Vec<T>)
    ensures
        r@ == src@,
{
    let mut r: Vec<T> = Vec::with_capacity(src.len());
    let mut i: usize = 0;
    while i < src.len()
        invariant
            i <= src@.len(),
            r@ == src@.subrange(0, i as int),
        decreases src@.len() - i,
    {
        r.push(src[i]);
        i = i + 1;
    }
    assert(r@ == src@);
    r
}

impl TVariant {
    /// An empty wire value with no buffers.
    pub fn new() -> (r: TVariant)
        ensures
            r.vt == VariantType::Empty,
            wire_model(r) == ValueModel::Empty,
            r.data_str.data@.len() == 0,
            r.data_blob.data@.len() == 0,
    {
        TVariant {
            vt: VariantType::Empty,
            bool_val: false,
            i32_val: 0,
            f64_bits: 0,
            tm: Tm {
                sec: 0,
                min: 0,
                hour: 0,
                mday: 0,
                mon: 0,
                year: 0,
                wday: 0,
                yday: 0,
                isdst: 0,
                gmtoff: 0,
                zone: 0,
            },
            data_str: HostData { ptr: 0, data: Vec::new() },
            data_blob: HostData { ptr: 0, data: Vec::new() },
            elements: 0,
        }
    }
}

impl ParamValue {
    /// Copies a wire value out by its tag.
    pub fn from_variant(param: &TVariant) -> (r: ParamValue)
        ensures
            r@ == wire_model(*param),
    {
        match param.vt {
            VariantType::Bool => ParamValue::Bool(param.bool_val),
            VariantType::Int32 => ParamValue::I32(param.i32_val),
            VariantType::Double => ParamValue::F64(param.f64_bits),
            VariantType::Time => ParamValue::Date(param.tm),
            VariantType::WStr => ParamValue::Str(copy_slice(param.data_str.data.as_slice())),
            VariantType::Blob => ParamValue::Blob(copy_slice(param.data_blob.data.as_slice())),
            _ => ParamValue::Empty,
        }
    }
}

} // verus!
