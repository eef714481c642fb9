//! The write-once output slot through which results reach the host.

use vstd::prelude::*;
use crate::memory::MemoryManager;
use crate::value::{TVariant, VariantType, HostData, ParamValue, Tm, ValueModel, wire_model, copy_slice};

verus! {

/// A host-owned wire value to be written once, the gateway for its buffers,
/// and the call's success flag.
pub struct ReturnValue<'a, M: MemoryManager> {
    pub mem: &'a M,
    pub variant: &'a mut TVariant,
    pub result: &'a mut bool,
}

/// A string or blob write either took place, leaving the flag alone, or the
/// host refused the block: the flag is down and the slot as it was.
pub open spec fn buffer_write(
    before: TVariant,
    after: TVariant,
    flag_before: bool,
    flag_after: bool,
    m: ValueModel,
) -> bool {
    ||| wire_model(after) == m && flag_after == flag_before
    ||| after == before && !flag_after
}

/// What a write of `m` leaves: a string or blob as `buffer_write` says,
/// anything else in place with the flag untouched.
pub open spec fn written(
    before: TVariant,
    after: TVariant,
    flag_before: bool,
    flag_after: bool,
    m: ValueModel,
) -> bool {
    match m {
        ValueModel::Str(_) | ValueModel::Blob(_) => buffer_write(
            before,
            after,
            flag_before,
            flag_after,
            m,
        ),
        _ => wire_model(after) == m && flag_after == flag_before,
    }
}

/// Reading a wire value and writing what was read through a slot gives back
/// the same content (numbers, booleans and dates exactly, strings and blobs
/// unit for unit) whenever the call's flag stays up.
pub proof fn lemma_read_write_round_trip(
    wire: TVariant,
    read: ValueModel,
    before: TVariant,
    after: TVariant,
    flag_after: bool,
)
    requires
        read == wire_model(wire),
        written(before, after, true, flag_after, read),
        flag_after,
    ensures
        wire_model(after) == wire_model(wire),
{
}

/// A string or blob write that the gateway refused lowers the flag and
/// leaves the slot, its tag included, as it was.
pub proof fn lemma_refused_write_keeps_slot(
    before: TVariant,
    after: TVariant,
    m: ValueModel,
)
    requires
        m is Str || m is Blob,
        written(before, after, true, false, m),
    ensures
        after == before,
        after.vt == before.vt,
{
}

/// `len` copies of `zero`.
fn zeroed<T: Copy>(len: usize, zero: T) -> (r: Vec<T>)
    ensures
        r@ == Seq::new(len as nat, |i: int| zero),
{
    let mut r: Vec<T> = Vec::with_capacity(len);
    let mut i: usize = 0;
    while i < len
        invariant
            i <= len,
            r@ == Seq::new(i as nat, |k: int| zero),
        decreases len - i,
    {
        r.push(zero);
        i = i + 1;
        assert(r@ =~= Seq::new(i as nat, |k: int| zero));
    }
    r
}

impl<'a, M: MemoryManager> ReturnValue<'a, M> {
    /// Writes the empty value.
    pub fn set_empty(self)
        ensures
            wire_model(*final(self.variant)) == ValueModel::Empty,
            final(self.variant).vt == VariantType::Empty,
            *final(self.result) == *old(self.result),
            written(
                *old(self.variant),
                *final(self.variant),
                *old(self.result),
                *final(self.result),
                ValueModel::Empty,
            ),
    {
        self.variant.vt = VariantType::Empty;
    }

    /// Writes a 32-bit integer.
    pub fn set_i32(self, val: i32)
        ensures
            wire_model(*final(self.variant)) == ValueModel::I32(val),
            *final(self.result) == *old(self.result),
    {
        self.variant.vt = VariantType::Int32;
        self.variant.i32_val = val;
    }

    /// Writes a boolean.
    pub fn set_bool(self, val: bool)
        ensures
            wire_model(*final(self.variant)) == ValueModel::Bool(val),
            *final(self.result) == *old(self.result),
    {
        self.variant.vt = VariantType::Bool;
        self.variant.bool_val = val;
    }

    /// Writes a double, given as its IEEE-754 bit pattern.
    pub fn set_f64(self, val: u64)
        ensures
            wire_model(*final(self.variant)) == ValueModel::F64(val),
            *final(self.result) == *old(self.result),
    {
        self.variant.vt = VariantType::Double;
        self.variant.f64_bits = val;
    }

    /// Writes a date-time.
    pub fn set_date(self, val: Tm)
        ensures
            wire_model(*final(self.variant)) == ValueModel::Date(val),
            *final(self.result) == *old(self.result),
    {
        self.variant.vt = VariantType::Time;
        self.variant.tm = val;
    }

    /// Writes a UTF-16 string into the block `block` that the host gave, or,
    /// where it gave none, lowers the flag and leaves the slot as it was.
    pub fn store_str(self, block: Option<usize>, val: &[u16])
        ensures
            block is Some ==> wire_model(*final(self.variant)) == ValueModel::Str(val@)
                && final(self.variant).data_str.ptr == block->0
                && *final(self.result) == *old(self.result),
            block is None ==> *final(self.variant) == *old(self.variant) && !*final(self.result),
    {
        match block {
            Some(ptr) => {
                self.variant.data_str = HostData { ptr, data: copy_slice(val) };
                self.variant.vt = VariantType::WStr;
            },
            None => {
                *self.result = false;
            },
        }
    }

    /// Writes a blob into the block `block` that the host gave, or, where it
    /// gave none, lowers the flag and leaves the slot as it was.
    pub fn store_blob(self, block: Option<usize>, val: &[u8])
        ensures
            block is Some ==> wire_model(*final(self.variant)) == ValueModel::Blob(val@)
                && final(self.variant).data_blob.ptr == block->0
                && *final(self.result) == *old(self.result),
            block is None ==> *final(self.variant) == *old(self.variant) && !*final(self.result),
    {
        match block {
            Some(ptr) => {
                self.variant.data_blob = HostData { ptr, data: copy_slice(val) };
                self.variant.vt = VariantType::Blob;
            },
            None => {
                *self.result = false;
            },
        }
    }

    /// Writes a UTF-16 string into a block asked of the gateway.
    pub fn set_str(self, val: &[u16])
        ensures
            buffer_write(
                *old(self.variant),
                *final(self.variant),
                *old(self.result),
                *final(self.result),
                ValueModel::Str(val@),
            ),
            val@.len() > usize::MAX / 2 ==> *final(self.variant) == *old(self.variant)
                && !*final(self.result),
    {
        let block = self.mem.alloc_str(val.len());
        self.store_str(block, val);
    }

    /// Writes a blob into a block asked of the gateway.
    pub fn set_blob(self, val: &[u8])
        ensures
            buffer_write(
                *old(self.variant),
                *final(self.variant),
                *old(self.result),
                *final(self.result),
                ValueModel::Blob(val@),
            ),
    {
        let block = self.mem.alloc_blob(val.len());
        self.store_blob(block, val);
    }

    /// Gives the slot a zero-filled string of `len` units in the block
    /// `block` that the host gave, and hands that string out to be filled;
    /// where the host gave none, lowers the flag, leaves the slot as it was
    /// and hands out nothing.
    pub fn place_str(self, block: Option<usize>, len: usize) -> (r: Option<&'a mut Vec<u16>>)
        ensures
            block is Some <==> r is Some,
            block matches Some(p) ==> {
                &&& final(self.variant).data_str.ptr == p
                &&& final(self.variant).vt == VariantType::WStr
                &&& *final(self.result) == *old(self.result)
                &&& r->0@ == Seq::new(len as nat, |i: int| 0u16)
                &&& final(self.variant).data_str.data == *final(r->0)
            },
            block is None ==> *final(self.variant) == *old(self.variant) && !*final(self.result),
    {
        match block {
            Some(ptr) => {
                self.variant.data_str = HostData { ptr, data: zeroed(len, 0u16) };
                self.variant.vt = VariantType::WStr;
                Some(&mut self.variant.data_str.data)
            },
            None => {
                *self.result = false;
                None
            },
        }
    }

    /// Gives the slot a zero-filled blob of `len` bytes in the block `block`
    /// that the host gave, and hands that blob out to be filled; where the
    /// host gave none, lowers the flag, leaves the slot as it was and hands
    /// out nothing.
    pub fn place_blob(self, block: Option<usize>, len: usize) -> (r: Option<&'a mut Vec<u8>>)
        ensures
            block is Some <==> r is Some,
            block matches Some(p) ==> {
                &&& final(self.variant).data_blob.ptr == p
                &&& final(self.variant).vt == VariantType::Blob
                &&& *final(self.result) == *old(self.result)
                &&& r->0@ == Seq::new(len as nat, |i: int| 0u8)
                &&& final(self.variant).data_blob.data == *final(r->0)
            },
            block is None ==> *final(self.variant) == *old(self.variant) && !*final(self.result),
    {
        match block {
            Some(ptr) => {
                self.variant.data_blob = HostData { ptr, data: zeroed(len, 0u8) };
                self.variant.vt = VariantType::Blob;
                Some(&mut self.variant.data_blob.data)
            },
            None => {
                *self.result = false;
                None
            },
        }
    }

    /// Gives the slot a zero-filled string of `len` units in a block asked
    /// of the gateway (see `place_str`), and hands that string out to be
    /// filled. A count too large to ask for is refused: nothing is handed
    /// out, the flag goes down and the slot stays as it was.
    pub fn alloc_str(self, len: usize) -> (r: Option<&'a mut Vec<u16>>)
        ensures
            match r {
                Some(buf) => {
                    &&& buf@ == Seq::new(len as nat, |i: int| 0u16)
                    &&& final(self.variant).vt == VariantType::WStr
                    &&& final(self.variant).data_str.data == *final(buf)
                    &&& *final(self.result) == *old(self.result)
                },
                None => *final(self.variant) == *old(self.variant) && !*final(self.result),
            },
            len > usize::MAX / 2 ==> r is None && *final(self.variant) == *old(self.variant)
                && !*final(self.result),
    {
        let block = self.mem.alloc_str(len);
        self.place_str(block, len)
    }

    /// Gives the slot a zero-filled blob of `len` bytes in a block asked of
    /// the gateway (see `place_blob`), and hands that blob out to be filled.
    pub fn alloc_blob(self, len: usize) -> (r: Option<&'a mut Vec<u8>>)
        ensures
            match r {
                Some(buf) => {
                    &&& buf@ == Seq::new(len as nat, |i: int| 0u8)
                    &&& final(self.variant).vt == VariantType::Blob
                    &&& final(self.variant).data_blob.data == *final(buf)
                    &&& *final(self.result) == *old(self.result)
                },
                None => *final(self.variant) == *old(self.variant) && !*final(self.result),
            },
    {
        let block = self.mem.alloc_blob(len);
        self.place_blob(block, len)
    }

    /// Writes any value: the one path from a component's result to the host.
    pub fn write(self, value: &ParamValue)
        ensures
            written(
                *old(self.variant),
                *final(self.variant),
                *old(self.result),
                *final(self.result),
                value@,
            ),
    {
        match value {
            ParamValue::Empty => self.set_empty(),
            ParamValue::Bool(b) => self.set_bool(*b),
            ParamValue::I32(i) => self.set_i32(*i),
            ParamValue::F64(f) => self.set_f64(*f),
            ParamValue::Date(t) => self.set_date(*t),
            ParamValue::Str(s) => self.set_str(s.as_slice()),
            ParamValue::Blob(b) => self.set_blob(b.as_slice()),
        }
    }
}

} // verus!
