//! Tables that describe a component's methods and properties, each entry
//! known by its position and found by any of its localized names.

use vstd::prelude::*;
use crate::value::ParamValue;
use vstd::std_specs::iter::IteratorSpec;

verus! {

/// The UTF-16 code units of one character.
pub open spec fn char_units(c: char) -> Seq<u16> {
    let v = c as u32 as int;
    if v < 0x10000 {
        seq![v as u16]
    } else {
        seq![(0xD800 + (v - 0x10000) / 0x400) as u16, (0xDC00 + (v - 0x10000) % 0x400) as u16]
    }
}

/// The UTF-16 encoding of a character sequence.
pub open spec fn utf16_encode(s: Seq<char>) -> Seq<u16>
    decreases s.len(),
{
    if s.len() == 0 {
        Seq::empty()
    } else {
        utf16_encode(s.drop_last()) + char_units(s.last())
    }
}

/// Characters below 0x10000 take one UTF-16 code unit each.
pub proof fn lemma_utf16_len_bmp(s: Seq<char>)
    requires
        forall|i: int| 0 <= i < s.len() ==> (#[trigger] s[i]) as u32 <= 0xFFFF,
    ensures
        utf16_encode(s).len() == s.len(),
    decreases s.len(),
{
    if s.len() > 0 {
        lemma_utf16_len_bmp(s.drop_last());
    }
}

/// A name as the host spells it, in UTF-16.
pub(crate) fn encode_utf16(s: &str) -> (r: Vec<u16>)
    ensures
        r@ == utf16_encode(s@),
{
    broadcast use vstd::string::axiom_spec_iter, vstd::string::next_postcondition;

    let mut it = s.chars();
    let mut r: Vec<u16> = Vec::new();
    let ghost mut done: Seq<char> = Seq::empty();
    loop
        invariant
            done + it.remaining() == s@,
            r@ == utf16_encode(done),
            it.obeys_prophetic_iter_laws(),
            it.decrease() is Some,
        ensures
            r@ == utf16_encode(s@),
        decreases it.decrease()->0,
    {
        let ghost before = it.remaining();
        match it.next() {
            Some(c) => {
                let v = c as u32;
                if v < 0x10000 {
                    r.push(v as u16);
                } else {
                    let w = v - 0x10000;
                    r.push((0xD800 + w / 0x400) as u16);
                    r.push((0xDC00 + w % 0x400) as u16);
                }
                proof {
                    let nd = done.push(c);
                    assert(nd.drop_last() =~= done);
                    assert(before == seq![c] + it.remaining()) by {
                        assert(before =~= seq![c] + before.drop_first());
                    }
                    assert(nd + it.remaining() =~= done + before);
                    done = nd;
                }
                assert(r@ =~= utf16_encode(done));
            },
            None => {
                assert(done =~= s@);
                break;
            },
        }
    }
    r
}

/// The names of a table entry as sequences of code units.
pub open spec fn names_view(names: Seq<Vec<u16>>) -> Seq<Seq<u16>> {
    names.map_values(|n: Vec<u16>| n@)
}

/// `name` is one of `names`.
pub open spec fn has_name(names: Seq<Seq<u16>>, name: Seq<u16>) -> bool {
    exists|j: int| 0 <= j < names.len() && names[j] == name
}

/// Entry `i` of `table` is the first that answers to `name`.
pub open spec fn first_with_name(table: Seq<Seq<Seq<u16>>>, name: Seq<u16>, i: int) -> bool {
    &&& 0 <= i < table.len()
    &&& has_name(table[i], name)
    &&& forall|k: int| 0 <= k < i ==> !has_name(#[trigger] table[k], name)
}

/// What a lookup of `name` in `table` returns: the first entry that answers
/// to it, or `None` where none does.
pub open spec fn lookup_result(table: Seq<Seq<Seq<u16>>>, name: Seq<u16>, r: Option<usize>) -> bool {
    match r {
        Some(i) => first_with_name(table, name, i as int),
        None => forall|k: int| 0 <= k < table.len() ==> !has_name(#[trigger] table[k], name),
    }
}

/// No name stands in two entries of `table`.
pub open spec fn names_unique(table: Seq<Seq<Seq<u16>>>) -> bool {
    forall|i1: int, j1: int, i2: int, j2: int|
        0 <= i1 < table.len() && 0 <= i2 < table.len() && 0 <= j1 < table[i1].len() && 0
            <= j2 < table[i2].len() && #[trigger] table[i1][j1] == #[trigger] table[i2][j2]
            ==> i1 == i2
}

/// At most one entry is the first to answer to a name: a lookup has one
/// answer, however often it is made.
pub proof fn lemma_lookup_deterministic(
    table: Seq<Seq<Seq<u16>>>,
    name: Seq<u16>,
    a: Option<usize>,
    b: Option<usize>,
)
    requires
        lookup_result(table, name, a),
        lookup_result(table, name, b),
    ensures
        a == b,
{
    match (a, b) {
        (Some(x), Some(y)) => {
            if (x as int) < (y as int) {
                assert(!has_name(table[x as int], name));
            }
            if (y as int) < (x as int) {
                assert(!has_name(table[y as int], name));
            }
        },
        (Some(x), None) => {
            assert(!has_name(table[x as int], name));
        },
        (None, Some(y)) => {
            assert(!has_name(table[y as int], name));
        },
        (None, None) => {},
    }
}

/// In a table whose names are unique, looking up any of entry `i`'s names
/// finds entry `i`: the order of an entry's names does not matter.
pub proof fn lemma_lookup_by_any_name(table: Seq<Seq<Seq<u16>>>, i: int, j: int, r: Option<usize>)
    requires
        names_unique(table),
        0 <= i < table.len(),
        0 <= j < table[i].len(),
        lookup_result(table, table[i][j], r),
    ensures
        r == Some(i as usize),
{
    let name = table[i][j];
    assert(has_name(table[i], name));
    match r {
        Some(x) => {
            let k = choose|k: int| 0 <= k < table[x as int].len() && table[x as int][k] == name;
            assert(table[x as int][k] == table[i][j]);
        },
        None => {
            assert(!has_name(table[i], name));
        },
    }
}

/// Does `names` hold a name equal to `name`?
fn names_contain(names: &Vec<Vec<u16>>, name: &[u16]) -> (r: bool)
    ensures
        r == has_name(names_view(names@), name@),
{
    let mut j: usize = 0;
    while j < names.len()
        invariant
            j <= names@.len(),
            forall|k: int| 0 <= k < j ==> names@[k]@ != name@,
        decreases names@.len() - j,
    {
        if units_equal(names[j].as_slice(), name) {
            assert(names_view(names@)[j as int] == name@);
            return true;
        }
        j = j + 1;
    }
    proof {
        if has_name(names_view(names@), name@) {
            let k = choose|k: int| 0 <= k < names@.len() && names_view(names@)[k] == name@;
            assert(names@[k]@ == name@);
        }
    }
    false
}

/// Are the two code-unit sequences equal?
fn units_equal(a: &[u16], b: &[u16]) -> (r: bool)
    ensures
        r == (a@ == b@),
{
    if a.len() != b.len() {
        return false;
    }
    let mut i: usize = 0;
    while i < a.len()
        invariant
            i <= a@.len(),
            a@.len() == b@.len(),
            forall|k: int| 0 <= k < i ==> a@[k] == b@[k],
        decreases a@.len() - i,
    {
        if a[i] != b[i] {
            return false;
        }
        i = i + 1;
    }
    assert(a@ =~= b@);
    true
}

/// A method: its names (the first canonical, the others aliases), whether
/// it returns a value, and a default for each parameter (`None`: the
/// parameter is required). Its arity is the number of defaults.
pub struct ComponentFuncDescription {
    pub names: Vec<Vec<u16>>,
    pub has_ret_val: bool,
    pub default_values: Vec<Option<ParamValue>>,
}

/// A property: its names, and whether the host may read and write it.
pub struct ComponentPropDescription {
    pub names: Vec<Vec<u16>>,
    pub readable: bool,
    pub writable: bool,
}

impl ComponentFuncDescription {
    pub open spec fn names_spec(&self) -> Seq<Seq<u16>> {
        names_view(self.names@)
    }

    /// Describes a method with the given names, return flag and defaults.
    pub fn new(names: &[&str], has_ret_val: bool, default_values: Vec<Option<ParamValue>>) -> (r:
        Self)
        ensures
            r.names@.len() == names@.len(),
            forall|j: int| 0 <= j < names@.len() ==> #[trigger] r.names@[j]@ == utf16_encode(names@[j]@),
            r.has_ret_val == has_ret_val,
            r.default_values == default_values,
    {
        ComponentFuncDescription { names: encode_names(names), has_ret_val, default_values }
    }

    /// The number of parameters.
    pub fn params_num(&self) -> (r: usize)
        ensures
            r == self.default_values@.len(),
    {
        self.default_values.len()
    }
}

impl ComponentPropDescription {
    pub open spec fn names_spec(&self) -> Seq<Seq<u16>> {
        names_view(self.names@)
    }

    /// Describes a property with the given names and access.
    pub fn new(names: &[&str], readable: bool, writable: bool) -> (r: Self)
        ensures
            r.names@.len() == names@.len(),
            forall|j: int| 0 <= j < names@.len() ==> #[trigger] r.names@[j]@ == utf16_encode(names@[j]@),
            r.readable == readable,
            r.writable == writable,
    {
        ComponentPropDescription { names: encode_names(names), readable, writable }
    }
}

/// Each name, in UTF-16.
fn encode_names(names: &[&str]) -> (r: Vec<Vec<u16>>)
    ensures
        r@.len() == names@.len(),
        forall|j: int| 0 <= j < names@.len() ==> #[trigger] r@[j]@ == utf16_encode(names@[j]@),
{
    let mut r: Vec<Vec<u16>> = Vec::new();
    let mut i: usize = 0;
    while i < names.len()
        invariant
            i <= names@.len(),
            r@.len() == i,
            forall|j: int| 0 <= j < i ==> #[trigger] r@[j]@ == utf16_encode(names@[j]@),
        decreases names@.len() - i,
    {
        r.push(encode_utf16(names[i]));
        i = i + 1;
    }
    r
}

/// The names of each method in a table.
pub open spec fn func_table(fs: Seq<ComponentFuncDescription>) -> Seq<Seq<Seq<u16>>> {
    fs.map_values(|f: ComponentFuncDescription| f.names_spec())
}

/// The names of each property in a table.
pub open spec fn prop_table(ps: Seq<ComponentPropDescription>) -> Seq<Seq<Seq<u16>>> {
    ps.map_values(|p: ComponentPropDescription| p.names_spec())
}

/// The position of the first method that answers to `name`.
pub fn find_func(fs: &Vec<ComponentFuncDescription>, name: &[u16]) -> (r: Option<usize>)
    ensures
        lookup_result(func_table(fs@), name@, r),
{
    let mut i: usize = 0;
    while i < fs.len()
        invariant
            i <= fs@.len(),
            forall|k: int| 0 <= k < i ==> !has_name(#[trigger] func_table(fs@)[k], name@),
        decreases fs@.len() - i,
    {
        if names_contain(&fs[i].names, name) {
            return Some(i);
        }
        i = i + 1;
    }
    None
}

/// The position of the first property that answers to `name`.
pub fn find_prop(ps: &Vec<ComponentPropDescription>, name: &[u16]) -> (r: Option<usize>)
    ensures
        lookup_result(prop_table(ps@), name@, r),
{
    let mut i: usize = 0;
    while i < ps.len()
        invariant
            i <= ps@.len(),
            forall|k: int| 0 <= k < i ==> !has_name(#[trigger] prop_table(ps@)[k], name@),
        decreases ps@.len() - i,
    {
        if names_contain(&ps[i].names, name) {
            return Some(i);
        }
        i = i + 1;
    }
    None
}

} // verus!
