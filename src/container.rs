//! The container that answers the host's calls: it checks each position
//! against the component's tables, forwards to the component, and writes
//! results through the call's slot.

use vstd::prelude::*;
use crate::interface::{AddIn, CallError, Connection};
use crate::memory::MemoryManager;
use crate::metadata::{
    find_func, find_prop, func_table, lookup_result, prop_table, ComponentFuncDescription,
    ComponentPropDescription,
};
use crate::slot::{written, ReturnValue};
use crate::value::{copy_slice, ParamValue, ValueModel};

verus! {

/// The version of the host interface that components answer to.
pub const INTERFACE_VERSION: u16 = 2000;

/// `r` is name `alias` of entry `num` of `table`, when both exist.
pub open spec fn name_at(table: Seq<Seq<Seq<u16>>>, num: usize, alias: usize, r: Option<Vec<u16>>) -> bool {
    match r {
        Some(n) => num < table.len() && alias < table[num as int].len() && n@
            == table[num as int][alias as int],
        None => !(num < table.len() && alias < table[num as int].len()),
    }
}

/// Property `num` exists and the host may read it.
pub open spec fn prop_readable(ps: Seq<ComponentPropDescription>, num: usize) -> bool {
    num < ps.len() && ps[num as int].readable
}

/// Property `num` exists and the host may write it.
pub open spec fn prop_writable(ps: Seq<ComponentPropDescription>, num: usize) -> bool {
    num < ps.len() && ps[num as int].writable
}

/// The default of parameter `param` of method `method`, where there is one.
pub open spec fn default_at(fs: Seq<ComponentFuncDescription>, method: usize, param: usize) -> Option<
    ValueModel,
> {
    if method < fs.len() && param < fs[method as int].default_values@.len() {
        match fs[method as int].default_values@[param as int] {
            Some(v) => Some(v@),
            None => None,
        }
    } else {
        None
    }
}

/// What a successful method leaves in the result slot: its value, or the
/// empty value where it returns none.
pub open spec fn returned_value(o: Result<Option<ValueModel>, CallError>) -> ValueModel {
    match o {
        Ok(Some(v)) => v,
        _ => ValueModel::Empty,
    }
}

/// A component as the host sees it, with the failure of the last method
/// that failed, for the host side to report.
pub struct AddInContainer<T: AddIn> {
    pub component: T,
    pub last_error: Option<CallError>,
}

impl<T: AddIn> AddInContainer<T> {
    pub open spec fn functions(&self) -> Seq<ComponentFuncDescription> {
        self.component.functions_spec()
    }

    pub open spec fn props(&self) -> Seq<ComponentPropDescription> {
        self.component.props_spec()
    }

    pub fn new(component: T) -> (r: Self)
        ensures
            r.component == component,
            r.last_error is None,
    {
        AddInContainer { component, last_error: None }
    }

    /// The failure of the last method that failed, which is then forgotten.
    pub fn take_last_error(&mut self) -> (r: Option<CallError>)
        ensures
            r == old(self).last_error,
            final(self).last_error is None,
            final(self).component == old(self).component,
    {
        let r = self.last_error;
        self.last_error = None;
        r
    }

    /// The version of the host interface this component answers to.
    pub fn get_info(&self) -> (r: u16)
        ensures
            r == INTERFACE_VERSION,
    {
        INTERFACE_VERSION
    }

    /// Attaches the component; `false` when it refuses.
    pub fn init<C: Connection>(&mut self, interface: &C) -> (r: bool)
        ensures
            final(self).functions() == old(self).functions(),
            final(self).props() == old(self).props(),
    {
        self.component.init(interface)
    }

    /// Detaches the component.
    pub fn done(&mut self)
        ensures
            final(self).functions() == old(self).functions(),
            final(self).props() == old(self).props(),
    {
        self.component.done()
    }

    /// The name under which the component registers, in UTF-16.
    pub fn register_extension_as(&self) -> (r: Vec<u16>)
        ensures
            r@ == self.component.name_spec(),
    {
        self.component.add_in_name()
    }

    pub fn get_n_props(&self) -> (r: usize)
        ensures
            r == self.props().len(),
    {
        self.component.list_parameters().len()
    }

    /// The position of the first property that answers to `name`.
    pub fn find_prop(&self, name: &[u16]) -> (r: Option<usize>)
        ensures
            lookup_result(prop_table(self.props()), name@, r),
    {
        find_prop(self.component.list_parameters(), name)
    }

    /// Name `alias` of property `num`.
    pub fn get_prop_name(&self, num: usize, alias: usize) -> (r: Option<Vec<u16>>)
        ensures
            name_at(prop_table(self.props()), num, alias, r),
    {
        let ps = self.component.list_parameters();
        if num < ps.len() && alias < ps[num].names.len() {
            Some(copy_slice(ps[num].names[alias].as_slice()))
        } else {
            None
        }
    }

    /// Reads property `num` into `val`. Nothing is read, and the slot stays as
    /// it was, where the property does not exist or is not readable, or the
    /// component has no value for it.
    pub fn get_prop_val<M: MemoryManager>(&self, num: usize, val: ReturnValue<'_, M>) -> (r: bool)
        ensures
            r == (prop_readable(self.props(), num) && self.component.prop_value(num) is Some),
            r ==> written(
                *old(val.variant),
                *final(val.variant),
                *old(val.result),
                *final(val.result),
                self.component.prop_value(num)->0,
            ),
            !r ==> *final(val.variant) == *old(val.variant) && *final(val.result)
                == *old(val.result),
    {
        let ps = self.component.list_parameters();
        if num >= ps.len() || !ps[num].readable {
            return false;
        }
        match self.component.get_parameter(num) {
            Some(v) => {
                val.write(&v);
                true
            },
            None => false,
        }
    }

    /// Writes property `num`. Nothing is written where the property does not
    /// exist or is not writable.
    pub fn set_prop_val(&mut self, num: usize, val: &ParamValue) -> (r: bool)
        ensures
            final(self).functions() == old(self).functions(),
            final(self).props() == old(self).props(),
            !prop_writable(old(self).props(), num) ==> !r && *final(self) == *old(self),
    {
        let ps = self.component.list_parameters();
        if num >= ps.len() || !ps[num].writable {
            return false;
        }
        self.component.set_parameter(num, val)
    }

    pub fn is_prop_readable(&self, num: usize) -> (r: bool)
        ensures
            r == prop_readable(self.props(), num),
    {
        let ps = self.component.list_parameters();
        num < ps.len() && ps[num].readable
    }

    pub fn is_prop_writable(&self, num: usize) -> (r: bool)
        ensures
            r == prop_writable(self.props(), num),
    {
        let ps = self.component.list_parameters();
        num < ps.len() && ps[num].writable
    }

    pub fn get_n_methods(&self) -> (r: usize)
        ensures
            r == self.functions().len(),
    {
        self.component.list_functions().len()
    }

    /// The position of the first method that answers to `name`.
    pub fn find_method(&self, name: &[u16]) -> (r: Option<usize>)
        ensures
            lookup_result(func_table(self.functions()), name@, r),
    {
        find_func(self.component.list_functions(), name)
    }

    /// Name `alias` of method `num`.
    pub fn get_method_name(&self, num: usize, alias: usize) -> (r: Option<Vec<u16>>)
        ensures
            name_at(func_table(self.functions()), num, alias, r),
    {
        let fs = self.component.list_functions();
        if num < fs.len() && alias < fs[num].names.len() {
            Some(copy_slice(fs[num].names[alias].as_slice()))
        } else {
            None
        }
    }

    /// The number of parameters of method `num`; zero for no method.
    pub fn get_n_params(&self, num: usize) -> (r: usize)
        ensures
            r == (if num < self.functions().len() {
                self.functions()[num as int].default_values@.len()
            } else {
                0
            }),
    {
        let fs = self.component.list_functions();
        if num < fs.len() {
            fs[num].params_num()
        } else {
            0
        }
    }

    /// Writes the default of parameter `param_num` of method `method_num`
    /// into `value`; `false`, with the slot untouched, where there is none.
    pub fn get_param_def_value<M: MemoryManager>(
        &self,
        method_num: usize,
        param_num: usize,
        value: ReturnValue<'_, M>,
    ) -> (r: bool)
        ensures
            r == default_at(self.functions(), method_num, param_num) is Some,
            r ==> written(
                *old(value.variant),
                *final(value.variant),
                *old(value.result),
                *final(value.result),
                default_at(self.functions(), method_num, param_num)->0,
            ),
            !r ==> *final(value.variant) == *old(value.variant) && *final(value.result)
                == *old(value.result),
    {
        let fs = self.component.list_functions();
        if method_num >= fs.len() || param_num >= fs[method_num].default_values.len() {
            return false;
        }
        match &fs[method_num].default_values[param_num] {
            Some(v) => {
                value.write(v);
                true
            },
            None => false,
        }
    }

    /// Does method `method_num` return a value?
    pub fn has_ret_val(&self, method_num: usize) -> (r: bool)
        ensures
            r == (method_num < self.functions().len()
                && self.functions()[method_num as int].has_ret_val),
    {
        let fs = self.component.list_functions();
        method_num < fs.len() && fs[method_num].has_ret_val
    }

    /// Runs method `method_num` as a procedure. A position outside the table
    /// is refused before the component is reached; a failure is kept in
    /// `last_error`.
    pub fn call_as_proc(&mut self, method_num: usize, params: &[ParamValue]) -> (r: bool)
        ensures
            final(self).functions() == old(self).functions(),
            final(self).props() == old(self).props(),
            method_num >= old(self).functions().len() ==> !r && *final(self) == *old(self),
            method_num < old(self).functions().len() ==> r == old(self).component.call_outcome(
                method_num,
                params@,
            ) is Ok,
            method_num < old(self).functions().len() ==> final(self).last_error == match old(
                self,
            ).component.call_outcome(method_num, params@) {
                Ok(_) => old(self).last_error,
                Err(e) => Some(e),
            },
    {
        if method_num >= self.component.list_functions().len() {
            return false;
        }
        match self.component.call_function(method_num, params) {
            Ok(_) => true,
            Err(e) => {
                self.last_error = Some(e);
                false
            },
        }
    }

    /// Runs method `method_num` as a function and writes its result into
    /// `val` (the empty value where it returns none). A position outside the
    /// table is refused before the component is reached; a failed method
    /// leaves the slot as it was, and its failure is kept in `last_error`.
    pub fn call_as_func<M: MemoryManager>(
        &mut self,
        method_num: usize,
        params: &[ParamValue],
        val: ReturnValue<'_, M>,
    ) -> (r: bool)
        ensures
            final(self).functions() == old(self).functions(),
            final(self).props() == old(self).props(),
            method_num >= old(self).functions().len() ==> !r && *final(self) == *old(self),
            method_num < old(self).functions().len() ==> r == old(self).component.call_outcome(
                method_num,
                params@,
            ) is Ok,
            method_num < old(self).functions().len() ==> final(self).last_error == match old(
                self,
            ).component.call_outcome(method_num, params@) {
                Ok(_) => old(self).last_error,
                Err(e) => Some(e),
            },
            r ==> written(
                *old(val.variant),
                *final(val.variant),
                *old(val.result),
                *final(val.result),
                returned_value(old(self).component.call_outcome(method_num, params@)),
            ),
            !r ==> *final(val.variant) == *old(val.variant) && *final(val.result)
                == *old(val.result),
    {
        if method_num >= self.component.list_functions().len() {
            return false;
        }
        match self.component.call_function(method_num, params) {
            Ok(Some(v)) => {
                val.write(&v);
                true
            },
            Ok(None) => {
                val.set_empty();
                true
            },
            Err(e) => {
                self.last_error = Some(e);
                false
            },
        }
    }

    pub fn set_locale(&mut self, loc: &[u16])
        ensures
            final(self).functions() == old(self).functions(),
            final(self).props() == old(self).props(),
    {
        self.component.set_locale(loc)
    }

    pub fn set_user_interface_language_code(&mut self, lang: &[u16])
        ensures
            final(self).functions() == old(self).functions(),
            final(self).props() == old(self).props(),
    {
        self.component.set_user_interface_language_code(lang)
    }
}

} // verus!
