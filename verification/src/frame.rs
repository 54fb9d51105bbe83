//! One active call frame: the defining module's address and name, and the
//! function's name, together with its display form used in folded lines.

use vstd::prelude::*;
use vstd::string::StringExecFns;
use crate::address::{
    spec_parse_address_literal, spec_upper_hex, parse_address_literal, address_hex_upper,
    ADDRESS_LENGTH,
};
use crate::render::str_eq;

verus! {

/// The all-zero address, the sentinel for calls whose span attributes carry
/// no (or a malformed) module address.
pub open spec fn spec_zero_address() -> Seq<u8> {
    Seq::new(ADDRESS_LENGTH as nat, |i: int| 0u8)
}

/// Builds the all-zero address.
pub fn zero_address() -> (bytes: Vec<u8>)
    ensures
        bytes@ == spec_zero_address(),
{
    let mut bytes: Vec<u8> = Vec::new();
    while bytes.len() < ADDRESS_LENGTH
        invariant
            bytes@.len() <= ADDRESS_LENGTH,
            forall|j: int| 0 <= j < bytes@.len() ==> bytes@[j] == 0u8,
        decreases ADDRESS_LENGTH - bytes.len(),
    {
        bytes.push(0u8);
    }
    proof {
        assert(bytes@ =~= spec_zero_address());
    }
    bytes
}

/// Identifies one active call: the defining module's address and name, and
/// the called function's name. The module name is empty for calls that do
/// not belong to a module.
#[derive(Clone)]
pub struct CallFrame {
    /// The defining module's fixed-width address.
    pub module_address: Vec<u8>,
    /// The defining module's name; empty for non-module calls.
    pub module_name: String,
    /// The called function's name.
    pub function_name: String,
}

impl CallFrame {
    /// A frame is well formed when its address has the fixed width.
    pub open spec fn wf(self) -> bool {
        self.module_address@.len() == ADDRESS_LENGTH
    }

    /// The display form of a frame: `{address}::{module}::{function}` when
    /// the module name is non-empty, else just `{function}`.
    pub open spec fn spec_render(self) -> Seq<char> {
        if self.module_name@.len() > 0 {
            spec_upper_hex(self.module_address@) + "::"@ + self.module_name@ + "::"@
                + self.function_name@
        } else {
            self.function_name@
        }
    }

    /// Renders the frame's display form.
    pub fn render(&self) -> (rendered: String)
        requires
            self.wf(),
        ensures
            rendered@ == self.spec_render(),
    {
        if self.module_name.as_str().is_empty() {
            return self.function_name.clone();
        }
        let mut rendered = address_hex_upper(&self.module_address);
        rendered.append("::");
        rendered.append(self.module_name.as_str());
        rendered.append("::");
        rendered.append(self.function_name.as_str());
        proof {
            assert(rendered@ =~= self.spec_render());
        }
        rendered
    }

    /// Records one string-valued span attribute. The three known field names
    /// set the matching component; a malformed address value and any unknown
    /// field are silently ignored.
    pub fn record_str_field(&mut self, field_name: &str, value: &str)
        requires
            old(self).wf(),
        ensures
            final(self).wf(),
            (if field_name@ == "module_address"@ {
                &&& final(self).module_name == old(self).module_name
                &&& final(self).function_name == old(self).function_name
                &&& (match spec_parse_address_literal(value@) {
                    Some(bytes) => final(self).module_address@ == bytes,
                    None => final(self).module_address == old(self).module_address,
                })
            } else if field_name@ == "module_name"@ {
                &&& final(self).module_name@ == value@
                &&& final(self).module_address == old(self).module_address
                &&& final(self).function_name == old(self).function_name
            } else if field_name@ == "function_name"@ {
                &&& final(self).function_name@ == value@
                &&& final(self).module_address == old(self).module_address
                &&& final(self).module_name == old(self).module_name
            } else {
                *final(self) == *old(self)
            }),
    {
        if str_eq(field_name, "module_address") {
            match parse_address_literal(value) {
                Some(bytes) => {
                    self.module_address = bytes;
                },
                None => {},
            }
        } else if str_eq(field_name, "module_name") {
            self.module_name = value.to_owned();
        } else if str_eq(field_name, "function_name") {
            self.function_name = value.to_owned();
        }
    }
}

impl Default for CallFrame {
    /// The frame recorded for a span whose attributes carry no recognized
    /// values: the all-zero address and empty names.
    fn default() -> (frame: CallFrame)
        ensures
            frame.wf(),
            frame.module_address@ == spec_zero_address(),
            frame.module_name@ == Seq::<char>::empty(),
            frame.function_name@ == Seq::<char>::empty(),
    {
        CallFrame {
            module_address: zero_address(),
            module_name: String::new(),
            function_name: String::new(),
        }
    }
}

} // verus!
