//! A custom display name attached to an object.

use crate::error::{DecodeError, EncodeError};
use crate::reader::Deserializer;
use crate::widestr::{opt_str_encodable, opt_units, WideStr};
use crate::wire::enc_string_field;
use crate::writer::Serializer;
use vstd::prelude::*;

verus! {

#[derive(Debug, Clone, PartialEq, Eq, Hash, Default)]
pub struct CustomName {
    pub custom_name: Option<WideStr>,
}

/// Wire bytes of a custom name: one nullable string.
pub open spec fn enc_custom_name(c: CustomName) -> Seq<u8> {
    enc_string_field(opt_units(c.custom_name))
}

impl CustomName {
    /// Current schema version.
    pub fn version() -> (v: i32)
        ensures
            v == 0,
    {
        0
    }

    pub open spec fn encodable(self) -> bool {
        opt_str_encodable(self.custom_name)
    }

    pub fn write(&self, w: &mut Serializer, version: i32) -> (r: Result<(), EncodeError>)
        requires
            old(w).wf(),
        ensures
            final(w).wf(),
            final(w).scope_stack@ == old(w).scope_stack@,
            match r {
                Ok(()) => self.encodable() && final(w).out@ == old(w).out@ + enc_custom_name(
                    *self,
                ),
                Err(e) => !self.encodable() && final(w).out@ == old(w).out@,
            },
    {
        w.put_string_field(&self.custom_name)?;
        Ok(())
    }

    pub fn read(d: &mut Deserializer, version: i32) -> (r: Result<CustomName, DecodeError>)
        ensures
            old(d).keeps(*final(d)),
            match crate::reader::get_string_field_spec(
                old(d).data@,
                old(d).pos as int,
                Option::None,
            ) {
                Ok((v, np)) => r matches Ok(c) && opt_units(c.custom_name) == v && final(d).pos
                    == np,
                Err(e) => r matches Err(e2) && e2 == e,
            },
    {
        let mut c = CustomName { custom_name: Option::None };
        c.custom_name = d.get_string_field(c.custom_name)?;
        Ok(c)
    }
}

} // verus!
