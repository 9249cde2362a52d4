//! A group: references to its track links, and how the editor inspects its
//! children.

use crate::enums::{
    spec_group_inspect_children_type_from_i32, spec_group_inspect_children_type_i32,
    GroupInspectChildrenType,
};
use crate::error::{DecodeError, EncodeError};
use crate::reader::Deserializer;
use crate::wire::{enc_array_header, enc_i32_field};
use crate::writer::{enc_references, Serializer};
use vstd::prelude::*;

verus! {

#[derive(Debug, Clone, PartialEq, Eq, Hash, Default)]
pub struct Group {
    /// References to track-link components.
    pub links: Vec<u32>,
    pub inspect_children: GroupInspectChildrenType,
}

/// Wire bytes of a group at `version`: the reference array, and from
/// version 1 the inspect mode as an enum field.
pub open spec fn enc_group(g: Group, version: i32) -> Seq<u8> {
    enc_array_header(g.links@.len() as i32) + enc_references(g.links@) + (if version >= 1 {
        enc_i32_field(spec_group_inspect_children_type_i32(g.inspect_children))
    } else {
        Seq::empty()
    })
}

/// What a group read holds at `version`: the reference links, and from
/// version 1 the inspect mode, whose unknown wire values are fatal.
pub open spec fn parse_group_fields(
    data: Seq<u8>,
    has_scope: bool,
    top_end: int,
    pos: int,
    version: i32,
) -> Result<((Seq<u32>, GroupInspectChildrenType), int), DecodeError> {
    match crate::reader::collection_header_spec(
        data,
        has_scope,
        top_end,
        pos,
        crate::marks::MARK_ARRAY,
    ) {
        Err(e) => Err(e),
        Ok((len, _, p1)) => match (if len <= 0 {
            Ok((Seq::<u32>::empty(), p1))
        } else {
            crate::reader::references_spec(data, has_scope, top_end, p1, len as nat)
        }) {
            Err(e) => Err(e),
            Ok((links, p2)) => {
                if version >= 1 {
                    match crate::reader::get_i32_spec(data, has_scope, top_end, p2, 0) {
                        Err(e) => Err(e),
                        Ok((n, p3)) => match spec_group_inspect_children_type_from_i32(n as int) {
                            Some(m) => Ok(((links, m), p3)),
                            Option::None => Err(DecodeError::UnknownEnumValue),
                        },
                    }
                } else {
                    Ok(((links, GroupInspectChildrenType::NoneValue), p2))
                }
            },
        },
    }
}

impl Group {
    /// Current schema version.
    pub fn version() -> (v: i32)
        ensures
            v == 1,
    {
        1
    }

    pub open spec fn encodable(self) -> bool {
        self.links@.len() <= i32::MAX
    }

    pub fn write(&self, w: &mut Serializer, version: i32) -> (r: Result<(), EncodeError>)
        requires
            old(w).wf(),
        ensures
            final(w).wf(),
            final(w).scope_stack@ == old(w).scope_stack@,
            match r {
                Ok(()) => self.encodable() && final(w).out@ == old(w).out@ + enc_group(
                    *self,
                    version,
                ),
                Err(e) => !self.encodable() && final(w).out@ == old(w).out@,
            },
    {
        w.put_reference_array(&self.links)?;
        if version >= 1 {
            w.put_i32_field(self.inspect_children.to_i32());
        }
        proof {
            assert(final(w).out@ =~= old(w).out@ + enc_group(*self, version));
        }
        Ok(())
    }

    pub fn read(d: &mut Deserializer, version: i32) -> (r: Result<Group, DecodeError>)
        ensures
            old(d).data == final(d).data,
            old(d).scopes@ == final(d).scopes@,
            old(d).extends(*final(d)),
            match parse_group_fields(
                old(d).data@,
                old(d).has_scope(),
                old(d).top_end(),
                old(d).pos as int,
                version,
            ) {
                Ok((f, p)) => r matches Ok(g) && g.links@ == f.0 && g.inspect_children == f.1
                    && final(d).pos == p,
                Err(e) => r matches Err(e2) && e2 == e,
            },
    {
        let mut g = Group { links: Vec::new(), inspect_children: GroupInspectChildrenType::default() };
        g.links = read_reference_array(d)?;
        if version >= 1 {
            let n = d.get_i32(g.inspect_children.to_i32())?;
            g.inspect_children = match GroupInspectChildrenType::from_i32(n) {
                Some(v) => v,
                Option::None => {
                    return Err(DecodeError::UnknownEnumValue);
                },
            };
        }
        Ok(g)
    }
}

/// Read a reference array: the array header, then one raw `u32` per
/// element; a negative or missing count yields no elements.
pub fn read_reference_array(d: &mut Deserializer) -> (r: Result<Vec<u32>, DecodeError>)
    ensures
        old(d).data == final(d).data,
        old(d).scopes@ == final(d).scopes@,
        old(d).extends(*final(d)),
        match crate::reader::collection_header_spec(
            old(d).data@,
            old(d).has_scope(),
            old(d).top_end(),
            old(d).pos as int,
            crate::marks::MARK_ARRAY,
        ) {
            Err(e) => r matches Err(e2) && e2 == e,
            Ok((len, _, p1)) => {
                if len <= 0 {
                    r matches Ok(v) && v@ =~= Seq::<u32>::empty() && final(d).pos == p1
                } else {
                    match crate::reader::references_spec(
                        old(d).data@,
                        old(d).has_scope(),
                        old(d).top_end(),
                        p1,
                        len as nat,
                    ) {
                        Err(e) => r matches Err(e2) && e2 == e,
                        Ok((vals, pe)) => r matches Ok(v) && v@ == vals && final(d).pos == pe,
                    }
                }
            },
        },
{
    let len = d.read_array_start()?;
    let mut refs: Vec<u32> = Vec::new();
    if len <= 0 {
        return Ok(refs);
    }
    let ghost base_pos = d.pos as int;
    let n = len as usize;
    let mut i: usize = 0;
    while i < n
        invariant
            i <= n,
            0 < len,
            n == len as usize,
            d.data == old(d).data,
            d.scopes@ == old(d).scopes@,
            old(d).warnings@.is_prefix_of(d.warnings@),
            refs@.len() == i,
            crate::reader::collection_header_spec(
                old(d).data@,
                old(d).has_scope(),
                old(d).top_end(),
                old(d).pos as int,
                crate::marks::MARK_ARRAY,
            ) matches Ok((len2, m2, p12)) && len2 == len && p12 == base_pos,
            match crate::reader::references_spec(
                d.data@,
                d.has_scope(),
                d.top_end(),
                d.pos as int,
                (n - i) as nat,
            ) {
                Err(e) => crate::reader::references_spec(
                    d.data@,
                    d.has_scope(),
                    d.top_end(),
                    base_pos,
                    n as nat,
                ) == Err::<(Seq<u32>, int), DecodeError>(e),
                Ok((rest, pe)) => crate::reader::references_spec(
                    d.data@,
                    d.has_scope(),
                    d.top_end(),
                    base_pos,
                    n as nat,
                ) == Ok::<(Seq<u32>, int), DecodeError>((refs@ + rest, pe)),
            },
        decreases n - i,
    {
        let ghost old_refs = refs@;
        let ghost spec_rem = crate::reader::references_spec(
            d.data@,
            d.has_scope(),
            d.top_end(),
            d.pos as int,
            (n - i) as nat,
        );
        let v = d.get_reference(0)?;
        refs.push(v);
        i = i + 1;
        proof {
            let s_next = crate::reader::references_spec(
                d.data@,
                d.has_scope(),
                d.top_end(),
                d.pos as int,
                (n - i) as nat,
            );
            match s_next {
                Ok((rest2, pe)) => {
                    assert(spec_rem == Ok::<(Seq<u32>, int), DecodeError>((seq![v] + rest2, pe)));
                    assert(old_refs + (seq![v] + rest2) =~= refs@ + rest2);
                },
                Err(e) => {
                    assert(spec_rem == Err::<(Seq<u32>, int), DecodeError>(e));
                },
            }
        }
    }
    proof {
        assert(refs@ + Seq::<u32>::empty() =~= refs@);
    }
    Ok(refs)
}

} // verus!
