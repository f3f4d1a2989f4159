//! The library's own form of a JSON document: what the record decoders
//! read from a rendered file. Numbers are held as `i64`; object members
//! keep their key order.

use vstd::prelude::*;
use crate::text::str_eq;

verus! {

#[derive(Debug)]
pub enum JsonValue {
    Null,
    Bool(bool),
    Int(i64),
    Str(String),
    Array(Vec<JsonValue>),
    Object(Vec<(String, JsonValue)>),
}

/// The value of the first member of `fields` named `name`, if any.
pub open spec fn field_of(fields: Seq<(String, JsonValue)>, name: Seq<char>) -> Option<JsonValue>
    decreases fields.len(),
{
    if fields.len() == 0 {
        None
    } else if fields[0].0@ == name {
        Some(fields[0].1)
    } else {
        field_of(fields.drop_first(), name)
    }
}

/// Looks `name` up among `fields`, returning the index of the member whose
/// value `field_of` selects.
pub fn find_field(fields: &Vec<(String, JsonValue)>, name: &str) -> (r: Option<usize>)
    ensures
        match r {
            Some(i) => i < fields@.len() && fields@[i as int].0@ == name@ && field_of(
                fields@,
                name@,
            ) == Some(fields@[i as int].1),
            None => field_of(fields@, name@) is None,
        },
{
    let mut i: usize = 0;
    proof {
        assert(fields@.skip(0) =~= fields@);
    }
    while i < fields.len()
        invariant
            i <= fields@.len(),
            field_of(fields@, name@) == field_of(fields@.skip(i as int), name@),
            forall|j: int| 0 <= j < i ==> fields@[j].0@ != name@,
        decreases fields@.len() - i,
    {
        proof {
            let suf = fields@.skip(i as int);
            assert(suf[0] == fields@[i as int]);
            assert(suf.drop_first() =~= fields@.skip(i as int + 1));
        }
        let pair = &fields[i];
        if str_eq(pair.0.as_str(), name) {
            return Some(i);
        }
        i += 1;
    }
    proof {
        assert(fields@.skip(i as int) =~= Seq::<(String, JsonValue)>::empty());
    }
    None
}

} // verus!
