//! Reading the members of a JSON object, held as (name, raw value text) pairs.

use vstd::prelude::*;
use crate::outside::{
    opt_string, json_opt_string, opt_i64, json_opt_i64, opt_strings, json_opt_strings, pairs_view,
};
use crate::types::strings_view;

verus! {

/// The raw text of member `name`: the last member of that name.
pub open spec fn member(ms: Seq<(Seq<char>, Seq<char>)>, name: Seq<char>) -> Option<Seq<char>>
    decreases ms.len(),
{
    if ms.len() == 0 {
        None
    } else if ms.last().0 == name {
        Some(ms.last().1)
    } else {
        member(ms.drop_last(), name)
    }
}

/// Member `name` read as a string; `None` when it is absent or not a string.
pub open spec fn str_member(ms: Seq<(Seq<char>, Seq<char>)>, name: Seq<char>) -> Option<Seq<char>> {
    match member(ms, name) {
        Some(raw) => match json_opt_string(raw) {
            Some(Some(s)) => Some(s),
            _ => None,
        },
        None => None,
    }
}

/// Member `name` read as an optional string: `Some(None)` when absent or
/// `null`, `None` when it holds anything else that is not a string.
pub open spec fn opt_str_member(ms: Seq<(Seq<char>, Seq<char>)>, name: Seq<char>) -> Option<Option<Seq<char>>> {
    match member(ms, name) {
        Some(raw) => json_opt_string(raw),
        None => Some(None),
    }
}

/// Member `name` read as an optional 64-bit integer, in the same way.
pub open spec fn opt_int_member(ms: Seq<(Seq<char>, Seq<char>)>, name: Seq<char>) -> Option<Option<i64>> {
    match member(ms, name) {
        Some(raw) => json_opt_i64(raw),
        None => Some(None),
    }
}

/// An audience value: one string or a list of strings.
pub enum AudValue {
    One(Seq<char>),
    Many(Seq<Seq<char>>),
}

/// Member `name` read as an optional audience: a string, a list of strings,
/// absent or `null`; `None` when it holds anything else.
pub open spec fn opt_aud_member(ms: Seq<(Seq<char>, Seq<char>)>, name: Seq<char>) -> Option<Option<AudValue>> {
    match member(ms, name) {
        Some(raw) => match json_opt_string(raw) {
            Some(Some(s)) => Some(Some(AudValue::One(s))),
            Some(None) => Some(None),
            None => match json_opt_strings(raw) {
                Some(Some(v)) => Some(Some(AudValue::Many(v))),
                Some(None) => Some(None),
                None => None,
            },
        },
        None => Some(None),
    }
}

/// The raw text of member `name`.
pub fn member_text(ms: &Vec<(String, String)>, name: &String) -> (r: Option<String>)
    ensures
        r matches Some(t) ==> member(pairs_view(ms@), name@) == Some(t@),
        r is None ==> member(pairs_view(ms@), name@) is None,
{
    let ghost v = pairs_view(ms@);
    let mut found: Option<String> = None;
    let mut i: usize = 0;
    assert(v.subrange(0, 0) =~= Seq::<(Seq<char>, Seq<char>)>::empty());
    while i < ms.len()
        invariant
            v == pairs_view(ms@),
            i <= ms@.len(),
            found matches Some(t) ==> member(v.subrange(0, i as int), name@) == Some(t@),
            found is None ==> member(v.subrange(0, i as int), name@) is None,
        decreases ms@.len() - i,
    {
        assert(v.subrange(0, i + 1).drop_last() =~= v.subrange(0, i as int));
        if ms[i].0.eq(name) {
            found = Some(ms[i].1.clone());
        }
        i = i + 1;
    }
    assert(v.subrange(0, ms@.len() as int) =~= v);
    found
}

/// Member `name` read as a string.
pub fn str_member_of(ms: &Vec<(String, String)>, name: &String) -> (r: Option<String>)
    ensures
        r matches Some(t) ==> str_member(pairs_view(ms@), name@) == Some(t@),
        r is None ==> str_member(pairs_view(ms@), name@) is None,
{
    match member_text(ms, name) {
        Some(raw) => match opt_string(raw.as_str()) {
            Some(Some(s)) => Some(s),
            _ => None,
        },
        None => None,
    }
}

/// Member `name` read as an optional string.
pub fn opt_str_member_of(ms: &Vec<(String, String)>, name: &String) -> (r: Option<Option<String>>)
    ensures
        r matches Some(Some(t)) ==> opt_str_member(pairs_view(ms@), name@) == Some(Some(t@)),
        r matches Some(None) ==> opt_str_member(pairs_view(ms@), name@) == Some(None::<Seq<char>>),
        r is None ==> opt_str_member(pairs_view(ms@), name@) is None,
{
    match member_text(ms, name) {
        Some(raw) => opt_string(raw.as_str()),
        None => Some(None),
    }
}

/// Member `name` read as an optional 64-bit integer.
pub fn opt_int_member_of(ms: &Vec<(String, String)>, name: &String) -> (r: Option<Option<i64>>)
    ensures
        r == opt_int_member(pairs_view(ms@), name@),
{
    match member_text(ms, name) {
        Some(raw) => opt_i64(raw.as_str()),
        None => Some(None),
    }
}

/// The audience value of a claim, as the library holds it.
pub open spec fn aud_value(a: crate::types::Aud) -> AudValue {
    match a {
        crate::types::Aud::One(s) => AudValue::One(s@),
        crate::types::Aud::Many(v) => AudValue::Many(strings_view(v@)),
    }
}

/// Member `name` read as an optional audience.
pub fn opt_aud_member_of(ms: &Vec<(String, String)>, name: &String) -> (r: Option<Option<crate::types::Aud>>)
    ensures
        r matches Some(Some(a)) ==> opt_aud_member(pairs_view(ms@), name@) == Some(Some(aud_value(a))),
        r matches Some(None) ==> opt_aud_member(pairs_view(ms@), name@) == Some(None::<AudValue>),
        r is None ==> opt_aud_member(pairs_view(ms@), name@) is None,
{
    match member_text(ms, name) {
        Some(raw) => match opt_string(raw.as_str()) {
            Some(Some(s)) => Some(Some(crate::types::Aud::One(s))),
            Some(None) => Some(None),
            None => match opt_strings(raw.as_str()) {
                Some(Some(v)) => Some(Some(crate::types::Aud::Many(v))),
                Some(None) => Some(None),
                None => None,
            },
        },
        None => Some(None),
    }
}

} // verus!
