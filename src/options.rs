//! The device's configurable options and the constraints on their values.
use vstd::prelude::*;
use crate::json::{
    Json, JsonNumber, Decode, field, field_as, decode_field, get_field, list_of, list_reads,
    decode_list,
};

verus! {

/// A rule on the legal values of an option, tagged by its `constraint` member.
#[derive(Debug)]
pub enum Constraint<T> {
    Values { value: Vec<T> },
    Min { value: T },
    Max { value: T },
}

/// `c` is what `j` reads as: tag `values` with an array `value`, or tag
/// `min` / `max` with a single `value`.
pub open spec fn is_constraint<T: Decode>(j: Json, c: Constraint<T>) -> bool {
    match field_as::<String>(j, "constraint"@) {
        Some(tag) => if tag@ == "values"@ {
            c matches Constraint::Values { value } && field(j, "value"@) matches Some(v) && list_of(
                v,
                value@,
            )
        } else if tag@ == "min"@ {
            c matches Constraint::Min { value } && field_as::<T>(j, "value"@) == Some(value)
        } else if tag@ == "max"@ {
            c matches Constraint::Max { value } && field_as::<T>(j, "value"@) == Some(value)
        } else {
            false
        },
        None => false,
    }
}

/// `j` reads as some constraint over `T`.
pub open spec fn constraint_reads<T: Decode>(j: Json) -> bool {
    match field_as::<String>(j, "constraint"@) {
        Some(tag) => if tag@ == "values"@ {
            field(j, "value"@) matches Some(v) && list_reads::<T>(v)
        } else if tag@ == "min"@ || tag@ == "max"@ {
            field_as::<T>(j, "value"@) is Some
        } else {
            false
        },
        None => false,
    }
}

/// Reads one constraint; `None` where `j` is none.
pub fn decode_constraint<T: Decode>(j: &Json) -> (r: Option<Constraint<T>>)
    ensures
        r is Some <==> constraint_reads::<T>(*j),
        r matches Some(c) ==> is_constraint(*j, c),
{
    let tag: Option<String> = decode_field(j, "constraint");
    match tag {
        Some(tag) => {
            if tag == String::from_str("values") {
                match get_field(j, "value") {
                    Some(v) => match decode_list(v) {
                        Some(value) => Some(Constraint::Values { value }),
                        None => None,
                    },
                    None => None,
                }
            } else if tag == String::from_str("min") {
                match decode_field(j, "value") {
                    Some(value) => Some(Constraint::Min { value }),
                    None => None,
                }
            } else if tag == String::from_str("max") {
                match decode_field(j, "value") {
                    Some(value) => Some(Constraint::Max { value }),
                    None => None,
                }
            } else {
                None
            }
        },
        None => None,
    }
}

/// `cs` is the array `j`, each element read as a constraint over `T`.
pub open spec fn constraints_of<T: Decode>(j: Json, cs: Seq<Constraint<T>>) -> bool {
    match j {
        Json::Array(a) => a@.len() == cs.len() && forall|i: int|
            0 <= i < cs.len() ==> is_constraint(#[trigger] a@[i], cs[i]),
        _ => false,
    }
}

pub open spec fn constraints_read<T: Decode>(j: Json) -> bool {
    match j {
        Json::Array(a) => forall|i: int| 0 <= i < a@.len() ==> #[trigger] constraint_reads::<T>(a@[i]),
        _ => false,
    }
}

/// Reads an array of constraints over `T`.
pub fn decode_constraints<T: Decode>(j: &Json) -> (r: Option<Vec<Constraint<T>>>)
    ensures
        r is Some <==> constraints_read::<T>(*j),
        r matches Some(cs) ==> constraints_of(*j, cs@),
{
    match j {
        Json::Array(a) => {
            let mut out: Vec<Constraint<T>> = Vec::new();
            let mut i: usize = 0;
            while i < a.len()
                invariant
                    *j == Json::Array(*a),
                    i <= a@.len(),
                    out@.len() == i,
                    forall|k: int| 0 <= k < i ==> is_constraint(#[trigger] a@[k], out@[k]),
                    forall|k: int| 0 <= k < i ==> constraint_reads::<T>(#[trigger] a@[k]),
                decreases a@.len() - i,
            {
                match decode_constraint(&a[i]) {
                    Some(c) => {
                        out.push(c);
                    },
                    None => {
                        assert(!constraints_read::<T>(*j)) by {
                            if constraints_read::<T>(*j) {
                                assert(match Json::Array(*a) {
                                    Json::Array(b) => b@ == a@,
                                    _ => false,
                                });
                                assert(constraint_reads::<T>(a@[i as int]));
                            }
                        }
                        return None;
                    },
                }
                i = i + 1;
            }
            Some(out)
        },
        _ => None,
    }
}

/// A configurable setting, tagged by its `type` member. The bounds of a
/// `Number` option arrive as text and are kept as text.
#[derive(Debug)]
pub enum CameraOption {
    Boolean { name: String, constraints: Vec<Constraint<bool>> },
    Enumeration { name: String, constraints: Vec<Constraint<String>> },
    Number { name: String, constraints: Vec<Constraint<String>> },
    Integer { name: String, constraints: Vec<Constraint<u64>> },
}

/// `o` is what `j` reads as: the `type` tag picks the variant and with it
/// the type of the constraint values.
pub open spec fn is_option(j: Json, o: CameraOption) -> bool {
    match (field_as::<String>(j, "type"@), field_as::<String>(j, "name"@), field(j, "constraints"@)) {
        (Some(tag), Some(n), Some(cj)) => if tag@ == "Boolean"@ {
            o matches CameraOption::Boolean { name, constraints } && name == n && constraints_of(
                cj,
                constraints@,
            )
        } else if tag@ == "Enumeration"@ {
            o matches CameraOption::Enumeration { name, constraints } && name == n
                && constraints_of(cj, constraints@)
        } else if tag@ == "Number"@ {
            o matches CameraOption::Number { name, constraints } && name == n && constraints_of(
                cj,
                constraints@,
            )
        } else if tag@ == "Integer"@ {
            o matches CameraOption::Integer { name, constraints } && name == n && constraints_of(
                cj,
                constraints@,
            )
        } else {
            false
        },
        _ => false,
    }
}

/// `j` reads as some option.
pub open spec fn option_reads(j: Json) -> bool {
    match (field_as::<String>(j, "type"@), field_as::<String>(j, "name"@), field(j, "constraints"@)) {
        (Some(tag), Some(_), Some(cj)) => if tag@ == "Boolean"@ {
            constraints_read::<bool>(cj)
        } else if tag@ == "Enumeration"@ || tag@ == "Number"@ {
            constraints_read::<String>(cj)
        } else if tag@ == "Integer"@ {
            constraints_read::<u64>(cj)
        } else {
            false
        },
        _ => false,
    }
}

/// Reads one option; `None` where the tag is unknown or a member does not
/// read as the tag asks.
pub fn decode_option(j: &Json) -> (r: Option<CameraOption>)
    ensures
        r is Some <==> option_reads(*j),
        r matches Some(o) ==> is_option(*j, o),
{
    let tag: Option<String> = decode_field(j, "type");
    let name: Option<String> = decode_field(j, "name");
    match (tag, name, get_field(j, "constraints")) {
        (Some(tag), Some(name), Some(cj)) => {
            if tag == String::from_str("Boolean") {
                match decode_constraints(cj) {
                    Some(constraints) => Some(CameraOption::Boolean { name, constraints }),
                    None => None,
                }
            } else if tag == String::from_str("Enumeration") {
                match decode_constraints(cj) {
                    Some(constraints) => Some(CameraOption::Enumeration { name, constraints }),
                    None => None,
                }
            } else if tag == String::from_str("Number") {
                match decode_constraints(cj) {
                    Some(constraints) => Some(CameraOption::Number { name, constraints }),
                    None => None,
                }
            } else if tag == String::from_str("Integer") {
                match decode_constraints(cj) {
                    Some(constraints) => Some(CameraOption::Integer { name, constraints }),
                    None => None,
                }
            } else {
                None
            }
        },
        _ => None,
    }
}

/// The reply to `get_option_list`.
#[derive(Debug)]
pub struct ResponseGetOptionList {
    pub options: Vec<CameraOption>,
}

/// `r` is what `j` reads as: an `options` array, each element an option.
pub open spec fn is_option_list(j: Json, r: ResponseGetOptionList) -> bool {
    match field(j, "options"@) {
        Some(Json::Array(a)) => a@.len() == r.options@.len() && forall|i: int|
            0 <= i < a@.len() ==> is_option(#[trigger] a@[i], r.options@[i]),
        _ => false,
    }
}

pub open spec fn option_list_reads(j: Json) -> bool {
    match field(j, "options"@) {
        Some(Json::Array(a)) => forall|i: int| 0 <= i < a@.len() ==> #[trigger] option_reads(a@[i]),
        _ => false,
    }
}

/// Reads the reply to `get_option_list`.
pub fn decode_option_list(j: &Json) -> (r: Option<ResponseGetOptionList>)
    ensures
        r is Some <==> option_list_reads(*j),
        r matches Some(l) ==> is_option_list(*j, l),
{
    match get_field(j, "options") {
        Some(Json::Array(a)) => {
            let mut options: Vec<CameraOption> = Vec::new();
            let mut i: usize = 0;
            while i < a.len()
                invariant
                    field(*j, "options"@) == Some(Json::Array(*a)),
                    i <= a@.len(),
                    options@.len() == i,
                    forall|k: int| 0 <= k < i ==> is_option(#[trigger] a@[k], options@[k]),
                    forall|k: int| 0 <= k < i ==> option_reads(#[trigger] a@[k]),
                decreases a@.len() - i,
            {
                match decode_option(&a[i]) {
                    Some(o) => {
                        options.push(o);
                    },
                    None => {
                        assert(!option_list_reads(*j)) by {
                            if option_list_reads(*j) {
                                assert(match Json::Array(*a) {
                                    Json::Array(b) => b@ == a@,
                                    _ => false,
                                });
                                assert(option_reads(a@[i as int]));
                            }
                        }
                        return None;
                    },
                }
                i = i + 1;
            }
            Some(ResponseGetOptionList { options })
        },
        _ => None,
    }
}

/// The current value of one option. The wire gives no tag: a string reads
/// as `String`, else a number as `Number`, else a boolean as `Bool`.
#[derive(Debug)]
pub enum StringOrNumber {
    String(String),
    Number(JsonNumber),
    Bool(bool),
}

impl Decode for StringOrNumber {
    open spec fn decoded(j: Json) -> Option<StringOrNumber> {
        match j {
            Json::Str(s) => Some(StringOrNumber::String(s)),
            Json::Number(n) => Some(StringOrNumber::Number(n)),
            Json::Bool(b) => Some(StringOrNumber::Bool(b)),
            _ => None,
        }
    }

    fn decode(j: &Json) -> (r: Option<StringOrNumber>) {
        let s: Option<String> = Decode::decode(j);
        if let Some(s) = s {
            return Some(StringOrNumber::String(s));
        }
        let n: Option<JsonNumber> = Decode::decode(j);
        if let Some(n) = n {
            return Some(StringOrNumber::Number(n));
        }
        let b: Option<bool> = Decode::decode(j);
        match b {
            Some(b) => Some(StringOrNumber::Bool(b)),
            None => None,
        }
    }
}

/// The reply to `get_option`.
#[derive(Debug)]
pub struct ResponseGetOption {
    pub name: String,
    pub value: StringOrNumber,
}

impl Decode for ResponseGetOption {
    open spec fn decoded(j: Json) -> Option<ResponseGetOption> {
        match (field_as::<String>(j, "name"@), field_as::<StringOrNumber>(j, "value"@)) {
            (Some(name), Some(value)) => Some(ResponseGetOption { name, value }),
            _ => None,
        }
    }

    fn decode(j: &Json) -> (r: Option<ResponseGetOption>) {
        match (decode_field(j, "name"), decode_field(j, "value")) {
            (Some(name), Some(value)) => Some(ResponseGetOption { name, value }),
            _ => None,
        }
    }
}

} // verus!
