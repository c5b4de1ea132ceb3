//! The decision of the receiving service: which point asks it to exit.
use vstd::prelude::*;
use crate::point::{Point, Value};
use crate::text::{ends_with, spec_ends_with, spec_to_lowercase, to_lowercase};

verus! {

/// Whether `point` asks the receiver to exit: a `String` point whose name,
/// in lowercase, ends with `exit`, or whose value is `exit`.
pub open spec fn spec_is_exit(point: Point) -> bool {
    match point.value {
        Value::String(value) => spec_ends_with(spec_to_lowercase(point.name@), "exit"@) || value@
            == "exit"@,
        _ => false,
    }
}

/// Returns whether a `String` point whose name, in lowercase, is `lowercase_name`
/// and whose value is `value` asks the receiving service to exit.
pub fn exit_by_string(lowercase_name: &str, value: &String) -> (res: bool)
    ensures
        res == (spec_ends_with(lowercase_name@, "exit"@) || value@ == "exit"@),
{
    proof {
        reveal_strlit("exit");
    }
    let exit = String::from_str("exit");
    ends_with(lowercase_name, "exit") || value.eq(&exit)
}

/// Returns whether the received `point` asks the receiving service to exit.
pub fn exit_requested(point: &Point) -> (res: bool)
    ensures
        res == spec_is_exit(*point),
{
    match &point.value {
        Value::String(value) => {
            let name = to_lowercase(point.name.as_str());
            exit_by_string(name.as_str(), value)
        },
        _ => false,
    }
}

} // verus!
