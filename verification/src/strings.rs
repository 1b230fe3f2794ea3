use vstd::prelude::*;

verus! {

/// What a text field of the output record holds: the OS-supplied value when
/// the property was readable, the `"Unknown"` sentinel otherwise.
pub open spec fn spec_default_string(value: Option<Seq<char>>) -> Seq<char> {
    match value {
        Some(s) => s,
        None => "Unknown"@,
    }
}

/// View of an optionally-readable owned string.
pub open spec fn opt_string_view(value: Option<String>) -> Option<Seq<char>> {
    match value {
        Some(s) => Some(s@),
        None => None,
    }
}

/// Replaces an unreadable string property with the `"Unknown"` sentinel;
/// a readable one passes through unchanged.
pub fn convertString(value: Option<String>) -> (r: String)
    ensures
        r@ == spec_default_string(opt_string_view(value)),
        value matches Some(s) ==> r@ == s@,
        value is None ==> r@ == "Unknown"@,
{
    match value {
        Some(s) => s,
        None => String::from_str("Unknown"),
    }
}

} // verus!
