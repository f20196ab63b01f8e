use vstd::prelude::*;

verus! {

/// The text that `greet` returns for a name: the name set between a fixed
/// opening and a fixed closing.
pub open spec fn greeting(name: Seq<char>) -> Seq<char> {
    "Hello, "@ + name + "! You've been greeted from Rust!"@
}

/// Formats the greeting for `name`. Any string is accepted, the empty one too.
pub fn greet(name: &str) -> (r: String)
    ensures
        r@ == greeting(name@),
{
    let mut r = String::from_str("Hello, ");
    r.append(name);
    r.append("! You've been greeted from Rust!");
    r
}

/// Greeting a name twice gives the same text both times: the greeting
/// depends on the name alone, and no state is kept between calls.
pub proof fn greet_is_deterministic(first: String, second: String, name: Seq<char>)
    requires
        first@ == greeting(name),
        second@ == greeting(name),
    ensures
        first@ == second@,
{
}

/// The warning reported when the optional environment file could not be
/// loaded, for the reason the loader gave.
pub open spec fn env_warning(reason: Seq<char>) -> Seq<char> {
    "Warning: Could not load .env file: "@ + reason
}

/// Decides what startup reports after trying to load the optional
/// environment file. `failure` holds the loader's reason when it failed.
/// Nothing is reported on success and a warning on failure; startup goes on
/// in both cases, so a missing file is never fatal.
pub fn env_load_report(failure: Option<&str>) -> (r: Option<String>)
    ensures
        r is None <==> failure is None,
        failure matches Some(reason) ==> r matches Some(w) && w@ == env_warning(reason@),
{
    match failure {
        None => None,
        Some(reason) => {
            let mut w = String::from_str("Warning: Could not load .env file: ");
            w.append(reason);
            Some(w)
        },
    }
}

} // verus!
