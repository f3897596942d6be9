use vstd::prelude::*;
use vstd::string::StringExecFns;

verus! {

/// Builds the demonstration greeting for a caller-supplied name.
pub fn greet(name: &str) -> (r: String)
    ensures
        r@ == "Hello, "@ + name@ + "! You've been greeted from Rust!"@,
{
    let mut message = String::from_str("Hello, ");
    message.append(name);
    message.append("! You've been greeted from Rust!");
    proof {
        assert(message@ =~= "Hello, "@ + name@ + "! You've been greeted from Rust!"@);
    }
    message
}

/// Accepts a theme colour and hands it back unchanged; the presentation layer
/// applies it. Never fails.
pub fn change_theme_color(color: &str) -> (r: Result<String, String>)
    ensures
        r matches Ok(c) && c@ == color@,
{
    Ok(color.to_owned())
}

} // verus!
