use vstd::prelude::*;

verus! {

/// The fixed body of a successful liveness probe.
pub fn health_body() -> (r: String)
    ensures
        r@ == "OK"@,
{
    String::from_str("OK")
}

/// The fixed relative path of the temporary file that carries the submitted
/// source text to the external tool. Every invocation uses this one path.
pub fn temp_file_path() -> (r: String)
    ensures
        r@ == "temp.qz"@,
{
    String::from_str("temp.qz")
}

/// The fixed command name of the external tool, resolved through the
/// process environment's executable search path.
pub fn tool_command() -> (r: String)
    ensures
        r@ == "quetzal"@,
{
    String::from_str("quetzal")
}

} // verus!
