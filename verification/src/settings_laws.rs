//! What the settings come to, said of what the variables hold.
use crate::settings::{
    env_flag, env_or, local_source, nonempty, port, runtime_dir, skip_update, tools_dir, BaseDir,
    Location,
};
use crate::text::parse_u16;
use vstd::prelude::*;

verus! {

/// A value counts as it stands wherever it holds anything, and as unset where it
/// does not.
pub proof fn only_the_empty_value_is_unset(value: Option<String>, r: Option<String>)
    requires
        call_ensures(nonempty, (value,), r) || call_ensures(local_source, (value,), r),
    ensures
        value matches Some(text) ==> text@.len() > 0 ==> r == value,
        value matches Some(text) ==> text@.len() == 0 ==> r is None,
        value is None ==> r is None,
{
}

/// A default is used exactly where the variable is unset or empty.
pub proof fn the_default_stands_in(value: Option<String>, default: &str, r: String)
    requires
        call_ensures(env_or, (value, default), r),
    ensures
        value matches Some(text) ==> text@.len() > 0 ==> r@ == text@,
        value matches Some(text) ==> text@.len() == 0 ==> r@ == default@,
        value is None ==> r@ == default@,
{
}

/// Nothing but the one character `1` switches a flag on, and updates off.
pub proof fn only_one_switches(value: Option<String>, r: bool)
    requires
        call_ensures(env_flag, (value,), r) || call_ensures(skip_update, (value,), r),
    ensures
        value matches Some(text) ==> r == (text@.len() == 1 && text@[0] == '1'),
        value is None ==> !r,
{
    reveal_strlit("1");
    if let Some(text) = value {
        if text@.len() == 1 && text@[0] == '1' {
            assert(text@ =~= "1"@);
        }
    }
}

/// The port is the number that the variable holds, where it holds one, and 3080
/// everywhere else.
pub proof fn the_port_is_what_is_set(value: Option<String>, r: u16, text: &str, n: Option<u16>)
    requires
        call_ensures(port, (value,), r),
        call_ensures(parse_u16, (text,), n),
        value matches Some(set) ==> set@ == text@,
    ensures
        value is None ==> r == 3080,
        value is Some ==> r == (match n {
            Some(number) => number,
            None => 3080,
        }),
{
}

/// The digits of a port set it.
pub proof fn the_digits_of_a_port_set_it(value: String, r: u16, wanted: u16)
    requires
        call_ensures(port, (Some(value),), r),
        value@ == crate::text::decimal(wanted as nat),
    ensures
        r == wanted,
{
    crate::text::number_reads_decimal(wanted as nat);
    crate::text::decimal_digits(wanted as nat);
    crate::text_laws::decimal_grows_by_digits(wanted as nat);
}

/// The runtime lies where the user put it, and below the application data, or
/// the temporary files, only where they put it nowhere.
pub proof fn the_runtime_lies(value: Option<String>, known: bool, r: Location)
    requires
        call_ensures(runtime_dir, (value, known), r),
    ensures
        value matches Some(path) ==> path@.len() > 0 ==> r == Location::Chosen(path),
        value is None || value->0@.len() == 0 ==> (r matches Location::Below { base, parts }
            && parts.deep_view() == seq!["DeepSeekHarness"@, "runtime"@] && (known ==> base
            == BaseDir::LocalAppData) && (!known ==> base == BaseDir::Temporary)),
{
}

/// The tools lie where the user put them, and beside the program, or below the
/// temporary files, only where they put them nowhere.
pub proof fn the_tools_lie(value: Option<String>, known: bool, r: Location)
    requires
        call_ensures(tools_dir, (value, known), r),
    ensures
        value matches Some(path) ==> path@.len() > 0 ==> r == Location::Chosen(path),
        value is None || value->0@.len() == 0 ==> (r matches Location::Below { base, parts }
            && parts.deep_view() == seq!["tools"@] && (known ==> base == BaseDir::Program) && (!known
            ==> base == BaseDir::Temporary)),
{
}

} // verus!
