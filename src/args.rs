//! Values read from the command line, with the defaults that stand in for
//! missing or unreadable ones.
use vstd::prelude::*;
use crate::numeral::{parse_i32, parse_u16, u16_of, i32_of};

verus! {

#[verifier::external_type_specification]
#[verifier::external_body]
pub struct ExArgMatches(clap::ArgMatches);

/// The port the server listens on when none is given.
pub const DEFAULT_PORT: u16 = 8080;

/// The number of years projected on the command line when none is given.
pub const DEFAULT_CLI_YEARS: i32 = 0;

/// The text of an optional argument, as characters.
pub open spec fn text_of(arg: Option<&str>) -> Option<Seq<char>> {
    match arg {
        Some(s) => Some(s@),
        None => None,
    }
}

/// The port that an optional `--port` argument selects.
pub open spec fn port_value(arg: Option<Seq<char>>) -> u16 {
    match arg {
        Some(s) => match u16_of(s) {
            Some(p) => p,
            None => DEFAULT_PORT,
        },
        None => DEFAULT_PORT,
    }
}

/// The number of years that an optional `--years` argument selects.
pub open spec fn years_value(arg: Option<Seq<char>>) -> i32 {
    match arg {
        Some(s) => match i32_of(s) {
            Some(y) => y,
            None => DEFAULT_CLI_YEARS,
        },
        None => DEFAULT_CLI_YEARS,
    }
}

/// What `m` holds as text: for each argument that took text values and was
/// given at least one, its first value.
pub uninterp spec fn arg_texts(m: clap::ArgMatches) -> Map<Seq<char>, Seq<char>>;

/// The first text value given for the argument `id` in `m`, if any.
pub open spec fn arg_text(m: clap::ArgMatches, id: Seq<char>) -> Option<Seq<char>> {
    if arg_texts(m).contains_key(id) {
        Some(arg_texts(m)[id])
    } else {
        None
    }
}

/// Relies on `clap::ArgMatches::try_get_one::<String>`: the first value given
/// for the argument `id`, if any. Its error (an undefined argument or one of
/// another type) reads as no value.
#[verifier::external_body]
fn arg_value(matches: &clap::ArgMatches, id: &str) -> (r: Option<String>)
    ensures
        r is Some <==> arg_texts(*matches).contains_key(id@),
        r matches Some(s) ==> s@ == arg_texts(*matches)[id@],
{
    matches.try_get_one::<String>(id).ok().flatten().cloned()
}

/// The port selected by an optional argument: its value where it reads as a
/// `u16`, the default port otherwise.
pub fn port_from_arg(arg: Option<&str>) -> (r: u16)
    ensures
        r == port_value(text_of(arg)),
{
    match arg {
        Some(s) => match parse_u16(s) {
            Some(p) => p,
            None => DEFAULT_PORT,
        },
        None => DEFAULT_PORT,
    }
}

/// The number of years selected by an optional argument: its value where it
/// reads as an `i32`, the command line's default otherwise.
pub fn years_from_arg(arg: Option<&str>) -> (r: i32)
    ensures
        r == years_value(text_of(arg)),
{
    match arg {
        Some(s) => match parse_i32(s) {
            Some(y) => y,
            None => DEFAULT_CLI_YEARS,
        },
        None => DEFAULT_CLI_YEARS,
    }
}

/// The port given by the `port` argument of `matches`, or the default port.
pub fn get_port(matches: &clap::ArgMatches) -> (r: u16)
    ensures
        r == port_value(arg_text(*matches, "port"@)),
{
    let value = arg_value(matches, "port");
    match &value {
        Some(s) => port_from_arg(Some(s.as_str())),
        None => port_from_arg(None),
    }
}

/// The number of years given by the `years` argument of `matches`, or the
/// command line's default.
pub fn get_years(matches: &clap::ArgMatches) -> (r: i32)
    ensures
        r == years_value(arg_text(*matches, "years"@)),
{
    let value = arg_value(matches, "years");
    match &value {
        Some(s) => years_from_arg(Some(s.as_str())),
        None => years_from_arg(None),
    }
}

} // verus!
