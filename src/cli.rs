//! What a command-line invocation asks for.
use vstd::prelude::*;

verus! {

/// The four things a run of the program can do.
#[derive(Debug, Clone, Copy, PartialEq, Eq, Structural)]
pub enum Mode {
    /// No arguments were given: print a short usage hint.
    Usage,
    /// The `server` subcommand: serve projections over HTTP.
    Server,
    /// Print the projection as JSON.
    Json,
    /// Draw the projection as a line chart.
    Chart,
}

/// What an invocation with `arg_count` words on its command line (the
/// program's own name included) asks for, given whether the `server`
/// subcommand and the `--json` flag are present.
pub fn select_mode(arg_count: usize, server: bool, json: bool) -> (r: Mode)
    ensures
        arg_count <= 1 ==> r == Mode::Usage,
        arg_count > 1 && server ==> r == Mode::Server,
        arg_count > 1 && !server && json ==> r == Mode::Json,
        arg_count > 1 && !server && !json ==> r == Mode::Chart,
{
    if arg_count <= 1 {
        Mode::Usage
    } else if server {
        Mode::Server
    } else if json {
        Mode::Json
    } else {
        Mode::Chart
    }
}

} // verus!
