//! The command line: the program's name and the name of the input file.

use vstd::prelude::*;

verus! {

/// How the program is to be called.
pub open spec fn spec_usage() -> Seq<char> {
    "Usage: cargo run -- INPUT_FILENAME"@
}

/// Takes the name of the input file from the command line, which must hold the
/// program's name and that file name and nothing else.
pub fn process_args_impl(args: Vec<String>) -> (result: Result<String, &'static str>)
    ensures
        match result {
            Ok(filename) => args@.len() == 2 && filename == args@[1],
            Err(message) => args@.len() != 2 && message@ == spec_usage(),
        },
{
    let mut args = args;
    if args.len() == 2 {
        // filename
        Ok(args.remove(1))
    } else {
        Err("Usage: cargo run -- INPUT_FILENAME")
    }
}

} // verus!
