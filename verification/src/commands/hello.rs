use vstd::prelude::*;
use vstd::string::*;
use crate::text::{joined, joined3, no_texts, push_text, text_views};

verus! {

/// The lines of a greeting of `name`.
pub open spec fn greeting(name: Seq<char>, verbose: bool) -> Seq<Seq<char>> {
    let hello = "Hello, "@ + name + "! 👋"@;
    if verbose {
        seq![
            "Executing hello command with name: "@ + name,
            hello,
            "Hello command completed successfully"@,
        ]
    } else {
        seq![hello]
    }
}

/// Greets `name`; with `verbose`, says what it does before and after.
pub fn run(name: &str, verbose: bool) -> (lines: Vec<String>)
    ensures
        text_views(lines@) == greeting(name@, verbose),
{
    let mut lines = no_texts();
    if verbose {
        push_text(&mut lines, joined("Executing hello command with name: ", name));
    }
    push_text(&mut lines, joined3("Hello, ", name, "! 👋"));
    if verbose {
        push_text(&mut lines, String::from_str("Hello command completed successfully"));
    }
    assert(text_views(lines@) =~= greeting(name@, verbose));
    lines
}

} // verus!
