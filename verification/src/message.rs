//! The startup message: the responder's arguments, rendered once as text.

use vstd::prelude::*;
use vstd::slice::slice_subrange;

verus! {

/// The text of each string of a list, in the list's order.
pub open spec fn texts(strings: Seq<String>) -> Seq<Seq<char>> {
    strings.map_values(|s: String| s@)
}

/// The arguments that a process was given after its program name, out of
/// everything it was invoked with. An invocation that carries not even a
/// program name has none.
pub open spec fn arguments(invocation: Seq<Seq<char>>) -> Seq<Seq<char>> {
    if invocation.len() == 0 {
        invocation
    } else {
        invocation.skip(1)
    }
}

/// The text that `std`'s `Debug` formatting writes for a slice of strings
/// with these texts.
///
/// Nothing is stated of it here but that it depends on the texts alone.
pub uninterp spec fn debug_rendering(items: Seq<Seq<char>>) -> Seq<char>;

/// The startup message of a process invoked with `invocation`: the rendering
/// of the whole list of its arguments, not only of the first.
pub open spec fn startup_text(invocation: Seq<Seq<char>>) -> Seq<char> {
    debug_rendering(arguments(invocation))
}

/// Formats a slice of strings with `std`'s `format!("{:?}", ..)`, which runs
/// the `Debug` implementation of `[String]`.
///
/// Trusted, not proved: the contract gives the text that comes back its
/// name, as a function of the strings' texts and of nothing else, and says
/// no more of it.
#[verifier::external_body]
fn render_list(items: &[String]) -> (rendered: String)
    ensures
        rendered@ == debug_rendering(texts(items@)),
{
    format!("{:?}", items)
}

/// Captures the startup message from everything the process was invoked
/// with, program name first.
///
/// No argument is validated or left out: every one that follows the program
/// name is rendered, and with none the message is that of the empty list.
pub fn startup_message(invocation: &Vec<String>) -> (message: String)
    ensures
        message@ == startup_text(texts(invocation@)),
        invocation@.len() <= 1 ==> message@ == debug_rendering(Seq::empty()),
{
    let all = invocation.as_slice();
    let rest = if all.len() == 0 {
        all
    } else {
        slice_subrange(all, 1, all.len())
    };
    proof {
        assert(texts(rest@) =~= arguments(texts(invocation@)));
        if invocation@.len() <= 1 {
            assert(texts(rest@) =~= Seq::<Seq<char>>::empty());
        }
    }
    render_list(rest)
}

} // verus!
