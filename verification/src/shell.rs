//! Preparing the final process replacement.
//!
//! The boot ends by replacing the process image with an interactive shell.
//! The shell receives the original invocation arguments with the program
//! name rewritten to the shell's own name, and an empty environment. The
//! kernel's exec interface takes NUL-terminated strings, so an argument
//! with an interior NUL cannot be passed and is replaced by the empty
//! string.

use vstd::prelude::*;
use vstd::string::StrSliceExecFns;
use vstd::string::StringExecFns;

verus! {

/// The shell binary the process is replaced with.
pub open spec fn shell_path_spec() -> Seq<char> {
    "/bin/zsh"@
}

/// The name the shell sees as its own first argument.
pub open spec fn shell_name() -> Seq<char> {
    "zsh"@
}

/// The path of the shell binary.
pub fn shell_path() -> (r: &'static str)
    ensures
        r@ == shell_path_spec(),
{
    "/bin/zsh"
}

/// An argument as it can be handed to the kernel: unchanged if it has no
/// interior NUL, the empty string otherwise.
pub open spec fn spec_sanitize(a: Seq<char>) -> Seq<char> {
    if exists|i: int| 0 <= i < a.len() && a[i] == '\0' {
        Seq::empty()
    } else {
        a
    }
}

/// Replace an argument holding a NUL by the empty string.
pub fn sanitize_arg(a: &str) -> (r: String)
    ensures
        r@ == spec_sanitize(a@),
{
    let n: usize = a.unicode_len();
    let mut i: usize = 0;
    while i < n
        invariant
            n == a@.len(),
            0 <= i <= n,
            forall|j: int| 0 <= j < i ==> a@[j] != '\0',
        decreases n - i,
    {
        if a.get_char(i) == '\0' {
            return String::new();
        }
        i = i + 1;
    }
    String::from_str(a)
}

/// The argument vector handed to the shell: the invocation arguments with
/// the program name replaced by the shell's name, every argument made safe
/// for the kernel's exec interface.
pub fn shell_argv(args: &Vec<String>) -> (r: Vec<String>)
    requires
        args@.len() >= 1,
    ensures
        r.deep_view().len() == args.deep_view().len(),
        r.deep_view()[0] == shell_name(),
        forall|i: int|
            1 <= i < args.deep_view().len() ==> r.deep_view()[i] == spec_sanitize(
                args.deep_view()[i],
            ),
{
    let mut r: Vec<String> = Vec::new();
    r.push(String::from_str("zsh"));
    let mut i: usize = 1;
    while i < args.len()
        invariant
            1 <= i <= args@.len(),
            r@.len() == i,
            r.deep_view()[0] == shell_name(),
            forall|j: int| 1 <= j < i ==> r.deep_view()[j] == spec_sanitize(args.deep_view()[j]),
        decreases args@.len() - i,
    {
        let s = sanitize_arg(args[i].as_str());
        let ghost pre = r.deep_view();
        r.push(s);
        proof {
            assert(r.deep_view() =~= pre.push(s@));
        }
        i = i + 1;
    }
    r
}

} // verus!
