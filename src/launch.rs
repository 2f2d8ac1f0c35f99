//! How the supervisor finds and invokes the display program.

use vstd::prelude::*;
use vstd::string::StringExecFns;
use crate::config::GuiArgs;
use crate::text::{decimal, decimal_string, same_text};

verus! {

/// The arguments that hand display settings to the display program:
/// `-w <seconds>`, then `-t` when the window stays on top, then
/// `-r <text>` when there is reminder text.
pub open spec fn launch_args(g: GuiArgs) -> Seq<Seq<char>> {
    seq![seq!['-', 'w'], decimal(g.wait_seconds as nat)] + (if g.top_enable {
        seq![seq!['-', 't']]
    } else {
        Seq::empty()
    }) + match g.remind {
        Some(t) => seq![seq!['-', 'r'], t@],
        None => Seq::empty(),
    }
}

/// The characters of each string in a list.
pub open spec fn strings_view(v: Seq<String>) -> Seq<Seq<char>> {
    v.map_values(|s: String| s@)
}

/// The file name of the display program on a platform, where the program
/// supports that platform.
pub open spec fn display_name_for(os: Seq<char>) -> Option<Seq<char>> {
    if os == seq!['l', 'i', 'n', 'u', 'x'] {
        Some(seq!['m', 'a', 'i', 'n'])
    } else if os == seq!['w', 'i', 'n', 'd', 'o', 'w', 's'] {
        Some(seq!['m', 'a', 'i', 'n', '.', 'e', 'x', 'e'])
    } else {
        None
    }
}

/// The argument list for the display program, in the order
/// `-w <seconds> [-t] [-r <text>]`.
pub fn display_args(args: &GuiArgs) -> (r: Vec<String>)
    ensures
        strings_view(r@) == launch_args(*args),
{
    let mut v: Vec<String> = Vec::new();
    v.push(String::from_str("-w"));
    v.push(decimal_string(args.wait_seconds));
    if args.top_enable {
        v.push(String::from_str("-t"));
    }
    match &args.remind {
        Some(t) => {
            v.push(String::from_str("-r"));
            v.push(t.clone());
        },
        None => {},
    }
    proof {
        reveal_strlit("-w");
        reveal_strlit("-t");
        reveal_strlit("-r");
        assert("-w"@ =~= seq!['-', 'w']);
        assert("-t"@ =~= seq!['-', 't']);
        assert("-r"@ =~= seq!['-', 'r']);
    }
    assert(strings_view(v@) =~= launch_args(*args));
    v
}

/// The file name of the display program for the platform named `os` (as
/// Rust names it: `"linux"`, `"windows"`), or `None` where the platform is
/// not supported.
pub fn display_file_name(os: &str) -> (r: Option<String>)
    ensures
        r matches Some(s) ==> display_name_for(os@) == Some(s@),
        r is None ==> display_name_for(os@) is None,
{
    proof {
        reveal_strlit("linux");
        reveal_strlit("windows");
        reveal_strlit("main");
        reveal_strlit("main.exe");
    }
    if same_text(os, "linux") {
        assert("linux"@ =~= seq!['l', 'i', 'n', 'u', 'x']);
        assert("main"@ =~= seq!['m', 'a', 'i', 'n']);
        Some(String::from_str("main"))
    } else if same_text(os, "windows") {
        assert("linux"@ =~= seq!['l', 'i', 'n', 'u', 'x']);
        assert("windows"@ =~= seq!['w', 'i', 'n', 'd', 'o', 'w', 's']);
        assert("main.exe"@ =~= seq!['m', 'a', 'i', 'n', '.', 'e', 'x', 'e']);
        Some(String::from_str("main.exe"))
    } else {
        assert("linux"@ =~= seq!['l', 'i', 'n', 'u', 'x']);
        assert("windows"@ =~= seq!['w', 'i', 'n', 'd', 'o', 'w', 's']);
        None
    }
}

} // verus!
