//! What the process decides from its command line when it starts: the
//! `+set name value` arguments it recognises and the mode they select.
use vstd::prelude::*;

use crate::text::str_eq;

verus! {

/// The value set for a name on the command line: after any `+set` or
/// `+seta`, the word following the name; the word after a marker is
/// consumed as a name even where it looks like a marker itself.
pub open spec fn spec_cmdline_value(name: Seq<char>, args: Seq<String>) -> Option<String>
    decreases args.len(),
{
    if args.len() == 0 {
        None
    } else if args.first()@ == "+set"@ || args.first()@ == "+seta"@ {
        if args.len() == 1 {
            None
        } else if args[1]@ == name {
            if args.len() >= 3 {
                Some(args[2])
            } else {
                None
            }
        } else {
            spec_cmdline_value(name, args.skip(2))
        }
    } else {
        spec_cmdline_value(name, args.drop_first())
    }
}

/// Looks a `+set` value up on the command line.
pub fn get_cmdline_value<'a>(value_name: &str, cmdline_args: &'a Vec<String>) -> (r: Option<
    &'a String,
>)
    ensures
        match r {
            Some(v) => spec_cmdline_value(value_name@, cmdline_args@) == Some(*v),
            None => spec_cmdline_value(value_name@, cmdline_args@) is None,
        },
{
    let len = cmdline_args.len();
    let mut i: usize = 0;
    proof {
        assert(cmdline_args@.skip(0) == cmdline_args@);
    }
    while i < len
        invariant
            len == cmdline_args@.len(),
            i <= len,
            spec_cmdline_value(value_name@, cmdline_args@) == spec_cmdline_value(
                value_name@,
                cmdline_args@.skip(i as int),
            ),
        decreases len - i,
    {
        let ghost u = cmdline_args@.skip(i as int);
        proof {
            assert(u.first() == cmdline_args@[i as int]);
            assert(u.drop_first() =~= cmdline_args@.skip(i + 1));
            if i + 2 <= len {
                assert(u.skip(2) =~= cmdline_args@.skip(i + 2));
            }
            if i + 1 < len {
                assert(u[1] == cmdline_args@[i + 1]);
            }
            if i + 2 < len {
                assert(u[2] == cmdline_args@[i + 2]);
            }
        }
        let arg = &cmdline_args[i];
        if str_eq(arg.as_str(), "+set") || str_eq(arg.as_str(), "+seta") {
            if i + 1 < len {
                if str_eq(cmdline_args[i + 1].as_str(), value_name) {
                    if i + 2 < len {
                        return Some(&cmdline_args[i + 2]);
                    } else {
                        return None;
                    }
                }
                i += 2;
            } else {
                return None;
            }
        } else {
            i += 1;
        }
    }
    None
}

/// How the process starts: the legacy path skips everything here; a
/// pinned-protocol start skips the updater and loads that module version; a
/// normal start runs the updater first, elevated where the relaunch marker
/// says so.
pub enum LaunchMode {
    Legacy,
    Protocol { version: String },
    Normal { elevated: bool },
}

/// The mode the command line selects.
pub open spec fn spec_launch_mode(args: Seq<String>) -> LaunchMode {
    if spec_cmdline_value("legacymode"@, args) matches Some(v) && v@ == "1"@ {
        LaunchMode::Legacy
    } else {
        match spec_cmdline_value("protocolversion"@, args) {
            Some(v) => LaunchMode::Protocol { version: v },
            None => LaunchMode::Normal {
                elevated: spec_cmdline_value("elevated"@, args) matches Some(v) && v@ == "1"@,
            },
        }
    }
}

/// Reads the launch mode off the command line.
pub fn launch_mode(cmdline_args: &Vec<String>) -> (r: LaunchMode)
    ensures
        r == spec_launch_mode(cmdline_args@),
{
    let legacy = match get_cmdline_value("legacymode", cmdline_args) {
        Some(v) => str_eq(v.as_str(), "1"),
        None => false,
    };
    if legacy {
        return LaunchMode::Legacy;
    }
    match get_cmdline_value("protocolversion", cmdline_args) {
        Some(v) => LaunchMode::Protocol { version: v.clone() },
        None => {
            let elevated = match get_cmdline_value("elevated", cmdline_args) {
                Some(v) => str_eq(v.as_str(), "1"),
                None => false,
            };
            LaunchMode::Normal { elevated }
        },
    }
}

} // verus!
