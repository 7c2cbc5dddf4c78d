//! Mode resolution: the pure mapping from the parsed command-line flag
//! set to exactly one operating mode, the default recording path, and
//! the overwrite gate of the concatenation orchestrator.

use vstd::prelude::*;
use vstd::string::StrSliceExecFns;
use vstd::string::StringExecFns;

verus! {

/// The parsed command-line flag set, as the resolver reads it.
pub struct Flags {
    /// `-i`: an explicit input directory.
    pub explicit_input: Option<String>,
    /// `-I`: an input named relative to the default recording path.
    pub named_input: Option<String>,
    /// `-r`/`--rec-path`: print the default recording path and exit.
    pub print_rec_path: bool,
    /// `-l`/`--list`: list clips at the resolved input; selects what is
    /// already the behaviour when no output is given, so resolution does
    /// not depend on it.
    pub list: bool,
    /// `-L`/`--list-default`: list sessions at the default path.
    pub list_sessions: bool,
    /// `-o`: the output file; its presence turns listing into
    /// concatenation.
    pub output: Option<String>,
    /// `-k`/`--keep-second-track`.
    pub keep_second_track: bool,
    /// `-f`/`--force`: permit overwriting an existing output file.
    pub force: bool,
}

/// Where the input directory comes from.
#[derive(Debug, PartialEq, Eq)]
pub enum InputSpec {
    /// An explicit directory path.
    Explicit(String),
    /// A name relative to the default recording path.
    Named(String),
}

/// The single operating mode of one invocation.
#[derive(Debug, PartialEq, Eq)]
pub enum Mode {
    PrintDefaultPath,
    ListSessions,
    ListClips { input: InputSpec },
    Concatenate { input: InputSpec, output: String, keep_second_track: bool, force: bool },
}

/// The input selected by the flags, assuming one input flag is set.
pub open spec fn input_of(flags: Flags) -> InputSpec {
    match flags.explicit_input {
        Some(p) => InputSpec::Explicit(p),
        None => match flags.named_input {
            Some(n) => InputSpec::Named(n),
            None => arbitrary(),
        },
    }
}

/// The mode the flags select: `-r` short-circuits before `-L`, which
/// short-circuits before input resolution; there, a missing output
/// degrades concatenation to a clip listing regardless of `-k`/`-f`.
pub open spec fn mode_of(flags: Flags) -> Mode {
    if flags.print_rec_path {
        Mode::PrintDefaultPath
    } else if flags.list_sessions {
        Mode::ListSessions
    } else {
        match flags.output {
            Some(o) => (Mode::Concatenate {
                input: input_of(flags),
                output: o,
                keep_second_track: flags.keep_second_track,
                force: flags.force,
            }),
            None => (Mode::ListClips { input: input_of(flags) }),
        }
    }
}

/// Map the flag set to its one operating mode.
///
/// The input-selection group is mutually exclusive by construction in
/// the argument declaration, and once `-r` and `-L` are out of the way
/// an input must have been given; inside those bounds every combination
/// resolves, and `-r` wins over everything else.
pub fn resolve_mode(flags: Flags) -> (m: Mode)
    requires
        !flags.print_rec_path && !flags.list_sessions ==> (flags.explicit_input is Some
            || flags.named_input is Some),
        !(flags.explicit_input is Some && flags.named_input is Some),
    ensures
        m == mode_of(flags),
{
    if flags.print_rec_path {
        return Mode::PrintDefaultPath;
    }
    if flags.list_sessions {
        return Mode::ListSessions;
    }
    let input = match (flags.explicit_input, flags.named_input) {
        (Some(p), _) => InputSpec::Explicit(p),
        (_, Some(n)) => InputSpec::Named(n),
        (None, None) => {
            proof {
                assert(false);
            }
            InputSpec::Named(String::new())
        },
    };
    match flags.output {
        Some(o) => Mode::Concatenate {
            input,
            output: o,
            keep_second_track: flags.keep_second_track,
            force: flags.force,
        },
        None => Mode::ListClips { input },
    }
}

/// `base` with the relative path `rel` appended, one separator between
/// them unless `base` is empty or already ends with one.
pub open spec fn joined_path(base: Seq<char>, rel: Seq<char>) -> Seq<char> {
    if base.len() == 0 {
        rel
    } else if base.last() == '/' {
        base + rel
    } else {
        base + seq!['/'] + rel
    }
}

/// Append the relative path `rel` to the directory `base`.
pub fn join_path(base: &str, rel: &str) -> (r: String)
    ensures
        r@ == joined_path(base@, rel@),
{
    let n = base.unicode_len();
    if n == 0 {
        rel.to_owned()
    } else {
        let mut s = base.to_owned();
        if base.get_char(n - 1) != '/' {
            s.append("/");
            proof {
                reveal_strlit("/");
            }
        }
        s.append(rel);
        proof {
            assert(s@ =~= joined_path(base@, rel@));
        }
        s
    }
}

/// The default recording directory under `base`, which the caller read
/// from the OS-specific environment variable: `LOCALAPPDATA` with a
/// short temporary-directory suffix on the Windows family, `HOME` with
/// the Steam-compatibility-layer suffix that embeds the recording
/// application's store identifier everywhere else. The result is not
/// checked to exist.
pub fn default_path(base: &str, windows_layout: bool) -> (r: String)
    ensures
        windows_layout ==> r@ == joined_path(base@, "Temp/rec/"@),
        !windows_layout ==> r@ == joined_path(
            base@,
            ".local/share/Steam/steamapps/compatdata/2881650/pfx/drive_c/users/steamuser/Temp/rec/"@,
        ),
{
    if windows_layout {
        join_path(base, "Temp/rec/")
    } else {
        join_path(
            base,
            ".local/share/Steam/steamapps/compatdata/2881650/pfx/drive_c/users/steamuser/Temp/rec/",
        )
    }
}

/// The input directory a mode's input specification resolves to, given
/// the default recording path for the named form.
pub fn resolved_input(input: &InputSpec, default_rec: &str) -> (r: String)
    ensures
        match input {
            InputSpec::Explicit(p) => r@ == p@,
            InputSpec::Named(n) => r@ == joined_path(default_rec@, n@),
        },
{
    match input {
        InputSpec::Explicit(p) => p.as_str().to_owned(),
        InputSpec::Named(n) => join_path(default_rec, n.as_str()),
    }
}

/// The overwrite gate of the concatenation orchestrator: writing may
/// proceed unless the output path already exists and force is off; the
/// refusal is a distinct non-fatal outcome, not an error.
pub fn may_write_output(output_exists: bool, force: bool) -> (proceed: bool)
    ensures
        proceed <==> (force || !output_exists),
{
    force || !output_exists
}

} // verus!
