//! Wrapped commands and terminal invocations.
//!
//! The launcher never hands the caller's command to a terminal as it stands:
//! it first prefixes a fixed startup delay, so that a freshly opened terminal
//! window has time to initialize before the command runs, and on Linux it
//! appends a shell re-invocation so the window stays open afterwards. This
//! module builds that wrapped command and the full program-plus-arguments
//! invocation for each terminal candidate.

use vstd::prelude::*;

verus! {

/// The operating system the launcher was built for. The choice among the
/// three is made at build time, never at run time.
#[derive(Clone, Copy, PartialEq, Eq, Structural, Debug)]
pub enum Platform {
    MacOs,
    Windows,
    Linux,
}

/// Seconds a freshly opened terminal window is given to initialize before
/// the wrapped command runs. The delay prefixes embed this value.
pub const STARTUP_DELAY_SECS: u64 = 2;

/// The fixed delay instruction that precedes the command on each platform.
pub open spec fn delay_prefix(platform: Platform) -> Seq<char> {
    match platform {
        Platform::MacOs => "sleep 2 && "@,
        Platform::Windows => "timeout /t 2 && "@,
        Platform::Linux => "sleep 2 && "@,
    }
}

/// What follows the command so the window survives its completion: a shell
/// re-invocation on Linux, nothing elsewhere (the Windows console host is
/// told to stay open through a flag instead).
pub open spec fn keep_open_suffix(platform: Platform) -> Seq<char> {
    match platform {
        Platform::MacOs => Seq::<char>::empty(),
        Platform::Windows => Seq::<char>::empty(),
        Platform::Linux => ";bash"@,
    }
}

/// The wrapped command: the delay prefix, the caller's command verbatim, and
/// the keep-open suffix, with nothing escaped, dropped or reordered.
pub open spec fn delayed_command_spec(platform: Platform, command: Seq<char>) -> Seq<char> {
    delay_prefix(platform) + command + keep_open_suffix(platform)
}

/// Builds the wrapped command for `command` on `platform`.
pub fn delayed_command(platform: Platform, command: &str) -> (wrapped: String)
    ensures
        wrapped@ == delayed_command_spec(platform, command@),
{
    let wrapped = match platform {
        Platform::MacOs => String::from_str("sleep 2 && ").concat(command),
        Platform::Windows => String::from_str("timeout /t 2 && ").concat(command),
        Platform::Linux => String::from_str("sleep 2 && ").concat(command).concat(";bash"),
    };
    proof {
        assert(wrapped@ =~= delayed_command_spec(platform, command@));
    }
    wrapped
}

/// How many terminal programs the platform tries before giving up. The macOS
/// scripting host and the Windows console host are single candidates; Linux
/// has a fixed ordered list of three common terminal emulators.
pub open spec fn candidate_count(platform: Platform) -> int {
    match platform {
        Platform::MacOs => 1,
        Platform::Windows => 1,
        Platform::Linux => 3,
    }
}

/// Executable counterpart of [`candidate_count`].
pub fn num_candidates(platform: Platform) -> (n: usize)
    ensures
        n == candidate_count(platform),
{
    match platform {
        Platform::MacOs => 1,
        Platform::Windows => 1,
        Platform::Linux => 3,
    }
}

/// The script handed to the macOS scripting host: it tells the default
/// terminal application to run the wrapped command in a new window.
pub open spec fn macos_script_spec(command: Seq<char>) -> Seq<char> {
    "tell application \"Terminal\" to do script \""@
        + delayed_command_spec(Platform::MacOs, command) + "\""@
}

/// The program started for candidate `idx` of `platform`.
pub open spec fn program_spec(platform: Platform, idx: int) -> Seq<char> {
    match platform {
        Platform::MacOs => "osascript"@,
        Platform::Windows => "cmd"@,
        Platform::Linux => if idx == 0 {
            "gnome-terminal"@
        } else if idx == 1 {
            "xterm"@
        } else {
            "konsole"@
        },
    }
}

/// The arguments handed to candidate `idx` of `platform` for `command`: each
/// candidate runs the wrapped command in an interactive session that stays
/// open after it completes.
pub open spec fn args_spec(platform: Platform, command: Seq<char>, idx: int) -> Seq<Seq<char>> {
    let wrapped = delayed_command_spec(platform, command);
    match platform {
        Platform::MacOs => seq!["-e"@, macos_script_spec(command)],
        Platform::Windows => seq!["/C"@, "start"@, "cmd"@, "/k"@, wrapped],
        Platform::Linux => if idx == 0 {
            seq!["--"@, "bash"@, "-c"@, wrapped]
        } else if idx == 1 {
            seq!["-e"@, wrapped]
        } else {
            seq!["--noclose"@, "-e"@, wrapped]
        },
    }
}

/// One spawn attempt, ready for the OS: the terminal program to start and its
/// argument list.
pub struct Invocation {
    pub program: String,
    pub args: Vec<String>,
}

/// Builds the invocation of candidate `idx` of `platform` for `command`.
pub fn invocation(platform: Platform, command: &str, idx: usize) -> (inv: Invocation)
    requires
        idx < candidate_count(platform),
    ensures
        inv.program@ == program_spec(platform, idx as int),
        inv.args.deep_view() == args_spec(platform, command@, idx as int),
{
    let wrapped = delayed_command(platform, command);
    let mut args: Vec<String> = Vec::new();
    let program = match platform {
        Platform::MacOs => {
            let script = String::from_str("tell application \"Terminal\" to do script \"")
                .concat(wrapped.as_str())
                .concat("\"");
            args.push(String::from_str("-e"));
            args.push(script);
            String::from_str("osascript")
        },
        Platform::Windows => {
            args.push(String::from_str("/C"));
            args.push(String::from_str("start"));
            args.push(String::from_str("cmd"));
            args.push(String::from_str("/k"));
            args.push(wrapped);
            String::from_str("cmd")
        },
        Platform::Linux => {
            if idx == 0 {
                args.push(String::from_str("--"));
                args.push(String::from_str("bash"));
                args.push(String::from_str("-c"));
                args.push(wrapped);
                String::from_str("gnome-terminal")
            } else if idx == 1 {
                args.push(String::from_str("-e"));
                args.push(wrapped);
                String::from_str("xterm")
            } else {
                args.push(String::from_str("--noclose"));
                args.push(String::from_str("-e"));
                args.push(wrapped);
                String::from_str("konsole")
            }
        },
    };
    proof {
        assert(args.deep_view() =~~= args_spec(platform, command@, idx as int));
    }
    Invocation { program, args }
}

/// The wrapped command pins the original down: two launches that wrapped to
/// the same command line were launches of the same command, so a response can
/// always be attributed to its own input.
pub proof fn lemma_delayed_command_injective(platform: Platform, c1: Seq<char>, c2: Seq<char>)
    requires
        delayed_command_spec(platform, c1) == delayed_command_spec(platform, c2),
    ensures
        c1 == c2,
{
    let prefix = delay_prefix(platform);
    let suffix = keep_open_suffix(platform);
    let w1 = delayed_command_spec(platform, c1);
    let w2 = delayed_command_spec(platform, c2);
    assert(w1.len() == prefix.len() + c1.len() + suffix.len());
    assert(w2.len() == prefix.len() + c2.len() + suffix.len());
    assert forall|i: int| 0 <= i < c1.len() implies c1[i] == c2[i] by {
        assert(w1[prefix.len() + i] == c1[i]);
        assert(w2[prefix.len() + i] == c2[i]);
    }
    assert(c1 =~= c2);
}

} // verus!
