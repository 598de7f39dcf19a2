//! Supervision of the managed server process: the at-most-one held process
//! handle, the readiness detector over the sanitized stdout stream, and the
//! construction of the platform- and mode-specific launch and port-kill
//! commands that the unverified shell executes.

use vstd::prelude::*;
use crate::sanitize::spec_sanitize;
use crate::sanitize::sanitize_line;
use crate::text::has_substring;
use crate::text::contains_str;
use crate::text::str_equal;
use crate::text::spec_dec;
use crate::text::u64_to_string;

verus! {

/// The fixed substring of the server's stdout that signals readiness.
pub open spec fn ready_marker() -> Seq<char> {
    "Starting Webserver"@
}

/// The readiness marker as text.
pub fn ready_marker_str() -> (r: &'static str)
    ensures
        r@ == ready_marker(),
{
    "Starting Webserver"
}

/// The sanitized form of `line` contains the readiness marker.
pub open spec fn marker_hit(line: Seq<char>) -> bool {
    has_substring(spec_sanitize(line), ready_marker())
}

/// What one stdout line produces: an optional log event (dropped when the
/// sanitized line is empty) and whether the one-shot readiness signal fires.
pub struct LineOutcome {
    pub log: Option<String>,
    pub ready: bool,
}

/// Per-stream reader state: whether the one-shot readiness signal has
/// already fired.
pub struct OutputReader {
    pub ready_emitted: bool,
}

impl OutputReader {
    /// A fresh reader that has not yet emitted the readiness signal.
    pub fn new() -> (r: OutputReader)
        ensures
            !r.ready_emitted,
    {
        OutputReader { ready_emitted: false }
    }

    /// Processes one raw stdout line: sanitizes it, drops it if empty, and
    /// fires the readiness signal on the first line whose sanitized text
    /// contains the marker.
    pub fn process_stdout_line(&mut self, line: &str) -> (r: LineOutcome)
        ensures
            r.log is Some <==> spec_sanitize(line@).len() > 0,
            r.log is Some ==> r.log->0@ == spec_sanitize(line@),
            r.ready == (marker_hit(line@) && !old(self).ready_emitted),
            final(self).ready_emitted == (old(self).ready_emitted || marker_hit(line@)),
    {
        let clean = sanitize_line(line);
        if clean.as_str().is_empty() {
            proof {
                reveal_strlit("Starting Webserver");
                assert(!marker_hit(line@));
            }
            LineOutcome { log: None, ready: false }
        } else {
            let hit = contains_str(clean.as_str(), ready_marker_str());
            let fires = hit && !self.ready_emitted;
            if hit {
                self.ready_emitted = true;
            }
            LineOutcome { log: Some(clean), ready: fires }
        }
    }

    /// Processes one raw stderr line: sanitized, and dropped if empty. The
    /// readiness marker is only watched for on stdout.
    pub fn process_stderr_line(&self, line: &str) -> (r: Option<String>)
        ensures
            r is Some <==> spec_sanitize(line@).len() > 0,
            r is Some ==> r->0@ == spec_sanitize(line@),
    {
        let clean = sanitize_line(line);
        if clean.as_str().is_empty() {
            None
        } else {
            Some(clean)
        }
    }
}

/// Number of readiness signals fired while reading `lines` in order,
/// starting with the one-shot flag in state `emitted`.
pub open spec fn count_ready(emitted: bool, lines: Seq<Seq<char>>) -> int
    decreases lines.len(),
{
    if lines.len() == 0 {
        0
    } else {
        (if marker_hit(lines[0]) && !emitted {
            1int
        } else {
            0int
        }) + count_ready(emitted || marker_hit(lines[0]), lines.skip(1))
    }
}

proof fn lemma_count_ready_after_emitted(lines: Seq<Seq<char>>)
    ensures
        count_ready(true, lines) == 0,
    decreases lines.len(),
{
    if lines.len() > 0 {
        lemma_count_ready_after_emitted(lines.skip(1));
    }
}

/// The readiness signal fires exactly once over a whole stdout stream:
/// exactly one signal when some line's sanitized text contains the marker,
/// however many such lines there are, and none otherwise.
pub proof fn lemma_ready_fires_exactly_once(lines: Seq<Seq<char>>)
    ensures
        count_ready(false, lines) == if exists|i: int|
            0 <= i < lines.len() && marker_hit(lines[i]) {
            1int
        } else {
            0int
        },
    decreases lines.len(),
{
    if lines.len() == 0 {
    } else if marker_hit(lines[0]) {
        lemma_count_ready_after_emitted(lines.skip(1));
    } else {
        lemma_ready_fires_exactly_once(lines.skip(1));
        if exists|i: int| 0 <= i < lines.skip(1).len() && marker_hit(lines.skip(1)[i]) {
            let i = choose|i: int| 0 <= i < lines.skip(1).len() && marker_hit(lines.skip(1)[i]);
            assert(lines[i + 1] == lines.skip(1)[i]);
        } else {
            assert forall|i: int| 0 <= i < lines.len() implies !marker_hit(lines[i]) by {
                if i > 0 {
                    assert(lines.skip(1)[i - 1] == lines[i]);
                }
            }
        }
    }
}

/// The supervisor's process-wide state: the at-most-one held handle of the
/// managed server process, named by an opaque identifier.
pub struct Supervisor {
    pub handle: Option<u64>,
}

/// Starting was refused because a process is already held.
pub struct AlreadyRunning {
    pub held: u64,
}

impl Supervisor {
    /// A supervisor holding no process.
    pub fn new() -> (r: Supervisor)
        ensures
            r.handle is None,
    {
        Supervisor { handle: None }
    }

    /// Stores the handle of a freshly spawned process. Refuses, leaving the
    /// held handle in place, if one is already held: a second start never
    /// silently replaces (and so leaks) the previous process.
    pub fn store_handle(&mut self, h: u64) -> (r: Result<(), AlreadyRunning>)
        ensures
            old(self).handle is None ==> r is Ok && final(self).handle == Some(h),
            old(self).handle is Some ==> r is Err && final(self).handle == old(self).handle
                && r->Err_0.held == old(self).handle->0,
    {
        match self.handle {
            Some(held) => Err(AlreadyRunning { held }),
            None => {
                self.handle = Some(h);
                Ok(())
            },
        }
    }

    /// Takes the held handle out, leaving none held. A no-op returning
    /// `None` when nothing is running.
    pub fn take_handle(&mut self) -> (r: Option<u64>)
        ensures
            final(self).handle is None,
            r == old(self).handle,
    {
        let h = self.handle;
        self.handle = None;
        h
    }
}

/// The platform the launch command is built for.
pub enum Platform {
    Windows,
    MacOs,
    Linux,
}

/// The launch entrypoint for `mode` on the given platform: the full mode
/// runs the complete launcher script, any other mode the server-only one.
pub open spec fn spec_script_name(mode: Seq<char>, windows: bool) -> Seq<char> {
    if windows {
        if mode == "full"@ {
            "run.bat"@
        } else {
            "start-server.bat"@
        }
    } else {
        if mode == "full"@ {
            "run.sh"@
        } else {
            "start-server.sh"@
        }
    }
}

/// Selects the launch script for `mode`.
pub fn launch_script_name(mode: &str, windows: bool) -> (r: String)
    ensures
        r@ == spec_script_name(mode@, windows),
{
    let full = str_equal(mode, "full");
    if windows {
        if full {
            String::from_str("run.bat")
        } else {
            String::from_str("start-server.bat")
        }
    } else {
        if full {
            String::from_str("run.sh")
        } else {
            String::from_str("start-server.sh")
        }
    }
}

/// How one character of a path is rendered inside a single-quoted shell
/// word: a quote closes the word, stands escaped, and reopens it.
pub open spec fn quoted_piece(c: char) -> Seq<char> {
    if c == '\'' {
        seq!['\'', '\\', '\'', '\'']
    } else {
        seq![c]
    }
}

/// The rendering of `s` from position `i` on, inside the quotes.
pub open spec fn quote_from(s: Seq<char>, i: int) -> Seq<char>
    decreases s.len() - i,
{
    if i < 0 || i >= s.len() {
        Seq::empty()
    } else {
        quoted_piece(s[i]) + quote_from(s, i + 1)
    }
}

/// `s` as a single shell word in single quotes, with embedded quotes
/// escaped, so that spaces in the path do not split the command.
pub open spec fn spec_shell_quote(s: Seq<char>) -> Seq<char> {
    seq!['\''] + quote_from(s, 0) + seq!['\'']
}

/// Wraps `s` in single quotes for the shell, escaping embedded quotes.
pub fn shell_single_quote(s: &str) -> (r: String)
    ensures
        r@ == spec_shell_quote(s@),
{
    let len = s.unicode_len();
    let mut out = String::new();
    out.push('\'');
    let mut i: usize = 0;
    while i < len
        invariant
            len == s@.len(),
            0 <= i <= len,
            seq!['\''] + quote_from(s@, 0) == out@ + quote_from(s@, i as int),
        decreases len - i,
    {
        let c = s.get_char(i);
        let ghost prev = out@;
        if c == '\'' {
            out.push('\'');
            out.push('\\');
            out.push('\'');
            out.push('\'');
        } else {
            out.push(c);
        }
        proof {
            assert(quote_from(s@, i as int) == quoted_piece(s@[i as int]) + quote_from(
                s@,
                i + 1,
            ));
            assert(out@ + quote_from(s@, i + 1) =~= prev + quote_from(s@, i as int));
        }
        i = i + 1;
    }
    out.push('\'');
    proof {
        assert(out@ =~= spec_shell_quote(s@));
    }
    out
}

/// A program together with its arguments, ready to be spawned by the
/// unverified shell.
pub struct LaunchCommand {
    pub program: String,
    pub args: Vec<String>,
}

/// Builds the platform-specific command that launches the selected script
/// with the installation root as working directory. On Windows the script
/// runs through the command interpreter; on macOS through a pseudo-terminal
/// wrapper around a login shell so the server's output arrives unbuffered;
/// on Linux through a login shell. The script path is single-quoted on the
/// shell platforms.
pub fn build_launch_command(platform: Platform, script_path: &str) -> (r: LaunchCommand)
    ensures
        platform is Windows ==> r.program@ == "cmd.exe"@ && r.args@.len() == 2 && r.args@[0]@
            == "/c"@ && r.args@[1]@ == script_path@,
        platform is MacOs ==> r.program@ == "script"@ && r.args@.len() == 6 && r.args@[0]@
            == "-q"@ && r.args@[1]@ == "/dev/stdout"@ && r.args@[2]@ == "/bin/zsh"@
            && r.args@[3]@ == "-l"@ && r.args@[4]@ == "-c"@ && r.args@[5]@
            == spec_shell_quote(script_path@),
        platform is Linux ==> r.program@ == "/bin/bash"@ && r.args@.len() == 3 && r.args@[0]@
            == "-l"@ && r.args@[1]@ == "-c"@ && r.args@[2]@ == spec_shell_quote(script_path@),
{
    match platform {
        Platform::Windows => {
            let mut args: Vec<String> = Vec::new();
            args.push(String::from_str("/c"));
            args.push(String::from_str(script_path));
            LaunchCommand { program: String::from_str("cmd.exe"), args }
        },
        Platform::MacOs => {
            let mut args: Vec<String> = Vec::new();
            args.push(String::from_str("-q"));
            args.push(String::from_str("/dev/stdout"));
            args.push(String::from_str("/bin/zsh"));
            args.push(String::from_str("-l"));
            args.push(String::from_str("-c"));
            args.push(shell_single_quote(script_path));
            LaunchCommand { program: String::from_str("script"), args }
        },
        Platform::Linux => {
            let mut args: Vec<String> = Vec::new();
            args.push(String::from_str("-l"));
            args.push(String::from_str("-c"));
            args.push(shell_single_quote(script_path));
            LaunchCommand { program: String::from_str("/bin/bash"), args }
        },
    }
}

/// The environment forced on the launched server so its output stays
/// unbuffered, uncolored and non-interactive.
pub fn server_environment() -> (r: Vec<(String, String)>)
    ensures
        r@.len() == 4,
        r@[0].0@ == "PYTHONUNBUFFERED"@ && r@[0].1@ == "1"@,
        r@[1].0@ == "NO_COLOR"@ && r@[1].1@ == "1"@,
        r@[2].0@ == "FORCE_COLOR"@ && r@[2].1@ == "0"@,
        r@[3].0@ == "TERM"@ && r@[3].1@ == "dumb"@,
{
    let mut r: Vec<(String, String)> = Vec::new();
    r.push((String::from_str("PYTHONUNBUFFERED"), String::from_str("1")));
    r.push((String::from_str("NO_COLOR"), String::from_str("1")));
    r.push((String::from_str("FORCE_COLOR"), String::from_str("0")));
    r.push((String::from_str("TERM"), String::from_str("dumb")));
    r
}

/// The best-effort command that terminates whatever process listens on
/// `port` before the server starts.
pub fn port_kill_command(port: u16, windows: bool) -> (r: LaunchCommand)
    ensures
        windows ==> r.program@ == "powershell"@ && r.args@.len() == 3 && r.args@[0]@
            == "-NoProfile"@ && r.args@[1]@ == "-Command"@ && r.args@[2]@
            == "Get-NetTCPConnection -LocalPort "@ + spec_dec(port as int)
            + " -ErrorAction SilentlyContinue | ForEach-Object { Stop-Process -Id $_.OwningProcess -Force -ErrorAction SilentlyContinue }"@,
        !windows ==> r.program@ == "sh"@ && r.args@.len() == 2 && r.args@[0]@ == "-c"@
            && r.args@[1]@ == "lsof -ti :"@ + spec_dec(port as int)
            + " | xargs kill 2>/dev/null || true"@,
{
    let port_str = u64_to_string(port as u64);
    if windows {
        let mut cmdline = String::from_str("Get-NetTCPConnection -LocalPort ");
        cmdline.append(port_str.as_str());
        cmdline.append(
            " -ErrorAction SilentlyContinue | ForEach-Object { Stop-Process -Id $_.OwningProcess -Force -ErrorAction SilentlyContinue }",
        );
        let mut args: Vec<String> = Vec::new();
        args.push(String::from_str("-NoProfile"));
        args.push(String::from_str("-Command"));
        args.push(cmdline);
        LaunchCommand { program: String::from_str("powershell"), args }
    } else {
        let mut cmdline = String::from_str("lsof -ti :");
        cmdline.append(port_str.as_str());
        cmdline.append(" | xargs kill 2>/dev/null || true");
        let mut args: Vec<String> = Vec::new();
        args.push(String::from_str("-c"));
        args.push(cmdline);
        LaunchCommand { program: String::from_str("sh"), args }
    }
}

/// The server's fixed listening port.
pub fn server_port() -> (r: u16)
    ensures
        r == 8000,
{
    8000
}

/// The exit code reported on the stop signal: the process's own code, or a
/// sentinel when the platform gives none.
pub fn exit_code_or_sentinel(code: Option<i32>) -> (r: i32)
    ensures
        code is Some ==> r == code->0,
        code is None ==> r == -1,
{
    match code {
        Some(c) => c,
        None => -1,
    }
}

} // verus!
