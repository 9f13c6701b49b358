//! The console used once a command has finished: whether its output is styled, which
//! color each kind of message gets, and whether the terminal likely supports OSC 8
//! hyperlinks (decided from the environment variables that known terminals set).
use vstd::prelude::*;

verus! {

/// The environment variables that terminal detection reads (`None` when unset; a value
/// that is not valid UTF-8 is given lossily converted).
pub struct TerminalEnv {
    /// `ITERM_SESSION_ID` (iTerm2).
    pub iterm_session_id: Option<String>,
    /// `KITTY_WINDOW_ID` (Kitty).
    pub kitty_window_id: Option<String>,
    /// `WEZTERM_EXECUTABLE` (WezTerm).
    pub wezterm_executable: Option<String>,
    /// `VTE_VERSION` (GNOME Terminal and other VTE terminals).
    pub vte_version: Option<String>,
    /// `WT_SESSION` (Windows Terminal).
    pub wt_session: Option<String>,
    /// `TERM_PROGRAM`.
    pub term_program: Option<String>,
    /// `TERM`.
    pub term: Option<String>,
    /// `OS`.
    pub os: Option<String>,
    /// `ComSpec`.
    pub comspec: Option<String>,
    /// `SKS_PLATFORM`.
    pub sks_platform: Option<String>,
    /// `SSH_TTY`.
    pub ssh_tty: Option<String>,
}

/// The variable is set to exactly `value`.
pub open spec fn var_is(var: Option<String>, value: Seq<char>) -> bool {
    var matches Some(s) && s@ == value
}

/// Whether the terminal is likely to support OSC 8 hyperlinks:
/// - yes when a variable of a known capable terminal is set (iTerm2, Kitty, WezTerm, VTE,
///   Windows Terminal) or `TERM_PROGRAM` is `vscode`;
/// - otherwise, with `TERM=xterm-256color`: yes on local Windows shells (`OS=Windows_NT`
///   or `ComSpec` set) and over SSH from Windows (`SKS_PLATFORM=WINDOWS`); no over SSH
///   (`SSH_TTY` set) or in Apple's Terminal; yes for any other local terminal (Konsole);
/// - no otherwise.
pub open spec fn spec_supports_hyperlinks(env: TerminalEnv) -> bool {
    if env.iterm_session_id is Some || env.kitty_window_id is Some || env.wezterm_executable is Some
        || env.vte_version is Some || env.wt_session is Some || var_is(env.term_program, "vscode"@) {
        true
    } else if var_is(env.term, "xterm-256color"@) {
        if var_is(env.os, "Windows_NT"@) || env.comspec is Some {
            true
        } else if var_is(env.sks_platform, "WINDOWS"@) {
            true
        } else if env.ssh_tty is Some || var_is(env.term_program, "Apple_Terminal"@) {
            false
        } else {
            true
        }
    } else {
        false
    }
}

/// Whether the variable is set to exactly `value`.
fn var_equals(var: &Option<String>, value: &str) -> (r: bool)
    ensures
        r == var_is(*var, value@),
{
    match var {
        Some(s) => *s == value.to_owned(),
        None => false,
    }
}

/// Whether the terminal described by `env` is likely to support OSC 8 hyperlinks. This
/// does not check whether the output is a terminal.
pub fn terminal_supports_hyperlinks(env: &TerminalEnv) -> (r: bool)
    ensures
        r == spec_supports_hyperlinks(*env),
{
    if env.iterm_session_id.is_some() || env.kitty_window_id.is_some()
        || env.wezterm_executable.is_some() || env.vte_version.is_some()
        || env.wt_session.is_some() || var_equals(&env.term_program, "vscode") {
        return true;
    }
    if var_equals(&env.term, "xterm-256color") {
        if var_equals(&env.os, "Windows_NT") || env.comspec.is_some() {
            return true;
        }
        if var_equals(&env.sks_platform, "WINDOWS") {
            return true;
        }
        if env.ssh_tty.is_some() || var_equals(&env.term_program, "Apple_Terminal") {
            return false;
        }
        return true;
    }
    false
}

/// A foreground color for console output.
#[derive(PartialEq, Eq, Structural, Clone, Copy, Debug)]
pub enum ConsoleColor {
    /// Errors.
    DarkRed,
    /// Warnings.
    Yellow,
    /// Successes.
    Green,
}

/// What to write to stderr: the text, its color (`None`: unstyled), and whether a line
/// break follows.
#[derive(PartialEq, Eq, Debug)]
pub struct StderrOutput {
    /// The text.
    pub text: String,
    /// The foreground color, if styled.
    pub color: Option<ConsoleColor>,
    /// Whether a line break follows the text.
    pub newline: bool,
}

/// A way to print uniformly to the console after a command has finished.
pub struct FinalConsole {
    is_tty: bool,
}

impl FinalConsole {
    /// Whether output goes to a terminal.
    pub closed spec fn spec_is_tty(&self) -> bool {
        self.is_tty
    }

    /// A console writing to a terminal: output is styled.
    pub fn new_with_tty() -> (r: FinalConsole)
        ensures
            r.spec_is_tty(),
    {
        FinalConsole { is_tty: true }
    }

    /// A console not writing to a terminal: output is plain.
    pub fn new_without_tty() -> (r: FinalConsole)
        ensures
            !r.spec_is_tty(),
    {
        FinalConsole { is_tty: false }
    }

    /// The message in the given color when writing to a terminal, plain otherwise; no line
    /// break.
    fn stderr_colored(&self, message: &str, color: ConsoleColor) -> (r: StderrOutput)
        ensures
            r.text@ == message@,
            r.color == (if self.spec_is_tty() { Some(color) } else { None }),
            !r.newline,
    {
        let color = if self.is_tty {
            Some(color)
        } else {
            None
        };
        StderrOutput { text: message.to_owned(), color, newline: false }
    }

    /// As `stderr_colored`, followed by a line break.
    fn stderr_colored_ln(&self, message: &str, color: ConsoleColor) -> (r: StderrOutput)
        ensures
            r.text@ == message@,
            r.color == (if self.spec_is_tty() { Some(color) } else { None }),
            r.newline,
    {
        let mut out = self.stderr_colored(message, color);
        out.newline = true;
        out
    }

    /// The message as a line, in red if possible.
    pub fn print_error(&self, message: &str) -> (r: StderrOutput)
        ensures
            r.text@ == message@,
            r.color == (if self.spec_is_tty() { Some(ConsoleColor::DarkRed) } else { None }),
            r.newline,
    {
        self.stderr_colored_ln(message, ConsoleColor::DarkRed)
    }

    /// The message as a line, in yellow if possible.
    pub fn print_warning(&self, message: &str) -> (r: StderrOutput)
        ensures
            r.text@ == message@,
            r.color == (if self.spec_is_tty() { Some(ConsoleColor::Yellow) } else { None }),
            r.newline,
    {
        self.stderr_colored_ln(message, ConsoleColor::Yellow)
    }

    /// The message as a line, in green if possible.
    pub fn print_success(&self, message: &str) -> (r: StderrOutput)
        ensures
            r.text@ == message@,
            r.color == (if self.spec_is_tty() { Some(ConsoleColor::Green) } else { None }),
            r.newline,
    {
        self.stderr_colored_ln(message, ConsoleColor::Green)
    }

    /// The message, in green if possible, without a line break.
    pub fn print_success_no_newline(&self, message: &str) -> (r: StderrOutput)
        ensures
            r.text@ == message@,
            r.color == (if self.spec_is_tty() { Some(ConsoleColor::Green) } else { None }),
            !r.newline,
    {
        self.stderr_colored(message, ConsoleColor::Green)
    }

    /// The message as a line, never styled.
    pub fn print_stderr(&self, message: &str) -> (r: StderrOutput)
        ensures
            r.text@ == message@,
            r.color is None,
            r.newline,
    {
        StderrOutput { text: message.to_owned(), color: None, newline: true }
    }

    /// Whether output goes to a terminal.
    pub fn is_tty(&self) -> (r: bool)
        ensures
            r == self.spec_is_tty(),
    {
        self.is_tty
    }

    /// Whether hyperlinks are likely supported: output goes to a terminal that is likely to
    /// support them, given its environment.
    pub fn supports_hyperlinks(&self, env: &TerminalEnv) -> (r: bool)
        ensures
            r == (self.spec_is_tty() && spec_supports_hyperlinks(*env)),
    {
        self.is_tty && terminal_supports_hyperlinks(env)
    }
}

/// A terminal known to support hyperlinks (iTerm2, Kitty, WezTerm, VTE terminals,
/// Windows Terminal, VS Code) is recognised whatever `TERM` holds and whatever else is set.
pub proof fn lemma_known_terminals_support_hyperlinks(env: TerminalEnv)
    requires
        env.iterm_session_id is Some || env.kitty_window_id is Some || env.wezterm_executable is Some
            || env.vte_version is Some || env.wt_session is Some || (env.term_program matches Some(
            p,
        ) && p@ == "vscode"@),
    ensures
        spec_supports_hyperlinks(env),
{
}

/// Without a known terminal's variable, a `TERM` other than `xterm-256color` (or none)
/// means no hyperlinks.
pub proof fn lemma_other_terms_do_not_support_hyperlinks(env: TerminalEnv)
    requires
        env.iterm_session_id is None,
        env.kitty_window_id is None,
        env.wezterm_executable is None,
        env.vte_version is None,
        env.wt_session is None,
        !(env.term_program matches Some(p) && p@ == "vscode"@),
        !(env.term matches Some(t) && t@ == "xterm-256color"@),
    ensures
        !spec_supports_hyperlinks(env),
{
}

/// With `TERM=xterm-256color` and no known terminal's variable: local Windows shells and
/// SSH from Windows support hyperlinks; otherwise SSH sessions and Apple's Terminal do
/// not, and any other local terminal does.
pub proof fn lemma_xterm_256color_rules(env: TerminalEnv)
    requires
        env.iterm_session_id is None,
        env.kitty_window_id is None,
        env.wezterm_executable is None,
        env.vte_version is None,
        env.wt_session is None,
        !(env.term_program matches Some(p) && p@ == "vscode"@),
        env.term matches Some(t) && t@ == "xterm-256color"@,
    ensures
        (env.os matches Some(o) && o@ == "Windows_NT"@) ==> spec_supports_hyperlinks(env),
        env.comspec is Some ==> spec_supports_hyperlinks(env),
        (env.sks_platform matches Some(k) && k@ == "WINDOWS"@) ==> spec_supports_hyperlinks(env),
        !(env.os matches Some(o) && o@ == "Windows_NT"@) && env.comspec is None && !(
        env.sks_platform matches Some(k) && k@ == "WINDOWS"@) ==> (spec_supports_hyperlinks(env)
            <==> (env.ssh_tty is None && !(env.term_program matches Some(p) && p@
            == "Apple_Terminal"@))),
{
}

} // verus!
