use buck2_logic::console::{terminal_supports_hyperlinks, ConsoleColor, FinalConsole, TerminalEnv};

fn env() -> TerminalEnv {
    TerminalEnv {
        iterm_session_id: None,
        kitty_window_id: None,
        wezterm_executable: None,
        vte_version: None,
        wt_session: None,
        term_program: None,
        term: None,
        os: None,
        comspec: None,
        sks_platform: None,
        ssh_tty: None,
    }
}

fn s(v: &str) -> Option<String> {
    Some(v.to_owned())
}

#[test]
fn known_terminals_support_hyperlinks() {
    assert!(terminal_supports_hyperlinks(&TerminalEnv { iterm_session_id: s("w0"), ..env() }));
    assert!(terminal_supports_hyperlinks(&TerminalEnv { kitty_window_id: s("1"), ..env() }));
    assert!(terminal_supports_hyperlinks(&TerminalEnv { wezterm_executable: s("/bin/w"), ..env() }));
    assert!(terminal_supports_hyperlinks(&TerminalEnv { vte_version: s("6800"), ..env() }));
    assert!(terminal_supports_hyperlinks(&TerminalEnv { wt_session: s("x"), ..env() }));
    assert!(terminal_supports_hyperlinks(&TerminalEnv { term_program: s("vscode"), ..env() }));
}

#[test]
fn unknown_terminals_do_not() {
    assert!(!terminal_supports_hyperlinks(&env()));
    assert!(!terminal_supports_hyperlinks(&TerminalEnv { term: s("xterm"), ..env() }));
    assert!(!terminal_supports_hyperlinks(&TerminalEnv { term: s("rxvt"), ..env() }));
    assert!(!terminal_supports_hyperlinks(&TerminalEnv { term_program: s("vscodium"), ..env() }));
}

#[test]
fn xterm_256color_rules() {
    let xterm = || TerminalEnv { term: s("xterm-256color"), ..env() };
    // Konsole or another local terminal.
    assert!(terminal_supports_hyperlinks(&xterm()));
    // Local Windows shells.
    assert!(terminal_supports_hyperlinks(&TerminalEnv { os: s("Windows_NT"), ..xterm() }));
    assert!(terminal_supports_hyperlinks(&TerminalEnv { comspec: s("cmd.exe"), ..xterm() }));
    assert!(!terminal_supports_hyperlinks(&TerminalEnv { os: s("Linux"), ssh_tty: s("/dev/pts/1"), ..xterm() }));
    // SSH from Windows.
    assert!(terminal_supports_hyperlinks(&TerminalEnv { sks_platform: s("WINDOWS"), ssh_tty: s("/dev/pts/1"), ..xterm() }));
    // SSH or Apple's Terminal.
    assert!(!terminal_supports_hyperlinks(&TerminalEnv { ssh_tty: s("/dev/pts/1"), ..xterm() }));
    assert!(!terminal_supports_hyperlinks(&TerminalEnv { term_program: s("Apple_Terminal"), ..xterm() }));
}

#[test]
fn console_styles_only_on_a_terminal() {
    let tty = FinalConsole::new_with_tty();
    let plain = FinalConsole::new_without_tty();
    assert!(tty.is_tty());
    assert!(!plain.is_tty());

    let e = tty.print_error("boom");
    assert_eq!(e.text, "boom");
    assert_eq!(e.color, Some(ConsoleColor::DarkRed));
    assert!(e.newline);
    assert_eq!(tty.print_warning("w").color, Some(ConsoleColor::Yellow));
    assert_eq!(tty.print_success("ok").color, Some(ConsoleColor::Green));
    let n = tty.print_success_no_newline("ok");
    assert_eq!(n.color, Some(ConsoleColor::Green));
    assert!(!n.newline);
    let raw = tty.print_stderr("raw");
    assert_eq!(raw.color, None);
    assert!(raw.newline);

    assert_eq!(plain.print_error("boom").color, None);
    assert_eq!(plain.print_warning("w").color, None);
    assert_eq!(plain.print_success("ok").color, None);
    assert_eq!(plain.print_success_no_newline("ok").color, None);
}

#[test]
fn hyperlinks_need_a_terminal() {
    let kitty = TerminalEnv { kitty_window_id: s("1"), ..env() };
    assert!(FinalConsole::new_with_tty().supports_hyperlinks(&kitty));
    assert!(!FinalConsole::new_without_tty().supports_hyperlinks(&kitty));
    assert!(!FinalConsole::new_with_tty().supports_hyperlinks(&env()));
}
