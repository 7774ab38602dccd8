use rood::cli::output::{
    clear_command, clear_outcome, make_padding, marker, prompt_answer, yes_no_answer,
    pick_means_yes, Channel, OutputManager,
};
use rood::error::Cause;
use rood::sys::Platform;

#[test]
fn padding_is_four_characters_per_level() {
    assert_eq!(make_padding(0), "");
    assert_eq!(make_padding(-3), "");
    assert_eq!(make_padding(1), "|   ");
    assert_eq!(make_padding(3), "|   |   |   ");
    for d in 0..20 {
        let pad = make_padding(d);
        assert_eq!(pad.len(), 4 * d as usize);
        assert_eq!(pad, "|   ".repeat(d as usize));
    }
}

#[test]
fn new_manager_starts_at_depth_zero() {
    let m = OutputManager::new(true);
    assert!(m.verbose);
    assert_eq!(m.padding(), 0);
    let q = OutputManager::new(false);
    assert!(!q.verbose);
}

#[test]
fn push_twice_matches_with_padding() {
    let m = OutputManager::new(false).with_padding(3);
    let a = m.push().push();
    let b = m.with_padding(m.padding() + 2);
    assert_eq!(a.padding(), 5);
    assert_eq!(b.padding(), 5);
    for ch in [Channel::Step, Channel::Success, Channel::Progress, Channel::Debug, Channel::Error] {
        assert_eq!(a.render(ch, "msg", "msg", true), b.render(ch, "msg", "msg", true));
    }
    assert_eq!(a.render_prompt("q", "q", true), b.render_prompt("q", "q", true));
    assert_eq!(m.padding(), 3);
}

#[test]
fn verbosity_survives_derivation() {
    for v in [true, false] {
        let m = OutputManager::new(v);
        assert_eq!(m.push().verbose, v);
        assert_eq!(m.with_padding(7).verbose, v);
        assert_eq!(m.push().with_padding(0).push().verbose, v);
    }
}

#[test]
fn quiet_debug_writes_nothing() {
    let m = OutputManager::new(false);
    for depth in [0, 1, 5] {
        let d = m.with_padding(depth);
        assert_eq!(d.render(Channel::Debug, "anything", "anything", true), "");
        assert_eq!(d.render(Channel::Debug, "", "", false), "");
        assert_eq!(d.debug("cache miss"), "");
    }
}

#[test]
fn redirected_output_is_the_bare_message() {
    for v in [true, false] {
        let m = OutputManager::new(v).with_padding(4);
        for ch in [Channel::Step, Channel::Success, Channel::Progress, Channel::Error] {
            assert_eq!(m.render(ch, "disk full", "\u{1b}[31mdisk full\u{1b}[0m", false), "disk full\n");
        }
    }
    let m = OutputManager::new(true).with_padding(2);
    assert_eq!(m.render(Channel::Debug, "x", "x", false), "x\n");
    assert_eq!(m.render_prompt("name?", "name?", false), "name?");
}

#[test]
fn step_at_depth_two() {
    let m = OutputManager::new(false).with_padding(2);
    assert_eq!(m.render(Channel::Step, "build", "build", true), "|   |   + build\n");
    let colored = "\u{1b}[33mbuild\u{1b}[0m";
    assert_eq!(
        m.render(Channel::Step, "build", colored, true),
        format!("|   |   + {}\n", colored)
    );
}

#[test]
fn verbose_debug_at_depth_zero() {
    let m = OutputManager::new(true);
    assert_eq!(m.render(Channel::Debug, "cache miss", "cache miss", true), "- cache miss\n");
}

#[test]
fn redirected_error() {
    let m = OutputManager::new(false);
    assert_eq!(m.render(Channel::Error, "disk full", "disk full", false), "disk full\n");
}

#[test]
fn markers_of_channels() {
    assert_eq!(marker(Channel::Step), "+");
    assert_eq!(marker(Channel::Success), "+");
    assert_eq!(marker(Channel::Progress), "");
    assert_eq!(marker(Channel::Debug), "-");
    assert_eq!(marker(Channel::Error), "!");
    let m = OutputManager::new(true).push();
    assert_eq!(m.render(Channel::Progress, "working", "working", true), "|    working\n");
    assert_eq!(m.render(Channel::Success, "ok", "ok", true), "|   + ok\n");
    assert_eq!(m.render(Channel::Error, "bad", "bad", true), "|   ! bad\n");
    assert_eq!(m.render_prompt("name?", "name?", true), "|   ? name?");
}

fn is_framed_or_bare(out: &str, prefix: &str, msg: &str, code: &str) -> bool {
    let bare = format!("{}\n", msg);
    let plain = format!("{}{}\n", prefix, msg);
    let colored = format!("{}\u{1b}[{}m{}\u{1b}[0m\n", prefix, code, msg);
    out == bare || out == plain || out == colored
}

#[test]
fn channel_methods_write_one_line() {
    let m = OutputManager::new(true).push();
    assert!(is_framed_or_bare(&m.step("build"), "|   + ", "build", "33"));
    assert!(is_framed_or_bare(&m.success("done"), "|   + ", "done", "32"));
    assert!(is_framed_or_bare(&m.debug("cache"), "|   - ", "cache", "34"));
    assert!(is_framed_or_bare(&m.error("oops"), "|   ! ", "oops", "31"));
    let p = m.progress("half");
    assert!(p == "half\n" || p == "|    half\n");
}

#[test]
fn questions_end_without_newline() {
    let m = OutputManager::new(false);
    let q = m.question("name?");
    assert!(q == "name?" || q == "? name?" || q == "? \u{1b}[34mname?\u{1b}[0m");
    let y = m.yes_no_question("quit?", true);
    assert!(y == "quit? [Y/n] - " || y == "? quit? [Y/n] - " || y == "? \u{1b}[34mquit? [Y/n] - \u{1b}[0m");
    let n = m.yes_no_question("quit?", false);
    assert!(n == "quit? [y/N] - " || n == "? quit? [y/N] - " || n == "? \u{1b}[34mquit? [y/N] - \u{1b}[0m");
}

#[test]
fn yes_by_default() {
    assert!(!yes_no_answer("n", true));
    assert!(!yes_no_answer("N", true));
    assert!(!yes_no_answer(" n ", true));
    assert!(!yes_no_answer("n\n", true));
    assert!(yes_no_answer("", true));
    assert!(yes_no_answer("y", true));
    assert!(yes_no_answer("anything", true));
    assert!(yes_no_answer("no", true));
}

#[test]
fn no_by_default() {
    assert!(yes_no_answer("y", false));
    assert!(yes_no_answer("Y", false));
    assert!(yes_no_answer(" y\n", false));
    assert!(!yes_no_answer("", false));
    assert!(!yes_no_answer("n", false));
    assert!(!yes_no_answer("maybe", false));
    assert!(!yes_no_answer("yes", false));
}

#[test]
fn picks_taken_as_given() {
    assert!(pick_means_yes("y", false));
    assert!(!pick_means_yes("Y", false));
    assert!(!pick_means_yes("n", true));
    assert!(pick_means_yes("N", true));
}

#[test]
fn prompt_answers_are_trimmed() {
    assert_eq!(prompt_answer("  hello world \n"), "hello world");
    assert_eq!(prompt_answer("\t\n"), "");
    assert_eq!(prompt_answer("x"), "x");
}

#[test]
fn clear_commands_by_platform() {
    assert_eq!(clear_command(Platform::Linux).unwrap(), "clear");
    assert_eq!(clear_command(Platform::Darwin).unwrap(), "clear");
    assert_eq!(clear_command(Platform::Windows).unwrap(), "cls");
    let e = clear_command(Platform::Unknown).unwrap_err();
    assert_eq!(e.cause, Cause::GeneralError(String::from("Unsupported platform")));
    assert_eq!(e.message, "Unsupported platform");
    assert!(clear_outcome(true).is_ok());
    let f = clear_outcome(false).unwrap_err();
    assert_eq!(f.message, "Failed to clear the terminal");
    assert_eq!(f.cause, Cause::GeneralError(String::from("Failed to clear the terminal")));
}
