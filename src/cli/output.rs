use vstd::prelude::*;

use colored::Colorize;

use crate::error::{Cause, Error};
use crate::sys::Platform;

verus! {

/// One level of indentation.
pub open spec fn pad_unit() -> Seq<char> {
    seq!['|', ' ', ' ', ' ']
}

/// The padding rendered for depth `d`: `d` copies of the unit, nothing for `d <= 0`.
pub open spec fn padding_of(d: int) -> Seq<char>
    decreases d,
{
    if d <= 0 {
        Seq::empty()
    } else {
        padding_of(d - 1) + pad_unit()
    }
}

/// The padding for depth `d >= 0` is exactly `4 * d` characters long and is made of `d`
/// copies of the four-character unit, one after the other.
pub proof fn lemma_padding_shape(d: int)
    requires
        d >= 0,
    ensures
        padding_of(d).len() == 4 * d,
        forall|k: int| 0 <= k < d ==> #[trigger] padding_of(d).subrange(4 * k, 4 * k + 4) == pad_unit(),
    decreases d,
{
    if d > 0 {
        lemma_padding_shape(d - 1);
        let prev = padding_of(d - 1);
        assert forall|k: int| 0 <= k < d implies #[trigger] padding_of(d).subrange(4 * k, 4 * k + 4)
            == pad_unit() by {
            if k < d - 1 {
                assert(padding_of(d).subrange(4 * k, 4 * k + 4) =~= prev.subrange(4 * k, 4 * k + 4));
            } else {
                assert(padding_of(d).subrange(4 * k, 4 * k + 4) =~= pad_unit());
            }
        }
    }
}

/// Builds the left padding for an indentation depth; a depth of zero or less gives nothing.
pub fn make_padding(length: i32) -> (pad: String)
    ensures
        pad@ == padding_of(length as int),
{
    let mut pad = String::new();
    if length > 0 {
        let mut i: i32 = 0;
        while i < length
            invariant
                0 <= i <= length,
                pad@ == padding_of(i as int),
            decreases length - i,
        {
            pad.append("|   ");
            proof {
                reveal_strlit("|   ");
                assert("|   "@ =~= pad_unit());
            }
            i = i + 1;
        }
    }
    pad
}

/// The output channels of a manager.
#[derive(Clone, Copy, Debug, PartialEq, Eq, Structural)]
pub enum Channel {
    /// A step, marked `+` and shown in yellow.
    Step,
    /// A success, marked `+` and shown in green.
    Success,
    /// A progress message, with no marker and no colour.
    Progress,
    /// A debug message, marked `-` and shown in blue; only shown by verbose managers.
    Debug,
    /// An error, marked `!` and shown in red.
    Error,
}

/// The marker that precedes a message of the channel.
pub open spec fn marker_of(c: Channel) -> Seq<char> {
    match c {
        Channel::Step => seq!['+'],
        Channel::Success => seq!['+'],
        Channel::Progress => Seq::empty(),
        Channel::Debug => seq!['-'],
        Channel::Error => seq!['!'],
    }
}

/// The marker that precedes a prompt.
pub open spec fn question_marker() -> Seq<char> {
    seq!['?']
}

/// Whether the channel is silent unless the manager is verbose.
pub open spec fn gated(c: Channel) -> bool {
    c == Channel::Debug
}

/// Whether a manager in state `v` writes nothing at all on channel `c`.
pub open spec fn suppressed(v: OutputView, c: Channel) -> bool {
    gated(c) && !v.verbose
}

/// Padding, then the marker, a space and the body.
pub open spec fn framed(depth: int, marker: Seq<char>, body: Seq<char>) -> Seq<char> {
    padding_of(depth) + marker + seq![' '] + body
}

/// What a manager in state `v` writes for `msg` on channel `c`, when the message shows as
/// `painted` on a terminal. Redirected output holds the bare message; a suppressed channel
/// writes nothing.
pub open spec fn line_text(
    v: OutputView,
    c: Channel,
    msg: Seq<char>,
    painted: Seq<char>,
    interactive: bool,
) -> Seq<char> {
    if suppressed(v, c) {
        Seq::empty()
    } else if !interactive {
        msg + seq!['\n']
    } else {
        framed(v.depth, marker_of(c), painted) + seq!['\n']
    }
}

/// What a manager in state `v` writes before it waits for an answer: no newline follows.
pub open spec fn prompt_text(
    v: OutputView,
    msg: Seq<char>,
    painted: Seq<char>,
    interactive: bool,
) -> Seq<char> {
    if !interactive {
        msg
    } else {
        framed(v.depth, question_marker(), painted)
    }
}

/// The colour code of the channel, as a terminal's select-graphic-rendition parameter.
pub open spec fn color_code(c: Channel) -> Seq<char> {
    match c {
        Channel::Step => seq!['3', '3'],
        Channel::Success => seq!['3', '2'],
        Channel::Progress => Seq::empty(),
        Channel::Debug => seq!['3', '4'],
        Channel::Error => seq!['3', '1'],
    }
}

/// The colour code of a prompt (blue).
pub open spec fn question_code() -> Seq<char> {
    seq!['3', '4']
}

/// The escape sequence that switches a terminal to the colour `code`.
pub open spec fn color_start(code: Seq<char>) -> Seq<char> {
    seq!['\u{1b}', '['] + code + seq!['m']
}

/// The escape sequence that restores a terminal's default style.
pub open spec fn color_reset() -> Seq<char> {
    seq!['\u{1b}', '[', '0', 'm']
}

/// Whether `s` holds no escape character.
pub open spec fn no_escape(s: Seq<char>) -> bool {
    forall|i: int| 0 <= i < s.len() ==> s[i] != '\u{1b}'
}

/// Whether `p` is a way in which `msg`, coloured with `code`, may show: left as it is where
/// colouring is off, or wrapped in the colour's start and reset sequences where it is on.
/// Where it is on, a message holding reset sequences of its own has the colour started
/// again after each of them.
pub open spec fn painted_as(code: Seq<char>, msg: Seq<char>, p: Seq<char>) -> bool {
    ||| p == msg
    ||| {
        &&& p.len() >= color_start(code).len() + color_reset().len()
        &&& p.take(color_start(code).len() as int) == color_start(code)
        &&& p.skip(p.len() - color_reset().len()) == color_reset()
        &&& no_escape(msg) ==> p == color_start(code) + msg + color_reset()
    }
}

/// Whether `p` is a way in which `msg` may show on channel `c`.
pub open spec fn shows_as(c: Channel, msg: Seq<char>, p: Seq<char>) -> bool {
    if c == Channel::Progress {
        p == msg
    } else {
        painted_as(color_code(c), msg, p)
    }
}

/// Whether `out` is what a manager in state `v` may write for `msg` on channel `c`, whether
/// or not standard output is a terminal and whether or not colouring is on.
pub open spec fn emits(v: OutputView, c: Channel, msg: Seq<char>, out: Seq<char>) -> bool {
    exists|interactive: bool, p: Seq<char>|
        shows_as(c, msg, p) && out == #[trigger] line_text(v, c, msg, p, interactive)
}

/// Relies on atty::is: whether standard output is attached to a terminal.
#[verifier::external_body]
fn stdout_is_terminal() -> bool {
    atty::is(atty::Stream::Stdout)
}

/// Relies on colored's `yellow` and its `Display`: the message, bare or in yellow.
#[verifier::external_body]
fn paint_yellow(msg: &str) -> (r: String)
    ensures
        painted_as(color_code(Channel::Step), msg@, r@),
{
    msg.yellow().to_string()
}

/// Relies on colored's `green` and its `Display`: the message, bare or in green.
#[verifier::external_body]
fn paint_green(msg: &str) -> (r: String)
    ensures
        painted_as(color_code(Channel::Success), msg@, r@),
{
    msg.green().to_string()
}

/// Relies on colored's `blue` and its `Display`: the message, bare or in blue.
#[verifier::external_body]
fn paint_blue(msg: &str) -> (r: String)
    ensures
        painted_as(question_code(), msg@, r@),
{
    msg.blue().to_string()
}

/// Relies on colored's `red` and its `Display`: the message, bare or in red.
#[verifier::external_body]
fn paint_red(msg: &str) -> (r: String)
    ensures
        painted_as(color_code(Channel::Error), msg@, r@),
{
    msg.red().to_string()
}

/// The message as channel `c` shows it on a terminal.
fn paint(c: Channel, msg: &str) -> (r: String)
    ensures
        shows_as(c, msg@, r@),
{
    match c {
        Channel::Step => paint_yellow(msg),
        Channel::Success => paint_green(msg),
        Channel::Progress => String::from_str(msg),
        Channel::Debug => paint_blue(msg),
        Channel::Error => paint_red(msg),
    }
}

/// Whether `out` is what a manager in state `v` may write before it waits for an answer to
/// `msg`, whether or not standard output is a terminal and whether or not colouring is on.
pub open spec fn asks(v: OutputView, msg: Seq<char>, out: Seq<char>) -> bool {
    exists|interactive: bool, p: Seq<char>|
        painted_as(question_code(), msg, p) && out == #[trigger] prompt_text(v, msg, p, interactive)
}

/// The hint that follows a yes/no question, which shows the answer taken on an empty line.
pub open spec fn yes_no_hint(default: bool) -> Seq<char> {
    if default {
        seq![' ', '[', 'Y', '/', 'n', ']', ' ', '-', ' ']
    } else {
        seq![' ', '[', 'y', '/', 'N', ']', ' ', '-', ' ']
    }
}

/// The text with leading and trailing whitespace removed.
pub uninterp spec fn trimmed(s: Seq<char>) -> Seq<char>;

/// The character with an ASCII capital letter turned into its small letter.
pub open spec fn ascii_lower_char(c: char) -> char {
    if 'A' <= c && c <= 'Z' {
        ((c as u32) + 32) as char
    } else {
        c
    }
}

/// The text with each ASCII capital letter turned into its small letter.
pub open spec fn ascii_lower(s: Seq<char>) -> Seq<char> {
    s.map_values(|c: char| ascii_lower_char(c))
}

/// Whether the answer `pick` (trimmed and in small letters) means yes: with a default of
/// yes, anything but `n`; with a default of no, only `y`.
pub open spec fn means_yes(pick: Seq<char>, default: bool) -> bool {
    if default {
        pick != seq!['n']
    } else {
        pick == seq!['y']
    }
}

/// Relies on str::trim: leading and trailing whitespace removed, as a function of the text.
#[verifier::external_body]
fn trim_text(s: &str) -> (r: &str)
    ensures
        r@ == trimmed(s@),
{
    s.trim()
}

/// Relies on str::to_ascii_lowercase: `A` to `Z` become `a` to `z`, all else is kept.
#[verifier::external_body]
fn to_ascii_lower(s: &str) -> (r: String)
    ensures
        r@ == ascii_lower(s@),
{
    s.to_ascii_lowercase()
}

/// The answer of a prompt: the line read, without leading and trailing whitespace.
pub fn prompt_answer(line: &str) -> (r: String)
    ensures
        r@ == trimmed(line@),
{
    String::from_str(trim_text(line))
}

/// Whether a yes/no answer, already trimmed and in small letters, means yes.
pub fn pick_means_yes(pick: &str, default: bool) -> (r: bool)
    ensures
        r == means_yes(pick@, default),
{
    let pick = String::from_str(pick);
    if default {
        let no = String::from_str("n");
        proof {
            reveal_strlit("n");
            assert(no@ =~= seq!['n']);
        }
        pick != no
    } else {
        let yes = String::from_str("y");
        proof {
            reveal_strlit("y");
            assert(yes@ =~= seq!['y']);
        }
        pick == yes
    }
}

/// Whether the line read for a yes/no question means yes. The line is trimmed and put in
/// small letters; then, with a default of yes, anything but `n` means yes, and with a
/// default of no, only `y` does.
pub fn yes_no_answer(line: &str, default: bool) -> (r: bool)
    ensures
        r == means_yes(ascii_lower(trimmed(line@)), default),
{
    let pick = to_ascii_lower(trim_text(line));
    pick_means_yes(pick.as_str(), default)
}

/// Whether `e` is a general error whose detail and message are both `msg`.
pub open spec fn is_general_error(e: Error, msg: Seq<char>) -> bool {
    e.cause matches Cause::GeneralError(d) && d@ == msg && e.message@ == msg
}

/// A general error whose detail and message are both `msg`.
fn general_error(msg: &str) -> (e: Error)
    ensures
        is_general_error(e, msg@),
{
    Error::new(Cause::GeneralError(String::from_str(msg)), msg)
}

/// The program that clears the terminal on `platform`: `clear` on Linux and Darwin, `cls` on
/// Windows. An unknown platform gives a general error, `Unsupported platform`.
pub fn clear_command(platform: Platform) -> (r: Result<String, Error>)
    ensures
        platform == Platform::Unknown <==> r is Err,
        r matches Ok(c) ==> (platform == Platform::Windows ==> c@ == "cls"@) && (platform
            != Platform::Windows ==> c@ == "clear"@),
        r matches Err(e) ==> is_general_error(e, "Unsupported platform"@),
{
    match platform {
        Platform::Linux | Platform::Darwin => Ok(String::from_str("clear")),
        Platform::Windows => Ok(String::from_str("cls")),
        Platform::Unknown => Err(general_error("Unsupported platform")),
    }
}

/// The outcome of a clearing program that exited with or without success: a general error,
/// `Failed to clear the terminal`, for the latter.
pub fn clear_outcome(success: bool) -> (r: Result<(), Error>)
    ensures
        success <==> r is Ok,
        r matches Err(e) ==> is_general_error(e, "Failed to clear the terminal"@),
{
    if success {
        Ok(())
    } else {
        Err(general_error("Failed to clear the terminal"))
    }
}

/// The marker of a channel.
pub fn marker(c: Channel) -> (r: &'static str)
    ensures
        r@ == marker_of(c),
{
    proof {
        reveal_strlit("+");
        reveal_strlit("-");
        reveal_strlit("!");
        reveal_strlit("");
    }
    match c {
        Channel::Step => "+",
        Channel::Success => "+",
        Channel::Progress => "",
        Channel::Debug => "-",
        Channel::Error => "!",
    }
}

/// Padding, then the marker, a space and the body.
fn frame(depth: i32, mark: &str, body: &str) -> (r: String)
    ensures
        r@ == framed(depth as int, mark@, body@),
{
    let mut out = make_padding(depth);
    out.append(mark);
    out.append(" ");
    out.append(body);
    proof {
        reveal_strlit(" ");
    }
    out
}

/// Writes leveled, indented and colour-coded lines to a terminal.
///
/// A manager is an immutable value: `push` and `with_padding` derive a new manager with the
/// same verbosity and another indentation depth, and leave the original untouched.
#[derive(Clone, Copy, Debug)]
pub struct OutputManager {
    /// Whether debug messages are shown.
    pub verbose: bool,
    padding: i32,
}

/// What a manager is: its verbosity and its indentation depth.
pub struct OutputView {
    pub verbose: bool,
    pub depth: int,
}

impl View for OutputManager {
    type V = OutputView;

    closed spec fn view(&self) -> OutputView {
        OutputView { verbose: self.verbose, depth: self.padding as int }
    }
}

/// The state of a manager one level deeper than `v`.
pub open spec fn pushed(v: OutputView) -> OutputView {
    OutputView { verbose: v.verbose, depth: v.depth + 1 }
}

/// The state of a manager like `v` at depth `n`.
pub open spec fn repadded(v: OutputView, n: int) -> OutputView {
    OutputView { verbose: v.verbose, depth: n }
}

/// Pushing twice gives the manager that re-padding to two levels deeper gives, which writes
/// the same text on every channel and for every prompt.
pub proof fn lemma_push_twice(v: OutputView)
    ensures
        pushed(pushed(v)) == repadded(v, v.depth + 2),
        forall|c: Channel, msg: Seq<char>, p: Seq<char>, interactive: bool|
            #[trigger] line_text(pushed(pushed(v)), c, msg, p, interactive) == line_text(
                repadded(v, v.depth + 2),
                c,
                msg,
                p,
                interactive,
            ),
        forall|msg: Seq<char>, p: Seq<char>, interactive: bool|
            #[trigger] prompt_text(pushed(pushed(v)), msg, p, interactive) == prompt_text(
                repadded(v, v.depth + 2),
                msg,
                p,
                interactive,
            ),
{
}

impl OutputManager {

    /// Returns a manager of the given verbosity, at depth zero.
    pub fn new(verbose: bool) -> (r: OutputManager)
        ensures
            r@.verbose == verbose,
            r@.depth == 0,
    {
        OutputManager { verbose, padding: 0 }
    }

    /// Returns a new manager with the same verbosity, one level deeper.
    pub fn push(&self) -> (r: OutputManager)
        requires
            self@.depth < i32::MAX,
        ensures
            r@ == pushed(self@),
            r@.verbose == self@.verbose,
    {
        OutputManager { verbose: self.verbose, padding: self.padding + 1 }
    }

    /// Returns a new manager with the same verbosity, at the given depth.
    pub fn with_padding(&self, padding: i32) -> (r: OutputManager)
        ensures
            r@ == repadded(self@, padding as int),
            r@.verbose == self@.verbose,
    {
        OutputManager { verbose: self.verbose, padding }
    }

    /// The text that the manager writes for `msg` on `channel`: the bare message and a newline
    /// when `interactive` is false; otherwise the padding, the channel's marker, a space,
    /// `painted` (the message as the terminal shows it) and a newline. A debug message of a
    /// manager that is not verbose writes nothing.
    pub fn render(&self, channel: Channel, msg: &str, painted: &str, interactive: bool) -> (r:
        String)
        ensures
            r@ == line_text(self@, channel, msg@, painted@, interactive),
            channel == Channel::Debug && !self@.verbose ==> r@.len() == 0,
            !interactive && !suppressed(self@, channel) ==> r@ == msg@ + seq!['\n'],
    {
        if !self.verbose && channel == Channel::Debug {
            return String::new();
        }
        let mut out;
        if !interactive {
            out = String::from_str(msg);
        } else {
            out = frame(self.padding, marker(channel), painted);
        }
        out.append("\n");
        proof {
            reveal_strlit("\n");
        }
        out
    }

    /// The text that the manager writes before it waits for an answer: the bare message
    /// when `interactive` is false; otherwise the padding, `?`, a space and `painted`.
    pub fn render_prompt(&self, msg: &str, painted: &str, interactive: bool) -> (r: String)
        ensures
            r@ == prompt_text(self@, msg@, painted@, interactive),
    {
        if !interactive {
            String::from_str(msg)
        } else {
            proof {
                reveal_strlit("?");
            }
            frame(self.padding, "?", painted)
        }
    }

    /// The text to write for `msg` on `channel`, as `render` gives it for the terminal
    /// state and colouring found at the call.
    fn emit(&self, channel: Channel, msg: &str) -> (r: String)
        ensures
            emits(self@, channel, msg@, r@),
            channel == Channel::Debug && !self@.verbose ==> r@.len() == 0,
    {
        if !self.verbose && channel == Channel::Debug {
            let r = self.render(channel, msg, msg, false);
            assert(line_text(self@, channel, msg@, msg@, false) == r@);
            return r;
        }
        let interactive = stdout_is_terminal();
        let painted = paint(channel, msg);
        let r = self.render(channel, msg, painted.as_str(), interactive);
        assert(line_text(self@, channel, msg@, painted@, interactive) == r@);
        r
    }

    /// The text to write for a step: `msg` in yellow, marked `+`.
    pub fn step(&self, msg: &str) -> (r: String)
        ensures
            emits(self@, Channel::Step, msg@, r@),
    {
        self.emit(Channel::Step, msg)
    }

    /// The text to write for a progress message: `msg` with no marker and no colour.
    pub fn progress(&self, msg: &str) -> (r: String)
        ensures
            emits(self@, Channel::Progress, msg@, r@),
    {
        self.emit(Channel::Progress, msg)
    }

    /// The text to write for a success: `msg` in green, marked `+`.
    pub fn success(&self, msg: &str) -> (r: String)
        ensures
            emits(self@, Channel::Success, msg@, r@),
    {
        self.emit(Channel::Success, msg)
    }

    /// The text to write for a debug message: `msg` in blue, marked `-`; nothing at all
    /// unless the manager is verbose.
    pub fn debug(&self, msg: &str) -> (r: String)
        ensures
            emits(self@, Channel::Debug, msg@, r@),
            !self@.verbose ==> r@.len() == 0,
    {
        self.emit(Channel::Debug, msg)
    }

    /// The text to write for an error: `msg` in red, marked `!`.
    pub fn error(&self, msg: &str) -> (r: String)
        ensures
            emits(self@, Channel::Error, msg@, r@),
    {
        self.emit(Channel::Error, msg)
    }

    /// The text to write before waiting for an answer to `msg`: `msg` in blue, marked `?`,
    /// with no newline.
    pub fn question(&self, msg: &str) -> (r: String)
        ensures
            asks(self@, msg@, r@),
    {
        let interactive = stdout_is_terminal();
        let painted = paint_blue(msg);
        let r = self.render_prompt(msg, painted.as_str(), interactive);
        assert(prompt_text(self@, msg@, painted@, interactive) == r@);
        r
    }

    /// The text to write before waiting for a yes or a no: `msg` followed by `[Y/n] - `
    /// when the default is yes and by `[y/N] - ` when it is no, in blue, marked `?`.
    pub fn yes_no_question(&self, msg: &str, default: bool) -> (r: String)
        ensures
            asks(self@, msg@ + yes_no_hint(default), r@),
    {
        let mut full = String::from_str(msg);
        if default {
            full.append(" [Y/n] - ");
            proof {
                reveal_strlit(" [Y/n] - ");
            }
            assert(full@ =~= msg@ + yes_no_hint(default));
        } else {
            full.append(" [y/N] - ");
            proof {
                reveal_strlit(" [y/N] - ");
            }
            assert(full@ =~= msg@ + yes_no_hint(default));
        }
        self.question(full.as_str())
    }

    /// The indentation depth of this manager.
    pub fn padding(&self) -> (r: i32)
        ensures
            r as int == self@.depth,
    {
        self.padding
    }
}

} // verus!
