//! Commands that the kill switch asks its caller to run, and what comes back.

use vstd::prelude::*;
use crate::text;

verus! {

/// A program to run with its arguments. `privileged` asks for the program to
/// run with administrator rights (directly if it can, else through the
/// platform's elevation tool).
pub struct Command {
    pub program: String,
    pub args: Vec<String>,
    pub privileged: bool,
}

/// The mathematical value of a [`Command`].
pub struct CommandView {
    pub program: Seq<char>,
    pub args: Seq<Seq<char>>,
    pub privileged: bool,
}

impl View for Command {
    type V = CommandView;

    open spec fn view(&self) -> CommandView {
        CommandView { program: self.program@, args: text::views(self.args@), privileged: self.privileged }
    }
}

/// What a finished program reported: whether its exit status was success,
/// and the bytes it wrote to standard output and standard error.
pub struct CommandOutput {
    pub success: bool,
    pub stdout: Vec<u8>,
    pub stderr: Vec<u8>,
}

/// The mathematical value of a [`CommandOutput`].
pub struct OutputView {
    pub success: bool,
    pub stdout: Seq<u8>,
    pub stderr: Seq<u8>,
}

impl View for CommandOutput {
    type V = OutputView;

    open spec fn view(&self) -> OutputView {
        OutputView { success: self.success, stdout: self.stdout@, stderr: self.stderr@ }
    }
}

/// The view of the result of running a command: its output, or the message
/// of the error that kept it from running.
pub open spec fn outcome_view(o: Result<CommandOutput, String>) -> Result<OutputView, Seq<char>> {
    match o {
        Ok(out) => Ok(out@),
        Err(e) => Err(e@),
    }
}

/// Appends `s` to a list of arguments.
pub fn push_arg(args: &mut Vec<String>, s: &str)
    ensures
        text::views(final(args)@) == text::views(old(args)@).push(s@),
{
    let ghost before = args@;
    args.push(s.to_owned());
    assert(text::views(args@) =~= text::views(before).push(s@));
}

/// A plain command with the given arguments.
pub fn plain(program: &str, args: Vec<String>) -> (r: Command)
    ensures
        r@ == (CommandView { program: program@, args: text::views(args@), privileged: false }),
{
    Command { program: program.to_owned(), args, privileged: false }
}

/// The arguments of a PowerShell call that runs `script`.
pub open spec fn powershell_args(script: Seq<char>) -> Seq<Seq<char>> {
    seq!["-NoProfile"@, "-NonInteractive"@, "-Command"@, script]
}

/// The command that runs `script` in a non-interactive PowerShell.
pub open spec fn powershell_spec(script: Seq<char>) -> CommandView {
    CommandView { program: "powershell"@, args: powershell_args(script), privileged: false }
}

/// The command that runs `script` in a non-interactive PowerShell.
pub fn powershell(script: &str) -> (r: Command)
    ensures
        r@ == powershell_spec(script@),
{
    let mut args: Vec<String> = Vec::new();
    push_arg(&mut args, "-NoProfile");
    push_arg(&mut args, "-NonInteractive");
    push_arg(&mut args, "-Command");
    push_arg(&mut args, script);
    assert(text::views(args@) =~= powershell_args(script@));
    plain("powershell", args)
}

/// The message when `cmd` could not be started, `detail` being the
/// system's reason.
pub open spec fn launch_failure(cmd: CommandView, detail: Seq<char>) -> Seq<char> {
    if cmd.privileged {
        "Failed to run privileged command: "@ + detail
    } else if cmd.program == "powershell"@ {
        "Failed to run PowerShell: "@ + detail
    } else {
        "Failed to run command '"@ + cmd.program + "': "@ + detail
    }
}

/// The message when `cmd` could not be started.
pub fn launch_error(cmd: &Command, detail: &str) -> (r: String)
    ensures
        r@ == launch_failure(cmd@, detail@),
{
    if cmd.privileged {
        text::appended("Failed to run privileged command: ", detail)
    } else if text::same_text(cmd.program.as_str(), "powershell") {
        text::appended("Failed to run PowerShell: ", detail)
    } else {
        let head = text::appended("Failed to run command '", cmd.program.as_str());
        let mid = text::appended(head.as_str(), "': ");
        text::appended(mid.as_str(), detail)
    }
}

// ---------------------------------------------------------------------------
// Running with administrator rights
// ---------------------------------------------------------------------------

/// Whether a command run without elevation has to be run again with it:
/// it could not be started, or it ended without success.
pub open spec fn needs_elevation_spec(direct: Result<OutputView, Seq<char>>) -> bool {
    match direct {
        Ok(out) => !out.success,
        Err(_) => true,
    }
}

/// Whether a command run without elevation has to be run again with it.
pub fn needs_elevation(direct: &Result<CommandOutput, String>) -> (r: bool)
    ensures
        r == needs_elevation_spec(outcome_view(*direct)),
{
    match direct {
        Ok(out) => !out.success,
        Err(_) => true,
    }
}

/// `cmd` run through `pkexec`, the graphical elevation tool on Linux.
pub open spec fn pkexec_spec(cmd: CommandView) -> CommandView {
    CommandView { program: "pkexec"@, args: seq![cmd.program] + cmd.args, privileged: false }
}

/// `cmd` run through `pkexec`.
pub fn pkexec(cmd: &Command) -> (r: Command)
    ensures
        r@ == pkexec_spec(cmd@),
{
    let mut args: Vec<String> = Vec::new();
    push_arg(&mut args, cmd.program.as_str());
    let mut i: usize = 0;
    while i < cmd.args.len()
        invariant
            i <= cmd.args.len(),
            text::views(args@) == seq![cmd.program@] + text::views(cmd.args@).take(i as int),
        decreases cmd.args.len() - i,
    {
        push_arg(&mut args, cmd.args[i].as_str());
        i = i + 1;
        assert(text::views(args@) =~= seq![cmd.program@] + text::views(cmd.args@).take(i as int));
    }
    assert(text::views(cmd.args@).take(i as int) =~= text::views(cmd.args@));
    plain("pkexec", args)
}

/// `s` quoted for a POSIX shell: wrapped in single quotes, each single
/// quote inside written as `'\''`.
pub open spec fn shell_quoted(s: Seq<char>) -> Seq<char> {
    seq!['\''] + text::replace_char(s, '\'', "'\\''"@) + seq!['\'']
}

/// How a POSIX shell reads a word made of single-quoted runs and
/// backslash-escaped characters (`quoted`: inside single quotes): the
/// characters the word stands for, or `None` for any other form (an
/// unclosed quote, an unescaped character outside quotes).
pub open spec fn shell_read(s: Seq<char>, quoted: bool) -> Option<Seq<char>>
    decreases s.len(),
{
    if s.len() == 0 {
        if quoted {
            None
        } else {
            Some(Seq::empty())
        }
    } else if quoted {
        if s[0] == '\'' {
            shell_read(s.drop_first(), false)
        } else {
            match shell_read(s.drop_first(), true) {
                Some(r) => Some(seq![s[0]] + r),
                None => None,
            }
        }
    } else if s[0] == '\'' {
        shell_read(s.drop_first(), true)
    } else if s[0] == '\\' && s.len() >= 2 {
        match shell_read(s.subrange(2, s.len() as int), false) {
            Some(r) => Some(seq![s[1]] + r),
            None => None,
        }
    } else {
        None
    }
}

/// `p` in front of what `o` holds.
pub open spec fn prefixed(p: Seq<char>, o: Option<Seq<char>>) -> Option<Seq<char>> {
    match o {
        Some(r) => Some(p + r),
        None => None,
    }
}

/// Inside single quotes, the shell reads the quoted characters of `s` back
/// as `s`, up to the closing quote.
proof fn lemma_read_quoted_body(s: Seq<char>, u: Seq<char>)
    ensures
        shell_read(text::replace_char(s, '\'', "'\\''"@) + seq!['\''] + u, true) == prefixed(
            s,
            shell_read(u, false),
        ),
    decreases s.len(),
{
    reveal_strlit("'\\''");
    let esc = "'\\''"@;
    assert(esc =~= seq!['\'', '\\', '\'', '\'']);
    if s.len() == 0 {
        assert(text::replace_char(s, '\'', esc) + seq!['\''] + u =~= seq!['\''] + u);
        assert((seq!['\''] + u).drop_first() =~= u);
        match shell_read(u, false) {
            Some(r) => {
                assert(s + r =~= r);
            },
            None => {},
        }
    } else {
        let c = s[0];
        let rest = s.drop_first();
        assert(s =~= seq![c] + rest);
        text::lemma_replace_char_concat(seq![c], rest, '\'', esc);
        text::lemma_replace_char_single(c, '\'', esc);
        lemma_read_quoted_body(rest, u);
        let tail = text::replace_char(rest, '\'', esc) + seq!['\''] + u;
        if c == '\'' {
            assert(text::replace_char(seq![c], '\'', esc) =~= esc);
            let x = esc + tail;
            assert(text::replace_char(s, '\'', esc) + seq!['\''] + u =~= x);
            assert(x.drop_first() =~= seq!['\\', '\'', '\''] + tail);
            let x1 = x.drop_first();
            let x2 = x1.subrange(2, x1.len() as int);
            assert(x2 =~= seq!['\''] + tail);
            assert(x2.drop_first() =~= tail);
            assert(shell_read(x, true) == shell_read(x1, false));
            assert(shell_read(x1, false) == prefixed(seq!['\''], shell_read(x2, false)));
            assert(shell_read(x2, false) == shell_read(tail, true));
            match shell_read(u, false) {
                Some(r) => {
                    assert(seq!['\''] + (rest + r) =~= s + r);
                },
                None => {},
            }
        } else {
            assert(text::replace_char(seq![c], '\'', esc) =~= seq![c]);
            let x = seq![c] + tail;
            assert(text::replace_char(s, '\'', esc) + seq!['\''] + u =~= x);
            assert(x.drop_first() =~= tail);
            match shell_read(u, false) {
                Some(r) => {
                    assert(seq![c] + (rest + r) =~= s + r);
                },
                None => {},
            }
        }
    }
}

/// A POSIX shell reads a quoted string back as exactly that string, one
/// word, whatever quotes or other characters it holds: quoting keeps the
/// text of a command line from being read as shell syntax.
pub proof fn law_shell_quoting_reads_back(s: Seq<char>)
    ensures
        shell_read(shell_quoted(s), false) == Some(s),
{
    let body = text::replace_char(s, '\'', "'\\''"@);
    lemma_read_quoted_body(s, Seq::empty());
    assert(shell_quoted(s) =~= seq!['\''] + (body + seq!['\''] + Seq::<char>::empty()));
    assert(shell_quoted(s).drop_first() =~= body + seq!['\''] + Seq::<char>::empty());
    assert(s + Seq::<char>::empty() =~= s);
}

/// `s` quoted for a POSIX shell.
pub fn shell_escape(s: &str) -> (r: String)
    ensures
        r@ == shell_quoted(s@),
{
    let inner = text::replaced(s, '\'', "'\\''");
    let mut r = String::new();
    text::push_char(&mut r, '\'');
    text::push_all(&mut r, inner.as_str());
    text::push_char(&mut r, '\'');
    assert(r@ =~= shell_quoted(s@));
    r
}

/// Each of `ps` quoted for the shell.
pub open spec fn quote_all(ps: Seq<Seq<char>>) -> Seq<Seq<char>> {
    ps.map_values(|p: Seq<char>| shell_quoted(p))
}

/// The program and arguments of `cmd`, each quoted for the shell.
pub open spec fn quoted_parts(cmd: CommandView) -> Seq<Seq<char>> {
    quote_all(seq![cmd.program] + cmd.args)
}

/// The AppleScript line that runs `cmd` in a shell with administrator
/// privileges.
pub open spec fn osascript_line(cmd: CommandView) -> Seq<char> {
    "do shell script "@ + text::join(quoted_parts(cmd), " "@) + " with administrator privileges"@
}

/// `cmd` run through `osascript`, the elevation route on macOS. The words
/// are quoted for the shell (see `law_shell_quoting_reads_back`); AppleScript
/// reads the line first, and does not take single-quoted text as a string.
pub open spec fn osascript_spec(cmd: CommandView) -> CommandView {
    CommandView { program: "osascript"@, args: seq!["-e"@, osascript_line(cmd)], privileged: false }
}

/// `cmd` run through `osascript` with administrator privileges.
pub fn osascript(cmd: &Command) -> (r: Command)
    ensures
        r@ == osascript_spec(cmd@),
{
    let mut parts: Vec<String> = Vec::new();
    parts.push(shell_escape(cmd.program.as_str()));
    let ghost all = seq![cmd.program@] + text::views(cmd.args@);
    assert(text::views(parts@) =~= quote_all(all.take(1)));
    let mut i: usize = 0;
    while i < cmd.args.len()
        invariant
            i <= cmd.args.len(),
            all == seq![cmd.program@] + text::views(cmd.args@),
            text::views(parts@) == quote_all(all.take(i + 1)),
        decreases cmd.args.len() - i,
    {
        let q = shell_escape(cmd.args[i].as_str());
        let ghost before = parts@;
        parts.push(q);
        assert(text::views(parts@) =~= text::views(before).push(q@));
        assert(all[i + 1] == text::views(cmd.args@)[i as int]);
        assert(all.take(i + 2) =~= all.take(i + 1).push(all[i + 1]));
        i = i + 1;
        assert(text::views(parts@) =~= quote_all(all.take(i + 1)));
    }
    assert(all.take(i + 1) =~= all);
    let body = text::joined(&parts, " ");
    let head = text::appended("do shell script ", body.as_str());
    let script = text::appended(head.as_str(), " with administrator privileges");
    let mut args: Vec<String> = Vec::new();
    push_arg(&mut args, "-e");
    push_arg(&mut args, script.as_str());
    assert(text::views(args@) =~= seq!["-e"@, osascript_line(cmd@)]);
    plain("osascript", args)
}

} // verus!
