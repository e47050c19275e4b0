//! The computing half of the command-execution layer: building command
//! lines (with shell quoting where a shell interprets them), decoding the
//! platform's wait status, classifying a captured outcome, and turning raw
//! output bytes into text with the documented placeholder for bytes that
//! are not text. The process plumbing itself — spawning, duplicating,
//! piping — lives outside the library and hands plain values in and out.
use vstd::prelude::*;

use crate::text::spec_i64_str;
use crate::text::i64_to_string;
use vstd::utf8::decode_utf8;
use vstd::utf8::valid_utf8;

verus! {

/// The ways the probe can run an external command.
#[derive(Debug, Clone, Copy, PartialEq, Eq, Structural)]
pub enum ExecutionStrategy {
    /// Spawn the command directly, with no shell interpretation.
    Direct,
    /// Build a quoted command line and run it through a shell interpreter.
    Shell,
    /// Duplicate the process; the child replaces its program image.
    ForkExec,
    /// Duplicate the process; the child runs the platform's blocking
    /// run-command primitive with its streams bound to pipes.
    ForkSyscall,
    /// No execution: probe whether the binary exists on the search path.
    ExistenceCheck,
}

/// One request to run an external command.
#[derive(Debug, Clone)]
pub struct ExecutionRequest {
    pub command: String,
    pub args: Vec<String>,
    pub strategy: ExecutionStrategy,
}

/// The strategy a configured method name selects; unrecognized names fall
/// back to the default of spawning through the standard library.
pub open spec fn spec_strategy_for(name: Seq<char>) -> ExecutionStrategy {
    if name == "no_fork"@ {
        ExecutionStrategy::Shell
    } else if name == "execv"@ {
        ExecutionStrategy::ForkExec
    } else if name == "libc"@ {
        ExecutionStrategy::ForkSyscall
    } else if name == "direct_check"@ {
        ExecutionStrategy::ExistenceCheck
    } else {
        ExecutionStrategy::Direct
    }
}

/// Selects the execution strategy a configured method name stands for.
pub fn strategy_for(name: &str) -> (r: ExecutionStrategy)
    ensures
        r == spec_strategy_for(name@),
{
    if crate::text::str_eq(name, "no_fork") {
        ExecutionStrategy::Shell
    } else if crate::text::str_eq(name, "execv") {
        ExecutionStrategy::ForkExec
    } else if crate::text::str_eq(name, "libc") {
        ExecutionStrategy::ForkSyscall
    } else if crate::text::str_eq(name, "direct_check") {
        ExecutionStrategy::ExistenceCheck
    } else {
        ExecutionStrategy::Direct
    }
}

/// A character that needs no shell quoting: a basic-latin letter or digit,
/// a hyphen or an underscore.
pub open spec fn is_plain_char(c: char) -> bool {
    (48 <= c as u32 <= 57) || (65 <= c as u32 <= 90) || (97 <= c as u32 <= 122) || c == '-' || c
        == '_'
}

/// Every character of the argument is plain.
pub open spec fn all_plain(s: Seq<char>) -> bool {
    forall|i: int| 0 <= i < s.len() ==> is_plain_char(#[trigger] s[i])
}

/// What one character contributes inside single quotes: a single quote
/// closes the quoting, emits an escaped quote, and reopens it.
pub open spec fn spec_escape_char(c: char) -> Seq<char> {
    if c == '\'' {
        seq!['\'', '\\', '\'', '\'']
    } else {
        seq![c]
    }
}

/// The body of a quoted argument, character by character.
pub open spec fn spec_escape_body(s: Seq<char>) -> Seq<char>
    decreases s.len(),
{
    if s.len() == 0 {
        Seq::empty()
    } else {
        spec_escape_body(s.drop_last()) + spec_escape_char(s.last())
    }
}

/// A shell-safe rendering of an argument: unchanged when every character
/// is plain, otherwise wrapped in single quotes with inner quotes escaped.
pub open spec fn spec_shell_escape(s: Seq<char>) -> Seq<char> {
    if all_plain(s) {
        s
    } else {
        seq!['\''] + spec_escape_body(s) + seq!['\'']
    }
}

fn is_plain(c: char) -> (r: bool)
    ensures
        r == is_plain_char(c),
{
    let v = c as u32;
    (48 <= v && v <= 57) || (65 <= v && v <= 90) || (97 <= v && v <= 122) || c == '-' || c == '_'
}

/// Quotes a command argument for the shell where needed.
#[verifier::loop_isolation(false)]
pub fn shell_escape(arg: &str) -> (r: String)
    ensures
        r@ == spec_shell_escape(arg@),
{
    let n = arg.unicode_len();
    let mut plain = true;
    let mut i: usize = 0;
    while i < n
        invariant
            i <= n,
            plain == all_plain(arg@.take(i as int)),
        decreases n - i,
    {
        proof {
            assert(arg@.take(i as int + 1).drop_last() =~= arg@.take(i as int));
        }
        if !is_plain(arg.get_char(i)) {
            proof {
                assert(arg@.take(i as int + 1)[i as int] == arg@[i as int]);
                assert(!all_plain(arg@.take(i as int + 1)));
            }
            plain = false;
        } else {
            proof {
                let q = arg@.take(i as int);
                let p = arg@.take(i as int + 1);
                assert(p[i as int] == arg@[i as int]);
                if all_plain(q) {
                    assert forall|k: int| 0 <= k < p.len() implies is_plain_char(
                        #[trigger] p[k],
                    ) by {
                        if k < i {
                            assert(q[k] == p[k]);
                            assert(is_plain_char(q[k]));
                        }
                    }
                    assert(all_plain(p));
                } else {
                    let k0 = choose|k: int| 0 <= k < q.len() && !is_plain_char(q[k]);
                    assert(p[k0] == q[k0]);
                    assert(!all_plain(p));
                }
            }
        }
        i = i + 1;
    }
    proof {
        assert(arg@.take(n as int) =~= arg@);
    }
    if plain {
        return arg.to_owned();
    }
    proof {
        reveal_strlit("'");
        reveal_strlit("'\\''");
    }
    let mut out = "'".to_owned();
    let mut j: usize = 0;
    proof {
        assert(out@ =~= seq!['\''] + spec_escape_body(arg@.take(0)));
    }
    while j < n
        invariant
            j <= n,
            out@ == seq!['\''] + spec_escape_body(arg@.take(j as int)),
        decreases n - j,
    {
        proof {
            assert(arg@.take(j as int + 1).drop_last() =~= arg@.take(j as int));
            assert(arg@.take(j as int + 1).last() == arg@[j as int]);
        }
        if arg.get_char(j) == '\'' {
            out.append("'\\''");
        } else {
            let piece = arg.substring_char(j, j + 1);
            proof {
                assert(piece@ =~= seq![arg@[j as int]]);
            }
            out.append(piece);
        }
        proof {
            assert(out@ =~= seq!['\''] + spec_escape_body(arg@.take(j as int + 1)));
        }
        j = j + 1;
    }
    out.append("'");
    proof {
        assert(arg@.take(n as int) =~= arg@);
        assert(out@ =~= seq!['\''] + spec_escape_body(arg@) + seq!['\'']);
    }
    out
}

/// The pieces joined with single spaces between them.
pub open spec fn spec_join_spaces(parts: Seq<Seq<char>>) -> Seq<char>
    decreases parts.len(),
{
    if parts.len() == 0 {
        Seq::empty()
    } else if parts.len() == 1 {
        parts[0]
    } else {
        spec_join_spaces(parts.drop_last()) + seq![' '] + parts.last()
    }
}

/// Joins strings with single spaces between them.
#[verifier::loop_isolation(false)]
pub fn join_spaces(parts: &Vec<String>) -> (r: String)
    ensures
        r@ == spec_join_spaces(parts.deep_view()),
{
    let ghost pv = parts.deep_view();
    let mut out = String::new();
    let mut i: usize = 0;
    proof {
        assert(out@ =~= spec_join_spaces(pv.take(0)));
    }
    while i < parts.len()
        invariant
            i <= pv.len(),
            out@ == spec_join_spaces(pv.take(i as int)),
        decreases pv.len() - i,
    {
        proof {
            assert(pv[i as int] == parts@[i as int]@);
            assert(pv.take(i as int + 1).drop_last() =~= pv.take(i as int));
            assert(pv.take(i as int + 1).last() == pv[i as int]);
        }
        if i > 0 {
            proof {
                reveal_strlit(" ");
            }
            out.append(" ");
        }
        out.append(parts[i].as_str());
        proof {
            if i == 0 {
                assert(out@ =~= spec_join_spaces(pv.take(1)));
            } else {
                assert(out@ =~= spec_join_spaces(pv.take(i as int + 1)));
            }
        }
        i = i + 1;
    }
    proof {
        assert(pv.take(pv.len() as int) =~= pv);
    }
    out
}

/// The command and its raw arguments joined with spaces, as handed to a
/// shell interpreter.
pub open spec fn spec_plain_command_line(cmd: Seq<char>, args: Seq<Seq<char>>) -> Seq<char> {
    cmd + seq![' '] + spec_join_spaces(args)
}

/// Builds the unquoted command line run through the shell: the command,
/// one space, and the arguments joined with spaces.
pub fn build_plain_command_line(command: &str, args: &Vec<String>) -> (r: String)
    ensures
        r@ == spec_plain_command_line(command@, args.deep_view()),
{
    let mut out = command.to_owned();
    proof {
        reveal_strlit(" ");
    }
    out.append(" ");
    let joined = join_spaces(args);
    out.append(joined.as_str());
    proof {
        assert(out@ =~= spec_plain_command_line(command@, args.deep_view()));
    }
    out
}

/// The command and its arguments, each argument quoted for the shell,
/// joined with spaces.
pub open spec fn spec_escaped_command_line(cmd: Seq<char>, args: Seq<Seq<char>>) -> Seq<char> {
    cmd + seq![' '] + spec_join_spaces(args.map_values(|a: Seq<char>| spec_shell_escape(a)))
}

/// Builds the quoted command line handed to the platform's run-command
/// primitive: the command, one space, and each argument shell-quoted.
pub fn build_escaped_command_line(command: &str, args: &Vec<String>) -> (r: String)
    ensures
        r@ == spec_escaped_command_line(command@, args.deep_view()),
{
    let ghost av = args.deep_view();
    let mut escaped: Vec<String> = Vec::new();
    let mut i: usize = 0;
    proof {
        assert(escaped.deep_view() =~= av.map_values(|a: Seq<char>| spec_shell_escape(a)).take(0));
    }
    while i < args.len()
        invariant
            i <= av.len(),
            av == args.deep_view(),
            escaped.deep_view() == av.map_values(|a: Seq<char>| spec_shell_escape(a)).take(
                i as int,
            ),
        decreases av.len() - i,
    {
        proof {
            assert(av[i as int] == args@[i as int]@);
        }
        let e = shell_escape(args[i].as_str());
        let ghost prev = escaped.deep_view();
        escaped.push(e);
        proof {
            assert(escaped.deep_view() =~= prev.push(spec_shell_escape(av[i as int])));
            assert(prev.push(spec_shell_escape(av[i as int])) =~= av.map_values(
                |a: Seq<char>| spec_shell_escape(a),
            ).take(i as int + 1));
        }
        i = i + 1;
    }
    proof {
        let m = av.map_values(|a: Seq<char>| spec_shell_escape(a));
        assert(m.take(m.len() as int) =~= m);
    }
    let mut out = command.to_owned();
    proof {
        reveal_strlit(" ");
    }
    out.append(" ");
    let joined = join_spaces(&escaped);
    out.append(joined.as_str());
    proof {
        assert(out@ =~= spec_escaped_command_line(command@, args.deep_view()));
    }
    out
}

/// Relies on `String::from_utf8`: returns the decoded text exactly when the
/// bytes are valid UTF-8, and nothing otherwise.
#[verifier::external_body]
fn utf8_to_string(bytes: Vec<u8>) -> (r: Option<String>)
    ensures
        match r {
            Some(s) => valid_utf8(bytes@) && s@ == decode_utf8(bytes@),
            None => !valid_utf8(bytes@),
        },
{
    match String::from_utf8(bytes) {
        Ok(s) => Some(s),
        Err(_) => None,
    }
}

/// The text a captured output decodes to: the bytes as text when they are
/// valid, the documented placeholder when they are not.
pub open spec fn spec_output_text(bytes: Seq<u8>) -> Seq<char> {
    if valid_utf8(bytes) {
        decode_utf8(bytes)
    } else {
        "<Invalid UTF-8 Output>"@
    }
}

/// Decodes captured output bytes, replacing undecodable bytes with the
/// fixed placeholder rather than failing.
pub fn convert_to_string(output: Vec<u8>) -> (r: String)
    ensures
        r@ == spec_output_text(output@),
{
    match utf8_to_string(output) {
        Some(s) => s,
        None => "<Invalid UTF-8 Output>".to_owned(),
    }
}

/// What a finished command's captured streams classify to: the decoded
/// standard output on success, the decoded standard error as the error
/// otherwise.
pub open spec fn spec_command_outcome(success: bool, stdout: Seq<u8>, stderr: Seq<u8>) -> Result<
    Seq<char>,
    Seq<char>,
> {
    if success {
        Ok(spec_output_text(stdout))
    } else {
        Err(spec_output_text(stderr))
    }
}

/// Classifies a finished command from its exit success flag and captured
/// streams: the standard output is the result exactly on success, the
/// standard error is the error otherwise.
pub fn command_outcome(success: bool, stdout: Vec<u8>, stderr: Vec<u8>) -> (r: Result<
    String,
    String,
>)
    ensures
        match r {
            Ok(s) => success && s@ == spec_output_text(stdout@),
            Err(e) => !success && e@ == spec_output_text(stderr@),
        },
{
    if success {
        Ok(convert_to_string(stdout))
    } else {
        Err(convert_to_string(stderr))
    }
}

/// The wait status of the platform's run-command primitive records a
/// normal exit: its low seven bits are clear.
pub open spec fn spec_status_exited(status: i32) -> bool {
    (status as u32) % 0x80 == 0
}

/// The exit code held in bits 8 to 15 of a wait status.
pub open spec fn spec_status_exit_code(status: i32) -> int {
    ((status as u32) as int / 0x100) % 0x100
}

/// Whether a wait status records a normal exit.
pub fn status_exited(status: i32) -> (r: bool)
    ensures
        r == spec_status_exited(status),
{
    (status as u32) % 0x80 == 0
}

/// The exit code a wait status carries.
pub fn status_exit_code(status: i32) -> (r: i32)
    ensures
        r as int == spec_status_exit_code(status),
        0 <= r < 256,
{
    (((status as u32) / 0x100) % 0x100) as i32
}

/// What the run-command primitive's return classifies to: the fixed
/// failure text when the primitive itself failed, the fixed success text
/// on a clean exit, and an error naming the exit code otherwise.
pub open spec fn spec_system_outcome(status: i32) -> Result<Seq<char>, Seq<char>> {
    if status == -1 {
        Err("libc::system call failed."@)
    } else if spec_status_exited(status) && spec_status_exit_code(status) == 0 {
        Ok("Command executed successfully."@)
    } else {
        Err("Command failed with exit code: "@ + spec_i64_str(spec_status_exit_code(status)))
    }
}

/// Classifies the return of the platform's blocking run-command primitive.
pub fn system_outcome(status: i32) -> (r: Result<String, String>)
    ensures
        match r {
            Ok(s) => spec_system_outcome(status) == Result::<Seq<char>, Seq<char>>::Ok(s@),
            Err(e) => spec_system_outcome(status) == Result::<Seq<char>, Seq<char>>::Err(e@),
        },
{
    if status == -1 {
        Err("libc::system call failed.".to_owned())
    } else if status_exited(status) && status_exit_code(status) == 0 {
        Ok("Command executed successfully.".to_owned())
    } else {
        let code = status_exit_code(status);
        let mut e = "Command failed with exit code: ".to_owned();
        let tail = i64_to_string(code as i64);
        e.append(tail.as_str());
        proof {
            assert(e@ =~= "Command failed with exit code: "@ + spec_i64_str(
                spec_status_exit_code(status),
            ));
        }
        Err(e)
    }
}

} // verus!
