//! Command execution support: captured output, execution errors, and a
//! builder that gathers a program, its arguments and its execution settings.
//! Spawning and waiting on processes is the caller's part; the types here
//! carry the data and the pure logic around it.

use vstd::prelude::*;
use vstd::string::{StrSliceExecFns, StringExecFns};

use crate::text::{str_trim, trim_of};

verus! {

/// The error type of the process operations relied on by callers.
#[verifier::external_type_specification]
#[verifier::external_body]
pub struct ExIoError(std::io::Error);

/// The captured result of one command execution.
#[derive(Debug)]
pub struct Output {
    /// Captured standard output.
    pub stdout: String,
    /// Captured standard error.
    pub stderr: String,
    /// The exit status code; -1 when the process ended without one.
    pub status: i32,
    /// Whether the process exited successfully.
    pub success: bool,
}

impl Output {
    /// The two captured streams as one text: whichever is alone, or both
    /// joined by one line break.
    pub open spec fn spec_combined(self) -> Seq<char> {
        if self.stderr@.len() == 0 {
            self.stdout@
        } else if self.stdout@.len() == 0 {
            self.stderr@
        } else {
            self.stdout@ + "\n"@ + self.stderr@
        }
    }

    /// Joins standard output and standard error: whichever is alone, or both
    /// with one line break between them.
    pub fn combined(&self) -> (r: String)
        ensures
            r@ == self.spec_combined(),
    {
        if self.stderr.as_str().is_empty() {
            self.stdout.clone()
        } else if self.stdout.as_str().is_empty() {
            self.stderr.clone()
        } else {
            self.stdout.clone().concat("\n").concat(self.stderr.as_str())
        }
    }

    /// Standard output without leading and trailing whitespace.
    pub fn stdout_trimmed(&self) -> (r: &str)
        ensures
            r@ == trim_of(self.stdout@),
    {
        str_trim(self.stdout.as_str())
    }

    /// Standard error without leading and trailing whitespace.
    pub fn stderr_trimmed(&self) -> (r: &str)
        ensures
            r@ == trim_of(self.stderr@),
    {
        str_trim(self.stderr.as_str())
    }
}

/// What can go wrong when a command is executed.
#[derive(Debug)]
pub enum Error {
    /// The process could not be started.
    SpawnFailed(std::io::Error),
    /// The command ran past its time limit.
    Timeout,
    /// Waiting for the process failed.
    WaitFailed(std::io::Error),
    /// Reading from or writing to the process failed.
    IoError(std::io::Error),
}

/// A command under construction: the program, its arguments, and the
/// settings its execution will use.
#[derive(Debug)]
pub struct CommandBuilder {
    /// The program to run.
    pub program: String,
    /// The arguments, in order.
    pub args: Vec<String>,
    /// The working directory, when one is set.
    pub cwd: Option<String>,
    /// Environment variables to set, in the order given.
    pub envs: Vec<(String, String)>,
    /// Whether the inherited environment is cleared first.
    pub env_clear: bool,
    /// Text handed to the process on standard input, when set.
    pub stdin_data: Option<String>,
    /// The time limit, when one is set.
    pub timeout: Option<core::time::Duration>,
}

impl CommandBuilder {
    /// Starts building a command for the given program, with no arguments
    /// and default settings.
    pub fn new(program: &str) -> (r: Self)
        ensures
            r.program@ == program@,
            r.args@ == Seq::<String>::empty(),
            r.cwd is None,
            r.envs@ == Seq::<(String, String)>::empty(),
            !r.env_clear,
            r.stdin_data is None,
            r.timeout is None,
    {
        let r = Self {
            program: String::from_str(program),
            args: Vec::new(),
            cwd: None,
            envs: Vec::new(),
            env_clear: false,
            stdin_data: None,
            timeout: None,
        };
        proof {
            assert(r.args@ =~= Seq::<String>::empty());
            assert(r.envs@ =~= Seq::<(String, String)>::empty());
        }
        r
    }

    /// Appends one argument.
    pub fn arg(self, arg: &str) -> (r: Self)
        ensures
            r.args@.len() == self.args@.len() + 1,
            r.args@.subrange(0, self.args@.len() as int) == self.args@,
            r.args@.last()@ == arg@,
            r.program == self.program,
            r.cwd == self.cwd,
            r.envs == self.envs,
            r.env_clear == self.env_clear,
            r.stdin_data == self.stdin_data,
            r.timeout == self.timeout,
    {
        let mut args = self.args;
        args.push(String::from_str(arg));
        let r = Self { args, ..self };
        proof {
            assert(r.args@.subrange(0, self.args@.len() as int) =~= self.args@);
        }
        r
    }

    /// Appends several arguments, in order.
    pub fn args(self, args: &[&str]) -> (r: Self)
        ensures
            r.args@.len() == self.args@.len() + args@.len(),
            r.args@.subrange(0, self.args@.len() as int) == self.args@,
            forall|i: int|
                0 <= i < args@.len() ==> #[trigger] r.args@[self.args@.len() + i]@ == args@[i]@,
            r.program == self.program,
            r.cwd == self.cwd,
            r.envs == self.envs,
            r.env_clear == self.env_clear,
            r.stdin_data == self.stdin_data,
            r.timeout == self.timeout,
    {
        let mut out = self.args;
        let ghost base = out@;
        let mut i: usize = 0;
        while i < args.len()
            invariant
                0 <= i <= args@.len(),
                out@.len() == base.len() + i,
                out@.subrange(0, base.len() as int) == base,
                forall|j: int| 0 <= j < i ==> #[trigger] out@[base.len() + j]@ == args@[j]@,
            decreases args@.len() - i,
        {
            out.push(String::from_str(args[i]));
            i = i + 1;
            proof {
                assert(out@.subrange(0, base.len() as int) =~= base);
            }
        }
        Self { args: out, ..self }
    }

    /// Sets the working directory.
    pub fn cwd(self, dir: &str) -> (r: Self)
        ensures
            r.cwd matches Some(d) && d@ == dir@,
            r.program == self.program,
            r.args == self.args,
            r.envs == self.envs,
            r.env_clear == self.env_clear,
            r.stdin_data == self.stdin_data,
            r.timeout == self.timeout,
    {
        Self { cwd: Some(String::from_str(dir)), ..self }
    }

    /// Adds one environment variable.
    pub fn env(self, key: &str, value: &str) -> (r: Self)
        ensures
            r.envs@.len() == self.envs@.len() + 1,
            r.envs@.subrange(0, self.envs@.len() as int) == self.envs@,
            r.envs@.last().0@ == key@ && r.envs@.last().1@ == value@,
            r.program == self.program,
            r.args == self.args,
            r.cwd == self.cwd,
            r.env_clear == self.env_clear,
            r.stdin_data == self.stdin_data,
            r.timeout == self.timeout,
    {
        let mut envs = self.envs;
        envs.push((String::from_str(key), String::from_str(value)));
        let r = Self { envs, ..self };
        proof {
            assert(r.envs@.subrange(0, self.envs@.len() as int) =~= self.envs@);
        }
        r
    }

    /// Clears the inherited environment.
    pub fn env_clear(self) -> (r: Self)
        ensures
            r.env_clear,
            r.program == self.program,
            r.args == self.args,
            r.cwd == self.cwd,
            r.envs == self.envs,
            r.stdin_data == self.stdin_data,
            r.timeout == self.timeout,
    {
        Self { env_clear: true, ..self }
    }

    /// Sets the text handed to the process on standard input.
    pub fn stdin(self, data: &str) -> (r: Self)
        ensures
            r.stdin_data matches Some(d) && d@ == data@,
            r.program == self.program,
            r.args == self.args,
            r.cwd == self.cwd,
            r.envs == self.envs,
            r.env_clear == self.env_clear,
            r.timeout == self.timeout,
    {
        Self { stdin_data: Some(String::from_str(data)), ..self }
    }

    /// Sets the time limit.
    pub fn timeout(self, timeout: core::time::Duration) -> (r: Self)
        ensures
            r.timeout == Some(timeout),
            r.program == self.program,
            r.args == self.args,
            r.cwd == self.cwd,
            r.envs == self.envs,
            r.env_clear == self.env_clear,
            r.stdin_data == self.stdin_data,
    {
        Self { timeout: Some(timeout), ..self }
    }
}

} // verus!
