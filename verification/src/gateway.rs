//! The gateway of the agent tool: the commands that steer it, what they
//! report, and the tail of its logs.

use crate::text::{join_from, joined, lines, lines_of, texts};
use vstd::prelude::*;
use vstd::string::*;

verus! {

/// What a command of the gateway reported.
#[derive(Debug)]
pub struct GatewayStatus {
    pub exit_code: i32,
    pub stdout: String,
    pub stderr: String,
}

/// The tails of the two logs of the gateway.
#[derive(Debug)]
pub struct GatewayLogs {
    pub out: String,
    pub err: String,
}

/// How many lines of a log are shown where no number is asked for.
pub const DEFAULT_LOG_LINES: u32 = 200;

/// The exit code that stands for a process without one.
pub open spec fn exit_code_or_unknown(code: Option<i32>) -> i32 {
    match code {
        Some(c) => c,
        None => -1i32,
    }
}

/// The command line of a gateway command: the tool profile, then
/// `gateway` and the action.
pub open spec fn gateway_command(openclaw_profile: Seq<char>, action: Seq<char>) -> Seq<Seq<char>> {
    seq!["--profile"@, openclaw_profile, "gateway"@, action]
}

/// Builds a command line that starts with the tool profile.
pub fn args_with_profile(openclaw_profile: &str, rest: &Vec<&str>) -> (r: Vec<String>)
    ensures
        texts(r@) == seq!["--profile"@, openclaw_profile@] + Seq::new(
            rest@.len(),
            |i: int| rest@[i]@,
        ),
{
    let mut args: Vec<String> = Vec::new();
    args.push(String::from_str("--profile"));
    args.push(String::from_str(openclaw_profile));
    let ghost head = texts(args@);
    let ghost tail = Seq::new(rest@.len(), |i: int| rest@[i]@);
    let n = rest.len();
    let mut i: usize = 0;
    while i < n
        invariant
            n == rest@.len(),
            i <= n,
            tail == Seq::new(rest@.len(), |i: int| rest@[i]@),
            texts(args@) == head + tail.subrange(0, i as int),
        decreases n - i,
    {
        let ghost before = texts(args@);
        args.push(String::from_str(rest[i]));
        assert(texts(args@) =~= before.push(rest@[i as int]@));
        i = i + 1;
    }
    args
}

fn gateway_args(openclaw_profile: &str, action: &str) -> (r: Vec<String>)
    ensures
        texts(r@) == gateway_command(openclaw_profile@, action@),
{
    let mut rest: Vec<&str> = Vec::new();
    rest.push("gateway");
    rest.push(action);
    let args = args_with_profile(openclaw_profile, &rest);
    args
}

/// The command line that asks the gateway for its status.
pub fn gateway_status(openclaw_profile: &str) -> (r: Vec<String>)
    ensures
        texts(r@) == gateway_command(openclaw_profile@, "status"@),
{
    gateway_args(openclaw_profile, "status")
}

/// The command line that starts the gateway.
pub fn gateway_start(openclaw_profile: &str) -> (r: Vec<String>)
    ensures
        texts(r@) == gateway_command(openclaw_profile@, "start"@),
{
    gateway_args(openclaw_profile, "start")
}

/// The command line that stops the gateway.
pub fn gateway_stop(openclaw_profile: &str) -> (r: Vec<String>)
    ensures
        texts(r@) == gateway_command(openclaw_profile@, "stop"@),
{
    gateway_args(openclaw_profile, "stop")
}

/// The command line that starts the gateway anew.
pub fn gateway_restart(openclaw_profile: &str) -> (r: Vec<String>)
    ensures
        texts(r@) == gateway_command(openclaw_profile@, "restart"@),
{
    gateway_args(openclaw_profile, "restart")
}

/// The report of a command that has ended.
pub fn run_openclaw(code: Option<i32>, stdout: String, stderr: String) -> (r: GatewayStatus)
    ensures
        r.exit_code == exit_code_or_unknown(code),
        r.stdout@ == stdout@,
        r.stderr@ == stderr@,
{
    GatewayStatus {
        exit_code: match code {
            Some(c) => c,
            None => -1,
        },
        stdout,
        stderr,
    }
}

/// The last `max_lines` lines of a text, joined by line feeds; the whole
/// text, as it is, where `max_lines` is zero.
pub open spec fn tail_of(raw: Seq<char>, max_lines: nat) -> Seq<char> {
    if max_lines == 0 {
        raw
    } else {
        let all = lines_of(raw);
        let start = if all.len() <= max_lines {
            0
        } else {
            all.len() - max_lines
        };
        joined(all.subrange(start, all.len() as int), "\n"@)
    }
}

/// The tail of the content of a log file.
pub fn tail_file(raw: String, max_lines: usize) -> (r: String)
    ensures
        r@ == tail_of(raw@, max_lines as nat),
{
    if max_lines == 0 {
        return raw;
    }
    let all = lines(raw.as_str());
    let start: usize = if all.len() <= max_lines {
        0
    } else {
        all.len() - max_lines
    };
    join_from(&all, start, "\n")
}

/// The tails of the two logs of the gateway; `lines` is the number of
/// lines asked for, two hundred where none is.
pub fn gateway_logs(out_raw: String, err_raw: String, lines: Option<u32>) -> (r: GatewayLogs)
    ensures
        r.out@ == tail_of(
            out_raw@,
            match lines {
                Some(n) => n as nat,
                None => DEFAULT_LOG_LINES as nat,
            },
        ),
        r.err@ == tail_of(
            err_raw@,
            match lines {
                Some(n) => n as nat,
                None => DEFAULT_LOG_LINES as nat,
            },
        ),
{
    let n: usize = match lines {
        Some(n) => n as usize,
        None => DEFAULT_LOG_LINES as usize,
    };
    GatewayLogs { out: tail_file(out_raw, n), err: tail_file(err_raw, n) }
}

} // verus!
