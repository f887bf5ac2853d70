//! The worker's `serve` invocation and the shape of its configuration dump.
use vstd::prelude::*;

use crate::command::{create_command, invocation_for, pairs_view, Host, Invocation};

verus! {

/// The `server` section of the worker's configuration.
#[derive(Debug)]
pub struct ServerConfig {
    pub hostname: Option<String>,
    pub port: Option<u32>,
}

/// The worker's configuration, as its configuration-dump subcommand prints it.
#[derive(Debug)]
pub struct Config {
    pub server: Option<ServerConfig>,
}

/// The decimal digit for `d`.
pub open spec fn digit_char(d: nat) -> char {
    if d == 0 { '0' }
    else if d == 1 { '1' }
    else if d == 2 { '2' }
    else if d == 3 { '3' }
    else if d == 4 { '4' }
    else if d == 5 { '5' }
    else if d == 6 { '6' }
    else if d == 7 { '7' }
    else if d == 8 { '8' }
    else { '9' }
}

/// `n` written in decimal, without leading zeros.
pub open spec fn decimal(n: nat) -> Seq<char>
    decreases n,
{
    if n < 10 {
        seq![digit_char(n)]
    } else {
        decimal(n / 10).push(digit_char(n % 10))
    }
}

/// The argument text of the `serve` invocation.
pub open spec fn serve_line(hostname: Seq<char>, port: nat) -> Seq<char> {
    "--print-logs --log-level WARN serve --hostname "@ + hostname + " --port "@ + decimal(port)
}

fn append_decimal(out: &mut String, n: u32)
    ensures
        final(out)@ == old(out)@ + decimal(n as nat),
    decreases n,
{
    if n >= 10 {
        append_decimal(out, n / 10);
    }
    let d: usize = (n % 10) as usize;
    let digits = "0123456789";
    proof {
        reveal_strlit("0123456789");
    }
    let ghost before = out@;
    out.append(digits.substring_char(d, d + 1));
    proof {
        assert(digits@.subrange(d as int, d + 1) =~= seq![digit_char(d as nat)]);
        assert(out@ =~= old(out)@ + decimal(n as nat));
    }
}

/// The argument text that makes the worker serve on `hostname` and `port`, behind the
/// global logging flags.
pub fn serve_args(hostname: &str, port: u32) -> (r: String)
    ensures
        r@ == serve_line(hostname@, port as nat),
{
    let mut line = String::from_str("--print-logs --log-level WARN serve --hostname ");
    line.append(hostname);
    line.append(" --port ");
    append_decimal(&mut line, port);
    line
}

/// The credentials that the serving worker expects, as environment variables.
pub fn serve_envs(password: &str) -> (r: Vec<(String, String)>)
    ensures
        pairs_view(r@) == seq![
            ("OPENCODE_SERVER_USERNAME"@, "opencode"@),
            ("OPENCODE_SERVER_PASSWORD"@, password@),
        ],
{
    let mut envs: Vec<(String, String)> = Vec::new();
    envs.push((String::from_str("OPENCODE_SERVER_USERNAME"), String::from_str("opencode")));
    envs.push((String::from_str("OPENCODE_SERVER_PASSWORD"), String::from_str(password)));
    proof {
        assert(pairs_view(envs@) =~= seq![
            ("OPENCODE_SERVER_USERNAME"@, "opencode"@),
            ("OPENCODE_SERVER_PASSWORD"@, password@),
        ]);
    }
    envs
}

/// The invocation that makes the worker serve on `hostname` and `port`, with the
/// credentials for `password`.
pub fn serve_command(host: &Host, hostname: &str, port: u32, password: &str) -> (r: Invocation)
    ensures
        invocation_for(
            host,
            serve_line(hostname@, port as nat),
            seq![
                ("OPENCODE_SERVER_USERNAME"@, "opencode"@),
                ("OPENCODE_SERVER_PASSWORD"@, password@),
            ],
            &r,
        ),
{
    let args = serve_args(hostname, port);
    let envs = serve_envs(password);
    create_command(host, args.as_str(), &envs)
}

} // verus!
