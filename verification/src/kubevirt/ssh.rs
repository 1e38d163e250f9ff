//! SSH connectivity to KubeVirt VMs: configuration, command-line assembly,
//! output parsing and retry decisions.  Spawning ssh and scp happens
//! outside the verified core.

use vstd::prelude::*;

use crate::util::{
    parse_u64, spec_dec, spec_digit_val, spec_digits_val, spec_is_digit, spec_is_u64_string,
    spec_num_body, spec_split_lines, split_lines, u64_to_dec_string,
};

verus! {

/// SSH client configuration.
#[derive(Clone, Debug)]
pub struct SshConfig {
    /// SSH username
    pub username: String,
    /// SSH private key path
    pub private_key_path: Option<String>,
    /// SSH password (if not using a key)
    pub password: Option<String>,
    /// SSH port
    pub port: u16,
    /// Connection timeout in seconds
    pub timeout_secs: u64,
    /// Strict host key checking
    pub strict_host_key_checking: bool,
    /// Number of connection retries
    pub retries: u32,
    /// Delay between retries in seconds
    pub retry_delay_secs: u64,
}

impl Default for SshConfig {
    /// The fedora user over port 22, 30 second timeout, three retries five
    /// seconds apart, no strict host key checking.
    fn default() -> (r: Self)
        ensures
            r.username@ == "fedora"@,
            r.private_key_path is None,
            r.password is None,
            r.port == 22,
            r.timeout_secs == 30,
            r.strict_host_key_checking == false,
            r.retries == 3,
            r.retry_delay_secs == 5,
    {
        SshConfig {
            username: String::from_str("fedora"),
            private_key_path: None,
            password: None,
            port: 22,
            timeout_secs: 30,
            strict_host_key_checking: false,
            retries: 3,
            retry_delay_secs: 5,
        }
    }
}

impl SshConfig {
    /// Defaults for the given username.
    pub fn new(username: &str) -> (r: Self)
        ensures
            r.username@ == username@,
            r.private_key_path is None,
            r.password is None,
            r.port == 22,
            r.timeout_secs == 30,
            r.strict_host_key_checking == false,
            r.retries == 3,
            r.retry_delay_secs == 5,
    {
        SshConfig { username: String::from_str(username), ..SshConfig::default() }
    }

    /// Set private key path.
    pub fn private_key(self, path: &str) -> (r: Self)
        ensures
            r.private_key_path matches Some(p) && p@ == path@,
            r.username == self.username,
            r.port == self.port,
            r.timeout_secs == self.timeout_secs,
            r.retries == self.retries,
    {
        SshConfig { private_key_path: Some(String::from_str(path)), ..self }
    }

    /// Set password.
    pub fn password(self, password: &str) -> (r: Self)
        ensures
            r.password matches Some(p) && p@ == password@,
            r.username == self.username,
            r.port == self.port,
            r.retries == self.retries,
    {
        SshConfig { password: Some(String::from_str(password)), ..self }
    }

    /// Set port.
    pub fn port(self, port: u16) -> (r: Self)
        ensures
            r.port == port,
            r.username == self.username,
            r.timeout_secs == self.timeout_secs,
            r.retries == self.retries,
            r.private_key_path == self.private_key_path,
    {
        SshConfig { port, ..self }
    }

    /// Set connection timeout.
    pub fn timeout(self, secs: u64) -> (r: Self)
        ensures
            r.timeout_secs == secs,
            r.username == self.username,
            r.port == self.port,
            r.retries == self.retries,
            r.private_key_path == self.private_key_path,
    {
        SshConfig { timeout_secs: secs, ..self }
    }

    /// Set retries.
    pub fn retries(self, count: u32) -> (r: Self)
        ensures
            r.retries == count,
            r.username == self.username,
            r.port == self.port,
            r.timeout_secs == self.timeout_secs,
            r.private_key_path == self.private_key_path,
    {
        SshConfig { retries: count, ..self }
    }
}

/// SSH client around a configuration; the ssh and scp processes run
/// outside the verified core against the argv assembled here.
#[derive(Clone, Debug)]
pub struct SshClient {
    pub config: SshConfig,
}

impl SshClient {
    /// Create a new SSH client.
    pub fn new(config: SshConfig) -> (r: Self)
        ensures
            r.config == config,
    {
        SshClient { config }
    }

    /// Create with the default config for a username.
    pub fn with_user(username: &str) -> (r: Self)
        ensures
            r.config.username@ == username@,
            r.config.port == 22,
    {
        SshClient { config: SshConfig::new(username) }
    }

    /// Assemble the ssh argv: the option flags from the configuration, the
    /// port, an optional identity file, then `user@host` last.
    pub fn build_ssh_args(&self, host: &str) -> (r: Vec<String>)
        ensures
            r@.len() >= 12,
            r@[10]@ == "-p"@,
            r@[11]@ == spec_dec(self.config.port as int),
            r@.last()@ == self.config.username@ + "@"@ + host@,
            r@[1]@ == if self.config.strict_host_key_checking {
                "StrictHostKeyChecking=yes"@
            } else {
                "StrictHostKeyChecking=no"@
            },
    {
        let mut args: Vec<String> = Vec::new();
        args.push(String::from_str("-o"));
        if self.config.strict_host_key_checking {
            args.push(String::from_str("StrictHostKeyChecking=yes"));
        } else {
            args.push(String::from_str("StrictHostKeyChecking=no"));
        }
        args.push(String::from_str("-o"));
        args.push(String::from_str("UserKnownHostsFile=/dev/null"));
        args.push(String::from_str("-o"));
        let mut ct = String::from_str("ConnectTimeout=");
        let t = u64_to_dec_string(self.config.timeout_secs);
        ct.append(t.as_str());
        args.push(ct);
        args.push(String::from_str("-o"));
        args.push(String::from_str("BatchMode=yes"));
        args.push(String::from_str("-o"));
        args.push(String::from_str("LogLevel=ERROR"));
        args.push(String::from_str("-p"));
        args.push(u64_to_dec_string(self.config.port as u64));
        match &self.config.private_key_path {
            Some(key_path) => {
                args.push(String::from_str("-i"));
                args.push(key_path.clone());
            },
            None => {},
        }
        let mut target = self.config.username.clone();
        target.append("@");
        target.append(host);
        args.push(target);
        args
    }
}

/// An SSH session: a client bound to one host, for running several
/// commands against it.
#[derive(Clone, Debug)]
pub struct SshSession {
    pub client: SshClient,
    pub host: String,
}

impl SshClient {
    /// Bind this client to a host.
    pub fn connect(&self, host: &str) -> (r: SshSession)
        ensures
            r.client.config.username@ == self.config.username@,
            r.client.config.port == self.config.port,
            r.client.config.timeout_secs == self.config.timeout_secs,
            r.client.config.strict_host_key_checking == self.config.strict_host_key_checking,
            r.client.config.retries == self.config.retries,
            r.client.config.retry_delay_secs == self.config.retry_delay_secs,
            r.client.config.private_key_path is Some == self.config.private_key_path is Some,
            r.host@ == host@,
    {
        let private_key_path = match &self.config.private_key_path {
            Some(p) => Some(p.clone()),
            None => None,
        };
        let password = match &self.config.password {
            Some(p) => Some(p.clone()),
            None => None,
        };
        let config = SshConfig {
            username: self.config.username.clone(),
            private_key_path,
            password,
            port: self.config.port,
            timeout_secs: self.config.timeout_secs,
            strict_host_key_checking: self.config.strict_host_key_checking,
            retries: self.config.retries,
            retry_delay_secs: self.config.retry_delay_secs,
        };
        SshSession { client: SshClient { config }, host: String::from_str(host) }
    }
}

/// SSH command output.
#[derive(Clone, Debug)]
pub struct SshOutput {
    /// Standard output
    pub stdout: String,
    /// Standard error
    pub stderr: String,
    /// Exit code
    pub exit_code: i32,
}

impl SshOutput {
    /// Exit code zero means success.
    pub fn is_success(&self) -> (r: bool)
        ensures
            r == (self.exit_code == 0),
    {
        self.exit_code == 0
    }

    /// The lines of standard output.
    pub fn lines(&self) -> (r: Vec<String>)
        ensures
            r@.map_values(|l: String| l@) == spec_split_lines(self.stdout@),
    {
        split_lines(self.stdout.as_str())
    }
}

/// What the retrying executor does after one attempt.
#[derive(Clone, Copy, Debug, PartialEq, Eq, Structural)]
pub enum RetryDecision {
    /// The attempt succeeded: hand its output back
    Succeed,
    /// Attempts remain: wait the retry delay and try again
    RetryAfterDelay,
    /// That was the last attempt: hand back the last failure
    GiveUp,
}

/// The decision after one SSH attempt: a zero exit code succeeds at once;
/// otherwise retry until the configured number of attempts is spent.
pub fn retry_step(attempt: u32, retries: u32, exit_code: i32) -> (r: RetryDecision)
    requires
        1 <= attempt <= retries,
    ensures
        exit_code == 0 ==> r is Succeed,
        exit_code != 0 && attempt < retries ==> r is RetryAfterDelay,
        exit_code != 0 && attempt == retries ==> r is GiveUp,
{
    if exit_code == 0 {
        RetryDecision::Succeed
    } else if attempt < retries {
        RetryDecision::RetryAfterDelay
    } else {
        RetryDecision::GiveUp
    }
}

/// The remote command that fetches just an HTTP status code.
pub fn curl_status_command(url: &str) -> (r: String)
    ensures
        r@ == "curl -s -o /dev/null -w '%{http_code}' "@ + url@,
{
    let mut s = String::from_str("curl -s -o /dev/null -w '%{http_code}' ");
    s.append(url);
    s
}

/// The remote command that fetches headers and body.
pub fn curl_full_command(url: &str) -> (r: String)
    ensures
        r@ == "curl -s -i "@ + url@,
{
    let mut s = String::from_str("curl -s -i ");
    s.append(url);
    s
}

/// Result of a gateway probe from inside a VM.
#[derive(Clone, Debug)]
pub struct GatewayTestResult {
    /// Whether the probe passed
    pub success: bool,
    /// HTTP status code
    pub status_code: u16,
    /// Duration in milliseconds
    pub duration_ms: u64,
    /// Error message if any
    pub error: Option<String>,
}

/// Parse curl's `%{time_total}` output (seconds with a decimal fraction)
/// into whole milliseconds, truncating.  Returns 0 for anything that is
/// not a plain decimal number, and for values too large to scale.
/// The position of the first decimal point, or the length if there is
/// none.
pub open spec fn spec_dot_at(s: Seq<char>) -> int
    decreases s.len(),
{
    if s.len() == 0 {
        0
    } else if s[0] == '.' {
        0
    } else {
        1 + spec_dot_at(s.drop_first())
    }
}

proof fn lemma_dot_at_is(s: Seq<char>, p: int)
    requires
        0 <= p <= s.len(),
        forall|k: int| 0 <= k < p ==> (#[trigger] s[k]) != '.',
        p < s.len() ==> s[p] == '.',
    ensures
        spec_dot_at(s) == p,
    decreases p,
{
    if s.len() == 0 {
    } else if p == 0 {
    } else {
        let t = s.drop_first();
        assert(forall|k: int| 0 <= k < p - 1 ==> (#[trigger] t[k]) != '.');
        lemma_dot_at_is(t, p - 1);
    }
}

/// The milliseconds a `%{time_total}` string is worth: the seconds before
/// the first decimal point, scaled, plus the value of up to three fraction
/// digits; 0 when the integer part is malformed or too large to scale, and
/// the whole fraction dropped when a non-digit stands among its first
/// three places.
pub open spec fn spec_time_total_ms(s: Seq<char>) -> int {
    let n = s.len() as int;
    let dot = spec_dot_at(s);
    let intpart = s.subrange(0, dot);
    if !spec_is_u64_string(intpart) {
        0
    } else {
        let v = spec_digits_val(spec_num_body(intpart));
        if v > ((u64::MAX - 999) as int) / 1000 {
            0
        } else if dot < n && dot + 1 < n && !spec_is_digit(s[dot + 1]) {
            v * 1000
        } else if dot < n && dot + 2 < n && !spec_is_digit(s[dot + 2]) {
            v * 1000
        } else if dot < n && dot + 3 < n && !spec_is_digit(s[dot + 3]) {
            v * 1000
        } else {
            v * 1000 + (if dot + 1 < n {
                spec_digit_val(s[dot + 1]) * 100
            } else {
                0
            }) + (if dot + 2 < n {
                spec_digit_val(s[dot + 2]) * 10
            } else {
                0
            }) + (if dot + 3 < n {
                spec_digit_val(s[dot + 3])
            } else {
                0
            })
        }
    }
}

pub fn parse_time_total_ms(s: &str) -> (r: u64)
    ensures
        r as int == spec_time_total_ms(s@),
{
    let n = s.unicode_len();
    let mut dot: usize = 0;
    while dot < n && s.get_char(dot) != '.'
        invariant
            n == s@.len(),
            dot <= n,
            forall|k: int| 0 <= k < dot ==> (#[trigger] s@[k]) != '.',
        decreases n - dot,
    {
        dot += 1;
    }
    proof {
        lemma_dot_at_is(s@, dot as int);
    }
    let int_part = s.substring_char(0, dot);
    let int_val: u64 = match parse_u64(int_part) {
        Some(v) => v,
        None => {
            return 0;
        },
    };
    if int_val > (u64::MAX - 999) / 1000 {
        return 0;
    }
    let mut frac: u64 = 0;
    if dot < n {
        let fstart = dot + 1;
        if fstart < n {
            let c0 = s.get_char(fstart);
            if c0 >= '0' && c0 <= '9' {
                frac = frac + ((c0 as u64) - 48) * 100;
            } else {
                return int_val * 1000;
            }
        }
        if fstart < n && fstart + 1 < n {
            let c1 = s.get_char(fstart + 1);
            if c1 >= '0' && c1 <= '9' {
                frac = frac + ((c1 as u64) - 48) * 10;
            } else {
                return int_val * 1000;
            }
        }
        if fstart < n && fstart + 1 < n && fstart + 2 < n {
            let c2 = s.get_char(fstart + 2);
            if c2 >= '0' && c2 <= '9' {
                frac = frac + ((c2 as u64) - 48);
            } else {
                return int_val * 1000;
            }
        }
    }
    int_val * 1000 + frac
}

/// Interpret a gateway probe's two output lines: the status code and the
/// total time.  Fewer than two lines means the probe failed; a 2xx status
/// means success.
pub fn parse_gateway_test_output(lines: &Vec<String>, stderr: &str) -> (r: GatewayTestResult)
    ensures
        lines@.len() < 2 ==> !r.success && r.status_code == 0 && r.duration_ms == 0 && (r.error
            matches Some(e) && e@ == stderr@),
        lines@.len() >= 2 ==> r.error is None && (r.success == (200 <= r.status_code < 300)),
{
    if lines.len() < 2 {
        return GatewayTestResult {
            success: false,
            status_code: 0,
            duration_ms: 0,
            error: Some(String::from_str(stderr)),
        };
    }
    let status_code: u16 = match parse_u64(lines[0].as_str()) {
        Some(v) => {
            if v <= 65535 {
                v as u16
            } else {
                0
            }
        },
        None => 0,
    };
    let duration_ms = parse_time_total_ms(lines[1].as_str());
    GatewayTestResult {
        success: 200 <= status_code && status_code < 300,
        status_code,
        duration_ms,
        error: None,
    }
}

} // verus!
