//! Sequential test execution settings: the runner's configuration-driven
//! decisions and the multi-gateway run builder.

use vstd::prelude::*;

use crate::models::gateway::{GatewayImpl, TestConfig};
use crate::models::test_result::{TestCase, TestResult};

verus! {

/// The sequential test runner's configuration: which gateway to exercise,
/// from which address, and which tests to skip.  The HTTP client that
/// issues the requests is owned by the orchestration around it.
#[derive(Clone, Debug)]
pub struct TestRunner {
    pub config: TestConfig,
    pub gateway_ip: Option<String>,
}

impl TestRunner {
    /// Create a new test runner with no address discovered yet.
    pub fn new(config: TestConfig) -> (r: Self)
        ensures
            r.config == config,
            r.gateway_ip is None,
    {
        TestRunner { config, gateway_ip: None }
    }

    /// Set gateway IP address.
    pub fn with_gateway_ip(self, ip: &str) -> (r: Self)
        ensures
            r.config == self.config,
            r.gateway_ip matches Some(s) && s@ == ip@,
    {
        TestRunner { gateway_ip: Some(String::from_str(ip)), ..self }
    }

    /// Get the gateway IP: the configured one, or the loopback default.
    pub fn gateway_ip(&self) -> (r: &str)
        ensures
            match self.gateway_ip {
                Some(s) => r@ == s@,
                None => r@ == "127.0.0.1"@,
            },
    {
        match &self.gateway_ip {
            Some(s) => s.as_str(),
            None => "127.0.0.1",
        }
    }

    /// Whether the configuration skips this test case.
    pub fn is_skipped(&self, test_case: TestCase) -> (r: bool)
        ensures
            r == self.config.skip_tests@.contains(test_case.spec_number() as u8),
    {
        let n = test_case.number();
        let mut i: usize = 0;
        let skip = &self.config.skip_tests;
        while i < skip.len()
            invariant
                i <= skip@.len(),
                skip@ == self.config.skip_tests@,
                n as int == test_case.spec_number(),
                forall|k: int| 0 <= k < i ==> skip@[k] != n,
            decreases skip@.len() - i,
        {
            if skip[i] == n {
                return true;
            }
            i += 1;
        }
        false
    }

    /// The result a skipped test is owed before any request is issued, or
    /// `None` when the test must run.
    pub fn skip_result(&self, test_case: TestCase) -> (r: Option<TestResult>)
        ensures
            match r {
                Some(res) => self.config.skip_tests@.contains(test_case.spec_number() as u8)
                    && res.test_case == test_case && res.status is Skip,
                None => !self.config.skip_tests@.contains(test_case.spec_number() as u8),
            },
    {
        if self.is_skipped(test_case) {
            Some(TestResult::skip(test_case, "Skipped by configuration"))
        } else {
            None
        }
    }
}

/// Multi-gateway test runner: which implementations to exercise, at which
/// addresses, for how many rounds.
#[derive(Clone, Debug)]
pub struct MultiGatewayRunner {
    pub gateways: Vec<(GatewayImpl, String)>,
    pub rounds: u32,
    pub timeout_secs: u64,
}

impl MultiGatewayRunner {
    /// No gateways yet, one round, a 30 second timeout.
    pub fn new() -> (r: Self)
        ensures
            r.gateways@.len() == 0,
            r.rounds == 1,
            r.timeout_secs == 30,
    {
        MultiGatewayRunner { gateways: Vec::new(), rounds: 1, timeout_secs: 30 }
    }

    /// Add a gateway and its address.
    pub fn add_gateway(self, implementation: GatewayImpl, ip: &str) -> (r: Self)
        ensures
            r.gateways@.len() == self.gateways@.len() + 1,
            forall|i: int|
                0 <= i < self.gateways@.len() ==> r.gateways@[i] == self.gateways@[i],
            r.gateways@.last().0 == implementation,
            r.gateways@.last().1@ == ip@,
            r.rounds == self.rounds,
            r.timeout_secs == self.timeout_secs,
    {
        let mut s = self;
        s.gateways.push((implementation, String::from_str(ip)));
        s
    }

    /// Set the number of rounds.
    pub fn rounds(self, rounds: u32) -> (r: Self)
        ensures
            r.gateways@ == self.gateways@,
            r.rounds == rounds,
            r.timeout_secs == self.timeout_secs,
    {
        MultiGatewayRunner { rounds, ..self }
    }

    /// Set the per-test timeout.
    pub fn timeout(self, secs: u64) -> (r: Self)
        ensures
            r.gateways@ == self.gateways@,
            r.rounds == self.rounds,
            r.timeout_secs == secs,
    {
        MultiGatewayRunner { timeout_secs: secs, ..self }
    }
}

impl Default for MultiGatewayRunner {
    /// Same as `new`.
    fn default() -> (r: Self)
        ensures
            r.gateways@.len() == 0,
            r.rounds == 1,
            r.timeout_secs == 30,
    {
        MultiGatewayRunner::new()
    }
}

} // verus!
