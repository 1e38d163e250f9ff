//! Plain HTTP data contracts: requests, responses and load-test tallies.
//! The client that performs the I/O lives outside the verified core and
//! exchanges these values with it.

pub mod client;
