//! Plain data models: gateway implementations under test, test cases and
//! their results.

pub mod gateway;
pub mod test_result;
