//! Settings of the SMTP relay.

use vstd::prelude::*;

verus! {

/// What is needed to reach the SMTP relay and to address a message.
#[derive(Debug, Clone, PartialEq)]
pub struct Config {
    /// SMTP server host address.
    pub smtp_host: String,
    /// SMTP server port number.
    pub smtp_port: u16,
    /// Username for authentication with the SMTP server.
    pub smtp_user: String,
    /// Password for authentication with the SMTP server.
    pub smtp_pass: String,
    /// Sender's email address.
    pub smtp_from: String,
    /// Receiver's email address.
    pub smtp_to: String,
}

} // verus!
