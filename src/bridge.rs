//! What it takes to reach the mail account.
use vstd::prelude::*;

verus! {

/// The settings of the mail account, gathered before any connection: one
/// host, a port for reading mail, a port for sending it, and the login.
/// Both sessions log in with the same user and password, unencrypted, as a
/// local mail bridge expects.
#[derive(Clone, Debug)]
pub struct ProtonMailBridgeBuilder {
    pub host: String,
    pub imap_port: u16,
    pub smtp_port: u16,
    pub user: String,
    pub password: String,
}

impl ProtonMailBridgeBuilder {
    /// Gathers the settings; nothing is connected yet.
    pub fn new(host: String, imap_port: u16, smtp_port: u16, user: String, password: String) -> (r: Self)
        ensures
            r.host@ == host@,
            r.imap_port == imap_port,
            r.smtp_port == smtp_port,
            r.user@ == user@,
            r.password@ == password@,
    {
        ProtonMailBridgeBuilder { host, imap_port, smtp_port, user, password }
    }
}

} // verus!
