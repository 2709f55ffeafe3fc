//! The connection descriptor that a front end hands to the kernel.
use crate::text::{decimal, push_decimal, push_str, push_string};
use vstd::prelude::*;

verus! {

/// `hmac-sha256`, the one signature scheme the kernel speaks.
pub open spec fn hmac_sha256_scheme() -> Seq<char> {
    seq!['h', 'm', 'a', 'c', '-', 's', 'h', 'a', '2', '5', '6']
}

/// Transport, address, the five ports and the signing setup of a session.
pub struct ConnectionFile {
    pub control_port: u16,
    pub shell_port: u16,
    pub stdin_port: u16,
    pub iopub_port: u16,
    pub hb_port: u16,
    pub transport: String,
    pub signature_scheme: String,
    pub ip: String,
    pub key: String,
}

/// The endpoint text `<transport>://<ip>:<port>`.
pub open spec fn endpoint_text(transport: Seq<char>, ip: Seq<char>, port: nat) -> Seq<char> {
    transport + seq![':', '/', '/'] + ip + seq![':'] + decimal(port)
}

impl ConnectionFile {
    /// The endpoint at which the socket on `port` is bound.
    pub fn endpoint(&self, port: u16) -> (r: String)
        ensures
            r@ == endpoint_text(self.transport@, self.ip@, port as nat),
    {
        let mut r = String::new();
        push_string(&mut r, &self.transport);
        push_str(&mut r, "://");
        push_string(&mut r, &self.ip);
        push_str(&mut r, ":");
        push_decimal(&mut r, port as u64);
        proof {
            reveal_strlit("://");
            reveal_strlit(":");
        }
        assert(r@ =~= endpoint_text(self.transport@, self.ip@, port as nat));
        r
    }

    /// Whether the descriptor names the `hmac-sha256` signature scheme.
    pub fn has_supported_scheme(&self) -> (r: bool)
        ensures
            r == (self.signature_scheme@ == hmac_sha256_scheme()),
    {
        let expected = "hmac-sha256".to_owned();
        proof {
            reveal_strlit("hmac-sha256");
        }
        assert(expected@ =~= hmac_sha256_scheme());
        self.signature_scheme == expected
    }
}

} // verus!
