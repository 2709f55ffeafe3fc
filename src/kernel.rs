//! The kernel host: the connection descriptor and session that its workers
//! share.
use crate::connection_file::{hmac_sha256_scheme, ConnectionFile};
use crate::session::{signing_key_of, Session};
use vstd::prelude::*;

verus! {

/// Why a kernel could not be created.
#[derive(Debug)]
pub enum Error {
    /// The descriptor names a signature scheme (held here) other than
    /// `hmac-sha256`.
    UnsupportedSignatureScheme(String),
}

/// A kernel session: the host of the messaging and execution workers.
pub struct Kernel {
    connection: ConnectionFile,
    session: Session,
}

impl Kernel {
    pub closed spec fn spec_connection(&self) -> ConnectionFile {
        self.connection
    }

    pub closed spec fn spec_session(&self) -> Session {
        self.session
    }

    /// Creates a kernel for the descriptor `file`, with a session named
    /// `session_id` that signs with the descriptor's key. A descriptor whose
    /// signature scheme is not `hmac-sha256` is refused.
    pub fn new(file: ConnectionFile, session_id: String) -> (r: Result<Kernel, Error>)
        ensures
            r is Ok <==> file.signature_scheme@ == hmac_sha256_scheme(),
            r matches Ok(k) ==> {
                &&& k.spec_connection() == file
                &&& k.spec_session().session_id@ == session_id@
                &&& k.spec_session().key() == signing_key_of(file.key@)
            },
            r matches Err(Error::UnsupportedSignatureScheme(s)) ==> s@ == file.signature_scheme@,
    {
        if !file.has_supported_scheme() {
            return Err(Error::UnsupportedSignatureScheme(file.signature_scheme));
        }
        let session = Session::create(&file.key, session_id);
        Ok(Kernel { connection: file, session })
    }

    /// The descriptor the kernel was created from.
    pub fn connection(&self) -> (r: &ConnectionFile)
        ensures
            *r == self.spec_connection(),
    {
        &self.connection
    }

    /// The session shared by the kernel's workers.
    pub fn session(&self) -> (r: &Session)
        ensures
            *r == self.spec_session(),
    {
        &self.session
    }
}

} // verus!
