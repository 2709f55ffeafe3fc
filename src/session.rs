//! The kernel session: its identity and the key that signs its messages.
use crate::wire::{copy_bytes, copy_key, key_view};
use vstd::prelude::*;
use vstd::utf8::encode_utf8;

verus! {

/// The signing key that a descriptor's key text gives: its UTF-8 bytes, or
/// none when the text is empty.
pub open spec fn signing_key_of(key: Seq<char>) -> Option<Seq<u8>> {
    if encode_utf8(key).len() == 0 {
        None
    } else {
        Some(encode_utf8(key))
    }
}

/// Identity of a kernel session and the key that signs its messages.
pub struct Session {
    pub session_id: String,
    pub username: String,
    pub hmac: Option<Vec<u8>>,
}

impl Session {
    /// A session with the given id whose messages are signed with the bytes
    /// of `key`, or not signed when `key` is empty.
    pub fn create(key: &String, session_id: String) -> (r: Session)
        ensures
            r.session_id@ == session_id@,
            r.username@ == seq!['k', 'e', 'r', 'n', 'e', 'l'],
            key_view(r.hmac) == signing_key_of(key@),
    {
        let bytes: &[u8] = key.as_str().as_bytes();
        let mut hmac = None;
        if bytes.len() > 0 {
            let mut v: Vec<u8> = Vec::new();
            let mut i: usize = 0;
            while i < bytes.len()
                invariant
                    0 <= i <= bytes@.len(),
                    v@ == bytes@.take(i as int),
                decreases bytes@.len() - i,
            {
                v.push(bytes[i]);
                i = i + 1;
                assert(v@ =~= bytes@.take(i as int));
            }
            assert(bytes@.take(i as int) =~= bytes@);
            hmac = Some(v);
        }
        let username = "kernel".to_owned();
        proof {
            reveal_strlit("kernel");
        }
        assert(username@ =~= seq!['k', 'e', 'r', 'n', 'e', 'l']);
        Session { session_id, username, hmac }
    }

    /// The signing key, if any.
    pub open spec fn key(&self) -> Option<Seq<u8>> {
        key_view(self.hmac)
    }

    /// A copy of the signing key, if any.
    pub fn hmac_key(&self) -> (r: Option<Vec<u8>>)
        ensures
            key_view(r) == self.key(),
    {
        copy_key(&self.hmac)
    }

    pub fn clone_session(&self) -> (r: Session)
        ensures
            r.session_id@ == self.session_id@,
            r.username@ == self.username@,
            r.key() == self.key(),
    {
        Session {
            session_id: self.session_id.clone(),
            username: self.username.clone(),
            hmac: copy_key(&self.hmac),
        }
    }
}

} // verus!
