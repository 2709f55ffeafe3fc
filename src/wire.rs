//! Wire codec: splitting a multipart frame sequence into identities and
//! message parts, HMAC-SHA256 signing and verification, and emitting frames.
use crate::hex_codec::{
    decode_hex, encode_hex, hex_decoded, hex_lower, is_hex, lemma_hex_lower_chars, lemma_hex_round_trip,
};
use hmac::{Hmac, Mac};
use sha2::Sha256;
use vstd::prelude::*;

verus! {

/// The frame `<IDS|MSG>` that separates the routing identities from the message.
pub open spec fn delimiter() -> Seq<u8> {
    seq![60u8, 73u8, 68u8, 83u8, 124u8, 77u8, 83u8, 71u8, 62u8]
}

/// Byte view of a sequence of frames.
pub open spec fn frames_view(v: Seq<Vec<u8>>) -> Seq<Seq<u8>> {
    v.map_values(|f: Vec<u8>| f@)
}

/// Byte view of an optional signing key.
pub open spec fn key_view(k: Option<Vec<u8>>) -> Option<Seq<u8>> {
    match k {
        Some(v) => Some(v@),
        None => None,
    }
}

pub open spec fn has_delimiter(f: Seq<Seq<u8>>) -> bool {
    exists|i: int| 0 <= i < f.len() && f[i] == delimiter()
}

/// `p` is the position of the first delimiter frame in `f`.
pub open spec fn is_first_delimiter(f: Seq<Seq<u8>>, p: int) -> bool {
    &&& 0 <= p < f.len()
    &&& f[p] == delimiter()
    &&& forall|j: int| 0 <= j < p ==> f[j] != delimiter()
}

pub open spec fn first_delimiter(f: Seq<Seq<u8>>) -> int {
    choose|p: int| is_first_delimiter(f, p)
}

/// Abstract form of a framed message.
pub ghost struct WireMessage {
    pub identities: Seq<Seq<u8>>,
    pub header: Seq<u8>,
    pub parent_header: Seq<u8>,
    pub metadata: Seq<u8>,
    pub content: Seq<u8>,
    pub buffers: Seq<Seq<u8>>,
}

/// Abstract form of a parse failure.
pub ghost enum WireError {
    MissingDelimiter,
    MissingFrames,
    InvalidHmac(Seq<u8>),
    BadSignature(Seq<u8>),
}

/// The bytes that a signature covers: header, parent header, metadata and
/// content, concatenated as they stand on the wire.
pub open spec fn signed_bytes(m: WireMessage) -> Seq<u8> {
    m.header + m.parent_header + m.metadata + m.content
}

/// The HMAC-SHA256 tag of `data` under `key`.
pub uninterp spec fn hmac_sha256_of(key: Seq<u8>, data: Seq<u8>) -> Seq<u8>;

/// The signature frame of a message: lowercase hex of its tag, or empty
/// without a key.
pub open spec fn signature_of(m: WireMessage, key: Option<Seq<u8>>) -> Seq<u8> {
    match key {
        Some(k) => hex_lower(hmac_sha256_of(k, signed_bytes(m))),
        None => seq![],
    }
}

/// The message formed by the frames after the delimiter, once the signature
/// frame has been checked against `key`.
pub open spec fn parse_body(
    ids: Seq<Seq<u8>>,
    body: Seq<Seq<u8>>,
    key: Option<Seq<u8>>,
) -> Result<WireMessage, WireError> {
    if body.len() < 5 {
        Err(WireError::MissingFrames)
    } else {
        let m = WireMessage {
            identities: ids,
            header: body[1],
            parent_header: body[2],
            metadata: body[3],
            content: body[4],
            buffers: body.skip(5),
        };
        match key {
            None => Ok(m),
            Some(k) => if !is_hex(body[0]) {
                Err(WireError::InvalidHmac(body[0]))
            } else if hex_decoded(body[0]) != hmac_sha256_of(k, signed_bytes(m)) {
                Err(WireError::BadSignature(hex_decoded(body[0])))
            } else {
                Ok(m)
            },
        }
    }
}

/// What parsing a frame sequence yields.
pub open spec fn parse_frames(f: Seq<Seq<u8>>, key: Option<Seq<u8>>) -> Result<
    WireMessage,
    WireError,
> {
    if !has_delimiter(f) {
        Err(WireError::MissingDelimiter)
    } else {
        let p = first_delimiter(f);
        parse_body(f.take(p), f.skip(p + 1), key)
    }
}

/// The frames that carry a message: identities, delimiter, signature, the
/// four signed parts, then the buffers.
pub open spec fn emit_frames(m: WireMessage, key: Option<Seq<u8>>) -> Seq<Seq<u8>> {
    m.identities + seq![
        delimiter(),
        signature_of(m, key),
        m.header,
        m.parent_header,
        m.metadata,
        m.content,
    ] + m.buffers
}

/// The JSON text `{}`.
pub open spec fn empty_object() -> Seq<u8> {
    seq![123u8, 125u8]
}

pub fn empty_object_bytes() -> (r: Vec<u8>)
    ensures
        r@ == empty_object(),
{
    let r: Vec<u8> = vec![123u8, 125u8];
    assert(r@ =~= empty_object());
    r
}

pub open spec fn no_delimiter_in(f: Seq<Seq<u8>>) -> bool {
    forall|i: int| 0 <= i < f.len() ==> f[i] != delimiter()
}

/// A message emitted with a key parses back, under the same key, to the same
/// message: same identities, same header (and so the same verb), same
/// parent header, metadata, content and buffers. The identities must not
/// themselves look like the delimiter.
pub proof fn lemma_round_trip(m: WireMessage, key: Option<Seq<u8>>)
    requires
        no_delimiter_in(m.identities),
    ensures
        parse_frames(emit_frames(m, key), key) == Ok::<WireMessage, WireError>(m),
{
    let f = emit_frames(m, key);
    let p = m.identities.len() as int;
    assert(f[p] == delimiter());
    assert(is_first_delimiter(f, p));
    assert(has_delimiter(f));
    assert forall|q: int| is_first_delimiter(f, q) implies q == p by {
        if q < p {
            assert(f[q] == m.identities[q]);
        }
    }
    assert(first_delimiter(f) == p);
    let body = f.skip(p + 1);
    assert(f.take(p) =~= m.identities);
    assert(body[0] == signature_of(m, key));
    assert(body[1] == m.header);
    assert(body[2] == m.parent_header);
    assert(body[3] == m.metadata);
    assert(body[4] == m.content);
    assert(body.skip(5) =~= m.buffers);
    if let Some(k) = key {
        lemma_hex_round_trip(hmac_sha256_of(k, signed_bytes(m)));
    }
}

/// The identities of a reply, once emitted and parsed, are those of the
/// request it answers.
pub proof fn lemma_reply_identities(request: WireMessage, reply: WireMessage, key: Option<Seq<u8>>)
    requires
        no_delimiter_in(request.identities),
        reply.identities == request.identities,
    ensures
        parse_frames(emit_frames(reply, key), key) is Ok,
        parse_frames(emit_frames(reply, key), key)->Ok_0.identities == request.identities,
{
    lemma_round_trip(reply, key);
}

/// Without its delimiter frame, an emitted message is refused with
/// `MissingDelimiter`, provided none of its other frames is the delimiter
/// (JSON parts never are).
pub proof fn lemma_missing_delimiter(m: WireMessage, key: Option<Seq<u8>>)
    requires
        no_delimiter_in(m.identities),
        no_delimiter_in(m.buffers),
        m.header != delimiter(),
        m.parent_header != delimiter(),
        m.metadata != delimiter(),
        m.content != delimiter(),
    ensures
        parse_frames(emit_frames(m, key).remove(m.identities.len() as int), key)
            == Err::<WireMessage, WireError>(WireError::MissingDelimiter),
{
    let f = emit_frames(m, key).remove(m.identities.len() as int);
    let n = m.identities.len() as int;
    let sig = signature_of(m, key);
    if sig == delimiter() {
        match key {
            Some(k) => {
                lemma_hex_lower_chars(hmac_sha256_of(k, signed_bytes(m)));
                assert(sig[0] == 60u8);
            },
            None => {
                assert(sig.len() == 0);
            },
        }
    }
    assert forall|i: int| 0 <= i < f.len() implies f[i] != delimiter() by {
        if i < n {
            assert(f[i] == m.identities[i]);
        } else if i == n {
            assert(f[i] == sig);
        } else if i == n + 1 {
            assert(f[i] == m.header);
        } else if i == n + 2 {
            assert(f[i] == m.parent_header);
        } else if i == n + 3 {
            assert(f[i] == m.metadata);
        } else if i == n + 4 {
            assert(f[i] == m.content);
        } else {
            assert(f[i] == m.buffers[i - n - 5]);
        }
    }
}

/// Frames whose signed parts were altered after signing are refused with
/// `BadSignature` whenever the alteration changes the tag: `altered` stands
/// for the message after the change, sent with the signature of `m`.
pub proof fn lemma_altered_parts_rejected(m: WireMessage, altered: WireMessage, k: Seq<u8>)
    requires
        no_delimiter_in(m.identities),
        altered.identities == m.identities,
        hmac_sha256_of(k, signed_bytes(altered)) != hmac_sha256_of(k, signed_bytes(m)),
    ensures
        parse_frames(
            emit_frames(altered, Some(k)).update(
                m.identities.len() as int + 1,
                signature_of(m, Some(k)),
            ),
            Some(k),
        ) == Err::<WireMessage, WireError>(
            WireError::BadSignature(hmac_sha256_of(k, signed_bytes(m))),
        ),
{
    let f = emit_frames(altered, Some(k)).update(
        m.identities.len() as int + 1,
        signature_of(m, Some(k)),
    );
    let p = m.identities.len() as int;
    assert(f[p] == delimiter());
    assert(is_first_delimiter(f, p));
    assert(has_delimiter(f));
    assert forall|q: int| is_first_delimiter(f, q) implies q == p by {
        if q < p {
            assert(f[q] == m.identities[q]);
        }
    }
    assert(first_delimiter(f) == p);
    let body = f.skip(p + 1);
    assert(f.take(p) =~= altered.identities);
    assert(body[0] == signature_of(m, Some(k)));
    assert(body[1] == altered.header);
    assert(body[2] == altered.parent_header);
    assert(body[3] == altered.metadata);
    assert(body[4] == altered.content);
    assert(body.skip(5) =~= altered.buffers);
    lemma_hex_round_trip(hmac_sha256_of(k, signed_bytes(m)));
}

/// Relies on hmac's `Hmac<Sha256>` (`new_from_slice`, `update`, `finalize`):
/// the tag depends on the key and the data alone. `new_from_slice` accepts
/// keys of every length for HMAC.
#[verifier::external_body]
fn hmac_sha256(key: &Vec<u8>, data: &Vec<u8>) -> (r: Vec<u8>)
    ensures
        r@ == hmac_sha256_of(key@, data@),
{
    match <Hmac<Sha256> as Mac>::new_from_slice(key) {
        Ok(mut mac) => {
            mac.update(data);
            mac.finalize().into_bytes().to_vec()
        },
        Err(_) => Vec::new(),
    }
}

/// Relies on hmac's `Mac::verify_slice` for `Hmac<Sha256>`: it succeeds
/// exactly when `tag` equals the tag of `data` under `key`, compared in
/// constant time.
#[verifier::external_body]
fn hmac_sha256_verify(key: &Vec<u8>, data: &Vec<u8>, tag: &Vec<u8>) -> (r: bool)
    ensures
        r == (tag@ == hmac_sha256_of(key@, data@)),
{
    match <Hmac<Sha256> as Mac>::new_from_slice(key) {
        Ok(mut mac) => {
            mac.update(data);
            mac.verify_slice(tag).is_ok()
        },
        Err(_) => false,
    }
}


/// Why an inbound frame sequence was not accepted.
#[derive(Debug)]
pub enum MessageError {
    /// No frame equals `<IDS|MSG>`.
    MissingDelimiter,
    /// Fewer than five frames follow the delimiter.
    MissingFrames,
    /// The signature frame (held here) is not hexadecimal text.
    InvalidHmac(Vec<u8>),
    /// The decoded signature (held here) is not the tag of the message.
    BadSignature(Vec<u8>),
}

impl View for MessageError {
    type V = WireError;

    open spec fn view(&self) -> WireError {
        match self {
            MessageError::MissingDelimiter => WireError::MissingDelimiter,
            MessageError::MissingFrames => WireError::MissingFrames,
            MessageError::InvalidHmac(s) => WireError::InvalidHmac(s@),
            MessageError::BadSignature(s) => WireError::BadSignature(s@),
        }
    }
}

/// A framed message: routing identities, the four JSON parts as the bytes
/// that travel on the wire, and trailing binary buffers.
pub struct JupyterMessage {
    pub identities: Vec<Vec<u8>>,
    pub header: Vec<u8>,
    pub parent_header: Vec<u8>,
    pub metadata: Vec<u8>,
    pub content: Vec<u8>,
    pub buffers: Vec<Vec<u8>>,
}

impl View for JupyterMessage {
    type V = WireMessage;

    open spec fn view(&self) -> WireMessage {
        WireMessage {
            identities: frames_view(self.identities@),
            header: self.header@,
            parent_header: self.parent_header@,
            metadata: self.metadata@,
            content: self.content@,
            buffers: frames_view(self.buffers@),
        }
    }
}

/// Byte view of a parse result.
pub open spec fn parse_view(r: Result<JupyterMessage, MessageError>) -> Result<
    WireMessage,
    WireError,
> {
    match r {
        Ok(m) => Ok(m@),
        Err(e) => Err(e@),
    }
}

pub(crate) fn bytes_eq(a: &Vec<u8>, b: &Vec<u8>) -> (r: bool)
    ensures
        r == (a@ == b@),
{
    if a.len() != b.len() {
        return false;
    }
    let mut i: usize = 0;
    while i < a.len()
        invariant
            a@.len() == b@.len(),
            0 <= i <= a@.len(),
            forall|j: int| 0 <= j < i ==> a@[j] == b@[j],
        decreases a@.len() - i,
    {
        if a[i] != b[i] {
            return false;
        }
        i = i + 1;
    }
    assert(a@ =~= b@);
    true
}

pub fn copy_bytes(a: &Vec<u8>) -> (r: Vec<u8>)
    ensures
        r@ == a@,
{
    let mut r: Vec<u8> = Vec::new();
    append_bytes(&mut r, a);
    assert(r@ =~= a@);
    r
}

pub(crate) fn append_bytes(dst: &mut Vec<u8>, src: &Vec<u8>)
    ensures
        final(dst)@ == old(dst)@ + src@,
{
    let ghost start = dst@;
    let mut i: usize = 0;
    while i < src.len()
        invariant
            0 <= i <= src@.len(),
            dst@ == start + src@.take(i as int),
        decreases src@.len() - i,
    {
        dst.push(src[i]);
        i = i + 1;
        assert(dst@ =~= start + src@.take(i as int));
    }
    assert(src@.take(i as int) =~= src@);
}

/// Copies frames `lo..hi` of `f`.
pub(crate) fn copy_frames(f: &Vec<Vec<u8>>, lo: usize, hi: usize) -> (r: Vec<Vec<u8>>)
    requires
        lo <= hi <= f@.len(),
    ensures
        frames_view(r@) == frames_view(f@).subrange(lo as int, hi as int),
{
    let mut r: Vec<Vec<u8>> = Vec::new();
    let mut i: usize = lo;
    while i < hi
        invariant
            lo <= i <= hi <= f@.len(),
            frames_view(r@) == frames_view(f@).subrange(lo as int, i as int),
        decreases hi - i,
    {
        let c = copy_bytes(&f[i]);
        let ghost prev = r@;
        r.push(c);
        assert(r@ == prev.push(c));
        assert(frames_view(r@) =~= frames_view(prev).push(f@[i as int]@));
        i = i + 1;
        assert(frames_view(r@) =~= frames_view(f@).subrange(lo as int, i as int));
    }
    r
}

/// Appends frames to `dst`.
pub(crate) fn append_frames(dst: &mut Vec<Vec<u8>>, src: &Vec<Vec<u8>>)
    ensures
        frames_view(final(dst)@) == frames_view(old(dst)@) + frames_view(src@),
{
    let ghost start = frames_view(dst@);
    let mut i: usize = 0;
    while i < src.len()
        invariant
            0 <= i <= src@.len(),
            frames_view(dst@) == start + frames_view(src@).take(i as int),
        decreases src@.len() - i,
    {
        let c = copy_bytes(&src[i]);
        let ghost prev = dst@;
        dst.push(c);
        assert(frames_view(dst@) =~= frames_view(prev).push(src@[i as int]@));
        i = i + 1;
        assert(frames_view(dst@) =~= start + frames_view(src@).take(i as int));
    }
    assert(frames_view(src@).take(i as int) =~= frames_view(src@));
}

/// The delimiter frame `<IDS|MSG>`.
pub fn msg_delimiter() -> (r: Vec<u8>)
    ensures
        r@ == delimiter(),
{
    let r: Vec<u8> = vec![60u8, 73u8, 68u8, 83u8, 124u8, 77u8, 83u8, 71u8, 62u8];
    assert(r@ =~= delimiter());
    r
}

/// Copy of an optional signing key.
pub fn copy_key(k: &Option<Vec<u8>>) -> (r: Option<Vec<u8>>)
    ensures
        key_view(r) == key_view(*k),
{
    match k {
        Some(v) => Some(copy_bytes(v)),
        None => None,
    }
}

impl JupyterMessage {
    /// The bytes that the signature covers.
    pub fn signed_data(&self) -> (r: Vec<u8>)
        ensures
            r@ == signed_bytes(self@),
    {
        let mut r = copy_bytes(&self.header);
        append_bytes(&mut r, &self.parent_header);
        append_bytes(&mut r, &self.metadata);
        append_bytes(&mut r, &self.content);
        r
    }

    /// The signature frame for this message under `key`.
    pub fn signature(&self, key: &Option<Vec<u8>>) -> (r: Vec<u8>)
        ensures
            r@ == signature_of(self@, key_view(*key)),
    {
        match key {
            Some(k) => {
                let data = self.signed_data();
                let tag = hmac_sha256(k, &data);
                encode_hex(&tag)
            },
            None => Vec::new(),
        }
    }

    /// Parse a message from the frames of a multipart bus message, checking
    /// its signature when a key is given.
    pub fn from_buffers(bufs: Vec<Vec<u8>>, hmac_key: Option<Vec<u8>>) -> (r: Result<
        JupyterMessage,
        MessageError,
    >)
        ensures
            parse_view(r) == parse_frames(frames_view(bufs@), key_view(hmac_key)),
    {
        let ghost f = frames_view(bufs@);
        let delim = msg_delimiter();
        let mut i: usize = 0;
        while i < bufs.len()
            invariant
                f == frames_view(bufs@),
                delim@ == delimiter(),
                0 <= i <= bufs@.len(),
                forall|j: int| 0 <= j < i ==> f[j] != delimiter(),
            decreases bufs@.len() - i,
        {
            if bytes_eq(&bufs[i], &delim) {
                assert(is_first_delimiter(f, i as int));
                assert(has_delimiter(f));
                assert forall|p: int| is_first_delimiter(f, p) implies p == i by {}
                let ids = copy_frames(&bufs, 0, i);
                let body = copy_frames(&bufs, i + 1, bufs.len());
                assert(f.take(i as int) =~= f.subrange(0, i as int));
                assert(f.skip(i + 1) =~= f.subrange(i + 1, f.len() as int));
                return JupyterMessage::from_msg_bufs(ids, body, hmac_key);
            }
            i = i + 1;
        }
        assert(!has_delimiter(f));
        Err(MessageError::MissingDelimiter)
    }

    /// Builds the message from the identities and the frames after the
    /// delimiter, checking the signature frame when a key is given.
    fn from_msg_bufs(ids: Vec<Vec<u8>>, bufs: Vec<Vec<u8>>, hmac_key: Option<Vec<u8>>) -> (r:
        Result<JupyterMessage, MessageError>)
        ensures
            parse_view(r) == parse_body(frames_view(ids@), frames_view(bufs@), key_view(hmac_key)),
    {
        if bufs.len() < 5 {
            return Err(MessageError::MissingFrames);
        }
        let buffers = copy_frames(&bufs, 5, bufs.len());
        let msg = JupyterMessage {
            identities: ids,
            header: copy_bytes(&bufs[1]),
            parent_header: copy_bytes(&bufs[2]),
            metadata: copy_bytes(&bufs[3]),
            content: copy_bytes(&bufs[4]),
            buffers,
        };
        assert(frames_view(bufs@).skip(5) =~= frames_view(bufs@).subrange(5, bufs@.len() as int));
        match JupyterMessage::validate_hmac(&msg, &bufs[0], &hmac_key) {
            Ok(()) => Ok(msg),
            Err(e) => Err(e),
        }
    }

    /// Checks the signature frame `sig` of `msg` against `hmac_key`.
    fn validate_hmac(msg: &JupyterMessage, sig: &Vec<u8>, hmac_key: &Option<Vec<u8>>) -> (r:
        Result<(), MessageError>)
        ensures
            match key_view(*hmac_key) {
                None => r is Ok,
                Some(k) => if !is_hex(sig@) {
                    r is Err && r->Err_0@ == WireError::InvalidHmac(sig@)
                } else if hex_decoded(sig@) != hmac_sha256_of(k, signed_bytes(msg@)) {
                    r is Err && r->Err_0@ == WireError::BadSignature(hex_decoded(sig@))
                } else {
                    r is Ok
                },
            },
    {
        match hmac_key {
            None => Ok(()),
            Some(key) => {
                let decoded = match decode_hex(sig) {
                    Some(d) => d,
                    None => {
                        return Err(MessageError::InvalidHmac(copy_bytes(sig)));
                    },
                };
                let data = msg.signed_data();
                if hmac_sha256_verify(key, &data, &decoded) {
                    Ok(())
                } else {
                    Err(MessageError::BadSignature(decoded))
                }
            },
        }
    }

    /// A reply to `request`: it goes back to the request's identities, and its
    /// parent header is the request's header.
    pub fn reply_to(request: &JupyterMessage, header: Vec<u8>, content: Vec<u8>) -> (r:
        JupyterMessage)
        ensures
            r@ == (WireMessage {
                identities: request@.identities,
                header: header@,
                parent_header: request@.header,
                metadata: empty_object(),
                content: content@,
                buffers: seq![],
            }),
    {
        let identities = copy_frames(&request.identities, 0, request.identities.len());
        assert(frames_view(request.identities@).subrange(0, request.identities@.len() as int)
            =~= frames_view(request.identities@));
        let buffers: Vec<Vec<u8>> = Vec::new();
        assert(frames_view(buffers@) =~= seq![]);
        JupyterMessage {
            identities,
            header,
            parent_header: copy_bytes(&request.header),
            metadata: empty_object_bytes(),
            content,
            buffers,
        }
    }

    /// A message for the publish socket: no identities, and `parent` as its
    /// parent header.
    pub fn broadcast(parent: Vec<u8>, header: Vec<u8>, content: Vec<u8>) -> (r: JupyterMessage)
        ensures
            r@ == (WireMessage {
                identities: seq![],
                header: header@,
                parent_header: parent@,
                metadata: empty_object(),
                content: content@,
                buffers: seq![],
            }),
    {
        let identities: Vec<Vec<u8>> = Vec::new();
        let buffers: Vec<Vec<u8>> = Vec::new();
        assert(frames_view(identities@) =~= seq![]);
        JupyterMessage {
            identities,
            header,
            parent_header: parent,
            metadata: empty_object_bytes(),
            content,
            buffers,
        }
    }

    /// The frames that carry this message, signed with `key` when one is given.
    pub fn to_frames(&self, key: &Option<Vec<u8>>) -> (r: Vec<Vec<u8>>)
        ensures
            frames_view(r@) == emit_frames(self@, key_view(*key)),
    {
        let mut r: Vec<Vec<u8>> = Vec::new();
        append_frames(&mut r, &self.identities);
        r.push(msg_delimiter());
        r.push(self.signature(key));
        r.push(copy_bytes(&self.header));
        r.push(copy_bytes(&self.parent_header));
        r.push(copy_bytes(&self.metadata));
        r.push(copy_bytes(&self.content));
        append_frames(&mut r, &self.buffers);
        assert(frames_view(r@) =~= emit_frames(self@, key_view(*key)));
        r
    }
}

} // verus!
