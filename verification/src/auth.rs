//! Capture of the authorization code from the redirect that the account's login
//! page sends to the local listener.
//!
//! The listener itself (accept, read, respond) belongs to the caller. After each
//! read it asks [`on_read`] what to do: answer with [`SUCCESS_RESPONSE`] and stop
//! listening, read on, or accept the next connection.
use vstd::prelude::*;
use vstd::string::*;
use vstd::utf8::valid_utf8;

verus! {

/// Port of the local listener.
pub const LISTEN_PORT: u16 = 3000;

/// Timeout of one accepted connection, in seconds.
pub const CONNECTION_TIMEOUT_SECS: u64 = 10;

/// Size of the listener's read buffer, in bytes.
pub const REQUEST_BUFFER_BYTES: usize = 4096;

/// Longest authorization code that is captured, in bytes.
pub const MAX_CODE_BYTES: usize = 256;

/// The byte `&`, which ends the code inside a query string.
pub const AMPERSAND: u8 = 0x26;

/// What the listener sends, byte for byte, once it has a code.
pub const SUCCESS_RESPONSE: &'static str =
    "HTTP/1.1 200 OK\nServer: Pico\nContent-Type: text/html\nContent-Length: 10\nConnection: Closed\n\nConnected!";

/// The bytes of `/?code=`.
pub open spec fn code_prefix() -> Seq<u8> {
    seq![0x2Fu8, 0x3Fu8, 0x63u8, 0x6Fu8, 0x64u8, 0x65u8, 0x3Du8]
}

/// The bytes of `/?error=`.
pub open spec fn error_prefix() -> Seq<u8> {
    seq![0x2Fu8, 0x3Fu8, 0x65u8, 0x72u8, 0x72u8, 0x6Fu8, 0x72u8, 0x3Du8]
}

/// `s` begins with `p`.
pub open spec fn has_prefix(s: Seq<u8>, p: Seq<u8>) -> bool {
    p.len() <= s.len() && s.take(p.len() as int) == p
}

/// Index of the first `&` in `s`, or the length of `s` where it has none.
pub open spec fn amp_index(s: Seq<u8>) -> int
    decreases s.len(),
{
    if s.len() == 0 || s[0] == AMPERSAND {
        0
    } else {
        1 + amp_index(s.drop_first())
    }
}

/// The part of `s` before its first `&`; all of `s` where it has none.
pub open spec fn until_amp(s: Seq<u8>) -> Seq<u8> {
    s.take(amp_index(s))
}

/// `s` holds no `&`.
pub open spec fn amp_free(s: Seq<u8>) -> bool {
    forall|i: int| 0 <= i < s.len() ==> s[i] != AMPERSAND
}

/// The value of the query parameter that `prefix` opens, where `path` begins with it.
pub open spec fn param_of(path: Seq<u8>, prefix: Seq<u8>) -> Option<Seq<u8>> {
    if has_prefix(path, prefix) {
        Some(until_amp(path.skip(prefix.len() as int)))
    } else {
        None
    }
}

/// The authorization code in a request path, where it carries one.
pub open spec fn code_of(path: Seq<u8>) -> Option<Seq<u8>> {
    param_of(path, code_prefix())
}

/// The error in a request path that reports a refused authorization.
pub open spec fn error_of(path: Seq<u8>) -> Option<Seq<u8>> {
    if code_of(path) is Some {
        None
    } else {
        param_of(path, error_prefix())
    }
}

/// `bytes` can be held as an authorization code: UTF-8 text of at most
/// [`MAX_CODE_BYTES`] bytes.
pub open spec fn fits_code(bytes: Seq<u8>) -> bool {
    bytes.len() <= MAX_CODE_BYTES && valid_utf8(bytes)
}

/// The code that ends the listening: the one in the path, unless it is longer
/// than [`MAX_CODE_BYTES`] or no text.
pub open spec fn captured_code(path: Seq<u8>) -> Option<Seq<u8>> {
    match code_of(path) {
        Some(c) => if fits_code(c) {
            Some(c)
        } else {
            None
        },
        None => None,
    }
}

/// The code that a received request yields, given the path of its request line
/// where the request parsed completely.
pub open spec fn captured_from(parsed: Option<Seq<u8>>) -> Option<Seq<u8>> {
    match parsed {
        Some(path) => captured_code(path),
        None => None,
    }
}

/// The path of the request line of `request`, where `httparse` parses the
/// request completely, headers included; `None` where it finds the request
/// partial or invalid.
pub uninterp spec fn request_path(request: Seq<u8>) -> Option<Seq<u8>>;

/// `httparse::Request::parse` with room for 16 headers. The result is the
/// request's path, as bytes, where the parser reports a complete request, and
/// `None` where it reports a partial one or an error.
#[verifier::external_body]
fn parse_request_path(request: &[u8]) -> (r: Option<Vec<u8>>)
    ensures
        r is Some <==> request_path(request@) is Some,
        r matches Some(p) ==> request_path(request@) == Some(p@),
{
    let mut headers = [httparse::EMPTY_HEADER; 16];
    let mut req = httparse::Request::new(&mut headers);
    match req.parse(request) {
        Ok(httparse::Status::Complete(_)) => match req.path {
            Some(path) => Some(path.as_bytes().to_vec()),
            None => None,
        },
        Ok(httparse::Status::Partial) => None,
        Err(_) => None,
    }
}

/// `core::str::from_utf8`: the bytes as text, where they are valid UTF-8, and
/// `None` where they are not.
#[verifier::external_body]
fn utf8_text(bytes: &[u8]) -> (r: Option<&str>)
    ensures
        r is Some <==> valid_utf8(bytes@),
        r matches Some(s) ==> s.spec_bytes() == bytes@,
{
    match core::str::from_utf8(bytes) {
        Ok(s) => Some(s),
        Err(_) => None,
    }
}

/// An authorization code: UTF-8 text of at most [`MAX_CODE_BYTES`] bytes.
pub struct AuthorizationCode {
    bytes: Vec<u8>,
}

impl View for AuthorizationCode {
    type V = Seq<u8>;

    closed spec fn view(&self) -> Seq<u8> {
        self.bytes@
    }
}

impl AuthorizationCode {
    #[verifier::type_invariant]
    spec fn bounded_text(self) -> bool {
        fits_code(self.bytes@)
    }

    /// Takes `bytes` as a code where they fit.
    pub fn new(bytes: Vec<u8>) -> (r: Option<AuthorizationCode>)
        ensures
            r is Some <==> fits_code(bytes@),
            r matches Some(code) ==> code@ == bytes@,
    {
        if bytes.len() <= MAX_CODE_BYTES && utf8_text(bytes.as_slice()).is_some() {
            Some(AuthorizationCode { bytes })
        } else {
            None
        }
    }

    /// The code as text.
    pub fn as_str(&self) -> (r: &str)
        ensures
            r.spec_bytes() == self@,
            r.spec_bytes().len() <= MAX_CODE_BYTES,
    {
        proof {
            use_type_invariant(self);
        }
        match utf8_text(self.bytes.as_slice()) {
            Some(s) => s,
            None => "",
        }
    }

    /// The code's bytes.
    pub fn as_bytes(&self) -> (r: &[u8])
        ensures
            r@ == self@,
            fits_code(r@),
    {
        proof {
            use_type_invariant(self);
        }
        self.bytes.as_slice()
    }

    /// The code's length in bytes.
    pub fn len(&self) -> (n: usize)
        ensures
            n == self@.len(),
            n <= MAX_CODE_BYTES,
    {
        proof {
            use_type_invariant(self);
        }
        self.bytes.len()
    }
}

/// What the path of a redirect says.
pub enum Redirect {
    /// `/?code=...`: the authorization was granted, with this code.
    Code(Vec<u8>),
    /// `/?error=...`: the authorization was refused, with this reason.
    Denied(Vec<u8>),
    /// Any other path.
    Other,
}

/// Whether `s` begins with `p`.
pub fn starts_with(s: &[u8], p: &[u8]) -> (b: bool)
    ensures
        b == has_prefix(s@, p@),
{
    if s.len() < p.len() {
        return false;
    }
    let mut i: usize = 0;
    while i < p.len()
        invariant
            i <= p.len() <= s.len(),
            forall|j: int| 0 <= j < i ==> s@[j] == p@[j],
        decreases p.len() - i,
    {
        if s[i] != p[i] {
            assert(s@.take(p@.len() as int)[i as int] != p@[i as int]);
            return false;
        }
        i = i + 1;
    }
    assert(s@.take(p@.len() as int) =~= p@);
    true
}

/// The first `&` of `s` stands at `i`, where nothing before `i` is one and
/// either `s` ends at `i` or holds one there.
pub proof fn lemma_amp_index(s: Seq<u8>, i: int)
    requires
        0 <= i <= s.len(),
        forall|j: int| 0 <= j < i ==> s[j] != AMPERSAND,
        i == s.len() || s[i] == AMPERSAND,
    ensures
        amp_index(s) == i,
    decreases s.len(),
{
    if i > 0 {
        let t = s.drop_first();
        assert forall|j: int| 0 <= j < i - 1 implies t[j] != AMPERSAND by {
            assert(t[j] == s[j + 1]);
        }
        lemma_amp_index(t, i - 1);
    }
}

/// The bytes of `s` from `from` up to the first `&` after it; none where `s`
/// ends before `from`.
pub fn take_until_amp(s: &[u8], from: usize) -> (r: Vec<u8>)
    ensures
        from <= s@.len() ==> r@ == until_amp(s@.skip(from as int)),
        from > s@.len() ==> r@ == Seq::<u8>::empty(),
{
    let mut r: Vec<u8> = Vec::new();
    if from > s.len() {
        return r;
    }
    let mut i: usize = from;
    while i < s.len() && s[i] != AMPERSAND
        invariant
            from <= i <= s.len(),
            r@ == s@.subrange(from as int, i as int),
            forall|j: int| from <= j < i ==> s@[j] != AMPERSAND,
        decreases s.len() - i,
    {
        r.push(s[i]);
        i = i + 1;
        assert(r@ =~= s@.subrange(from as int, i as int));
    }
    proof {
        let rest = s@.skip(from as int);
        lemma_amp_index(rest, i - from);
        assert(r@ =~= rest.take(i - from));
    }
    r
}

/// Reads a request path as a redirect.
pub fn classify_path(path: &[u8]) -> (r: Redirect)
    ensures
        match r {
            Redirect::Code(c) => code_of(path@) == Some(c@),
            Redirect::Denied(e) => error_of(path@) == Some(e@),
            Redirect::Other => code_of(path@) is None && error_of(path@) is None,
        },
{
    let code_key: Vec<u8> = vec![0x2Fu8, 0x3Fu8, 0x63u8, 0x6Fu8, 0x64u8, 0x65u8, 0x3Du8];
    let error_key: Vec<u8> = vec![0x2Fu8, 0x3Fu8, 0x65u8, 0x72u8, 0x72u8, 0x6Fu8, 0x72u8, 0x3Du8];
    assert(code_key@ =~= code_prefix());
    assert(error_key@ =~= error_prefix());
    if starts_with(path, code_key.as_slice()) {
        Redirect::Code(take_until_amp(path, 7))
    } else if starts_with(path, error_key.as_slice()) {
        Redirect::Denied(take_until_amp(path, 8))
    } else {
        Redirect::Other
    }
}

/// The code that ends the listening, from the path of a complete request:
/// `Some` exactly where the path begins with `/?code=` and the code is text
/// that fits.
pub fn code_from_path(path: &[u8]) -> (r: Option<AuthorizationCode>)
    ensures
        r is Some <==> captured_code(path@) is Some,
        r matches Some(code) ==> captured_code(path@) == Some(code@),
{
    match classify_path(path) {
        Redirect::Code(c) => AuthorizationCode::new(c),
        Redirect::Denied(_) => None,
        Redirect::Other => None,
    }
}

/// Decides on the bytes read from one connection. `Some(code)`: answer with
/// [`SUCCESS_RESPONSE`] and stop listening. `None`: the request was partial,
/// invalid, or no redirect with a code; go on listening.
pub fn get_spotify_code(request: &[u8]) -> (r: Option<AuthorizationCode>)
    ensures
        r is Some <==> captured_from(request_path(request@)) is Some,
        r matches Some(code) ==> captured_from(request_path(request@)) == Some(code@),
{
    match parse_request_path(request) {
        Some(path) => code_from_path(path.as_slice()),
        None => None,
    }
}

/// What a read on an accepted connection brought.
pub enum ReadOutcome<'a> {
    /// These bytes, at least one.
    Data(&'a [u8]),
    /// The peer closed the connection.
    Eof,
    /// The read failed or timed out.
    Failed,
}

/// What the listener does after a read.
pub enum ListenerAction {
    /// Send [`SUCCESS_RESPONSE`], flush, and stop listening with this code.
    Respond(AuthorizationCode),
    /// Read again from the same connection.
    ReadOn,
    /// Drop the connection and accept the next one.
    Reaccept,
}

/// Decides on one read: a code ends the listening, other bytes are passed over,
/// and the end of the connection or a failed read leads to the next accept.
pub fn on_read(outcome: ReadOutcome) -> (r: ListenerAction)
    ensures
        match outcome {
            ReadOutcome::Data(bytes) => match captured_from(request_path(bytes@)) {
                Some(code) => r matches ListenerAction::Respond(c) && c@ == code,
                None => r is ReadOn,
            },
            ReadOutcome::Eof => r is Reaccept,
            ReadOutcome::Failed => r is Reaccept,
        },
{
    match outcome {
        ReadOutcome::Data(bytes) => match get_spotify_code(bytes) {
            Some(code) => ListenerAction::Respond(code),
            None => ListenerAction::ReadOn,
        },
        ReadOutcome::Eof => ListenerAction::Reaccept,
        ReadOutcome::Failed => ListenerAction::Reaccept,
    }
}

/// A path `/?code=<S>`, where `<S>` holds no `&`, carries the code `<S>`.
pub proof fn lemma_code_without_rest(s: Seq<u8>)
    requires
        amp_free(s),
    ensures
        code_of(code_prefix() + s) == Some(s),
        fits_code(s) ==> captured_code(code_prefix() + s) == Some(s),
{
    let path = code_prefix() + s;
    assert(path.take(7) =~= code_prefix());
    assert(path.skip(7) =~= s);
    lemma_amp_index(s, s.len() as int);
    assert(s.take(s.len() as int) =~= s);
}

/// A path `/?code=<S>&<rest>` carries the part of `<S>` before its first `&`:
/// all of `<S>` where it holds none.
pub proof fn lemma_code_before_rest(s: Seq<u8>, rest: Seq<u8>)
    ensures
        code_of(code_prefix() + s + seq![AMPERSAND] + rest) == Some(until_amp(s)),
        amp_free(s) ==> code_of(code_prefix() + s + seq![AMPERSAND] + rest) == Some(s),
        fits_code(until_amp(s)) ==> captured_code(code_prefix() + s + seq![AMPERSAND] + rest)
            == Some(until_amp(s)),
{
    let path = code_prefix() + s + seq![AMPERSAND] + rest;
    let tail = s + seq![AMPERSAND] + rest;
    assert(path.take(7) =~= code_prefix());
    assert(path.skip(7) =~= tail);
    lemma_amp_index_bounds(s);
    let k = amp_index(s);
    assert forall|j: int| 0 <= j < k implies tail[j] != AMPERSAND by {
        assert(tail[j] == s[j]);
    }
    if k < s.len() {
        assert(tail[k] == s[k]);
    } else {
        assert(tail[k] == AMPERSAND);
    }
    lemma_amp_index(tail, k);
    assert(tail.take(k) =~= s.take(k));
    if amp_free(s) {
        assert(k == s.len());
        assert(s.take(k) =~= s);
    }
}

/// The code of any path stops before the first `&` that follows `/?code=`: it
/// is a prefix of what follows, holds no `&`, and is followed by one unless the
/// path ends there.
pub proof fn lemma_code_is_prefix(path: Seq<u8>)
    requires
        has_prefix(path, code_prefix()),
    ensures
        code_of(path) is Some,
        has_prefix(path.skip(7), code_of(path)->0),
        amp_free(code_of(path)->0),
        code_of(path)->0.len() == path.len() - 7 || path[7 + code_of(path)->0.len() as int] == AMPERSAND,
{
    let tail = path.skip(7);
    lemma_amp_index_bounds(tail);
    let k = amp_index(tail);
    assert(tail.take(k).take(k) =~= tail.take(k));
}

/// The first `&` lies within the sequence, nothing before it is one, and it is
/// one unless the sequence ends there.
pub proof fn lemma_amp_index_bounds(s: Seq<u8>)
    ensures
        0 <= amp_index(s) <= s.len(),
        forall|j: int| 0 <= j < amp_index(s) ==> s[j] != AMPERSAND,
        amp_index(s) == s.len() || s[amp_index(s)] == AMPERSAND,
    decreases s.len(),
{
    if s.len() == 0 || s[0] == AMPERSAND {
    } else {
        let t = s.drop_first();
        lemma_amp_index_bounds(t);
        assert forall|j: int| 0 <= j < amp_index(s) implies s[j] != AMPERSAND by {
            if j > 0 {
                assert(s[j] == t[j - 1]);
            }
        }
    }
}

/// No code is captured from a path that does not begin with `/?code=`, and none
/// from a request that did not parse completely: the listening goes on.
pub proof fn lemma_no_capture_without_code(path: Seq<u8>)
    requires
        !has_prefix(path, code_prefix()),
    ensures
        code_of(path) is None,
        captured_code(path) is None,
        captured_from(Some(path)) is None,
        captured_from(None) is None,
{
}

} // verus!
