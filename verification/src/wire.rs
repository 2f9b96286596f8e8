//! Addresses and status codes of the control socket's protocol.

use vstd::prelude::*;
use vstd::utf8::encode_utf8;

verus! {

/// The longest address, in bytes, that can be parsed.
pub const MAX_URI_BYTES: usize = 65534;

/// The bytes that every address starts with besides the socket and the
/// endpoint: the scheme with its separator, and the port.
pub const URI_FRAME_BYTES: usize = 9;

/// Bytes that may stand in the path of an endpoint.
pub open spec fn path_byte(b: u8) -> bool {
    ||| b == 0x21
    ||| b == 0x22
    ||| 0x24 <= b <= 0x3B
    ||| b == 0x3D
    ||| 0x40 <= b <= 0x5F
    ||| 0x61 <= b <= 0x7E
}

/// Bytes that may stand in the query of an endpoint.
pub open spec fn query_byte(b: u8) -> bool {
    ||| b == 0x21
    ||| 0x24 <= b <= 0x3B
    ||| b == 0x3D
    ||| 0x3F <= b <= 0x7E
}

/// Whether `bytes` is a query followed, after a `#`, by anything.
pub open spec fn query_accepted(bytes: Seq<u8>) -> bool
    decreases bytes.len(),
{
    if bytes.len() == 0 {
        true
    } else if bytes[0] == 0x23 {
        true
    } else {
        query_byte(bytes[0]) && query_accepted(bytes.drop_first())
    }
}

/// Whether `bytes` is a path followed, after a `?`, by a query and, after a
/// `#`, by anything.
pub open spec fn path_accepted(bytes: Seq<u8>) -> bool
    decreases bytes.len(),
{
    if bytes.len() == 0 {
        true
    } else if bytes[0] == 0x23 {
        true
    } else if bytes[0] == 0x3F {
        query_accepted(bytes.drop_first())
    } else {
        path_byte(bytes[0]) && path_accepted(bytes.drop_first())
    }
}

/// Whether an endpoint can be addressed: it starts with `/` and holds only
/// bytes that need no escaping.
pub open spec fn endpoint_accepted(endpoint: Seq<char>) -> bool {
    let bytes = encode_utf8(endpoint);
    bytes.len() > 0 && bytes[0] == 0x2F && path_accepted(bytes)
}

/// Whether the address of `endpoint` on `socket` can be built: the endpoint is
/// accepted and the address is not too long.
pub open spec fn addressable(socket: Seq<char>, endpoint: Seq<char>) -> bool {
    &&& endpoint_accepted(endpoint)
    &&& URI_FRAME_BYTES + 2 * encode_utf8(socket).len() + encode_utf8(endpoint).len()
        <= MAX_URI_BYTES
}

/// The text of the address of `endpoint` on the Unix socket at `socket`.
pub uninterp spec fn socket_uri(socket: Seq<char>, endpoint: Seq<char>) -> Seq<char>;

/// The text that names a status code, empty where there is no such status.
pub uninterp spec fn status_line(code: u16) -> Seq<char>;

/// Builds the address with `hyperlocal::Uri::new`, converts it into a
/// `hyper::Uri` and prints that.
///
/// Trusted: `hyperlocal` writes the socket in hexadecimal after `unix://`,
/// then `:0` and the endpoint, and parses the whole as a URI, which panics
/// where the parse fails. The parse fails on more than `MAX_URI_BYTES` bytes
/// and on a byte that the path or the query does not take; `requires` leaves
/// both out. The result is taken to be a function of the two texts alone.
#[verifier::external_body]
pub(crate) fn unix_uri(socket: &str, endpoint: &str) -> (uri: String)
    requires
        addressable(socket@, endpoint@),
    ensures
        uri@ == socket_uri(socket@, endpoint@),
{
    let uri: hyper::Uri = hyperlocal::Uri::new(socket, endpoint).into();
    uri.to_string()
}

/// Asks `hyper::StatusCode::is_success` whether `code` is a success.
///
/// Trusted: a status is a success from 200 to 299; a number that is no status
/// code at all (`StatusCode::from_u16` refuses it) is none.
#[verifier::external_body]
pub(crate) fn code_is_success(code: u16) -> (success: bool)
    ensures
        success == (200 <= code <= 299),
{
    match hyper::StatusCode::from_u16(code) {
        Ok(status) => status.is_success(),
        Err(_) => false,
    }
}

/// Prints `code` as `hyper::StatusCode` displays it: the number and its
/// canonical reason.
///
/// Trusted: the result is taken to be a function of the number alone.
#[verifier::external_body]
pub(crate) fn code_line(code: u16) -> (line: String)
    ensures
        line@ == status_line(code),
{
    match hyper::StatusCode::from_u16(code) {
        Ok(status) => status.to_string(),
        Err(_) => String::new(),
    }
}

/// Tells whether `bytes`, read as a query, is accepted.
fn query_is_accepted(bytes: &[u8], from: usize) -> (accepted: bool)
    requires
        from <= bytes@.len(),
    ensures
        accepted == query_accepted(bytes@.skip(from as int)),
{
    let mut i: usize = from;
    while i < bytes.len()
        invariant
            from <= i <= bytes@.len(),
            query_accepted(bytes@.skip(from as int)) == query_accepted(bytes@.skip(i as int)),
        decreases bytes@.len() - i,
    {
        let b: u8 = bytes[i];
        proof {
            assert(bytes@.skip(i as int).drop_first() =~= bytes@.skip(i + 1));
        }
        if b == 0x23 {
            return true;
        }
        let fits: bool = b == 0x21 || (0x24 <= b && b <= 0x3B) || b == 0x3D || (0x3F <= b && b
            <= 0x7E);
        if !fits {
            return false;
        }
        i = i + 1;
    }
    true
}

/// Tells whether `bytes`, read as a path with its query, is accepted.
fn path_is_accepted(bytes: &[u8]) -> (accepted: bool)
    ensures
        accepted == path_accepted(bytes@),
{
    let mut i: usize = 0;
    assert(bytes@.skip(0) =~= bytes@);
    while i < bytes.len()
        invariant
            i <= bytes@.len(),
            path_accepted(bytes@) == path_accepted(bytes@.skip(i as int)),
        decreases bytes@.len() - i,
    {
        let b: u8 = bytes[i];
        proof {
            assert(bytes@.skip(i as int).drop_first() =~= bytes@.skip(i + 1));
        }
        if b == 0x23 {
            return true;
        }
        if b == 0x3F {
            return query_is_accepted(bytes, i + 1);
        }
        let fits: bool = b == 0x21 || b == 0x22 || (0x24 <= b && b <= 0x3B) || b == 0x3D || (0x40
            <= b && b <= 0x5F) || (0x61 <= b && b <= 0x7E);
        if !fits {
            return false;
        }
        i = i + 1;
    }
    true
}

/// Tells whether the address of `endpoint` on `socket` can be built.
pub fn is_addressable(socket: &str, endpoint: &str) -> (fits: bool)
    ensures
        fits == addressable(socket@, endpoint@),
{
    let bytes = endpoint.as_bytes();
    if bytes.len() == 0 || bytes[0] != 0x2F {
        return false;
    }
    if !path_is_accepted(bytes) {
        return false;
    }
    let socket_len: usize = socket.as_bytes().len();
    let endpoint_len: usize = bytes.len();
    if endpoint_len > MAX_URI_BYTES - URI_FRAME_BYTES {
        return false;
    }
    let room: usize = MAX_URI_BYTES - URI_FRAME_BYTES - endpoint_len;
    socket_len <= room / 2
}

} // verus!
