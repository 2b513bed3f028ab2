//! Loopback HTTP: endpoints, requests and responses as text.

use vstd::prelude::*;
use vstd::string::*;
use vstd::utf8::*;
use crate::amount::{
    law_amount_reads_back, lemma_decimal_chars, lemma_decimal_is_shortest, parse_u64, parsed_u64,
};
use crate::hex::{is_lower_hex_32, require_lower_hex_32};
use crate::text::{
    decimal, decimal_text, ends_with, find_char, find_text, first_char, has_prefix, has_suffix,
    head, head_of, join, join3, lemma_encoded_in_a_row, lemma_first_char, starts_with, text_place,
    told, told_text, trim, trimmed, utf8_text,
};

verus! {

/// Whether a character may not stand in the path of an endpoint.
pub open spec fn is_forbidden_in_path(c: char) -> bool {
    c == '?' || c == '#' || c < ' ' || c == '\u{7f}'
}

/// Whether some character of a text may not stand in the path of an endpoint.
pub open spec fn has_forbidden(text: Seq<char>) -> bool {
    exists|i: int| 0 <= i < text.len() && is_forbidden_in_path(#[trigger] text[i])
}

fn some_forbidden(text: &str) -> (found: bool)
    ensures
        found == has_forbidden(text@),
{
    let count: usize = text.unicode_len();
    let mut i: usize = 0;
    while i < count
        invariant
            count == text@.len(),
            i <= count,
            forall|j: int| 0 <= j < i ==> !is_forbidden_in_path(#[trigger] text@[j]),
        decreases count - i,
    {
        let c: char = text.get_char(i);
        if c == '?' || c == '#' || c < ' ' || c == '\u{7f}' {
            assert(is_forbidden_in_path(text@[i as int]));
            return true;
        }
        i = i + 1;
    }
    false
}

/// The port that a text reads as: digits from one up to the highest port.
pub open spec fn port_reading(text: Seq<char>) -> Option<u64> {
    match parsed_u64(text) {
        Some(port) if 0 < port <= 0xffff => Some(port),
        _ => None,
    }
}

/// What a loopback endpoint reads as: its authority and its path.
pub open spec fn endpoint_reading(url: Seq<char>) -> Result<(Seq<char>, Seq<char>), Seq<char>> {
    if encode_utf8(url).len() > 2_048 || !has_prefix(url, "http://127.0.0.1:"@) {
        Err("keyless HTTP endpoint must be bounded loopback plaintext"@)
    } else {
        let rest = url.subrange(7, url.len() as int);
        let slash = first_char(rest, '/') as int;
        if slash >= rest.len() {
            Err("keyless HTTP endpoint has no path"@)
        } else {
            let authority = rest.subrange(0, slash);
            let path = rest.subrange(slash, rest.len() as int);
            if first_char(authority, '@') < authority.len() || has_forbidden(path) {
                Err("keyless HTTP endpoint contains forbidden URL syntax"@)
            } else {
                match if has_prefix(authority, "127.0.0.1:"@) {
                    port_reading(authority.subrange(10, authority.len() as int))
                } else {
                    None
                } {
                    Some(port) => Ok(("127.0.0.1:"@ + decimal(port as nat), path)),
                    None => Err("keyless HTTP endpoint has an invalid port"@),
                }
            }
        }
    }
}

/// The authority and the path of a loopback endpoint.
pub fn parse_loopback_http_url(url: &str) -> (parsed: Result<(String, String), String>)
    ensures
        (match parsed {
            Ok((authority, path)) => Ok((authority@, path@)),
            Err(message) => Err(message@),
        }) == endpoint_reading(url@),
{
    if url.as_bytes().len() > 2_048 || !starts_with(url, "http://127.0.0.1:") {
        return Err("keyless HTTP endpoint must be bounded loopback plaintext".to_owned());
    }
    proof {
        reveal_strlit("http://127.0.0.1:");
        reveal_strlit("127.0.0.1:");
    }
    let rest: &str = url.substring_char(7, url.unicode_len());
    let whole: usize = rest.unicode_len();
    let slash: usize = find_char(rest, '/');
    if slash >= whole {
        return Err("keyless HTTP endpoint has no path".to_owned());
    }
    let authority: &str = rest.substring_char(0, slash);
    let path: &str = rest.substring_char(slash, whole);
    let width: usize = authority.unicode_len();
    if find_char(authority, '@') < width || some_forbidden(path) {
        return Err("keyless HTTP endpoint contains forbidden URL syntax".to_owned());
    }
    if !starts_with(authority, "127.0.0.1:") {
        return Err("keyless HTTP endpoint has an invalid port".to_owned());
    }
    match parse_u64(authority.substring_char(10, width)) {
        Some(port) if 0 < port && port <= 0xffff => Ok(
            (join("127.0.0.1:", decimal_text(port).as_str()), path.to_owned()),
        ),
        _ => Err("keyless HTTP endpoint has an invalid port".to_owned()),
    }
}

/// An endpoint that was read is within its bound, on this host and at a port; its path is the rest
/// of the text and free of what may not stand in one; and its parts, put together, read as
/// themselves.
#[verifier::rlimit(40)]
pub proof fn law_endpoint_reads_back(url: Seq<char>)
    requires
        endpoint_reading(url) is Ok,
    ensures
        encode_utf8(url).len() <= 2_048,
        ({
            let (authority, path) = endpoint_reading(url)->Ok_0;
            &&& exists|port: nat| 1 <= port <= 65_535 && authority == "127.0.0.1:"@ + decimal(port)
            &&& path.len() > 0
            &&& path[0] == '/'
            &&& !has_forbidden(path)
            &&& path == url.subrange(
                7 + first_char(url.subrange(7, url.len() as int), '/') as int,
                url.len() as int,
            )
            &&& endpoint_reading("http://"@ + authority + path) == endpoint_reading(url)
        }),
{
    reveal_strlit("http://");
    reveal_strlit("127.0.0.1:");
    reveal_strlit("http://127.0.0.1:");
    let scheme = "http://"@;
    let host = "127.0.0.1:"@;
    assert("http://127.0.0.1:"@ =~= scheme + host);
    let (authority, path) = endpoint_reading(url)->Ok_0;
    let rest = url.subrange(7, url.len() as int);
    let slash = first_char(rest, '/') as int;
    lemma_finds_char(rest, '/');
    let old_authority = rest.subrange(0, slash);
    let port_text = old_authority.subrange(10, old_authority.len() as int);
    let port = port_reading(port_text)->0;
    let digits = decimal(port as nat);
    assert(authority == host + digits);
    lemma_decimal_chars(port as nat);
    // The parts, put together.
    let again = scheme + authority + path;
    let rest_again = again.subrange(7, again.len() as int);
    assert(rest_again =~= authority + path);
    assert(again.subrange(0, 17) =~= scheme + host);
    assert forall|j: int| 0 <= j < authority.len() implies #[trigger] authority[j] != '/'
        && authority[j] != '@' by {
        if j >= 10 {
            assert(authority[j] == digits[j - 10]);
        } else {
            assert(authority[j] == host[j]);
        }
    }
    assert forall|j: int| 0 <= j < authority.len() implies #[trigger] rest_again[j] != '/' by {
        assert(rest_again[j] == authority[j]);
    }
    assert(rest_again[authority.len() as int] == path[0]);
    lemma_first_char(rest_again, '/', authority.len());
    lemma_first_char(authority, '@', authority.len());
    assert(rest_again.subrange(0, authority.len() as int) =~= authority);
    assert(rest_again.subrange(authority.len() as int, rest_again.len() as int) =~= path);
    assert(authority.subrange(0, 10) =~= host);
    assert(authority.subrange(10, authority.len() as int) =~= digits);
    law_amount_reads_back(port);
    // The text is no longer than it was.
    let front = scheme + host;
    assert(url =~= front + (port_text + path)) by {
        assert(url.subrange(0, 17) == "http://127.0.0.1:"@);
        assert(old_authority.subrange(0, 10) == host);
        assert forall|j: int| 0 <= j < url.len() implies url[j] == (front + (port_text + path))[j] by {
            if j < 17 {
                assert(url[j] == url.subrange(0, 17)[j]);
            } else {
                assert(url[j] == rest[j - 7]);
            }
        }
    }
    assert(again =~= front + (digits + path));
    lemma_encoded_in_a_row(front, port_text + path);
    lemma_encoded_in_a_row(port_text, path);
    lemma_encoded_in_a_row(front, digits + path);
    lemma_encoded_in_a_row(digits, path);
    let bytes = encode_utf8(port_text);
    if bytes.len() > 1 && bytes[0] == 43 {
        lemma_decimal_is_shortest(bytes.subrange(1, bytes.len() as int));
    } else {
        lemma_decimal_is_shortest(bytes);
    }
}

/// A mark that a text has stands at its first place.
proof fn lemma_finds_char(text: Seq<char>, mark: char)
    ensures
        first_char(text, mark) <= text.len(),
        first_char(text, mark) < text.len() ==> text[first_char(text, mark) as int] == mark,
    decreases text.len(),
{
    if text.len() > 0 && text[0] != mark {
        lemma_finds_char(text.drop_first(), mark);
    }
}

/// A request that someone without keys can broadcast.
pub struct EsploraBroadcastRequest {
    pub effect_id: String,
    pub method: String,
    pub url: String,
    pub content_type: String,
    pub body: String,
}

/// The head of a request that posts a transaction.
pub open spec fn post_head(path: Seq<char>, authority: Seq<char>, length: nat) -> Seq<char> {
    "POST "@ + path + " HTTP/1.1\r\nHost: "@ + authority
        + "\r\nContent-Type: text/plain\r\nContent-Length: "@ + decimal(length)
        + "\r\nConnection: close\r\n\r\n"@
}

/// The head of the request that posts a transaction, and the authority it goes to.
pub fn keyless_request_head(request: &EsploraBroadcastRequest) -> (head: Result<
    (String, String),
    String,
>)
    ensures
        (match head {
            Ok((authority, head)) => Ok((authority@, head@)),
            Err(message) => Err(message@),
        }) == (match endpoint_reading(request.url@) {
            Err(message) => Err(message),
            Ok((authority, path)) => Ok(
                (authority, post_head(path, authority, encode_utf8(request.body@).len())),
            ),
        }),
{
    let (authority, path) = parse_loopback_http_url(request.url.as_str())?;
    let mut head: String = join3("POST ", path.as_str(), " HTTP/1.1\r\nHost: ");
    head.append(authority.as_str());
    head.append("\r\nContent-Type: text/plain\r\nContent-Length: ");
    head.append(decimal_text(request.body.as_str().as_bytes().len() as u64).as_str());
    head.append("\r\nConnection: close\r\n\r\n");
    Ok((authority, head))
}

/// What the response to a posted transaction reads as: the identifier of the transaction.
pub open spec fn keyless_answer(bytes: Seq<u8>) -> Result<Seq<char>, Seq<char>> {
    if bytes.len() > 8_192 {
        Err("keyless HTTP response exceeds its bound"@)
    } else if !valid_utf8(bytes) {
        Err("keyless HTTP response is not UTF-8"@)
    } else {
        let response = decode_utf8(bytes);
        match text_place(response, "\r\n\r\n"@) {
            None => Err("keyless HTTP response has no header boundary"@),
            Some(place) => {
                let head = response.subrange(0, place as int);
                let body = response.subrange(place as int + 4, response.len() as int);
                if !has_prefix(head, "HTTP/1.1 200 "@) {
                    Err("keyless Esplora endpoint refused the transaction"@)
                } else if !is_lower_hex_32(trimmed(body)) {
                    Err("keyless response transaction ID"@ + " is not lowercase 32-byte hex"@)
                } else {
                    Ok(trimmed(body))
                }
            },
        }
    }
}

/// What the response to a posted transaction reads as: it can be had exactly where every part that
/// it rests on can, and each part of it is the one that its name says.
pub proof fn law_keyless_answer_is_read_from_its_parts(bytes: Seq<u8>)
    ensures
        ({
            let read = keyless_answer(bytes);
            let response = decode_utf8(bytes);
            let place = text_place(response, "\r\n\r\n"@)->0;
            let body = response.subrange(place as int + 4, response.len() as int);
            let given = read->Ok_0;
            &&& read is Ok <==> {
                &&& bytes.len() <= 8_192
                &&& valid_utf8(bytes)
                &&& text_place(response, "\r\n\r\n"@) is Some
                &&& has_prefix(response.subrange(0, place as int), "HTTP/1.1 200 "@)
                &&& is_lower_hex_32(trimmed(body))
            }
            &&& read is Ok ==> {
                &&& given == trimmed(body)
            }
        }),
{
}

/// The transaction identifier in the response to a posted transaction.
pub fn keyless_response(bytes: &[u8]) -> (answer: Result<String, String>)
    ensures
        told_text(answer) == keyless_answer(bytes@),
{
    if bytes.len() > 8_192 {
        return Err("keyless HTTP response exceeds its bound".to_owned());
    }
    let response: &str = match utf8_text(bytes) {
        Some(response) => response,
        None => {
            return Err("keyless HTTP response is not UTF-8".to_owned());
        },
    };
    proof {
        reveal_strlit("\r\n\r\n");
    }
    let place: usize = match find_text(response, "\r\n\r\n") {
        Some(place) => place,
        None => {
            return Err("keyless HTTP response has no header boundary".to_owned());
        },
    };
    let whole: usize = response.unicode_len();
    let head: &str = response.substring_char(0, place);
    let body: &str = response.substring_char(place + 4, whole);
    if !starts_with(head, "HTTP/1.1 200 ") {
        return Err("keyless Esplora endpoint refused the transaction".to_owned());
    }
    let id: &str = trim(body);
    require_lower_hex_32(id, "keyless response transaction ID")?;
    Ok(id.to_owned())
}

/// The authority and the path of a health endpoint.
pub open spec fn health_endpoint_reading(url: Seq<char>) -> Result<
    (Seq<char>, Seq<char>),
    Seq<char>,
> {
    if !has_prefix(url, "http://"@) {
        Err("smoke health URL must use plaintext loopback HTTP"@)
    } else {
        let rest = url.subrange(7, url.len() as int);
        let slash = first_char(rest, '/') as int;
        if slash < rest.len() {
            Ok((rest.subrange(0, slash), rest.subrange(slash, rest.len() as int)))
        } else {
            Ok((rest, "/"@))
        }
    }
}

/// The authority and the path of a health endpoint: it can be had exactly where every part that it
/// rests on can, and each part of it is the one that its name says.
pub proof fn law_health_endpoint_is_read_from_its_parts(url: Seq<char>)
    ensures
        ({
            let read = health_endpoint_reading(url);
            let rest = url.subrange(7, url.len() as int);
            let slash = first_char(rest, '/') as int;
            let given = read->Ok_0;
            let case_1 = slash < rest.len();
            let case_2 = slash >= rest.len();
            &&& read is Ok <==> {
                &&& has_prefix(url, "http://"@)
                &&& case_1 || case_2
            }
            &&& read is Ok && case_1 ==> {
                &&& given.0 == rest.subrange(0, slash)
                &&& given.1 == rest.subrange(slash, rest.len() as int)
            }
            &&& read is Ok && case_2 ==> {
                &&& given.0 == rest
                &&& given.1 == "/"@
            }
        }),
{
}

/// The authority of a health endpoint, and the request that is sent to it.
pub fn health_request(url: &str) -> (request: Result<(String, String), String>)
    ensures
        (match request {
            Ok((authority, request)) => Ok((authority@, request@)),
            Err(message) => Err(message@),
        }) == (match health_endpoint_reading(url@) {
            Err(message) => Err(message),
            Ok((authority, path)) => Ok(
                (
                    authority,
                    "GET "@ + path + " HTTP/1.1\r\nHost: "@ + authority
                        + "\r\nConnection: close\r\n\r\n"@,
                ),
            ),
        }),
{
    if !starts_with(url, "http://") {
        return Err("smoke health URL must use plaintext loopback HTTP".to_owned());
    }
    proof {
        reveal_strlit("http://");
    }
    let rest: &str = url.substring_char(7, url.unicode_len());
    let whole: usize = rest.unicode_len();
    let slash: usize = find_char(rest, '/');
    let (authority, path): (&str, &str) = if slash < whole {
        (rest.substring_char(0, slash), rest.substring_char(slash, whole))
    } else {
        (rest, "/")
    };
    let mut request: String = join3("GET ", path, " HTTP/1.1\r\nHost: ");
    request.append(authority);
    request.append("\r\nConnection: close\r\n\r\n");
    Ok((authority.to_owned(), request))
}

/// Whether the response of a health endpoint says that the daemon is ready.
pub open spec fn says_ready(response: Seq<char>) -> bool {
    has_prefix(response, "HTTP/1.1 200 OK\r\n"@) && has_suffix(response, "\r\n\r\nready\n"@)
}

/// Checks that the response of a health endpoint says that the daemon is ready.
pub fn verify_health_response(bytes: &[u8]) -> (checked: Result<(), String>)
    ensures
        told(checked) == (if !valid_utf8(bytes@) {
            Err("provider health response is not UTF-8"@)
        } else if says_ready(decode_utf8(bytes@)) {
            Ok(())
        } else {
            Err("provider health endpoint did not report ready"@)
        }),
{
    match utf8_text(bytes) {
        None => Err("provider health response is not UTF-8".to_owned()),
        Some(response) => if starts_with(response, "HTTP/1.1 200 OK\r\n") && ends_with(
            response,
            "\r\n\r\nready\n",
        ) {
            Ok(())
        } else {
            Err("provider health endpoint did not report ready".to_owned())
        },
    }
}

/// The authority of a relay, with the port that plain connections use where it names none.
pub open spec fn relay_authority_reading(url: Seq<char>) -> Result<Seq<char>, Seq<char>> {
    if !has_prefix(url, "ws://"@) {
        Err("funded smoke accepts only ws:// relay URLs"@)
    } else {
        let authority = head_of(url.subrange(5, url.len() as int), '/');
        if first_char(authority, ':') < authority.len() {
            Ok(authority)
        } else {
            Ok(authority + ":80"@)
        }
    }
}

/// The authority of a relay, with the port that plain connections use where it names none: it can
/// be had exactly where every part that it rests on can, and each part of it is the one that its
/// name says.
pub proof fn law_relay_authority_is_read_from_its_parts(url: Seq<char>)
    ensures
        ({
            let read = relay_authority_reading(url);
            let authority = head_of(url.subrange(5, url.len() as int), '/');
            let given = read->Ok_0;
            let case_1 = first_char(authority, ':') < authority.len();
            let case_2 = first_char(authority, ':') >= authority.len();
            &&& read is Ok <==> {
                &&& has_prefix(url, "ws://"@)
                &&& case_1 || case_2
            }
            &&& read is Ok && case_1 ==> {
                &&& given == authority
            }
            &&& read is Ok && case_2 ==> {
                &&& given == authority + ":80"@
            }
        }),
{
}

/// The authority that a relay is reached at.
pub fn relay_authority(relay_url: &str) -> (authority: Result<String, String>)
    ensures
        told_text(authority) == relay_authority_reading(relay_url@),
{
    if !starts_with(relay_url, "ws://") {
        return Err("funded smoke accepts only ws:// relay URLs".to_owned());
    }
    proof {
        reveal_strlit("ws://");
    }
    let authority: &str = head(relay_url.substring_char(5, relay_url.unicode_len()), '/');
    if find_char(authority, ':') < authority.unicode_len() {
        Ok(authority.to_owned())
    } else {
        Ok(join(authority, ":80"))
    }
}

} // verus!
