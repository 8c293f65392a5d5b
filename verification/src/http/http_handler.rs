use vstd::prelude::*;

use base64::{engine::general_purpose, Engine as _};

use crate::common::strings::{
    chars_of, first_word, first_word_of, last_word, last_word_of, lines, lines_of, lowercase,
    decimal, decimal_string, seq_starts_with, split_once, split_once_at, starts_with, string_of,
    to_lowercase, trim, trim_chars,
};

verus! {

/// The first of `ls` whose lowercase form begins with `key`.
pub open spec fn first_header_line(ls: Seq<Seq<char>>, key: Seq<char>) -> Option<Seq<char>>
    decreases ls.len(),
{
    if ls.len() == 0 {
        None
    } else if seq_starts_with(lowercase(ls[0]), key) {
        Some(ls[0])
    } else {
        first_header_line(ls.drop_first(), key)
    }
}

/// The value of the first header line of `request` whose name, compared in lowercase, is
/// `name`: the text after the line's first colon, trimmed.
pub open spec fn header_value(request: Seq<char>, name: Seq<char>) -> Option<Seq<char>> {
    match first_header_line(lines(request), lowercase(name + seq![':'])) {
        Some(line) => Some(
            match split_once(line, ':') {
                Some((_, value)) => trim(value),
                None => Seq::empty(),
            },
        ),
        None => None,
    }
}

/// The first of `ls` that begins with `prefix`.
pub open spec fn first_line_with(ls: Seq<Seq<char>>, prefix: Seq<char>) -> Option<Seq<char>>
    decreases ls.len(),
{
    if ls.len() == 0 {
        None
    } else if seq_starts_with(ls[0], prefix) {
        Some(ls[0])
    } else {
        first_line_with(ls.drop_first(), prefix)
    }
}

/// The HTTP version of `request`: the first word of its first line that begins with "HTTP/",
/// or "HTTP/1.1" when there is none.
pub open spec fn http_version(request: Seq<char>) -> Seq<char> {
    match first_line_with(lines(request), "HTTP/"@) {
        Some(line) => match first_word(line) {
            Some(word) => word,
            None => "HTTP/1.1"@,
        },
        None => "HTTP/1.1"@,
    }
}

/// The host that `request` names in its Host header, without a port.
pub open spec fn request_host(request: Seq<char>) -> Option<Seq<char>> {
    match header_value(request, "Host"@) {
        Some(host) => Some(
            match split_once(host, ':') {
                Some((name, _)) => name,
                None => host,
            },
        ),
        None => None,
    }
}

/// The alphabet of standard base64.
pub open spec fn base64_alphabet() -> Seq<char> {
    "ABCDEFGHIJKLMNOPQRSTUVWXYZabcdefghijklmnopqrstuvwxyz0123456789+/"@
}

/// Standard base64 with padding (RFC 4648): each group of three bytes, read as 24 bits, gives
/// four letters of six bits each; a last group of one or two bytes gives two or three letters
/// (its missing bits taken as zero) and is padded with '=' to four.
pub open spec fn base64_standard(input: Seq<u8>) -> Seq<char>
    decreases input.len(),
{
    let a = base64_alphabet();
    if input.len() == 0 {
        Seq::empty()
    } else if input.len() == 1 {
        let b0 = input[0] as int;
        seq![a[b0 / 4], a[(b0 % 4) * 16], '=', '=']
    } else if input.len() == 2 {
        let (b0, b1) = (input[0] as int, input[1] as int);
        seq![a[b0 / 4], a[(b0 % 4) * 16 + b1 / 16], a[(b1 % 16) * 4], '=']
    } else {
        let (b0, b1, b2) = (input[0] as int, input[1] as int, input[2] as int);
        seq![a[b0 / 4], a[(b0 % 4) * 16 + b1 / 16], a[(b1 % 16) * 4 + b2 / 64], a[b2 % 64]]
            + base64_standard(input.skip(3))
    }
}

/// base64's `general_purpose::STANDARD.encode`. Claimed: the result is the standard padded
/// base64 text of `input`.
#[verifier::external_body]
pub(crate) fn base64_encode(input: &[u8]) -> (out: String)
    ensures
        out@ == base64_standard(input@),
{
    general_purpose::STANDARD.encode(input)
}

/// Whether the last word of the Authorization header of `request` is the base64 form of
/// "<username>:<password>".
pub open spec fn authorized(request: Seq<char>, username: Seq<char>, password: Seq<char>) -> bool {
    match header_value(request, "Authorization"@) {
        Some(authorization) => match last_word(authorization) {
            Some(word) => word == base64_standard(
                vstd::utf8::encode_utf8(username + seq![':'] + password),
            ),
            None => false,
        },
        None => false,
    }
}

pub(crate) fn first_header_line_of(ls: &Vec<Vec<char>>, key: &Vec<char>) -> (out: Option<Vec<char>>)
    ensures
        match out {
            Some(l) => first_header_line(ls@.map_values(|l: Vec<char>| l@), key@) == Some(l@),
            None => first_header_line(ls@.map_values(|l: Vec<char>| l@), key@) == None::<
                Seq<char>,
            >,
        },
{
    let ghost all = ls@.map_values(|l: Vec<char>| l@);
    let mut i: usize = 0;
    proof {
        assert(all.skip(0) =~= all);
    }
    while i < ls.len()
        invariant
            i <= ls.len(),
            all == ls@.map_values(|l: Vec<char>| l@),
            first_header_line(all.skip(i as int), key@) == first_header_line(all, key@),
        decreases ls.len() - i,
    {
        let line = string_of(ls[i].as_slice());
        let lower = chars_of(to_lowercase(line.as_str()).as_str());
        proof {
            assert(all.skip(i as int)[0] == ls@[i as int]@);
            assert(all.skip(i as int).drop_first() =~= all.skip(i + 1));
        }
        if starts_with(&lower, key) {
            return Some(ls[i].clone());
        }
        i = i + 1;
    }
    None
}

/// The trimmed value of the first header line named `header_name` (any case), if any.
fn find_header_value(request: &String, header_name: &str) -> (out: Option<String>)
    ensures
        match out {
            Some(v) => header_value(request@, header_name@) == Some(v@),
            None => header_value(request@, header_name@) == None::<Seq<char>>,
        },
{
    let mut key_text = header_name.to_owned();
    key_text.append(":");
    proof {
        reveal_strlit(":");
        assert(key_text@ =~= header_name@ + seq![':']);
    }
    let key = chars_of(to_lowercase(key_text.as_str()).as_str());
    let ls = lines_of(&chars_of(request.as_str()));
    match first_header_line_of(&ls, &key) {
        Some(line) => {
            let value = match split_once_at(&line, ':') {
                Some((_, value)) => trim_chars(&value),
                None => Vec::new(),
            };
            Some(string_of(value.as_slice()))
        },
        None => None,
    }
}

/// The host named by the Host header of `request`, without a port.
pub fn find_request_host(request: &String) -> (out: Option<String>)
    ensures
        match out {
            Some(h) => request_host(request@) == Some(h@),
            None => request_host(request@) == None::<Seq<char>>,
        },
{
    match find_header_value(request, "Host") {
        Some(host) => {
            let chars = chars_of(host.as_str());
            match split_once_at(&chars, ':') {
                Some((name, _)) => Some(string_of(name.as_slice())),
                None => Some(host),
            }
        },
        None => None,
    }
}

/// Whether `request` carries Basic credentials for `username` and `password`.
pub fn is_authorized(request: &String, username: &String, password: &String) -> (out: bool)
    ensures
        out == authorized(request@, username@, password@),
{
    match find_header_value(request, "Authorization") {
        Some(authorization) => {
            let mut credentials = username.clone();
            credentials.append(":");
            credentials.append(password.as_str());
            proof {
                reveal_strlit(":");
                assert(credentials@ =~= username@ + seq![':'] + password@);
            }
            let expected = base64_encode(credentials.as_str().as_bytes());
            match last_word_of(&chars_of(authorization.as_str())) {
                Some(word) => {
                    let word = string_of(word.as_slice());
                    word == expected
                },
                None => false,
            }
        },
        None => false,
    }
}

fn first_line_with_of(ls: &Vec<Vec<char>>, prefix: &Vec<char>) -> (out: Option<Vec<char>>)
    ensures
        match out {
            Some(l) => first_line_with(ls@.map_values(|l: Vec<char>| l@), prefix@) == Some(l@),
            None => first_line_with(ls@.map_values(|l: Vec<char>| l@), prefix@) == None::<
                Seq<char>,
            >,
        },
{
    let ghost all = ls@.map_values(|l: Vec<char>| l@);
    let mut i: usize = 0;
    proof {
        assert(all.skip(0) =~= all);
    }
    while i < ls.len()
        invariant
            i <= ls.len(),
            all == ls@.map_values(|l: Vec<char>| l@),
            first_line_with(all.skip(i as int), prefix@) == first_line_with(all, prefix@),
        decreases ls.len() - i,
    {
        proof {
            assert(all.skip(i as int)[0] == ls@[i as int]@);
            assert(all.skip(i as int).drop_first() =~= all.skip(i + 1));
        }
        if starts_with(&ls[i], prefix) {
            return Some(ls[i].clone());
        }
        i = i + 1;
    }
    None
}

/// The HTTP version that `request` states, "HTTP/1.1" when it states none.
pub fn get_http_version(request: &String) -> (out: String)
    ensures
        out@ == http_version(request@),
{
    let ls = lines_of(&chars_of(request.as_str()));
    match first_line_with_of(&ls, &chars_of("HTTP/")) {
        Some(line) => match first_word_of(&line) {
            Some(word) => string_of(word.as_slice()),
            None => "HTTP/1.1".to_owned(),
        },
        None => "HTTP/1.1".to_owned(),
    }
}

/// The length of the UTF-8 form of `s` as std's `str::len` reports it.
pub open spec fn byte_count(s: Seq<char>) -> nat {
    (vstd::utf8::encode_utf8(s).len() as usize) as nat
}

/// The body of the response to a request without valid credentials.
pub open spec fn unauthorized_message() -> Seq<char> {
    "Access to the requested resource is not authorized. Please provide valid credentials."@
}

/// The response to a request without valid credentials.
pub open spec fn unauthorized_response(request: Seq<char>, realm: Option<Seq<char>>) -> Seq<char> {
    http_version(request) + " 401 Unauthorized\r\nWWW-Authenticate: Basic realm=\""@ + (match realm {
        Some(r) => r,
        None => "Production"@,
    }) + "\"\r\nContent-Length: "@ + decimal(byte_count(unauthorized_message()))
        + "\r\n\r\n"@ + unauthorized_message()
}

/// The response to a request that could not be forwarded.
pub open spec fn error_response(request: Seq<char>, message: Seq<char>) -> Seq<char> {
    http_version(request) + " 502 OK\r\nContent-Length: "@ + decimal(byte_count(message)) + "\r\nContent-Type: text/plain\r\nConnection: close\r\n\r\n"@ + message
}

/// A 401 response asking for Basic credentials in `realm` ("Production" when none is given).
pub fn get_unauthorized_response(request: &String, realm: &Option<String>) -> (out: String)
    ensures
        out@ == unauthorized_response(
            request@,
            match realm {
                Some(r) => Some(r@),
                None => None,
            },
        ),
{
    let message = "Access to the requested resource is not authorized. Please provide valid credentials.";
    let mut out = get_http_version(request);
    out.append(" 401 Unauthorized\r\nWWW-Authenticate: Basic realm=\"");
    match realm {
        Some(r) => out.append(r.as_str()),
        None => out.append("Production"),
    }
    out.append("\"\r\nContent-Length: ");
    let length = decimal_string(message.len());
    out.append(length.as_str());
    out.append("\r\n\r\n");
    out.append(message);
    proof {
        let realm_view = match realm {
            Some(r) => Some(r@),
            None => None::<Seq<char>>,
        };
        assert(out@ =~= unauthorized_response(request@, realm_view));
    }
    out
}

/// A 502 response that carries `message` as plain text.
pub fn get_error_response(request: &String, message: String) -> (out: String)
    ensures
        out@ == error_response(request@, message@),
{
    let mut out = get_http_version(request);
    out.append(" 502 OK\r\nContent-Length: ");
    let length = decimal_string(message.as_str().len());
    out.append(length.as_str());
    out.append("\r\nContent-Type: text/plain\r\nConnection: close\r\n\r\n");
    out.append(message.as_str());
    proof {
        assert(out@ =~= error_response(request@, message@));
    }
    out
}

} // verus!
