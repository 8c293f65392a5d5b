use vstd::prelude::*;

use crate::common::strings::{
    chars_of, last_word, last_word_of, lines, lines_of, lowercase, split_once, split_once_at,
    string_of, strip_all_prefixes, strip_prefixes, to_lowercase, trim, trim_chars,
};
use super::http_handler::{first_header_line, first_header_line_of, base64_standard, base64_encode};

verus! {

/// What was learned from a client's first request.
pub struct ResolvedClient {
    pub initial_request: String,
    pub is_authorized: Option<bool>,
    pub resolved_host: Option<String>,
}

/// The value of the first header line of `request` named `name` (in any case), taken from the
/// lowercase form of the line: the text after the name and its colon, trimmed, up to a further
/// colon.
pub open spec fn lowercase_header_value(request: Seq<char>, name: Seq<char>) -> Option<Seq<char>> {
    let key = lowercase(name + seq![':']);
    match first_header_line(lines(request), key) {
        Some(line) => {
            let value = trim(strip_all_prefixes(lowercase(line), key));
            Some(
                match split_once(value, ':') {
                    Some((first, _)) => first,
                    None => value,
                },
            )
        },
        None => None,
    }
}

/// Whether the last word of the (lowercased) Authorization header of `request` is the base64
/// form of "<username>:<password>".
pub open spec fn client_authorized(request: Seq<char>, username: Seq<char>, password: Seq<char>) -> bool {
    match lowercase_header_value(request, "Authorization"@) {
        Some(authorization) => match last_word(authorization) {
            Some(word) => word == base64_standard(
                vstd::utf8::encode_utf8(username + seq![':'] + password),
            ),
            None => false,
        },
        None => false,
    }
}

fn find_header_value(request: &String, header_name: &str) -> (out: Option<String>)
    ensures
        match out {
            Some(v) => lowercase_header_value(request@, header_name@) == Some(v@),
            None => lowercase_header_value(request@, header_name@) == None::<Seq<char>>,
        },
{
    let mut key_text = header_name.to_owned();
    key_text.append(":");
    proof {
        reveal_strlit(":");
        assert(key_text@ =~= header_name@ + seq![':']);
    }
    let key = chars_of(to_lowercase(key_text.as_str()).as_str());
    let ls = lines_of(&chars_of(request.as_str()));
    match first_header_line_of(&ls, &key) {
        Some(line) => {
            let lower = chars_of(to_lowercase(string_of(line.as_slice()).as_str()).as_str());
            let stripped = if key.len() > 0 {
                strip_prefixes(&lower, &key)
            } else {
                lower
            };
            let value = trim_chars(&stripped);
            match split_once_at(&value, ':') {
                Some((first, _)) => Some(string_of(first.as_slice())),
                None => Some(string_of(value.as_slice())),
            }
        },
        None => None,
    }
}

/// `String::from_utf8`: the text that `bytes` encode when they are valid UTF-8 (as vstd's
/// `valid_utf8` and `decode_utf8` state it), `None` otherwise.
#[verifier::external_body]
fn text_from_utf8(bytes: Vec<u8>) -> (out: Option<String>)
    ensures
        match out {
            Some(text) => vstd::utf8::valid_utf8(bytes@) && text@ == vstd::utf8::decode_utf8(
                bytes@,
            ),
            None => !vstd::utf8::valid_utf8(bytes@),
        },
{
    String::from_utf8(bytes).ok()
}

/// The text of the bytes read from a client: their UTF-8 decoding, or the empty text when they
/// are not valid UTF-8.
pub fn request_text(bytes: Vec<u8>) -> (out: String)
    ensures
        vstd::utf8::valid_utf8(bytes@) ==> out@ == vstd::utf8::decode_utf8(bytes@),
        !vstd::utf8::valid_utf8(bytes@) ==> out@ == Seq::<char>::empty(),
{
    match text_from_utf8(bytes) {
        Some(text) => text,
        None => String::new(),
    }
}

/// Whether a client read should go on: only after a read that filled the whole buffer.
pub fn read_filled_buffer(read: usize, capacity: usize) -> (out: bool)
    ensures
        out == (read > 0 && read >= capacity),
{
    read > 0 && read >= capacity
}

/// The host that the Host header of `request` names, lowercased and without a port.
pub fn resolve_http_hostname(request: &String) -> (out: Option<String>)
    ensures
        match out {
            Some(h) => lowercase_header_value(request@, "Host"@) == Some(h@),
            None => lowercase_header_value(request@, "Host"@) == None::<Seq<char>>,
        },
{
    find_header_value(request, "Host")
}

/// Whether `request` carries Basic credentials for `username` and `password`, as read from the
/// lowercased Authorization header.
pub fn is_authorized(request: &String, username: String, password: String) -> (out: bool)
    ensures
        out == client_authorized(request@, username@, password@),
{
    match find_header_value(request, "Authorization") {
        Some(authorization) => {
            let mut credentials = username;
            credentials.append(":");
            credentials.append(password.as_str());
            proof {
                reveal_strlit(":");
                assert(credentials@ =~= username@ + seq![':'] + password@);
            }
            let expected = base64_encode(credentials.as_str().as_bytes());
            match last_word_of(&chars_of(authorization.as_str())) {
                Some(word) => {
                    let word = string_of(word.as_slice());
                    word == expected
                },
                None => false,
            }
        },
        None => false,
    }
}

} // verus!
