use vstd::prelude::*;

use super::ip_address::{is_ip_address, is_ip_address_text};
use super::strings::{
    alphanumeric, chars_of, contains, is_alphanumeric, replace, replace_all, seq_contains,
    seq_starts_with, split_once, split_once_at, string_of, strip_all_prefixes, strip_prefixes,
    trim, trim_chars,
};
use super::validate::{field_error_text, Rule, RuleFor, Validation};

verus! {

/// The messages of `before` with, when `fails` holds, the error `error` for `field` added.
pub open spec fn after_check(
    before: Seq<Seq<char>>,
    crumbs: Seq<Seq<char>>,
    field: Seq<char>,
    fails: bool,
    error: Seq<char>,
) -> Seq<Seq<char>> {
    if fails {
        before.push(field_error_text(crumbs, field, error))
    } else {
        before
    }
}

/// Every character is alphanumeric or a hyphen, or also a period when `periods` holds.
pub open spec fn only_name_chars(s: Seq<char>, periods: bool) -> bool {
    forall|i: int|
        0 <= i < s.len() ==> alphanumeric(#[trigger] s[i]) || s[i] == '-' || (periods && s[i]
            == '.')
}

fn name_chars_only(s: &Vec<char>, periods: bool) -> (out: bool)
    ensures
        out == only_name_chars(s@, periods),
{
    let mut i: usize = 0;
    while i < s.len()
        invariant
            i <= s.len(),
            forall|j: int|
                0 <= j < i ==> alphanumeric(#[trigger] s@[j]) || s@[j] == '-' || (periods && s@[j]
                    == '.'),
        decreases s.len() - i,
    {
        let c = s[i];
        if !(is_alphanumeric(c) || c == '-' || (periods && c == '.')) {
            return false;
        }
        i = i + 1;
    }
    true
}

/// The address part that the IP template check tests: the text before the first colon once
/// "{port}" is filled in with "1234", or nothing when there is no colon.
pub open spec fn ip_template_address(template: Seq<char>) -> Seq<char> {
    match split_once(replace_all(template, "{port}"@, "1234"@), ':') {
        Some((address, _)) => address,
        None => Seq::empty(),
    }
}

/// The text that the hostname template check tests: the template without "{port}" and "{name}".
pub open spec fn hostname_template_rest(template: Seq<char>) -> Seq<char> {
    replace_all(replace_all(template, "{port}"@, Seq::empty()), "{name}"@, Seq::empty())
}

/// The text that the port and hostname template check tests: the template without ":{port}".
pub open spec fn port_hostname_template_rest(template: Seq<char>) -> Seq<char> {
    replace_all(template, ":{port}"@, Seq::empty())
}

/// The text that the URL template check tests: the template without ":{port}" and
/// "{hostname}", and then without leading "http://" and "https://".
pub open spec fn url_template_rest(template: Seq<char>) -> Seq<char> {
    strip_all_prefixes(
        strip_all_prefixes(
            replace_all(replace_all(template, ":{port}"@, Seq::empty()), "{hostname}"@, Seq::empty()),
            "http://"@,
        ),
        "https://"@,
    )
}

/// Adds `error` for `field` to `result` when `fails` holds.
fn report(field: &str, fails: bool, error: &str, result: &mut Validation)
    ensures
        final(result).crumbs() == old(result).crumbs(),
        final(result).messages() == after_check(
            old(result).messages(),
            old(result).crumbs(),
            field@,
            fails,
            error@,
        ),
{
    if fails {
        result.add_field_error(field, error);
    }
}

/// The messages that checking `value` for `field` with [`FileMustExist`] can leave after
/// `before`: an empty value is reported as empty; otherwise the file is reported missing or
/// nothing is added, as the file system has it.
pub open spec fn file_check_outcome(
    before: Seq<Seq<char>>,
    crumbs: Seq<Seq<char>>,
    field: Seq<char>,
    value: Seq<char>,
    after: Seq<Seq<char>>,
) -> bool {
    if value.len() == 0 {
        after == before.push(field_error_text(crumbs, field, "Value cannot be empty."@))
    } else {
        after == before || after == before.push(
            field_error_text(crumbs, field, "File '"@ + value + "' does not exist or is invalid."@),
        )
    }
}

/// What the file system said about one path: the path asked about, and whether a file was
/// there at the moment of asking.
pub struct PathProbe {
    asked: String,
    exists: bool,
}

impl PathProbe {
    /// The path that was asked about.
    pub closed spec fn asked(&self) -> Seq<char> {
        self.asked@
    }
}

/// std's `Path::exists` on `path`, kept with the path it was asked about. Claimed: the probe
/// records `path`; whether a file exists is left open, as it depends on the file system at the
/// moment of the call.
#[verifier::external_body]
fn probe_path(path: &str) -> (out: PathProbe)
    ensures
        out.asked() == path@,
{
    PathProbe { asked: path.to_string(), exists: std::path::Path::new(path).exists() }
}

/// The value must name an existing file.
pub struct FileMustExist;

impl FileMustExist {
    /// The check of `value` once it is known whether the file exists: an empty value is reported
    /// as empty, and a missing file as missing.
    pub fn check_with(field: &str, value: &String, exists: bool, result: &mut Validation)
        ensures
            final(result).crumbs() == old(result).crumbs(),
            value@.len() == 0 ==> final(result).messages() == old(result).messages().push(
                field_error_text(old(result).crumbs(), field@, "Value cannot be empty."@),
            ),
            value@.len() > 0 ==> final(result).messages() == after_check(
                old(result).messages(),
                old(result).crumbs(),
                field@,
                !exists,
                "File '"@ + value@ + "' does not exist or is invalid."@,
            ),
    {
        if value.as_str().is_empty() {
            result.add_field_error(field, "Value cannot be empty.");
            return;
        }
        if !exists {
            let mut text = String::new();
            text.append("File '");
            text.append(value.as_str());
            text.append("' does not exist or is invalid.");
            result.add_field_error(field, text.as_str());
        }
    }

    /// The check of a non-empty `value` with what the file system said about that same path.
    fn check_probe(field: &str, value: &String, probe: &PathProbe, result: &mut Validation)
        requires
            value@.len() > 0,
            probe.asked() == value@,
        ensures
            final(result).crumbs() == old(result).crumbs(),
            final(result).messages() == after_check(
                old(result).messages(),
                old(result).crumbs(),
                field@,
                !probe.exists,
                "File '"@ + value@ + "' does not exist or is invalid."@,
            ),
    {
        Self::check_with(field, value, probe.exists, result);
    }
}

impl Rule for FileMustExist {
    type Value = String;

    open spec fn rule_outcome(
        field: Seq<char>,
        value: String,
        crumbs: Seq<Seq<char>>,
        before: Seq<Seq<char>>,
        after: Seq<Seq<char>>,
    ) -> bool {
        file_check_outcome(
            before,
            crumbs,
            field,
            value@,
            after,
        )
    }

    fn validate(field: &str, value: &String, result: &mut Validation)
        ensures
            file_check_outcome(
                old(result).messages(),
                old(result).crumbs(),
                field@,
                value@,
                final(result).messages(),
            ),
    {
        if value.as_str().is_empty() {
            Self::check_with(field, value, false, result);
        } else {
            let probe = probe_path(value.as_str());
            Self::check_probe(field, value, &probe, result);
        }
    }
}

/// A port must not be zero.
pub struct PortMustBeValid;

impl Rule for PortMustBeValid {
    type Value = u16;

    open spec fn rule_outcome(
        field: Seq<char>,
        value: u16,
        crumbs: Seq<Seq<char>>,
        before: Seq<Seq<char>>,
        after: Seq<Seq<char>>,
    ) -> bool {
        after == after_check(
            before,
            crumbs,
            field,
            value == 0,
            "Port cannot be zero."@,
        )
    }

    fn validate(field: &str, value: &u16, result: &mut Validation)
        ensures
            final(result).messages() == after_check(
                old(result).messages(),
                old(result).crumbs(),
                field@,
                *value == 0,
                "Port cannot be zero."@,
            ),
    {
        report(field, *value == 0, "Port cannot be zero.", result);
    }
}

/// A host address may hold only alphanumeric characters, hyphens and periods.
pub struct HostAddressMustBeValid;

fn check_host_address(field: &str, value: &Vec<char>, result: &mut Validation)
    ensures
        final(result).crumbs() == old(result).crumbs(),
        final(result).messages() == after_check(
            old(result).messages(),
            old(result).crumbs(),
            field@,
            !only_name_chars(value@, true),
            "Can only contain alphanumeric characters, hyphens, and periods."@,
        ),
{
    let ok = name_chars_only(value, true);
    report(field, !ok, "Can only contain alphanumeric characters, hyphens, and periods.", result);
}

impl Rule for HostAddressMustBeValid {
    type Value = String;

    open spec fn rule_outcome(
        field: Seq<char>,
        value: String,
        crumbs: Seq<Seq<char>>,
        before: Seq<Seq<char>>,
        after: Seq<Seq<char>>,
    ) -> bool {
        after == after_check(
            before,
            crumbs,
            field,
            !only_name_chars(value@, true),
            "Can only contain alphanumeric characters, hyphens, and periods."@,
        )
    }

    fn validate(field: &str, value: &String, result: &mut Validation)
        ensures
            final(result).messages() == after_check(
                old(result).messages(),
                old(result).crumbs(),
                field@,
                !only_name_chars(value@, true),
                "Can only contain alphanumeric characters, hyphens, and periods."@,
            ),
    {
        let chars = chars_of(value.as_str());
        check_host_address(field, &chars, result);
    }
}

/// The value must be an IPv4 or IPv6 address.
pub struct IpAddressMustBeValid;

impl Rule for IpAddressMustBeValid {
    type Value = String;

    open spec fn rule_outcome(
        field: Seq<char>,
        value: String,
        crumbs: Seq<Seq<char>>,
        before: Seq<Seq<char>>,
        after: Seq<Seq<char>>,
    ) -> bool {
        after == after_check(
            before,
            crumbs,
            field,
            !is_ip_address(value@),
            "Value must be a valid IP address."@,
        )
    }

    fn validate(field: &str, value: &String, result: &mut Validation)
        ensures
            final(result).messages() == after_check(
                old(result).messages(),
                old(result).crumbs(),
                field@,
                !is_ip_address(value@),
                "Value must be a valid IP address."@,
            ),
    {
        let ok = is_ip_address_text(value.as_str());
        report(field, !ok, "Value must be a valid IP address.", result);
    }
}

/// The value may hold only alphanumeric characters and hyphens.
pub struct AlphaNumericOnly;

fn check_alpha_numeric(field: &str, value: &Vec<char>, result: &mut Validation)
    ensures
        final(result).crumbs() == old(result).crumbs(),
        final(result).messages() == after_check(
            old(result).messages(),
            old(result).crumbs(),
            field@,
            !only_name_chars(value@, false),
            "Can only contain alphanumeric characters and hyphens."@,
        ),
{
    let ok = name_chars_only(value, false);
    report(field, !ok, "Can only contain alphanumeric characters and hyphens.", result);
}

impl Rule for AlphaNumericOnly {
    type Value = String;

    open spec fn rule_outcome(
        field: Seq<char>,
        value: String,
        crumbs: Seq<Seq<char>>,
        before: Seq<Seq<char>>,
        after: Seq<Seq<char>>,
    ) -> bool {
        after == after_check(
            before,
            crumbs,
            field,
            !only_name_chars(value@, false),
            "Can only contain alphanumeric characters and hyphens."@,
        )
    }

    fn validate(field: &str, value: &String, result: &mut Validation)
        ensures
            final(result).messages() == after_check(
                old(result).messages(),
                old(result).crumbs(),
                field@,
                !only_name_chars(value@, false),
                "Can only contain alphanumeric characters and hyphens."@,
            ),
    {
        let chars = chars_of(value.as_str());
        check_alpha_numeric(field, &chars, result);
    }
}

/// An IP template must hold "{port}", and with the port filled in, the part before the first
/// colon must be an IP address.
pub struct IpTemplateMustBeValid;

impl Rule for IpTemplateMustBeValid {
    type Value = String;

    open spec fn rule_outcome(
        field: Seq<char>,
        value: String,
        crumbs: Seq<Seq<char>>,
        before: Seq<Seq<char>>,
        after: Seq<Seq<char>>,
    ) -> bool {
        &&& !seq_contains(value@, "{port}"@) ==> after == before.push(
            field_error_text(crumbs, field, "Template must contain the {port} placeholder."@),
        )
        &&& seq_contains(value@, "{port}"@) ==> after == after_check(
            before,
            crumbs,
            field,
            !is_ip_address(ip_template_address(value@)),
            "Value must be a valid IP address."@,
        )
    }

    fn validate(field: &str, value: &String, result: &mut Validation)
        ensures
            !seq_contains(value@, "{port}"@) ==> final(result).messages() == old(result).messages().push(
                field_error_text(old(result).crumbs(), field@, "Template must contain the {port} placeholder."@),
            ),
            seq_contains(value@, "{port}"@) ==> final(result).messages() == after_check(
                old(result).messages(),
                old(result).crumbs(),
                field@,
                !is_ip_address(ip_template_address(value@)),
                "Value must be a valid IP address."@,
            ),
    {
        let chars = chars_of(value.as_str());
        let port = chars_of("{port}");
        proof {
            reveal_strlit("{port}");
        }
        if !contains(&chars, &port) {
            result.add_field_error(field, "Template must contain the {port} placeholder.");
            return;
        }
        let filled = replace(&chars, &port, &chars_of("1234"));
        let address = match split_once_at(&filled, ':') {
            Some((address, _)) => address,
            None => Vec::new(),
        };
        proof {
            assert(address@ == ip_template_address(value@));
        }
        let address = string_of(address.as_slice());
        <IpAddressMustBeValid as Rule>::validate(field, &address, result);
    }
}

/// A hostname template must hold "{name}", and without its placeholders it must be a valid
/// host address.
pub struct HostnameTemplatemustBeValid;

impl Rule for HostnameTemplatemustBeValid {
    type Value = String;

    open spec fn rule_outcome(
        field: Seq<char>,
        value: String,
        crumbs: Seq<Seq<char>>,
        before: Seq<Seq<char>>,
        after: Seq<Seq<char>>,
    ) -> bool {
        &&& !seq_contains(value@, "{name}"@) ==> after == before.push(
            field_error_text(crumbs, field, "Template must contain the {name} placeholder."@),
        )
        &&& seq_contains(value@, "{name}"@) ==> after == after_check(
            before,
            crumbs,
            field,
            !only_name_chars(hostname_template_rest(value@), true),
            "Can only contain alphanumeric characters, hyphens, and periods."@,
        )
    }

    fn validate(field: &str, value: &String, result: &mut Validation)
        ensures
            !seq_contains(value@, "{name}"@) ==> final(result).messages() == old(result).messages().push(
                field_error_text(old(result).crumbs(), field@, "Template must contain the {name} placeholder."@),
            ),
            seq_contains(value@, "{name}"@) ==> final(result).messages() == after_check(
                old(result).messages(),
                old(result).crumbs(),
                field@,
                !only_name_chars(hostname_template_rest(value@), true),
                "Can only contain alphanumeric characters, hyphens, and periods."@,
            ),
    {
        let chars = chars_of(value.as_str());
        let name = chars_of("{name}");
        let port = chars_of("{port}");
        proof {
            reveal_strlit("{name}");
            reveal_strlit("{port}");
        }
        if !contains(&chars, &name) {
            result.add_field_error(field, "Template must contain the {name} placeholder.");
            return;
        }
        let nothing: Vec<char> = Vec::new();
        let rest = replace(&replace(&chars, &port, &nothing), &name, &nothing);
        check_host_address(field, &rest, result);
    }
}

/// A host-and-port template must hold "{port}", and without ":{port}" it must be a valid host
/// address.
pub struct PortHostnameTemplatemustBeValid;

impl Rule for PortHostnameTemplatemustBeValid {
    type Value = String;

    open spec fn rule_outcome(
        field: Seq<char>,
        value: String,
        crumbs: Seq<Seq<char>>,
        before: Seq<Seq<char>>,
        after: Seq<Seq<char>>,
    ) -> bool {
        &&& !seq_contains(value@, "{port}"@) ==> after == before.push(
            field_error_text(crumbs, field, "Template must contain the {port} placeholder."@),
        )
        &&& seq_contains(value@, "{port}"@) ==> after == after_check(
            before,
            crumbs,
            field,
            !only_name_chars(port_hostname_template_rest(value@), true),
            "Can only contain alphanumeric characters, hyphens, and periods."@,
        )
    }

    fn validate(field: &str, value: &String, result: &mut Validation)
        ensures
            !seq_contains(value@, "{port}"@) ==> final(result).messages() == old(result).messages().push(
                field_error_text(old(result).crumbs(), field@, "Template must contain the {port} placeholder."@),
            ),
            seq_contains(value@, "{port}"@) ==> final(result).messages() == after_check(
                old(result).messages(),
                old(result).crumbs(),
                field@,
                !only_name_chars(port_hostname_template_rest(value@), true),
                "Can only contain alphanumeric characters, hyphens, and periods."@,
            ),
    {
        let chars = chars_of(value.as_str());
        let port = chars_of("{port}");
        let colon_port = chars_of(":{port}");
        proof {
            reveal_strlit(":{port}");
        }
        if !contains(&chars, &port) {
            result.add_field_error(field, "Template must contain the {port} placeholder.");
            return;
        }
        let nothing: Vec<char> = Vec::new();
        let rest = replace(&chars, &colon_port, &nothing);
        check_host_address(field, &rest, result);
    }
}

/// A URL template must hold "{port}" and "{hostname}", and without them and its scheme it may
/// hold only alphanumeric characters and hyphens.
pub struct UrlTemplateMustBeValid;

impl Rule for UrlTemplateMustBeValid {
    type Value = String;

    open spec fn rule_outcome(
        field: Seq<char>,
        value: String,
        crumbs: Seq<Seq<char>>,
        before: Seq<Seq<char>>,
        after: Seq<Seq<char>>,
    ) -> bool {
        &&& !seq_contains(value@, "{port}"@) ==> after == before.push(
            field_error_text(crumbs, field, "Template must contain the {port} placeholder."@),
        )
        &&& seq_contains(value@, "{port}"@) && !seq_contains(value@, "{hostname}"@) ==> after
            == before.push(
            field_error_text(crumbs, field, "Template must contain the {hostname} placeholder."@),
        )
        &&& seq_contains(value@, "{port}"@) && seq_contains(value@, "{hostname}"@) ==> after
            == after_check(
            before,
            crumbs,
            field,
            !only_name_chars(url_template_rest(value@), false),
            "Can only contain alphanumeric characters and hyphens."@,
        )
    }

    fn validate(field: &str, value: &String, result: &mut Validation)
        ensures
            !seq_contains(value@, "{port}"@) ==> final(result).messages() == old(result).messages().push(
                field_error_text(old(result).crumbs(), field@, "Template must contain the {port} placeholder."@),
            ),
            seq_contains(value@, "{port}"@) && !seq_contains(value@, "{hostname}"@) ==> final(result).messages()
                == old(result).messages().push(
                field_error_text(old(result).crumbs(), field@, "Template must contain the {hostname} placeholder."@),
            ),
            seq_contains(value@, "{port}"@) && seq_contains(value@, "{hostname}"@) ==> final(result).messages()
                == after_check(
                old(result).messages(),
                old(result).crumbs(),
                field@,
                !only_name_chars(url_template_rest(value@), false),
                "Can only contain alphanumeric characters and hyphens."@,
            ),
    {
        let chars = chars_of(value.as_str());
        let port = chars_of("{port}");
        let hostname = chars_of("{hostname}");
        let colon_port = chars_of(":{port}");
        let http = chars_of("http://");
        let https = chars_of("https://");
        proof {
            reveal_strlit("{hostname}");
            reveal_strlit(":{port}");
            reveal_strlit("http://");
            reveal_strlit("https://");
        }
        if !contains(&chars, &port) {
            result.add_field_error(field, "Template must contain the {port} placeholder.");
            return;
        }
        if !contains(&chars, &hostname) {
            result.add_field_error(field, "Template must contain the {hostname} placeholder.");
            return;
        }
        let nothing: Vec<char> = Vec::new();
        let rest = replace(&replace(&chars, &colon_port, &nothing), &hostname, &nothing);
        let rest = strip_prefixes(&strip_prefixes(&rest, &http), &https);
        check_alpha_numeric(field, &rest, result);
    }
}

/// Replacing `p` in `a + t`, where no character of `a` begins `p`, keeps `a` as it is.
proof fn lemma_replace_keeps_head(a: Seq<char>, t: Seq<char>, p: Seq<char>, r: Seq<char>)
    requires
        p.len() > 0,
        forall|j: int| 0 <= j < a.len() ==> a[j] != p[0],
    ensures
        replace_all(a + t, p, r) == a + replace_all(t, p, r),
    decreases a.len(),
{
    let s = a + t;
    if a.len() == 0 {
        assert(s =~= t);
    } else if s.len() < p.len() {
        assert(t.len() < p.len());
    } else {
        assert(s.take(p.len() as int)[0] != p[0]);
        assert(s.drop_first() =~= a.drop_first() + t);
        lemma_replace_keeps_head(a.drop_first(), t, p, r);
        assert(s =~= seq![a[0]] + s.drop_first());
        assert(seq![a[0]] + (a.drop_first() + replace_all(t, p, r)) =~= a + replace_all(t, p, r));
    }
}

/// Replacing `p` in a text whose second character differs from that of `p` keeps its first
/// character.
proof fn lemma_replace_skips_first(s: Seq<char>, p: Seq<char>, r: Seq<char>)
    requires
        p.len() >= 2,
        s.len() >= 2,
        s[1] != p[1],
    ensures
        replace_all(s, p, r) == seq![s[0]] + replace_all(s.drop_first(), p, r),
{
    if s.len() >= p.len() {
        assert(s.take(p.len() as int)[1] != p[1]);
    } else {
        assert(s.drop_first().len() < p.len());
        assert(s =~= seq![s[0]] + s.drop_first());
    }
}

/// Replacing `p` in a text that begins with `p` replaces that beginning.
proof fn lemma_replace_head_match(t: Seq<char>, p: Seq<char>, r: Seq<char>)
    requires
        p.len() > 0,
    ensures
        replace_all(p + t, p, r) == r + replace_all(t, p, r),
{
    assert((p + t).take(p.len() as int) =~= p);
    assert((p + t).skip(p.len() as int) =~= t);
}

/// A scheme ("http://" or "https://") followed by "{hostname}:{port}" leaves nothing once the
/// placeholders and the scheme are taken out.
proof fn lemma_scheme_template_rest(head: Seq<char>)
    requires
        head == seq!['h', 't', 't', 'p'] || head == seq!['h', 't', 't', 'p', 's'],
    ensures
        url_template_rest(
            head + seq![':', '/', '/'] + seq!['{', 'h', 'o', 's', 't', 'n', 'a', 'm', 'e', '}']
                + seq![':', '{', 'p', 'o', 'r', 't', '}'],
        ) == Seq::<char>::empty(),
{
    reveal_strlit(":{port}");
    reveal_strlit("{hostname}");
    reveal_strlit("http://");
    reveal_strlit("https://");
    let colon = seq![':'];
    let slashes = seq!['/', '/'];
    let host = seq!['{', 'h', 'o', 's', 't', 'n', 'a', 'm', 'e', '}'];
    let port = seq![':', '{', 'p', 'o', 'r', 't', '}'];
    let empty = Seq::<char>::empty();
    assert(port =~= ":{port}"@);
    assert(host =~= "{hostname}"@);
    let scheme = head + colon + slashes;
    let v = scheme + host + port;
    // Taking out ":{port}".
    let w = colon + slashes + host + port;
    assert(v =~= head + w);
    lemma_replace_keeps_head(head, w, port, empty);
    assert(w[1] != port[1]);
    lemma_replace_skips_first(w, port, empty);
    assert(w.drop_first() =~= (slashes + host) + port);
    lemma_replace_keeps_head(slashes + host, port, port, empty);
    assert(port =~= port + empty);
    lemma_replace_head_match(empty, port, empty);
    assert(replace_all(empty, port, empty) == empty);
    let no_port = replace_all(v, ":{port}"@, empty);
    assert(no_port =~= scheme + host);
    // Taking out "{hostname}".
    lemma_replace_keeps_head(scheme, host, host, empty);
    assert(host =~= host + empty);
    lemma_replace_head_match(empty, host, empty);
    assert(replace_all(empty, host, empty) == empty);
    let no_host = replace_all(no_port, "{hostname}"@, empty);
    assert(no_host =~= scheme);
    // Taking out the scheme.
    assert(!seq_starts_with(empty, "http://"@));
    assert(!seq_starts_with(empty, "https://"@));
    assert(strip_all_prefixes(empty, "http://"@) == empty);
    assert(strip_all_prefixes(empty, "https://"@) == empty);
    if head == seq!['h', 't', 't', 'p'] {
        assert(scheme =~= "http://"@);
        assert(scheme.take(7) =~= "http://"@);
        assert(seq_starts_with(scheme, "http://"@));
        assert(scheme.skip(7) =~= empty);
        assert(strip_all_prefixes(scheme, "http://"@) == strip_all_prefixes(scheme.skip(7), "http://"@));
        assert(strip_all_prefixes(scheme, "http://"@) == empty);
    } else {
        assert(scheme =~= "https://"@);
        assert(scheme.take(7)[4] != "http://"@[4]);
        assert(!seq_starts_with(scheme, "http://"@));
        assert(strip_all_prefixes(scheme, "http://"@) == scheme);
        assert(scheme.take(8) =~= "https://"@);
        assert(seq_starts_with(scheme, "https://"@));
        assert(scheme.skip(8) =~= empty);
        assert(strip_all_prefixes(scheme, "https://"@) == strip_all_prefixes(scheme.skip(8), "https://"@));
        assert(strip_all_prefixes(scheme, "https://"@) == empty);
    }
    assert(url_template_rest(v) == empty);
    assert(v =~= head + seq![':', '/', '/'] + seq!['{', 'h', 'o', 's', 't', 'n', 'a', 'm', 'e', '}']
        + seq![':', '{', 'p', 'o', 'r', 't', '}']);
}

/// A URL template that is a scheme ("http://" or "https://") followed by "{hostname}:{port}"
/// is valid: checking it adds no error, whatever the field, the trail and the errors before.
pub proof fn law_url_template_with_scheme_is_valid(
    field: Seq<char>,
    value: String,
    crumbs: Seq<Seq<char>>,
    before: Seq<Seq<char>>,
    after: Seq<Seq<char>>,
)
    requires
        value@ == "http://{hostname}:{port}"@ || value@ == "https://{hostname}:{port}"@,
        UrlTemplateMustBeValid::rule_outcome(field, value, crumbs, before, after),
    ensures
        after == before,
{
    reveal_strlit("http://{hostname}:{port}");
    reveal_strlit("https://{hostname}:{port}");
    reveal_strlit("{port}");
    reveal_strlit("{hostname}");
    let v = value@;
    let tail = seq![':', '/', '/'] + seq!['{', 'h', 'o', 's', 't', 'n', 'a', 'm', 'e', '}'] + seq![
        ':',
        '{',
        'p',
        'o',
        'r',
        't',
        '}',
    ];
    let head = if v == "http://{hostname}:{port}"@ {
        seq!['h', 't', 't', 'p']
    } else {
        seq!['h', 't', 't', 'p', 's']
    };
    assert(v =~= head + seq![':', '/', '/'] + seq!['{', 'h', 'o', 's', 't', 'n', 'a', 'm', 'e', '}']
        + seq![':', '{', 'p', 'o', 'r', 't', '}']);
    lemma_scheme_template_rest(head);
    let h: int = head.len() as int;
    assert(v.subrange(h + 14, h + 14 + "{port}"@.len()) =~= "{port}"@);
    assert(seq_contains(v, "{port}"@));
    assert(v.subrange(h + 3, h + 3 + "{hostname}"@.len()) =~= "{hostname}"@);
    assert(seq_contains(v, "{hostname}"@));
    assert(url_template_rest(v) == Seq::<char>::empty());
    assert(only_name_chars(url_template_rest(v), false));
}

/// A number must not be zero.
pub struct MustBeGreaterThanZero;

impl RuleFor<u16> for MustBeGreaterThanZero {
    open spec fn rule_outcome(
        field: Seq<char>,
        value: u16,
        crumbs: Seq<Seq<char>>,
        before: Seq<Seq<char>>,
        after: Seq<Seq<char>>,
    ) -> bool {
        after == after_check(
            before,
            crumbs,
            field,
            value == 0,
            "Value must be greater than zero."@,
        )
    }

    fn validate(field: &str, value: &u16, result: &mut Validation)
        ensures
            final(result).messages() == after_check(
                old(result).messages(),
                old(result).crumbs(),
                field@,
                *value == 0,
                "Value must be greater than zero."@,
            ),
    {
        report(field, *value == 0, "Value must be greater than zero.", result);
    }
}

impl RuleFor<u64> for MustBeGreaterThanZero {
    open spec fn rule_outcome(
        field: Seq<char>,
        value: u64,
        crumbs: Seq<Seq<char>>,
        before: Seq<Seq<char>>,
        after: Seq<Seq<char>>,
    ) -> bool {
        after == after_check(
            before,
            crumbs,
            field,
            value == 0,
            "Value must be greater than zero."@,
        )
    }

    fn validate(field: &str, value: &u64, result: &mut Validation)
        ensures
            final(result).messages() == after_check(
                old(result).messages(),
                old(result).crumbs(),
                field@,
                *value == 0,
                "Value must be greater than zero."@,
            ),
    {
        report(field, *value == 0, "Value must be greater than zero.", result);
    }
}

impl RuleFor<usize> for MustBeGreaterThanZero {
    open spec fn rule_outcome(
        field: Seq<char>,
        value: usize,
        crumbs: Seq<Seq<char>>,
        before: Seq<Seq<char>>,
        after: Seq<Seq<char>>,
    ) -> bool {
        after == after_check(
            before,
            crumbs,
            field,
            value == 0,
            "Value must be greater than zero."@,
        )
    }

    fn validate(field: &str, value: &usize, result: &mut Validation)
        ensures
            final(result).messages() == after_check(
                old(result).messages(),
                old(result).crumbs(),
                field@,
                *value == 0,
                "Value must be greater than zero."@,
            ),
    {
        report(field, *value == 0, "Value must be greater than zero.", result);
    }
}

/// A string must hold something besides white space.
pub struct MustNotBeEmptyString;

impl Rule for MustNotBeEmptyString {
    type Value = String;

    open spec fn rule_outcome(
        field: Seq<char>,
        value: String,
        crumbs: Seq<Seq<char>>,
        before: Seq<Seq<char>>,
        after: Seq<Seq<char>>,
    ) -> bool {
        after == after_check(
            before,
            crumbs,
            field,
            trim(value@).len() == 0,
            "Value cannot be empty."@,
        )
    }

    fn validate(field: &str, value: &String, result: &mut Validation)
        ensures
            final(result).messages() == after_check(
                old(result).messages(),
                old(result).crumbs(),
                field@,
                trim(value@).len() == 0,
                "Value cannot be empty."@,
            ),
    {
        let chars = chars_of(value.as_str());
        let trimmed = trim_chars(&chars);
        report(field, trimmed.len() == 0, "Value cannot be empty.", result);
    }
}

} // verus!
