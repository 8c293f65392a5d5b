use vstd::prelude::*;

use super::strings::{digits_value, find_seq, find_sub, is_digit, slice_of, split_char, split_on};

verus! {

/// An ASCII hexadecimal digit, in either case.
pub open spec fn is_hex_digit(c: char) -> bool {
    ||| '0' <= c <= '9'
    ||| 'a' <= c <= 'f'
    ||| 'A' <= c <= 'F'
}

/// One part of a dotted IPv4 address: one to three decimal digits, no leading zero
/// unless the part is "0", and at most 255.
pub open spec fn is_dec_octet(p: Seq<char>) -> bool {
    &&& 1 <= p.len() <= 3
    &&& forall|i: int| 0 <= i < p.len() ==> is_digit(#[trigger] p[i])
    &&& (p.len() == 1 || p[0] != '0')
    &&& digits_value(p) <= 255
}

/// A dotted IPv4 address: four octets separated by dots.
pub open spec fn is_ipv4(s: Seq<char>) -> bool {
    let parts = split_char(s, '.');
    &&& parts.len() == 4
    &&& forall|i: int| 0 <= i < 4 ==> is_dec_octet(#[trigger] parts[i])
}

/// One group of an IPv6 address: one to four hexadecimal digits.
pub open spec fn is_hex_group(p: Seq<char>) -> bool {
    &&& 1 <= p.len() <= 4
    &&& forall|i: int| 0 <= i < p.len() ==> is_hex_digit(#[trigger] p[i])
}

/// Every piece is an IPv6 group.
pub open spec fn all_hex_groups(parts: Seq<Seq<char>>) -> bool {
    forall|i: int| 0 <= i < parts.len() ==> is_hex_group(#[trigger] parts[i])
}

/// The number of 16-bit groups that a colon-separated run of groups stands for, where the
/// last piece may be a dotted IPv4 address (two groups); `None` if the run is malformed.
pub open spec fn group_count(text: Seq<char>) -> Option<nat> {
    let parts = split_char(text, ':');
    if text.len() == 0 {
        Some(0)
    } else if all_hex_groups(parts) {
        Some(parts.len())
    } else if is_ipv4(parts.last()) && all_hex_groups(parts.drop_last()) {
        Some(parts.len() + 1)
    } else {
        None
    }
}

/// The number of groups before a "::", where no IPv4 part may stand.
pub open spec fn head_count(text: Seq<char>) -> Option<nat> {
    let parts = split_char(text, ':');
    if text.len() == 0 {
        Some(0)
    } else if all_hex_groups(parts) {
        Some(parts.len())
    } else {
        None
    }
}

/// An IPv6 address in the text form that std's parser accepts: eight groups, or six groups and
/// a dotted IPv4 address, or a shorter form in which the first "::" stands for at least one
/// group of zeros.
pub open spec fn is_ipv6(s: Seq<char>) -> bool {
    match find_seq(s, seq![':', ':']) {
        Some(i) => match (head_count(s.take(i)), group_count(s.skip(i + 2))) {
            (Some(k), Some(t)) => k + t <= 7,
            _ => false,
        },
        None => group_count(s) == Some(8nat),
    }
}

/// A text that std parses as an `IpAddr`: an IPv4 or an IPv6 address.
pub open spec fn is_ip_address(s: Seq<char>) -> bool {
    is_ipv4(s) || is_ipv6(s)
}

fn is_dec_octet_exec(p: &Vec<char>) -> (out: bool)
    ensures
        out == is_dec_octet(p@),
{
    if p.len() < 1 || p.len() > 3 {
        return false;
    }
    let mut value: u32 = 0;
    let mut i: usize = 0;
    while i < p.len()
        invariant
            1 <= p.len() <= 3,
            i <= p.len(),
            forall|j: int| 0 <= j < i ==> is_digit(#[trigger] p@[j]),
            value == digits_value(p@.take(i as int)),
            value < (if i == 0 {
                1u32
            } else if i == 1 {
                10u32
            } else if i == 2 {
                100u32
            } else {
                1000u32
            }),
        decreases p.len() - i,
    {
        let c = p[i];
        if !('0' <= c && c <= '9') {
            return false;
        }
        proof {
            assert(p@.take(i + 1).drop_last() =~= p@.take(i as int));
            assert(value * 10 + 9 < 10000) by (nonlinear_arith)
                requires value < 1000;
            if i == 0 { assert(value == 0); }
            if i == 1 { assert(value * 10 + 9 < 100) by (nonlinear_arith) requires value < 10; }
            if i == 2 { assert(value * 10 + 9 < 1000) by (nonlinear_arith) requires value < 100; }
        }
        value = value * 10 + ((c as u32) - ('0' as u32));
        i = i + 1;
        proof {
            assert(digits_value(p@.take(i as int)) == value);
        }
    }
    proof {
        assert(p@.take(p.len() as int) =~= p@);
    }
    (p.len() == 1 || p[0] != '0') && value <= 255
}

fn is_ipv4_exec(s: &Vec<char>) -> (out: bool)
    ensures
        out == is_ipv4(s@),
{
    let parts = split_on(s, '.');
    let ghost views = parts@.map_values(|l: Vec<char>| l@);
    if parts.len() != 4 {
        return false;
    }
    let mut i: usize = 0;
    while i < 4
        invariant
            parts.len() == 4,
            views == parts@.map_values(|l: Vec<char>| l@),
            views == split_char(s@, '.'),
            i <= 4,
            forall|j: int| 0 <= j < i ==> is_dec_octet(#[trigger] views[j]),
        decreases 4 - i,
    {
        if !is_dec_octet_exec(&parts[i]) {
            assert(views[i as int] == parts@[i as int]@);
            return false;
        }
        assert(views[i as int] == parts@[i as int]@);
        i = i + 1;
    }
    true
}

fn is_hex_group_exec(p: &Vec<char>) -> (out: bool)
    ensures
        out == is_hex_group(p@),
{
    if p.len() < 1 || p.len() > 4 {
        return false;
    }
    let mut i: usize = 0;
    while i < p.len()
        invariant
            i <= p.len(),
            forall|j: int| 0 <= j < i ==> is_hex_digit(#[trigger] p@[j]),
        decreases p.len() - i,
    {
        let c = p[i];
        if !(('0' <= c && c <= '9') || ('a' <= c && c <= 'f') || ('A' <= c && c <= 'F')) {
            return false;
        }
        i = i + 1;
    }
    true
}

fn all_hex_groups_exec(parts: &Vec<Vec<char>>, n: usize) -> (out: bool)
    requires
        n <= parts.len(),
    ensures
        out == all_hex_groups(parts@.map_values(|l: Vec<char>| l@).take(n as int)),
{
    let ghost views = parts@.map_values(|l: Vec<char>| l@).take(n as int);
    let mut i: usize = 0;
    while i < n
        invariant
            n <= parts.len(),
            views == parts@.map_values(|l: Vec<char>| l@).take(n as int),
            i <= n,
            forall|j: int| 0 <= j < i ==> is_hex_group(#[trigger] views[j]),
        decreases n - i,
    {
        assert(views[i as int] == parts@[i as int]@);
        if !is_hex_group_exec(&parts[i]) {
            return false;
        }
        i = i + 1;
    }
    true
}

/// The group count of `text`, where counts above eight are given as nine.
fn group_count_exec(text: &Vec<char>) -> (out: Option<usize>)
    ensures
        match out {
            Some(n) => group_count(text@) matches Some(c) && n == (if c > 8 {
                9
            } else {
                c
            }),
            None => group_count(text@) == None::<nat>,
        },
{
    if text.len() == 0 {
        return Some(0);
    }
    let parts = split_on(text, ':');
    let ghost views = parts@.map_values(|l: Vec<char>| l@);
    assert(views.take(parts.len() as int) =~= views);
    if all_hex_groups_exec(&parts, parts.len()) {
        return Some(if parts.len() > 8 { 9 } else { parts.len() });
    }
    if parts.len() == 0 {
        return None;
    }
    assert(views.take(parts.len() - 1) =~= views.drop_last());
    assert(views.last() == parts@[parts.len() - 1]@);
    if is_ipv4_exec(&parts[parts.len() - 1]) && all_hex_groups_exec(&parts, parts.len() - 1) {
        return Some(if parts.len() >= 8 { 9 } else { parts.len() + 1 });
    }
    None
}

fn head_count_exec(text: &Vec<char>) -> (out: Option<usize>)
    ensures
        match out {
            Some(n) => head_count(text@) == Some(n as nat),
            None => head_count(text@) == None::<nat>,
        },
{
    if text.len() == 0 {
        return Some(0);
    }
    let parts = split_on(text, ':');
    let ghost views = parts@.map_values(|l: Vec<char>| l@);
    assert(views.take(parts.len() as int) =~= views);
    if all_hex_groups_exec(&parts, parts.len()) {
        return Some(parts.len());
    }
    None
}

fn is_ipv6_exec(s: &Vec<char>) -> (out: bool)
    ensures
        out == is_ipv6(s@),
{
    let sep: Vec<char> = vec![':', ':'];
    assert(sep@ =~= seq![':', ':']);
    match find_sub(s, &sep) {
        Some(i) => {
            let head = slice_of(s, 0, i);
            let tail = slice_of(s, i + 2, s.len());
            assert(head@ =~= s@.take(i as int));
            assert(tail@ =~= s@.skip(i + 2));
            match (head_count_exec(&head), group_count_exec(&tail)) {
                (Some(k), Some(t)) => k <= 7 && t <= 7 - k,
                _ => false,
            }
        },
        None => match group_count_exec(s) {
            Some(n) => n == 8,
            None => false,
        },
    }
}

/// Whether `s` is an IP address in a text form that std's `IpAddr` parser accepts.
pub fn is_ip_address_text(s: &str) -> (out: bool)
    ensures
        out == is_ip_address(s@),
{
    let chars = super::strings::chars_of(s);
    is_ipv4_exec(&chars) || is_ipv6_exec(&chars)
}

} // verus!
