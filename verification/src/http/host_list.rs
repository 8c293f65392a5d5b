use vstd::prelude::*;

use crate::common::strings::{chars_of, contains, replace, replace_all, seq_contains, string_of};
use crate::common::text::{letter_set, random_from};
use vstd::arithmetic::div_mod::{
    lemma_div_denominator, lemma_fundamental_div_mod, lemma_fundamental_div_mod_converse,
    lemma_small_mod,
};

verus! {

/// The hostname and id that a registration was given.
pub struct ResolvedHost {
    pub host_id: u32,
    pub hostname: String,
}

/// What a hostname is registered to.
#[derive(Clone, Copy, Debug, PartialEq, Eq)]
pub struct RegisteredHost {
    pub tunnel_id: u32,
    pub host_id: u32,
}

/// The hosts that tunnels have registered, by hostname.
pub struct HostList {
    id_counter: u32,
    hosts: Vec<(String, RegisteredHost)>,
    host_template: String,
}

/// The map that a list of (hostname, host) entries stands for; a later entry wins.
pub open spec fn entries_map(entries: Seq<(String, RegisteredHost)>) -> Map<Seq<char>, RegisteredHost>
    decreases entries.len(),
{
    if entries.len() == 0 {
        Map::empty()
    } else {
        entries_map(entries.drop_last()).insert(entries.last().0@, entries.last().1)
    }
}

/// No hostname occurs twice.
pub open spec fn unique_keys(entries: Seq<(String, RegisteredHost)>) -> bool {
    forall|i: int, j: int|
        0 <= i < entries.len() && 0 <= j < entries.len() && i != j ==> #[trigger] entries[i].0@
            != #[trigger] entries[j].0@
}

/// The template with "{dynamic}" filled in by `name`.
pub open spec fn fill_template(template: Seq<char>, name: Seq<char>) -> Seq<char> {
    replace_all(template, "{dynamic}"@, name)
}

/// The view of an optional string.
pub open spec fn opt_view(s: Option<String>) -> Option<Seq<char>> {
    match s {
        Some(v) => Some(v@),
        None => None,
    }
}

/// The hostname made from a preferred name, when a name is given, is not empty and the hostname
/// it makes is not taken.
pub open spec fn preferred_hostname(
    hosts: Map<Seq<char>, RegisteredHost>,
    template: Seq<char>,
    preferred: Option<Seq<char>>,
) -> Option<Seq<char>> {
    match preferred {
        Some(name) => if name.len() > 0 && !hosts.contains_key(fill_template(template, name)) {
            Some(fill_template(template, name))
        } else {
            None
        },
        None => None,
    }
}

/// The template filled in with five letters from the letter set.
pub open spec fn is_random_hostname(template: Seq<char>, hostname: Seq<char>) -> bool {
    exists|r: Seq<char>|
        r.len() == 5 && (forall|i: int| 0 <= i < 5 ==> letter_set().contains(#[trigger] r[i]))
            && hostname == fill_template(template, r)
}

/// The number of five-letter words over the letter set.
pub open spec fn word_count() -> int {
    11881376
}

/// The `j`-th five-letter word over the letter set, counting from "aaaaa" as in base 26.
pub open spec fn letter_word(j: int) -> Seq<char> {
    seq![
        letter_set()[(j / 456976) % 26],
        letter_set()[(j / 17576) % 26],
        letter_set()[(j / 676) % 26],
        letter_set()[(j / 26) % 26],
        letter_set()[j % 26],
    ]
}

/// Whether every hostname that the template makes from a five-letter word is registered.
pub open spec fn all_words_taken(hosts: Map<Seq<char>, RegisteredHost>, template: Seq<char>) -> bool {
    forall|j: int| 0 <= j < word_count() ==> #[trigger] hosts.contains_key(
        fill_template(template, letter_word(j)),
    )
}

/// How many random five-letter words a registration draws before it looks for the first free
/// one in order.
pub const RANDOM_DRAWS: u64 = 1000;

/// Filling a template that does not hold the pattern leaves it as it is.
proof fn lemma_replace_all_absent(s: Seq<char>, p: Seq<char>, r: Seq<char>)
    requires
        p.len() > 0,
        !seq_contains(s, p),
    ensures
        replace_all(s, p, r) == s,
    decreases s.len(),
{
    if s.len() >= p.len() {
        if s.take(p.len() as int) == p {
            assert(s.subrange(0, 0 + p.len() as int) =~= s.take(p.len() as int));
            assert(seq_contains(s, p));
        }
        let t = s.drop_first();
        assert(!seq_contains(t, p)) by {
            if seq_contains(t, p) {
                let i = choose|i: int| 0 <= i && i + p.len() <= t.len() && #[trigger] t.subrange(i, i + p.len()) == p;
                assert(s.subrange(i + 1, i + 1 + p.len()) =~= t.subrange(i, i + p.len()));
            }
        }
        lemma_replace_all_absent(t, p, r);
        assert(seq![s[0]] + t =~= s);
    }
}

/// Filling a template that holds the pattern gives different texts for different names of one
/// length.
proof fn lemma_replace_all_injective(s: Seq<char>, p: Seq<char>, a: Seq<char>, b: Seq<char>)
    requires
        p.len() > 0,
        a.len() == b.len(),
        seq_contains(s, p),
        replace_all(s, p, a) == replace_all(s, p, b),
    ensures
        a == b,
    decreases s.len(),
{
    let i = choose|i: int| 0 <= i && i + p.len() <= s.len() && #[trigger] s.subrange(i, i + p.len()) == p;
    if s.take(p.len() as int) == p {
        let ra = replace_all(s.skip(p.len() as int), p, a);
        let rb = replace_all(s.skip(p.len() as int), p, b);
        assert((a + ra).take(a.len() as int) =~= a);
        assert((b + rb).take(b.len() as int) =~= b);
    } else {
        assert(i != 0) by {
            if i == 0 {
                assert(s.subrange(0, p.len() as int) =~= s.take(p.len() as int));
            }
        }
        let t = s.drop_first();
        assert(t.subrange(i - 1, i - 1 + p.len()) =~= s.subrange(i, i + p.len()));
        assert(seq_contains(t, p));
        assert(replace_all(t, p, a) =~= replace_all(s, p, a).drop_first());
        assert(replace_all(t, p, b) =~= replace_all(s, p, b).drop_first());
        lemma_replace_all_injective(t, p, a, b);
    }
}

/// No two letters of the letter set are the same.
proof fn lemma_letters_distinct(x: int, y: int)
    requires
        0 <= x < 26,
        0 <= y < 26,
        letter_set()[x] == letter_set()[y],
    ensures
        x == y,
{
    reveal_strlit("abcdefghijklmnopqrstuvwxyz");
    assert(letter_set() =~= seq![
        'a', 'b', 'c', 'd', 'e', 'f', 'g', 'h', 'i', 'j', 'k', 'l', 'm', 'n', 'o', 'p', 'q', 'r',
        's', 't', 'u', 'v', 'w', 'x', 'y', 'z',
    ]);
    assert(letter_set()[x] as u32 == 97 + x);
    assert(letter_set()[y] as u32 == 97 + y);
}

/// A number below `word_count()` in its five base-26 digits.
proof fn lemma_base26_digits(j: int)
    requires
        0 <= j < word_count(),
    ensures
        j == 26 * (j / 26) + j % 26,
        j / 26 == 26 * (j / 676) + (j / 26) % 26,
        j / 676 == 26 * (j / 17576) + (j / 676) % 26,
        j / 17576 == 26 * (j / 456976) + (j / 17576) % 26,
        j / 456976 == (j / 456976) % 26,
{
    lemma_fundamental_div_mod(j, 26);
    lemma_div_denominator(j, 26, 26);
    lemma_fundamental_div_mod(j / 26, 26);
    lemma_div_denominator(j, 676, 26);
    lemma_fundamental_div_mod(j / 676, 26);
    lemma_div_denominator(j, 17576, 26);
    lemma_fundamental_div_mod(j / 17576, 26);
    lemma_fundamental_div_mod(j, 456976);
    assert(0 <= j % 456976) by {
        vstd::arithmetic::div_mod::lemma_mod_pos_bound(j, 456976);
    }
    let q = j / 456976;
    assert(q < 26);
    assert(q >= 0);
    lemma_small_mod(q as nat, 26);
}

/// Different numbers below `word_count()` make different words.
proof fn lemma_letter_word_injective(j1: int, j2: int)
    requires
        0 <= j1 < word_count(),
        0 <= j2 < word_count(),
        letter_word(j1) == letter_word(j2),
    ensures
        j1 == j2,
{
    let w1 = letter_word(j1);
    let w2 = letter_word(j2);
    assert(w1[0] == w2[0] && w1[1] == w2[1] && w1[2] == w2[2] && w1[3] == w2[3] && w1[4] == w2[4]);
    lemma_letters_distinct((j1 / 456976) % 26, (j2 / 456976) % 26);
    lemma_letters_distinct((j1 / 17576) % 26, (j2 / 17576) % 26);
    lemma_letters_distinct((j1 / 676) % 26, (j2 / 676) % 26);
    lemma_letters_distinct((j1 / 26) % 26, (j2 / 26) % 26);
    lemma_letters_distinct(j1 % 26, j2 % 26);
    lemma_base26_digits(j1);
    lemma_base26_digits(j2);
}

/// Every five-letter word over the letter set is `letter_word(j)` for some `j` below
/// `word_count()`.
proof fn lemma_letter_word_onto(r: Seq<char>) -> (j: int)
    requires
        r.len() == 5,
        forall|i: int| 0 <= i < 5 ==> letter_set().contains(#[trigger] r[i]),
    ensures
        0 <= j < word_count(),
        letter_word(j) == r,
{
    reveal_strlit("abcdefghijklmnopqrstuvwxyz");
    assert(letter_set().len() == 26);
    assert(letter_set().contains(r[0]) && letter_set().contains(r[1]) && letter_set().contains(r[2])
        && letter_set().contains(r[3]) && letter_set().contains(r[4]));
    let x0 = choose|x: int| 0 <= x < 26 && letter_set()[x] == r[0];
    let x1 = choose|x: int| 0 <= x < 26 && letter_set()[x] == r[1];
    let x2 = choose|x: int| 0 <= x < 26 && letter_set()[x] == r[2];
    let x3 = choose|x: int| 0 <= x < 26 && letter_set()[x] == r[3];
    let x4 = choose|x: int| 0 <= x < 26 && letter_set()[x] == r[4];
    let q4 = x0;
    let q3 = q4 * 26 + x1;
    let q2 = q3 * 26 + x2;
    let q1 = q2 * 26 + x3;
    let j = q1 * 26 + x4;
    lemma_fundamental_div_mod_converse(j, 26, q1, x4);
    lemma_fundamental_div_mod_converse(q1, 26, q2, x3);
    lemma_fundamental_div_mod_converse(q2, 26, q3, x2);
    lemma_fundamental_div_mod_converse(q3, 26, q4, x1);
    lemma_small_mod(x0 as nat, 26);
    lemma_div_denominator(j, 26, 26);
    lemma_div_denominator(j, 676, 26);
    lemma_div_denominator(j, 17576, 26);
    assert(j / 676 == q2);
    assert(j / 17576 == q3);
    assert(j / 456976 == q4);
    assert(letter_word(j) =~= r);
    j
}

/// The hostnames that `hosts` registers are finitely many.
proof fn lemma_entries_finite(entries: Seq<(String, RegisteredHost)>)
    ensures
        entries_map(entries).dom().finite(),
    decreases entries.len(),
{
    if entries.len() > 0 {
        lemma_entries_finite(entries.drop_last());
    }
}

/// The id that a registration after one given `id` gets: one more, wrapping round to 0.
pub open spec fn following_host_id(id: u32) -> u32 {
    if id == u32::MAX {
        0
    } else {
        (id + 1) as u32
    }
}

/// The host that `hosts` gives for `hostname`, if any.
pub open spec fn lookup(hosts: Map<Seq<char>, RegisteredHost>, hostname: Seq<char>) -> Option<
    RegisteredHost,
> {
    if hosts.contains_key(hostname) {
        Some(hosts[hostname])
    } else {
        None
    }
}

/// `hosts` without the hosts of tunnel `tunnel_id`.
pub open spec fn without_tunnel(hosts: Map<Seq<char>, RegisteredHost>, tunnel_id: u32) -> Map<
    Seq<char>,
    RegisteredHost,
> {
    hosts.restrict(hosts.dom().filter(|h: Seq<char>| hosts[h].tunnel_id != tunnel_id))
}

/// A registered host is found under its hostname.
pub proof fn law_found_after_register(
    hosts: Map<Seq<char>, RegisteredHost>,
    hostname: Seq<char>,
    host: RegisteredHost,
)
    ensures
        lookup(hosts.insert(hostname, host), hostname) == Some(host),
{
}

/// Registering a hostname leaves what other hostnames are registered to as it was.
pub proof fn law_register_keeps_others(
    hosts: Map<Seq<char>, RegisteredHost>,
    hostname: Seq<char>,
    host: RegisteredHost,
    other: Seq<char>,
)
    requires
        other != hostname,
    ensures
        lookup(hosts.insert(hostname, host), other) == lookup(hosts, other),
{
}

/// Unregistering a tunnel undoes registering a hostname that was free for it: the hosts of
/// other tunnels are the same as if the registration had not happened.
pub proof fn law_unregister_undoes_register(
    hosts: Map<Seq<char>, RegisteredHost>,
    hostname: Seq<char>,
    tunnel_id: u32,
    host_id: u32,
)
    requires
        !hosts.contains_key(hostname),
    ensures
        without_tunnel(hosts.insert(hostname, RegisteredHost { tunnel_id, host_id }), tunnel_id)
            == without_tunnel(hosts, tunnel_id),
{
    let after = hosts.insert(hostname, RegisteredHost { tunnel_id, host_id });
    assert(without_tunnel(after, tunnel_id) =~= without_tunnel(hosts, tunnel_id));
}

/// After a tunnel is unregistered no hostname is found for it, and every other host is found
/// as before.
pub proof fn law_unregister_by_tunnel(
    hosts: Map<Seq<char>, RegisteredHost>,
    tunnel_id: u32,
    hostname: Seq<char>,
)
    ensures
        lookup(without_tunnel(hosts, tunnel_id), hostname) == (match lookup(hosts, hostname) {
            Some(h) => if h.tunnel_id == tunnel_id {
                None
            } else {
                Some(h)
            },
            None => None,
        }),
{
}

proof fn lemma_entries_map(entries: Seq<(String, RegisteredHost)>)
    requires
        unique_keys(entries),
    ensures
        forall|k: Seq<char>|
            #![trigger entries_map(entries).contains_key(k)]
            entries_map(entries).contains_key(k) <==> exists|i: int|
                0 <= i < entries.len() && #[trigger] entries[i].0@ == k,
        forall|i: int|
            0 <= i < entries.len() ==> #[trigger] entries_map(entries)[entries[i].0@]
                == entries[i].1,
    decreases entries.len(),
{
    if entries.len() > 0 {
        let rest = entries.drop_last();
        assert(unique_keys(rest)) by {
            assert forall|i: int, j: int|
                0 <= i < rest.len() && 0 <= j < rest.len() && i != j implies #[trigger] rest[i].0@
                != #[trigger] rest[j].0@ by {
                assert(rest[i] == entries[i] && rest[j] == entries[j]);
            }
        }
        lemma_entries_map(rest);
        let n = entries.len() - 1;
        let last = entries[n];
        assert forall|k: Seq<char>|
            entries_map(entries).contains_key(k) <==> exists|i: int|
                0 <= i < entries.len() && #[trigger] entries[i].0@ == k by {
            if k == last.0@ {
                assert(entries[n].0@ == k);
            } else {
                assert(entries_map(entries).contains_key(k) == entries_map(rest).contains_key(k));
                if entries_map(rest).contains_key(k) {
                    let i = choose|i: int| 0 <= i < rest.len() && #[trigger] rest[i].0@ == k;
                    assert(entries[i] == rest[i]);
                }
                if exists|i: int| 0 <= i < entries.len() && #[trigger] entries[i].0@ == k {
                    let i = choose|i: int| 0 <= i < entries.len() && #[trigger] entries[i].0@ == k;
                    assert(i != n);
                    assert(rest[i] == entries[i]);
                    assert(rest[i].0@ == k);
                }
            }
        }
        assert forall|i: int| 0 <= i < entries.len() implies #[trigger] entries_map(
            entries,
        )[entries[i].0@] == entries[i].1 by {
            if i < n {
                assert(rest[i] == entries[i]);
                assert(entries[i].0@ != entries[n].0@);
                assert(entries_map(rest)[rest[i].0@] == rest[i].1);
            }
        }
    }
}

proof fn lemma_push_unique(entries: Seq<(String, RegisteredHost)>, e: (String, RegisteredHost))
    requires
        unique_keys(entries),
        !entries_map(entries).contains_key(e.0@),
    ensures
        unique_keys(entries.push(e)),
        entries_map(entries.push(e)) == entries_map(entries).insert(e.0@, e.1),
{
    lemma_entries_map(entries);
    let s = entries.push(e);
    assert(s.drop_last() =~= entries);
    assert forall|a: int, b: int|
        0 <= a < s.len() && 0 <= b < s.len() && a != b implies #[trigger] s[a].0@ != #[trigger] s[b].0@ by {
        if a < entries.len() && b < entries.len() {
            assert(s[a] == entries[a] && s[b] == entries[b]);
        } else if a < entries.len() {
            assert(s[a] == entries[a]);
            assert(entries_map(entries).contains_key(entries[a].0@));
        } else {
            assert(s[b] == entries[b]);
            assert(entries_map(entries).contains_key(entries[b].0@));
        }
    }
}

proof fn lemma_take_unique(entries: Seq<(String, RegisteredHost)>, i: int)
    requires
        unique_keys(entries),
        0 <= i <= entries.len(),
    ensures
        unique_keys(entries.take(i)),
{
    let t = entries.take(i);
    assert forall|a: int, b: int|
        0 <= a < t.len() && 0 <= b < t.len() && a != b implies #[trigger] t[a].0@ != #[trigger] t[b].0@ by {
        assert(t[a] == entries[a] && t[b] == entries[b]);
    }
}

impl HostList {
    /// No hostname is registered twice.
    #[verifier::type_invariant]
    pub closed spec fn wf(&self) -> bool {
        unique_keys(self.hosts@)
    }

    /// The registered hosts, by hostname.
    pub closed spec fn hosts(&self) -> Map<Seq<char>, RegisteredHost> {
        entries_map(self.hosts@)
    }

    /// The id that the last registration was given (0 before any).
    pub closed spec fn last_id(&self) -> u32 {
        self.id_counter
    }

    /// The template that hostnames are made from.
    pub closed spec fn template(&self) -> Seq<char> {
        self.host_template@
    }

    /// While fewer hostnames are registered than there are five-letter words, and the template
    /// has a "{dynamic}" part, some five-letter word still makes a free hostname, so a
    /// registration always finds one, whatever name it prefers.
    pub proof fn law_random_hostname_is_free(&self, preferred: Option<Seq<char>>)
        requires
            self.wf(),
            self.hosts().dom().len() < word_count(),
            seq_contains(self.template(), "{dynamic}"@),
        ensures
            !all_words_taken(self.hosts(), self.template()),
            self.can_register(preferred),
    {
        reveal_strlit("{dynamic}");
        let hosts = self.hosts();
        let template = self.template();
        lemma_entries_finite(self.hosts@);
        if all_words_taken(hosts, template) {
            let f = |j: int| fill_template(template, letter_word(j));
            let x = vstd::set_lib::set_int_range(0, word_count());
            vstd::set_lib::lemma_int_range(0, word_count());
            assert(vstd::relations::injective_on(f, x)) by {
                assert forall|j1: int, j2: int|
                    x.contains(j1) && x.contains(j2) && #[trigger] f(j1) == #[trigger] f(j2) implies j1
                    == j2 by {
                    lemma_replace_all_injective(
                        template,
                        "{dynamic}"@,
                        letter_word(j1),
                        letter_word(j2),
                    );
                    lemma_letter_word_injective(j1, j2);
                }
            }
            let y = x.map(f);
            vstd::set_lib::lemma_map_size(x, y, f);
            assert(y.subset_of(hosts.dom())) by {
                assert forall|k: Seq<char>| y.contains(k) implies hosts.dom().contains(k) by {
                    let j = choose|j: int| x.contains(j) && f(j) == k;
                    assert(hosts.contains_key(fill_template(template, letter_word(j))));
                }
            }
            vstd::set_lib::lemma_len_subset(y, hosts.dom());
        }
    }

    /// An empty list whose hostnames are made from `host_template`.
    pub fn new(host_template: String) -> (out: Self)
        ensures
            out.hosts() == Map::<Seq<char>, RegisteredHost>::empty(),
            out.last_id() == 0,
            out.template() == host_template@,
    {
        HostList { id_counter: 0, host_template, hosts: Vec::new() }
    }

    fn assign_id(&mut self) -> (out: u32)
        ensures
            out == (if old(self).last_id() == u32::MAX {
                0
            } else {
                (old(self).last_id() + 1) as u32
            }),
            final(self).last_id() == out,
            final(self).hosts@ == old(self).hosts@,
            final(self).template() == old(self).template(),
    {
        proof {
            use_type_invariant(&*self);
        }
        self.id_counter = self.id_counter.wrapping_add(1);
        self.id_counter
    }

    /// The position of `hostname` among the entries, if it is registered.
    fn index_of(&self, hostname: &String) -> (out: Option<usize>)
        requires
            self.wf(),
        ensures
            match out {
                Some(i) => i < self.hosts@.len() && self.hosts@[i as int].0@ == hostname@
                    && self.hosts().contains_key(hostname@) && self.hosts()[hostname@]
                    == self.hosts@[i as int].1,
                None => !self.hosts().contains_key(hostname@),
            },
    {
        proof {
            lemma_entries_map(self.hosts@);
        }
        let mut i: usize = 0;
        while i < self.hosts.len()
            invariant
                self.wf(),
                i <= self.hosts@.len(),
                forall|j: int| 0 <= j < i ==> #[trigger] self.hosts@[j].0@ != hostname@,
            decreases self.hosts.len() - i,
        {
            if self.hosts[i].0 == *hostname {
                proof {
                    lemma_entries_map(self.hosts@);
                    assert(entries_map(self.hosts@)[self.hosts@[i as int].0@] == self.hosts@[i as int].1);
                }
                return Some(i);
            }
            i = i + 1;
        }
        None
    }

    fn is_taken(&self, hostname: &String) -> (out: bool)
        requires
            self.wf(),
        ensures
            out == self.hosts().contains_key(hostname@),
    {
        self.index_of(hostname).is_some()
    }

    fn assign_hostname(&self, desired_name: Option<String>) -> (out: Option<String>)
        requires
            self.wf(),
        ensures
            match preferred_hostname(self.hosts(), self.template(), opt_view(desired_name)) {
                Some(h) => out matches Some(n) && n@ == h,
                None => match out {
                    Some(n) => is_random_hostname(self.template(), n@) && !self.hosts().contains_key(
                        n@,
                    ),
                    None => all_words_taken(self.hosts(), self.template()),
                },
            },
    {
        let template = chars_of(self.host_template.as_str());
        let placeholder = chars_of("{dynamic}");
        proof {
            reveal_strlit("{dynamic}");
        }
        if let Some(name) = &desired_name {
            if !name.as_str().is_empty() {
                let hostname = string_of(replace(&template, &placeholder, &chars_of(name.as_str())).as_slice());
                if !self.is_taken(&hostname) {
                    return Some(hostname);
                }
            }
        }
        let letters = chars_of("abcdefghijklmnopqrstuvwxyz");
        proof {
            reveal_strlit("abcdefghijklmnopqrstuvwxyz");
        }
        if !contains(&template, &placeholder) {
            let hostname = self.host_template.clone();
            proof {
                let word = seq!['a', 'a', 'a', 'a', 'a'];
                assert(letter_set()[0] == 'a');
                assert(forall|i: int| 0 <= i < 5 ==> letter_set().contains(#[trigger] word[i]));
                lemma_replace_all_absent(self.template(), "{dynamic}"@, word);
                assert forall|j: int| 0 <= j < word_count() implies fill_template(
                    self.template(),
                    letter_word(j),
                ) == self.template() by {
                    lemma_replace_all_absent(self.template(), "{dynamic}"@, letter_word(j));
                }
            }
            if self.is_taken(&hostname) {
                return None;
            }
            proof {
                let word = seq!['a', 'a', 'a', 'a', 'a'];
                assert(word.len() == 5 && (forall|i: int| 0 <= i < 5 ==> letter_set().contains(#[trigger] word[i]))
                    && hostname@ == fill_template(self.template(), word));
                assert(is_random_hostname(self.template(), hostname@));
            }
            return Some(hostname);
        }
        let random = random_from(&letters, 5);
        let mut hostname = string_of(replace(&template, &placeholder, &random).as_slice());
        let mut attempts: u64 = 0;
        while self.is_taken(&hostname) && attempts < RANDOM_DRAWS
            invariant
                self.wf(),
                is_random_hostname(self.template(), hostname@),
                template@ == self.template(),
                placeholder@ == "{dynamic}"@,
                placeholder@.len() > 0,
                letters@ == letter_set(),
                letters@.len() > 0,
            decreases RANDOM_DRAWS - attempts,
        {
            let random = random_from(&letters, 5);
            hostname = string_of(replace(&template, &placeholder, &random).as_slice());
            attempts = attempts + 1;
        }
        if !self.is_taken(&hostname) {
            return Some(hostname);
        }
        self.first_free_word(&template, &placeholder, &letters)
    }

    /// The template filled with the first five-letter word whose hostname is free, counting
    /// from "aaaaa"; none when every one is registered.
    fn first_free_word(&self, template: &Vec<char>, placeholder: &Vec<char>, letters: &Vec<char>) -> (out:
        Option<String>)
        requires
            self.wf(),
            template@ == self.template(),
            placeholder@ == "{dynamic}"@,
            letters@ == letter_set(),
        ensures
            match out {
                Some(n) => is_random_hostname(self.template(), n@) && !self.hosts().contains_key(n@),
                None => all_words_taken(self.hosts(), self.template()),
            },
    {
        proof {
            reveal_strlit("{dynamic}");
            reveal_strlit("abcdefghijklmnopqrstuvwxyz");
        }
        assert(letters@.len() == 26);
        let mut j: usize = 0;
        while j < 11881376
            invariant
                self.wf(),
                template@ == self.template(),
                placeholder@ == "{dynamic}"@,
                placeholder@.len() > 0,
                letters@ == letter_set(),
                letters@.len() == 26,
                j <= word_count(),
                forall|k: int| 0 <= k < j ==> #[trigger] self.hosts().contains_key(
                    fill_template(self.template(), letter_word(k)),
                ),
            decreases 11881376 - j,
        {
            let mut word: Vec<char> = Vec::new();
            word.push(letters[(j / 456976) % 26]);
            word.push(letters[(j / 17576) % 26]);
            word.push(letters[(j / 676) % 26]);
            word.push(letters[(j / 26) % 26]);
            word.push(letters[j % 26]);
            assert(word@ =~= letter_word(j as int));
            let candidate = string_of(replace(template, placeholder, &word).as_slice());
            if !self.is_taken(&candidate) {
                proof {
                    let w = letter_word(j as int);
                    let jj = j as int;
                    assert forall|i: int| 0 <= i < 5 implies letter_set().contains(#[trigger] w[i]) by {
                        let x = if i == 0 {
                            (jj / 456976) % 26
                        } else if i == 1 {
                            (jj / 17576) % 26
                        } else if i == 2 {
                            (jj / 676) % 26
                        } else if i == 3 {
                            (jj / 26) % 26
                        } else {
                            jj % 26
                        };
                        assert(0 <= x < 26);
                        assert(w[i] == letter_set()[x]);
                    }
                    assert(candidate@ == fill_template(self.template(), w));
                }
                return Some(candidate);
            }
            j = j + 1;
        }
        None
    }

    /// Whether a registration with the preferred name `preferred` finds a hostname: when the
    /// preferred name gives a free one, or some five-letter word does.
    pub open spec fn can_register(&self, preferred: Option<Seq<char>>) -> bool {
        preferred_hostname(self.hosts(), self.template(), preferred) is Some || !all_words_taken(
            self.hosts(),
            self.template(),
        )
    }

    /// Registers a hostname for `tunnel_id` when one can be found: the template filled in with
    /// `preferred_name` when that is given, not empty and not taken, else with five random
    /// letters, drawn again while the hostname is taken; after `RANDOM_DRAWS` taken draws, the
    /// first free five-letter word. When every five-letter word is taken (and the preferred name
    /// gives no free hostname) nothing is registered and nothing changes.
    pub fn try_register(&mut self, tunnel_id: u32, preferred_name: Option<String>) -> (out: Option<
        ResolvedHost,
    >)
        ensures
            final(self).template() == old(self).template(),
            out is Some <==> old(self).can_register(opt_view(preferred_name)),
            out is None ==> *final(self) == *old(self),
            out matches Some(r) ==> {
                &&& r.host_id == following_host_id(old(self).last_id())
                &&& final(self).last_id() == r.host_id
                &&& !old(self).hosts().contains_key(r.hostname@)
                &&& final(self).hosts() == old(self).hosts().insert(
                    r.hostname@,
                    RegisteredHost { tunnel_id, host_id: r.host_id },
                )
                &&& match preferred_hostname(
                    old(self).hosts(),
                    old(self).template(),
                    opt_view(preferred_name),
                ) {
                    Some(h) => r.hostname@ == h,
                    None => is_random_hostname(old(self).template(), r.hostname@),
                }
            },
    {
        proof {
            use_type_invariant(&*self);
        }
        let ghost preferred = opt_view(preferred_name);
        let hostname = match self.assign_hostname(preferred_name) {
            Some(hostname) => hostname,
            None => return None,
        };
        proof {
            if preferred_hostname(self.hosts(), self.template(), preferred) is None {
                let r = choose|r: Seq<char>|
                    r.len() == 5 && (forall|i: int| 0 <= i < 5 ==> letter_set().contains(#[trigger] r[i]))
                        && hostname@ == fill_template(self.template(), r);
                let j = lemma_letter_word_onto(r);
                assert(!self.hosts().contains_key(fill_template(self.template(), letter_word(j))));
            }
        }
        let host_id = self.assign_id();
        let host = RegisteredHost { tunnel_id, host_id };
        proof {
            use_type_invariant(&*self);
            lemma_push_unique(self.hosts@, (hostname, host));
        }
        let mut entries: Vec<(String, RegisteredHost)> = Vec::new();
        std::mem::swap(&mut entries, &mut self.hosts);
        entries.push((hostname.clone(), host));
        self.hosts = entries;
        Some(ResolvedHost { host_id, hostname })
    }

    /// Registers a hostname for `tunnel_id`, as `try_register` does, where one can be found
    /// (elsewhere a registration would draw random names forever).
    pub fn register(&mut self, tunnel_id: u32, preferred_name: Option<String>) -> (out: ResolvedHost)
        requires
            old(self).can_register(opt_view(preferred_name)),
        ensures
            out.host_id == following_host_id(old(self).last_id()),
            final(self).last_id() == out.host_id,
            final(self).template() == old(self).template(),
            !old(self).hosts().contains_key(out.hostname@),
            final(self).hosts() == old(self).hosts().insert(
                out.hostname@,
                RegisteredHost { tunnel_id, host_id: out.host_id },
            ),
            match preferred_hostname(old(self).hosts(), old(self).template(), opt_view(preferred_name)) {
                Some(h) => out.hostname@ == h,
                None => is_random_hostname(old(self).template(), out.hostname@),
            },
    {
        match self.try_register(tunnel_id, preferred_name) {
            Some(resolved) => resolved,
            None => {
                assert(false);
                ResolvedHost { host_id: 0, hostname: String::new() }
            },
        }
    }

    /// Removes every hostname that tunnel `tunnel_id` registered.
    pub fn unregister_by_tunnel(&mut self, tunnel_id: u32)
        ensures
            final(self).hosts() == without_tunnel(old(self).hosts(), tunnel_id),
            final(self).last_id() == old(self).last_id(),
            final(self).template() == old(self).template(),
    {
        proof {
            use_type_invariant(&*self);
        }
        let ghost old_entries = self.hosts@;
        let mut kept: Vec<(String, RegisteredHost)> = Vec::new();
        let mut i: usize = 0;
        proof {
            assert(old_entries.take(0) =~= Seq::<(String, RegisteredHost)>::empty());
            assert(entries_map(kept@) =~= without_tunnel(entries_map(old_entries.take(0)), tunnel_id));
        }
        while i < self.hosts.len()
            invariant
                self.hosts@ == old_entries,
                unique_keys(old_entries),
                i <= old_entries.len(),
                unique_keys(kept@),
                entries_map(kept@) == without_tunnel(entries_map(old_entries.take(i as int)), tunnel_id),
            decreases old_entries.len() - i,
        {
            let ghost prefix = old_entries.take(i as int);
            let ghost e = old_entries[i as int];
            proof {
                assert(old_entries.take(i + 1).drop_last() =~= prefix);
                assert(old_entries.take(i + 1).last() == e);
                lemma_take_unique(old_entries, i as int);
                lemma_entries_map(prefix);
                if entries_map(prefix).contains_key(e.0@) {
                    let j = choose|j: int| 0 <= j < prefix.len() && #[trigger] prefix[j].0@ == e.0@;
                    assert(prefix[j] == old_entries[j]);
                }
            }
            if self.hosts[i].1.tunnel_id != tunnel_id {
                let entry = (self.hosts[i].0.clone(), self.hosts[i].1);
                proof {
                    assert(entry.0@ == e.0@);
                    lemma_push_unique(kept@, entry);
                }
                kept.push(entry);
                proof {
                    assert(entries_map(kept@) =~= without_tunnel(entries_map(old_entries.take(i + 1)), tunnel_id));
                }
            } else {
                proof {
                    assert(entries_map(kept@) =~= without_tunnel(entries_map(old_entries.take(i + 1)), tunnel_id));
                }
            }
            i = i + 1;
        }
        proof {
            assert(old_entries.take(i as int) =~= old_entries);
        }
        self.hosts = kept;
    }

    /// The host registered under `hostname`, if any.
    pub fn find_host(&self, hostname: &String) -> (out: Option<RegisteredHost>)
        ensures
            out == lookup(self.hosts(), hostname@),
    {
        proof {
            use_type_invariant(self);
        }
        match self.index_of(hostname) {
            Some(i) => Some(self.hosts[i].1),
            None => None,
        }
    }
}

} // verus!
