use vstd::prelude::*;

use crate::text::{chars_of, ends_with, ends_with_chars, has_char, same_chars};

verus! {

/// What `str::to_lowercase` gives for a text.
pub uninterp spec fn lower_of(s: Seq<char>) -> Seq<char>;

/// Relies on `str::to_lowercase`: the lowercase form of a text, a function
/// of its characters alone.
#[verifier::external_body]
fn lowercase(s: &str) -> (r: String)
    ensures
        r@ == lower_of(s@),
{
    s.to_lowercase()
}

/// The dot-separated labels of a host name; always at least one, possibly empty.
pub open spec fn labels(s: Seq<char>) -> Seq<Seq<char>>
    decreases s.len(),
{
    if s.len() == 0 {
        seq![Seq::empty()]
    } else {
        let before = labels(s.drop_last());
        if s.last() == '.' {
            before.push(Seq::empty())
        } else {
            before.update(before.len() - 1, before.last().push(s.last()))
        }
    }
}

pub proof fn lemma_labels_nonempty(s: Seq<char>)
    ensures
        labels(s).len() >= 1,
    decreases s.len(),
{
    if s.len() > 0 {
        lemma_labels_nonempty(s.drop_last());
    }
}

/// The pattern that allows every host, and the wildcard label.
pub open spec fn star() -> Seq<char> {
    seq!['*']
}

/// The views of a sequence of character vectors.
pub open spec fn views(v: Seq<Vec<char>>) -> Seq<Seq<char>> {
    v.map_values(|x: Vec<char>| x@)
}

/// Label-wise wildcard match of a host against a pattern:
/// `*.d` takes exactly one label before `d`; `p.*` takes any labels after
/// `p`; otherwise the two have as many labels, and each pattern label is `*`
/// or equals the host's.
pub open spec fn wildcard_matches(host: Seq<Seq<char>>, pat: Seq<Seq<char>>) -> bool {
    if pat.len() == 0 || pat.len() > host.len() {
        false
    } else if pat[0] == star() && pat.len() > 1 {
        host.len() == pat.len() && forall|i: int| 1 <= i < pat.len() ==> pat[i] == host[i]
    } else if pat.last() == star() {
        forall|i: int| 0 <= i < pat.len() - 1 ==> pat[i] == host[i]
    } else if pat.len() == host.len() {
        forall|i: int| 0 <= i < pat.len() ==> pat[i] == star() || pat[i] == host[i]
    } else {
        false
    }
}

/// Whether one allow-list entry admits a host, both already lowercase:
/// `*` admits all; an equal entry admits; an entry with `*` admits by
/// wildcard match; any other entry admits its subdomains.
pub open spec fn entry_allows(host: Seq<char>, entry: Seq<char>) -> bool {
    ||| entry == star()
    ||| entry == host
    ||| (entry.contains('*') && wildcard_matches(labels(host), labels(entry)))
    ||| (host.len() > entry.len() && ends_with(host, seq!['.'] + entry))
}

/// Whether some entry of an allow-list admits a host.
pub open spec fn host_allowed(host: Seq<char>, entries: Seq<Seq<char>>) -> bool {
    exists|i: int| 0 <= i < entries.len() && entry_allows(host, #[trigger] entries[i])
}

/// The texts of a list of strings.
pub open spec fn texts(v: Seq<String>) -> Seq<Seq<char>> {
    v.map_values(|s: String| s@)
}

/// The lowercase texts of a list of strings.
pub open spec fn lowered(v: Seq<String>) -> Seq<Seq<char>> {
    v.map_values(|s: String| lower_of(s@))
}

fn split_labels(s: &[char]) -> (r: Vec<Vec<char>>)
    ensures
        views(r@) == labels(s@),
{
    let mut parts: Vec<Vec<char>> = Vec::new();
    let mut cur: Vec<char> = Vec::new();
    let mut i: usize = 0;
    while i < s.len()
        invariant
            i <= s@.len(),
            views(parts@).push(cur@) == labels(s@.subrange(0, i as int)),
        decreases s@.len() - i,
    {
        let ghost prev = s@.subrange(0, i as int);
        let ghost next = s@.subrange(0, i + 1);
        assert(next.drop_last() =~= prev);
        assert(next.last() == s@[i as int]);
        let c = s[i];
        if c == '.' {
            parts.push(cur);
            cur = Vec::new();
            assert(views(parts@).push(cur@) =~= labels(prev).push(Seq::empty()));
        } else {
            cur.push(c);
            assert(views(parts@).push(cur@) =~= labels(prev).update(
                labels(prev).len() - 1,
                labels(prev).last().push(c),
            ));
        }
        i += 1;
    }
    assert(s@.subrange(0, s@.len() as int) =~= s@);
    parts.push(cur);
    parts
}

fn is_star(label: &Vec<char>) -> (r: bool)
    ensures
        r == (label@ == star()),
{
    if label.len() == 1 && label[0] == '*' {
        assert(label@ =~= star());
        true
    } else {
        false
    }
}

fn wildcard_labels(host: &Vec<Vec<char>>, pat: &Vec<Vec<char>>) -> (r: bool)
    ensures
        r == wildcard_matches(views(host@), views(pat@)),
{
    let hv = Ghost(views(host@));
    let pv = Ghost(views(pat@));
    if pat.len() == 0 || pat.len() > host.len() {
        return false;
    }
    let n = pat.len();
    if is_star(&pat[0]) && n > 1 {
        if host.len() != n {
            return false;
        }
        let mut i: usize = 1;
        while i < n
            invariant
                n == pat@.len(),
                n == host@.len(),
                1 <= i <= n,
                pv@[0] == star(),
                hv@ == views(host@),
                pv@ == views(pat@),
                forall|j: int| 1 <= j < i ==> pv@[j] == hv@[j],
            decreases n - i,
        {
            if !same_chars(pat[i].as_slice(), host[i].as_slice()) {
                assert(pv@[i as int] != hv@[i as int]);
                return false;
            }
            i += 1;
        }
        return true;
    }
    if is_star(&pat[n - 1]) {
        let mut i: usize = 0;
        while i < n - 1
            invariant
                n == pat@.len(),
                n <= host@.len(),
                i <= n - 1,
                n >= 1,
                pv@[n - 1] == star(),
                !(pv@[0] == star() && n > 1),
                hv@ == views(host@),
                pv@ == views(pat@),
                forall|j: int| 0 <= j < i ==> pv@[j] == hv@[j],
            decreases n - 1 - i,
        {
            if !same_chars(pat[i].as_slice(), host[i].as_slice()) {
                assert(pv@[i as int] != hv@[i as int]);
                return false;
            }
            i += 1;
        }
        return true;
    }
    if n == host.len() {
        let mut i: usize = 0;
        while i < n
            invariant
                n == pat@.len(),
                n == host@.len(),
                i <= n,
                hv@ == views(host@),
                pv@ == views(pat@),
                forall|j: int| 0 <= j < i ==> pv@[j] == star() || pv@[j] == hv@[j],
            decreases n - i,
        {
            if !is_star(&pat[i]) && !same_chars(pat[i].as_slice(), host[i].as_slice()) {
                assert(pv@[i as int] != star() && pv@[i as int] != hv@[i as int]);
                return false;
            }
            i += 1;
        }
        return true;
    }
    false
}

/// Label-wise wildcard match of a lowercase host against a lowercase pattern.
pub fn matches_wildcard_pattern(host: &str, pattern: &str) -> (r: bool)
    ensures
        r == wildcard_matches(labels(host@), labels(pattern@)),
{
    let h = chars_of(host);
    let p = chars_of(pattern);
    let hl = split_labels(h.as_slice());
    let pl = split_labels(p.as_slice());
    wildcard_labels(&hl, &pl)
}

/// Whether one allow-list entry admits a host, both already lowercase.
pub fn host_entry_allows(host: &str, entry: &str) -> (r: bool)
    ensures
        r == entry_allows(host@, entry@),
{
    let h = chars_of(host);
    let a = chars_of(entry);
    if a.len() == 1 && a[0] == '*' {
        assert(a@ =~= star());
        return true;
    }
    if same_chars(a.as_slice(), h.as_slice()) {
        return true;
    }
    if has_char(a.as_slice(), '*') && matches_wildcard_pattern(host, entry) {
        return true;
    }
    if h.len() > a.len() {
        let mut dotted: Vec<char> = Vec::new();
        dotted.push('.');
        let mut i: usize = 0;
        while i < a.len()
            invariant
                i <= a@.len(),
                dotted@ == seq!['.'] + a@.subrange(0, i as int),
            decreases a@.len() - i,
        {
            dotted.push(a[i]);
            i += 1;
            assert(dotted@ =~= seq!['.'] + a@.subrange(0, i as int));
        }
        assert(a@.subrange(0, a@.len() as int) =~= a@);
        if ends_with_chars(h.as_slice(), dotted.as_slice()) {
            return true;
        }
    }
    false
}

/// Whether some entry of the list admits the host, host and entries already
/// lowercase.
pub fn is_lowered_host_allowed(host: &str, allowed_hosts: &Vec<String>) -> (r: bool)
    ensures
        r == host_allowed(host@, texts(allowed_hosts@)),
{
    let ghost entries = texts(allowed_hosts@);
    let mut i: usize = 0;
    while i < allowed_hosts.len()
        invariant
            i <= allowed_hosts@.len(),
            entries == texts(allowed_hosts@),
            forall|j: int| 0 <= j < i ==> !entry_allows(host@, #[trigger] entries[j]),
        decreases allowed_hosts@.len() - i,
    {
        if host_entry_allows(host, allowed_hosts[i].as_str()) {
            assert(entry_allows(host@, entries[i as int]));
            return true;
        }
        i += 1;
    }
    false
}

/// Whether the allow-list admits the host, case-insensitively.
pub fn is_host_allowed(host: &str, allowed_hosts: &Vec<String>) -> (r: bool)
    ensures
        r == host_allowed(lower_of(host@), lowered(allowed_hosts@)),
{
    let host_lower = lowercase(host);
    let mut lower: Vec<String> = Vec::new();
    let mut i: usize = 0;
    while i < allowed_hosts.len()
        invariant
            i <= allowed_hosts@.len(),
            lower@.len() == i,
            forall|j: int| 0 <= j < i ==> (#[trigger] lower@[j])@ == lower_of(allowed_hosts@[j]@),
        decreases allowed_hosts@.len() - i,
    {
        lower.push(lowercase(allowed_hosts[i].as_str()));
        i += 1;
    }
    assert(texts(lower@) =~= lowered(allowed_hosts@));
    is_lowered_host_allowed(host_lower.as_str(), &lower)
}

/// Labels of a joined name: the labels on each side of the joining dot.
pub proof fn lemma_labels_join(a: Seq<char>, b: Seq<char>)
    ensures
        labels(a + seq!['.'] + b) == labels(a) + labels(b),
    decreases b.len(),
{
    let s = a + seq!['.'] + b;
    lemma_labels_nonempty(a);
    if b.len() == 0 {
        assert(s.drop_last() =~= a);
        assert(s.last() == '.');
        assert(labels(b) =~= seq![Seq::<char>::empty()]);
        assert(labels(a).push(Seq::empty()) =~= labels(a) + labels(b));
    } else {
        let b2 = b.drop_last();
        lemma_labels_join(a, b2);
        lemma_labels_nonempty(b2);
        assert(s.drop_last() =~= a + seq!['.'] + b2);
        assert(s.last() == b.last());
        let l = labels(a) + labels(b2);
        if b.last() == '.' {
            assert(l.push(Seq::empty()) =~= labels(a) + labels(b2).push(Seq::empty()));
        } else {
            let lb = labels(b2);
            assert(l.update(l.len() - 1, l.last().push(b.last())) =~= labels(a) + lb.update(
                lb.len() - 1,
                lb.last().push(b.last()),
            ));
        }
    }
}

/// Every character of every label comes from the name.
pub proof fn lemma_labels_chars(s: Seq<char>)
    ensures
        forall|i: int, j: int|
            0 <= i < labels(s).len() && 0 <= j < labels(s)[i].len() ==> s.contains(
                #[trigger] labels(s)[i][j],
            ),
    decreases s.len(),
{
    if s.len() > 0 {
        let d = s.drop_last();
        lemma_labels_chars(d);
        lemma_labels_nonempty(d);
        assert forall|i: int, j: int|
            0 <= i < labels(s).len() && 0 <= j < labels(s)[i].len() implies s.contains(
            #[trigger] labels(s)[i][j],
        ) by {
            let c = labels(s)[i][j];
            if s.last() != '.' && i == labels(d).len() - 1 && j == labels(d)[i].len() {
                assert(s[s.len() - 1] == c);
            } else {
                assert(labels(d)[i][j] == c);
                let k = choose|k: int| 0 <= k < d.len() && d[k] == c;
                assert(s[k] == c);
            }
        }
    }
}

/// A name without `*` has no wildcard label.
pub proof fn lemma_labels_no_star(s: Seq<char>)
    requires
        !s.contains('*'),
    ensures
        forall|i: int| 0 <= i < labels(s).len() ==> #[trigger] labels(s)[i] != star(),
{
    lemma_labels_chars(s);
    assert forall|i: int| 0 <= i < labels(s).len() implies #[trigger] labels(s)[i] != star() by {
        if labels(s)[i] == star() {
            assert(labels(s)[i][0] == '*');
        }
    }
}

/// A name without a dot is its one label; a name with one has two or more.
pub proof fn lemma_labels_count(s: Seq<char>)
    ensures
        !s.contains('.') ==> labels(s) == seq![s],
        s.contains('.') ==> labels(s).len() >= 2,
    decreases s.len(),
{
    if s.contains('.') {
        let k = choose|k: int| 0 <= k < s.len() && s[k] == '.';
        let a = s.subrange(0, k);
        let b = s.subrange(k + 1, s.len() as int);
        assert(s =~= a + seq!['.'] + b);
        lemma_labels_join(a, b);
        lemma_labels_nonempty(a);
        lemma_labels_nonempty(b);
    } else if s.len() > 0 {
        let d = s.drop_last();
        assert(!d.contains('.')) by {
            if d.contains('.') {
                let k = choose|k: int| 0 <= k < d.len() && d[k] == '.';
                assert(s[k] == '.');
            }
        }
        lemma_labels_count(d);
        assert(s.last() != '.') by {
            assert(s[s.len() - 1] == s.last());
        }
        assert(d.push(s.last()) =~= s);
        assert(seq![d].update(0, d.push(s.last())) =~= seq![s]);
    } else {
        assert(s =~= Seq::<char>::empty());
    }
}

/// `*` admits every host.
pub proof fn lemma_star_allows_all(host: Seq<char>)
    ensures
        entry_allows(host, star()),
{
}

/// Matching ignores case: hosts and lists with the same lowercase forms are
/// treated alike.
pub proof fn lemma_case_insensitive(
    host_a: Seq<char>,
    host_b: Seq<char>,
    list_a: Seq<String>,
    list_b: Seq<String>,
)
    requires
        lower_of(host_a) == lower_of(host_b),
        lowered(list_a) == lowered(list_b),
    ensures
        host_allowed(lower_of(host_a), lowered(list_a)) == host_allowed(
            lower_of(host_b),
            lowered(list_b),
        ),
{
}

/// A plain entry admits every subdomain of itself.
pub proof fn lemma_parent_domain(sub: Seq<char>, domain: Seq<char>)
    ensures
        entry_allows(sub + seq!['.'] + domain, domain),
{
    let host = sub + seq!['.'] + domain;
    assert(host.subrange(host.len() - domain.len() - 1, host.len() as int) =~= seq!['.'] + domain);
}

/// `*.d` admits a host `x.d` exactly when `x` is a single label, and never
/// `d` itself.
pub proof fn lemma_subdomain_wildcard(x: Seq<char>, domain: Seq<char>)
    requires
        !x.contains('*'),
        !domain.contains('*'),
    ensures
        entry_allows(x + seq!['.'] + domain, seq!['*', '.'] + domain) == !x.contains('.'),
        !entry_allows(domain, seq!['*', '.'] + domain),
{
    let host = x + seq!['.'] + domain;
    let entry = seq!['*', '.'] + domain;
    assert(entry =~= seq!['*'] + seq!['.'] + domain);
    lemma_labels_join(seq!['*'], domain);
    lemma_labels_join(x, domain);
    lemma_labels_count(seq!['*']);
    assert(!seq!['*'].contains('.')) by {
        assert(seq!['*'][0] == '*');
    }
    lemma_labels_count(x);
    lemma_labels_nonempty(x);
    lemma_labels_nonempty(domain);
    assert(entry.contains('*')) by {
        assert(entry[0] == '*');
    }
    assert(labels(entry) == seq![star()] + labels(domain));
    // the entry is not the host: its first character is `*`
    assert(entry != host) by {
        if entry == host {
            if x.len() > 0 {
                assert(x[0] == host[0]);
            } else {
                assert(host[0] == '.');
            }
        }
    }
    // the host does not end with `.*.d`: that `*` would be the last of `x`
    if host.len() > entry.len() && ends_with(host, seq!['.'] + entry) {
        let t = seq!['.'] + entry;
        assert(host.subrange(host.len() - t.len(), host.len() as int)[1] == '*');
        assert(x[x.len() - 1] == '*');
    }
    let lh = labels(host);
    let lp = labels(entry);
    if !x.contains('.') {
        assert(lh =~= seq![x] + labels(domain));
        assert(wildcard_matches(lh, lp));
    } else {
        assert(lh.len() > lp.len() || lh.len() < lp.len() || !wildcard_matches(lh, lp));
    }
    // `d` itself: one label fewer than the pattern
    lemma_labels_count(domain);
    assert(entry != domain) by {
        assert(entry.len() != domain.len());
    }
}

/// `p.*` admits `p` followed by any labels.
pub proof fn lemma_prefix_wildcard(prefix: Seq<char>, rest: Seq<char>)
    requires
        !prefix.contains('*'),
    ensures
        entry_allows(prefix + seq!['.'] + rest, prefix + seq!['.', '*']),
{
    let host = prefix + seq!['.'] + rest;
    let entry = prefix + seq!['.', '*'];
    assert(entry =~= prefix + seq!['.'] + seq!['*']);
    lemma_labels_join(prefix, seq!['*']);
    lemma_labels_join(prefix, rest);
    lemma_labels_count(seq!['*']);
    assert(!seq!['*'].contains('.')) by {
        assert(seq!['*'][0] == '*');
    }
    lemma_labels_nonempty(prefix);
    lemma_labels_nonempty(rest);
    lemma_labels_no_star(prefix);
    assert(entry.contains('*')) by {
        assert(entry[entry.len() - 1] == '*');
    }
    let lh = labels(host);
    let lp = labels(entry);
    assert(lp == labels(prefix) + seq![star()]);
    assert(lp[0] == labels(prefix)[0]);
    assert(lp.last() == star());
    assert(wildcard_matches(lh, lp));
}

} // verus!
