use vstd::prelude::*;

verus! {

/// A header list as plain character sequences: `(name, value)` in order.
pub open spec fn pairs_view(hs: Seq<(String, String)>) -> Seq<(Seq<char>, Seq<char>)> {
    hs.map_values(|p: (String, String)| (p.0@, p.1@))
}

/// A borrowed header list as plain character sequences.
pub open spec fn str_pairs_view(hs: Seq<(&str, &str)>) -> Seq<(Seq<char>, Seq<char>)> {
    hs.map_values(|p: (&str, &str)| (p.0@, p.1@))
}

/// Two characters are equal up to ASCII case.
pub open spec fn same_letter(a: char, b: char) -> bool {
    let x = a as u32;
    let y = b as u32;
    x == y || (65 <= x <= 90 && x + 32 == y) || (65 <= y <= 90 && y + 32 == x)
}

/// Header names compare without regard to ASCII case.
pub open spec fn same_name(a: Seq<char>, b: Seq<char>) -> bool {
    a.len() == b.len() && forall|i: int| 0 <= i < a.len() ==> same_letter(#[trigger] a[i], b[i])
}

/// The entries that survive setting a header called `name`.
pub open spec fn other_name(name: Seq<char>) -> spec_fn((Seq<char>, Seq<char>)) -> bool {
    |e: (Seq<char>, Seq<char>)| !same_name(e.0, name)
}

/// Setting a header drops every entry of the same name and appends the new one.
pub open spec fn with_header(hs: Seq<(Seq<char>, Seq<char>)>, name: Seq<char>, value: Seq<char>) -> Seq<
    (Seq<char>, Seq<char>),
> {
    hs.filter(other_name(name)).push((name, value))
}

/// Setting each header of `signed` in turn, later entries overwriting earlier ones.
pub open spec fn merge_headers(
    hs: Seq<(Seq<char>, Seq<char>)>,
    signed: Seq<(Seq<char>, Seq<char>)>,
) -> Seq<(Seq<char>, Seq<char>)>
    decreases signed.len(),
{
    if signed.len() == 0 {
        hs
    } else {
        let last = signed.last();
        with_header(merge_headers(hs, signed.drop_last()), last.0, last.1)
    }
}

/// The value of the last entry called `name` (up to ASCII case), if any.
pub open spec fn header_value(hs: Seq<(Seq<char>, Seq<char>)>, name: Seq<char>) -> Option<Seq<char>>
    decreases hs.len(),
{
    if hs.len() == 0 {
        None
    } else if same_name(hs.last().0, name) {
        Some(hs.last().1)
    } else {
        header_value(hs.drop_last(), name)
    }
}

/// A character that a header value may carry: visible ASCII, space or tab.
pub open spec fn value_char(c: char) -> bool {
    c == '\t' || (' ' <= c && c <= '~')
}

/// A header value made of visible ASCII, spaces and tabs only.
pub open spec fn valid_value(v: Seq<char>) -> bool {
    forall|i: int| 0 <= i < v.len() ==> value_char(#[trigger] v[i])
}

/// Every header value of the list is valid.
pub open spec fn valid_values(hs: Seq<(Seq<char>, Seq<char>)>) -> bool {
    forall|i: int| 0 <= i < hs.len() ==> valid_value(#[trigger] hs[i].1)
}

fn letters_match(a: char, b: char) -> (r: bool)
    ensures
        r == same_letter(a, b),
{
    let x = a as u32;
    let y = b as u32;
    x == y || (65 <= x && x <= 90 && x + 32 == y) || (65 <= y && y <= 90 && y + 32 == x)
}

/// Compares two header names without regard to ASCII case.
pub fn names_match(a: &str, b: &str) -> (r: bool)
    ensures
        r == same_name(a@, b@),
{
    let n = a.unicode_len();
    if n != b.unicode_len() {
        return false;
    }
    let mut i: usize = 0;
    while i < n
        invariant
            n == a@.len(),
            n == b@.len(),
            i <= n,
            forall|j: int| 0 <= j < i ==> same_letter(#[trigger] a@[j], b@[j]),
        decreases n - i,
    {
        if !letters_match(a.get_char(i), b.get_char(i)) {
            return false;
        }
        i += 1;
    }
    true
}

/// Whether a header value holds only visible ASCII, spaces and tabs.
pub fn is_valid_value(v: &str) -> (r: bool)
    ensures
        r == valid_value(v@),
{
    let n = v.unicode_len();
    let mut i: usize = 0;
    while i < n
        invariant
            n == v@.len(),
            i <= n,
            forall|j: int| 0 <= j < i ==> value_char(#[trigger] v@[j]),
        decreases n - i,
    {
        let c = v.get_char(i);
        if !(c == '\t' || (' ' <= c && c <= '~')) {
            return false;
        }
        i += 1;
    }
    true
}

/// Whether every header value of the list is valid.
pub fn all_values_valid(headers: &Vec<(String, String)>) -> (r: bool)
    ensures
        r == valid_values(pairs_view(headers@)),
{
    let mut i: usize = 0;
    while i < headers.len()
        invariant
            i <= headers.len(),
            forall|j: int| 0 <= j < i ==> valid_value(#[trigger] headers@[j].1@),
        decreases headers.len() - i,
    {
        if !is_valid_value(headers[i].1.as_str()) {
            assert(pairs_view(headers@)[i as int].1 == headers@[i as int].1@);
            return false;
        }
        i += 1;
    }
    true
}

/// Sets a header: removes every entry named `name` (up to ASCII case) and
/// appends `(name, value)`.
pub fn set_header(headers: &mut Vec<(String, String)>, name: &str, value: &str)
    ensures
        pairs_view(final(headers)@) == with_header(pairs_view(old(headers)@), name@, value@),
{
    let ghost all = pairs_view(headers@);
    let mut kept: Vec<(String, String)> = Vec::new();
    let mut i: usize = 0;
    while i < headers.len()
        invariant
            i <= headers.len(),
            all == pairs_view(headers@),
            pairs_view(kept@) == all.take(i as int).filter(other_name(name@)),
        decreases headers.len() - i,
    {
        let keep = !names_match(headers[i].0.as_str(), name);
        proof {
            assert(all.take(i as int + 1) == all.take(i as int).push(all[i as int]));
            all.take(i as int).lemma_filter_push(all[i as int], other_name(name@));
        }
        if keep {
            let ghost prev = kept@;
            let n = headers[i].0.clone();
            let v = headers[i].1.clone();
            kept.push((n, v));
            assert(pairs_view(kept@) == pairs_view(prev).push(all[i as int]));
        }
        i += 1;
    }
    proof {
        assert(all.take(headers@.len() as int) == all);
    }
    let ghost prev = kept@;
    kept.push((name.to_string(), value.to_string()));
    assert(pairs_view(kept@) == pairs_view(prev).push((name@, value@)));
    *headers = kept;
}

/// Sets each header of `signed` on `headers`, in order.
pub fn merge_into(headers: &mut Vec<(String, String)>, signed: &Vec<(String, String)>)
    ensures
        pairs_view(final(headers)@) == merge_headers(pairs_view(old(headers)@), pairs_view(signed@)),
{
    let ghost start = pairs_view(headers@);
    let mut i: usize = 0;
    while i < signed.len()
        invariant
            i <= signed.len(),
            pairs_view(headers@) == merge_headers(start, pairs_view(signed@).take(i as int)),
        decreases signed.len() - i,
    {
        let ghost before = pairs_view(signed@).take(i as int);
        set_header(headers, signed[i].0.as_str(), signed[i].1.as_str());
        proof {
            let next = pairs_view(signed@).take(i as int + 1);
            assert(next.drop_last() == before);
        }
        i += 1;
    }
    proof {
        assert(pairs_view(signed@).take(signed@.len() as int) == pairs_view(signed@));
    }
}

/// The header list as borrowed name and value slices.
pub fn borrowed_pairs<'a>(headers: &'a Vec<(String, String)>) -> (r: Vec<(&'a str, &'a str)>)
    ensures
        str_pairs_view(r@) == pairs_view(headers@),
{
    let mut out: Vec<(&'a str, &'a str)> = Vec::new();
    let mut i: usize = 0;
    while i < headers.len()
        invariant
            i <= headers.len(),
            str_pairs_view(out@) == pairs_view(headers@).take(i as int),
        decreases headers.len() - i,
    {
        let ghost prev = out@;
        out.push((headers[i].0.as_str(), headers[i].1.as_str()));
        assert(str_pairs_view(out@) == str_pairs_view(prev).push(pairs_view(headers@)[i as int]));
        assert(pairs_view(headers@).take(i as int + 1) == pairs_view(headers@).take(i as int).push(
            pairs_view(headers@)[i as int],
        ));
        i += 1;
    }
    assert(pairs_view(headers@).take(headers@.len() as int) == pairs_view(headers@));
    out
}

/// Some entry of the list is called `name` (up to ASCII case).
pub open spec fn has_header(hs: Seq<(Seq<char>, Seq<char>)>, name: Seq<char>) -> bool {
    exists|i: int| 0 <= i < hs.len() && same_name(#[trigger] hs[i].0, name)
}

/// Whether some header is called `name` (up to ASCII case).
pub fn contains_header(headers: &Vec<(String, String)>, name: &str) -> (r: bool)
    ensures
        r == has_header(pairs_view(headers@), name@),
{
    let mut i: usize = 0;
    while i < headers.len()
        invariant
            i <= headers.len(),
            forall|j: int| 0 <= j < i ==> !same_name(#[trigger] pairs_view(headers@)[j].0, name@),
        decreases headers.len() - i,
    {
        if names_match(headers[i].0.as_str(), name) {
            assert(pairs_view(headers@)[i as int].0 == headers@[i as int].0@);
            return true;
        }
        i += 1;
    }
    false
}

proof fn lemma_same_name_transitive(a: Seq<char>, b: Seq<char>, c: Seq<char>)
    requires
        same_name(a, b),
        same_name(b, c),
    ensures
        same_name(a, c),
{
    assert forall|i: int| 0 <= i < a.len() implies same_letter(#[trigger] a[i], c[i]) by {
        assert(same_letter(a[i], b[i]));
        assert(same_letter(b[i], c[i]));
    }
}

proof fn lemma_same_name_symmetric(a: Seq<char>, b: Seq<char>)
    requires
        same_name(a, b),
    ensures
        same_name(b, a),
{
    assert forall|i: int| 0 <= i < b.len() implies same_letter(#[trigger] b[i], a[i]) by {
        assert(same_letter(a[i], b[i]));
    }
}

/// Dropping the entries called `n` leaves lookups of other names unchanged.
proof fn lemma_filter_lookup(hs: Seq<(Seq<char>, Seq<char>)>, n: Seq<char>, m: Seq<char>)
    requires
        !same_name(n, m),
    ensures
        header_value(hs.filter(other_name(n)), m) == header_value(hs, m),
    decreases hs.len(),
{
    if hs.len() > 0 {
        let init = hs.drop_last();
        let last = hs.last();
        assert(hs == init.push(last));
        init.lemma_filter_push(last, other_name(n));
        lemma_filter_lookup(init, n, m);
        if same_name(last.0, m) {
            if same_name(last.0, n) {
                lemma_same_name_symmetric(last.0, n);
                lemma_same_name_transitive(n, last.0, m);
            }
            assert(init.filter(other_name(n)).push(last).drop_last() == init.filter(other_name(n)));
        } else if !same_name(last.0, n) {
            assert(init.filter(other_name(n)).push(last).drop_last() == init.filter(other_name(n)));
        }
    }
}

/// Looking up a name after setting a header.
proof fn lemma_with_header_lookup(
    hs: Seq<(Seq<char>, Seq<char>)>,
    n: Seq<char>,
    v: Seq<char>,
    m: Seq<char>,
)
    ensures
        header_value(with_header(hs, n, v), m) == if same_name(n, m) {
            Some(v)
        } else {
            header_value(hs, m)
        },
{
    let w = with_header(hs, n, v);
    assert(w.drop_last() == hs.filter(other_name(n)));
    if !same_name(n, m) {
        lemma_filter_lookup(hs, n, m);
    }
}

/// Signed headers win: after merging, a lookup finds the signed value where
/// the signed list has that name, and the earlier value otherwise.
pub proof fn lemma_merge_lookup(
    hs: Seq<(Seq<char>, Seq<char>)>,
    signed: Seq<(Seq<char>, Seq<char>)>,
    name: Seq<char>,
)
    ensures
        header_value(merge_headers(hs, signed), name) == match header_value(signed, name) {
            Some(v) => Some(v),
            None => header_value(hs, name),
        },
    decreases signed.len(),
{
    if signed.len() > 0 {
        let last = signed.last();
        lemma_merge_lookup(hs, signed.drop_last(), name);
        lemma_with_header_lookup(merge_headers(hs, signed.drop_last()), last.0, last.1, name);
    }
}

/// How many entries are called `name` (up to ASCII case).
pub open spec fn name_count(hs: Seq<(Seq<char>, Seq<char>)>, name: Seq<char>) -> nat
    decreases hs.len(),
{
    if hs.len() == 0 {
        0
    } else {
        name_count(hs.drop_last(), name) + if same_name(hs.last().0, name) {
            1nat
        } else {
            0nat
        }
    }
}

proof fn lemma_count_filter(hs: Seq<(Seq<char>, Seq<char>)>, n: Seq<char>, m: Seq<char>)
    ensures
        name_count(hs.filter(other_name(n)), m) == if same_name(n, m) {
            0
        } else {
            name_count(hs, m)
        },
    decreases hs.len(),
{
    if hs.len() > 0 {
        let init = hs.drop_last();
        let last = hs.last();
        assert(hs == init.push(last));
        init.lemma_filter_push(last, other_name(n));
        lemma_count_filter(init, n, m);
        let f = init.filter(other_name(n));
        assert(f.push(last).drop_last() == f);
        if same_name(last.0, m) && same_name(last.0, n) {
            lemma_same_name_symmetric(last.0, n);
            lemma_same_name_transitive(n, last.0, m);
        }
        if same_name(last.0, m) && same_name(n, m) && !same_name(last.0, n) {
            lemma_same_name_symmetric(n, m);
            lemma_same_name_transitive(last.0, m, n);
        }
    }
}

/// After setting `n`, exactly one entry answers to a name equal to `n`.
proof fn lemma_with_header_count(
    hs: Seq<(Seq<char>, Seq<char>)>,
    n: Seq<char>,
    v: Seq<char>,
    m: Seq<char>,
)
    ensures
        name_count(with_header(hs, n, v), m) == if same_name(n, m) {
            1
        } else {
            name_count(hs, m)
        },
{
    let w = with_header(hs, n, v);
    assert(w.drop_last() == hs.filter(other_name(n)));
    lemma_count_filter(hs, n, m);
}

/// Signed headers appear once: after merging, a name the signed list holds
/// is carried by exactly one entry; other names keep their earlier count.
pub proof fn lemma_merge_count(
    hs: Seq<(Seq<char>, Seq<char>)>,
    signed: Seq<(Seq<char>, Seq<char>)>,
    name: Seq<char>,
)
    ensures
        name_count(merge_headers(hs, signed), name) == if has_header(signed, name) {
            1
        } else {
            name_count(hs, name)
        },
    decreases signed.len(),
{
    if signed.len() > 0 {
        let init = signed.drop_last();
        let last = signed.last();
        lemma_merge_count(hs, init, name);
        lemma_with_header_count(merge_headers(hs, init), last.0, last.1, name);
        if has_header(init, name) {
            let i = choose|i: int| 0 <= i < init.len() && same_name(#[trigger] init[i].0, name);
            assert(signed[i] == init[i]);
        }
        if has_header(signed, name) && !same_name(last.0, name) {
            let i = choose|i: int| 0 <= i < signed.len() && same_name(#[trigger] signed[i].0, name);
            assert(i < init.len());
            assert(init[i] == signed[i]);
        }
        if same_name(last.0, name) {
            assert(same_name(signed[signed.len() - 1].0, name));
        }
    }
}

proof fn lemma_filter_keeps_all(hs: Seq<(Seq<char>, Seq<char>)>, n: Seq<char>)
    requires
        forall|i: int| 0 <= i < hs.len() ==> !same_name(#[trigger] hs[i].0, n),
    ensures
        hs.filter(other_name(n)) == hs,
    decreases hs.len(),
{
    if hs.len() > 0 {
        let init = hs.drop_last();
        assert(hs == init.push(hs.last()));
        init.lemma_filter_push(hs.last(), other_name(n));
        assert forall|i: int| 0 <= i < init.len() implies !same_name(#[trigger] init[i].0, n) by {
            assert(init[i] == hs[i]);
        }
        lemma_filter_keeps_all(init, n);
    }
}

/// Names pairwise unrelated up to ASCII case.
pub open spec fn distinct_names(s: Seq<(Seq<char>, Seq<char>)>) -> bool {
    forall|i: int, j: int| 0 <= i < j < s.len() ==> !same_name(#[trigger] s[i].0, #[trigger] s[j].0)
}

/// No name of `a` is related to a name of `b`.
pub open spec fn disjoint_names(a: Seq<(Seq<char>, Seq<char>)>, b: Seq<(Seq<char>, Seq<char>)>) -> bool {
    forall|k: int, i: int|
        0 <= k < a.len() && 0 <= i < b.len() ==> !same_name(#[trigger] a[k].0, #[trigger] b[i].0)
}

proof fn lemma_names_drop_last(hs: Seq<(Seq<char>, Seq<char>)>, signed: Seq<(Seq<char>, Seq<char>)>)
    requires
        signed.len() > 0,
        distinct_names(signed),
        disjoint_names(hs, signed),
    ensures
        distinct_names(signed.drop_last()),
        disjoint_names(hs, signed.drop_last()),
        forall|i: int|
            0 <= i < (hs + signed.drop_last()).len() ==> !same_name(
                #[trigger] (hs + signed.drop_last())[i].0,
                signed.last().0,
            ),
{
    let init = signed.drop_last();
    let last_index = signed.len() - 1;
    assert forall|i: int, j: int| 0 <= i < j < init.len() implies !same_name(
        #[trigger] init[i].0,
        #[trigger] init[j].0,
    ) by {
        assert(init[i] == signed[i] && init[j] == signed[j]);
    }
    assert forall|k: int, i: int| 0 <= k < hs.len() && 0 <= i < init.len() implies !same_name(
        #[trigger] hs[k].0,
        #[trigger] init[i].0,
    ) by {
        assert(init[i] == signed[i]);
    }
    let both = hs + init;
    assert forall|i: int| 0 <= i < both.len() implies !same_name(
        #[trigger] both[i].0,
        signed.last().0,
    ) by {
        if i < hs.len() {
            assert(both[i] == hs[i]);
            assert(!same_name(hs[i].0, signed[last_index].0));
        } else {
            assert(both[i] == signed[i - hs.len()]);
            assert(!same_name(signed[i - hs.len()].0, signed[last_index].0));
        }
    }
}

/// Merging signed headers whose names clash with nothing appends them.
pub proof fn lemma_merge_disjoint(hs: Seq<(Seq<char>, Seq<char>)>, signed: Seq<(Seq<char>, Seq<char>)>)
    requires
        distinct_names(signed),
        disjoint_names(hs, signed),
    ensures
        merge_headers(hs, signed) == hs + signed,
    decreases signed.len(),
{
    if signed.len() > 0 {
        let init = signed.drop_last();
        let last = signed.last();
        lemma_names_drop_last(hs, signed);
        lemma_merge_disjoint(hs, init);
        lemma_filter_keeps_all(hs + init, last.0);
        assert((hs + init).push(last) == hs + signed);
    }
}

} // verus!
