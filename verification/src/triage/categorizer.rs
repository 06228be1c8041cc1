//! Picks the rule that a file falls under: rules are ordered by priority,
//! higher first, and the first rule that matches wins.
use vstd::prelude::*;

use crate::config::rules::{rule_matches_extension, CategorizationRule};
use crate::paths::{opt_str_view, path_extension, path_extension_of};

verus! {

/// Holds the rules in the order in which they are tried.
pub struct Categorizer {
    rules: Vec<CategorizationRule>,
}

/// The priorities never increase along `s`.
pub open spec fn sorted_by_priority_desc(s: Seq<CategorizationRule>) -> bool {
    forall|a: int, b: int|
        0 <= a < b < s.len() ==> #[trigger] s[a].priority >= #[trigger] s[b].priority
}

/// Some position of `m` holds `i`.
pub open spec fn position_hit(m: Seq<int>, i: int) -> bool {
    exists|k: int| 0 <= k < m.len() && #[trigger] m[k] == i
}

/// `m` maps each position of `output` to the position in `input` of the same
/// rule: a bijection under which `output` is ordered by priority, higher
/// first, and rules of equal priority keep their order from `input`.
pub open spec fn stable_sort_witness(
    input: Seq<CategorizationRule>,
    output: Seq<CategorizationRule>,
    m: Seq<int>,
) -> bool {
    &&& output.len() == input.len()
    &&& m.len() == output.len()
    &&& forall|k: int| 0 <= k < m.len() ==> 0 <= #[trigger] m[k] < input.len()
    &&& forall|k: int| 0 <= k < m.len() ==> output[k] == input[#[trigger] m[k]]
    &&& forall|a: int, b: int| 0 <= a < b < m.len() ==> #[trigger] m[a] != #[trigger] m[b]
    &&& forall|i: int| 0 <= i < input.len() ==> #[trigger] position_hit(m, i)
    &&& sorted_by_priority_desc(output)
    &&& forall|a: int, b: int|
        0 <= a < b < output.len() && (#[trigger] output[a]).priority == (#[trigger] output[b]).priority
            ==> m[a] < m[b]
}

/// `output` is `input` stably sorted by priority, higher first.
pub open spec fn is_stable_priority_sort(
    input: Seq<CategorizationRule>,
    output: Seq<CategorizationRule>,
) -> bool {
    exists|m: Seq<int>| stable_sort_witness(input, output, m)
}

/// Position `k` holds the first rule of `rules` that matches extension `ext`.
pub open spec fn is_first_match(
    rules: Seq<CategorizationRule>,
    ext: Option<Seq<char>>,
    k: int,
) -> bool {
    &&& 0 <= k < rules.len()
    &&& rule_matches_extension(rules[k], ext)
    &&& forall|j: int| 0 <= j < k ==> !rule_matches_extension(#[trigger] rules[j], ext)
}

/// The position of the first rule of `rules` that matches `ext`, if any.
pub open spec fn first_match(rules: Seq<CategorizationRule>, ext: Option<Seq<char>>) -> Option<int> {
    if exists|k: int| is_first_match(rules, ext, k) {
        Some(choose|k: int| is_first_match(rules, ext, k))
    } else {
        None
    }
}

/// There is only one first match.
pub proof fn lemma_first_match_unique(
    rules: Seq<CategorizationRule>,
    ext: Option<Seq<char>>,
    a: int,
    b: int,
)
    requires
        is_first_match(rules, ext, a),
        is_first_match(rules, ext, b),
    ensures
        a == b,
{
    if a < b {
        assert(!rule_matches_extension(rules[a], ext));
    } else if b < a {
        assert(!rule_matches_extension(rules[b], ext));
    }
}

/// What `categorized_as` says, by position: a result is the rule at the
/// first match, and `None` means there is no match.
pub proof fn lemma_categorized_as_first_match(
    rules: Seq<CategorizationRule>,
    ext: Option<Seq<char>>,
    r: Option<&CategorizationRule>,
)
    requires
        categorized_as(rules, ext, r),
    ensures
        match r {
            Some(rule) => first_match(rules, ext) matches Some(k) && *rule == rules[k],
            None => first_match(rules, ext) is None,
        },
{
    match r {
        Some(rule) => {
            let k = choose|k: int| is_first_match(rules, ext, k) && *rule == rules[k];
            let c = choose|k: int| is_first_match(rules, ext, k);
            lemma_first_match_unique(rules, ext, k, c);
        },
        None => {
            if exists|k: int| is_first_match(rules, ext, k) {
                let k = choose|k: int| is_first_match(rules, ext, k);
                assert(rule_matches_extension(rules[k], ext));
            }
        },
    }
}

/// No rule of `rules` matches extension `ext`.
pub open spec fn no_rule_matches(rules: Seq<CategorizationRule>, ext: Option<Seq<char>>) -> bool {
    forall|k: int| 0 <= k < rules.len() ==> !rule_matches_extension(#[trigger] rules[k], ext)
}

/// What categorising a file with extension `ext` by `rules` (in the order
/// tried) gives back: the first matching rule, or `None`.
pub open spec fn categorized_as(
    rules: Seq<CategorizationRule>,
    ext: Option<Seq<char>>,
    r: Option<&CategorizationRule>,
) -> bool {
    match r {
        Some(rule) => exists|k: int| is_first_match(rules, ext, k) && *rule == rules[k],
        None => no_rule_matches(rules, ext),
    }
}

/// Position `o` of `rules` holds a matching rule of the highest priority
/// among those that match `ext`, and the first of that priority.
pub open spec fn is_preferred_match(
    rules: Seq<CategorizationRule>,
    ext: Option<Seq<char>>,
    o: int,
) -> bool {
    &&& 0 <= o < rules.len()
    &&& rule_matches_extension(rules[o], ext)
    &&& forall|i: int|
        0 <= i < rules.len() && rule_matches_extension(#[trigger] rules[i], ext) ==> rules[i].priority
            < rules[o].priority || (rules[i].priority == rules[o].priority && o <= i)
}

/// Law: when the rules, as given, are sorted stably by priority, the first
/// match in the sorted order is the preferred match of the rules as given:
/// no matching rule has a higher priority, and none of equal priority was
/// given before it.
pub proof fn lemma_first_match_is_preferred(
    input: Seq<CategorizationRule>,
    output: Seq<CategorizationRule>,
    ext: Option<Seq<char>>,
    k: int,
)
    requires
        is_stable_priority_sort(input, output),
        is_first_match(output, ext, k),
    ensures
        exists|o: int| is_preferred_match(input, ext, o) && input[o] == output[k],
{
    let m = choose|m: Seq<int>| stable_sort_witness(input, output, m);
    let o = m[k];
    assert(output[k] == input[o]);
    assert forall|i: int|
        0 <= i < input.len() && rule_matches_extension(#[trigger] input[i], ext) implies input[i].priority
            < input[o].priority || (input[i].priority == input[o].priority && o <= i) by {
        assert(position_hit(m, i));
        let q = choose|q: int| 0 <= q < m.len() && #[trigger] m[q] == i;
        assert(output[q] == input[i]);
        if q < k {
            assert(!rule_matches_extension(output[q], ext));
        } else if q > k {
            assert(output[k].priority >= output[q].priority);
            if output[k].priority == output[q].priority {
                assert(m[k] < m[q]);
            }
        }
    }
    assert(is_preferred_match(input, ext, o));
}

/// Law: there is at most one preferred match.
pub proof fn lemma_preferred_match_unique(
    rules: Seq<CategorizationRule>,
    ext: Option<Seq<char>>,
    a: int,
    b: int,
)
    requires
        is_preferred_match(rules, ext, a),
        is_preferred_match(rules, ext, b),
    ensures
        a == b,
{
    assert(rule_matches_extension(rules[a], ext));
    assert(rule_matches_extension(rules[b], ext));
}

/// Law: sorting the rules by priority neither adds nor loses matches: no rule
/// in the sorted order matches exactly when no rule as given matches.
pub proof fn lemma_sort_keeps_matches(
    input: Seq<CategorizationRule>,
    output: Seq<CategorizationRule>,
    ext: Option<Seq<char>>,
)
    requires
        is_stable_priority_sort(input, output),
    ensures
        no_rule_matches(output, ext) <==> no_rule_matches(input, ext),
{
    let m = choose|m: Seq<int>| stable_sort_witness(input, output, m);
    if no_rule_matches(output, ext) {
        assert forall|i: int| 0 <= i < input.len() implies !rule_matches_extension(
            #[trigger] input[i],
            ext,
        ) by {
            assert(position_hit(m, i));
            let q = choose|q: int| 0 <= q < m.len() && #[trigger] m[q] == i;
            assert(output[q] == input[i]);
        }
    }
    if no_rule_matches(input, ext) {
        assert forall|k: int| 0 <= k < output.len() implies !rule_matches_extension(
            #[trigger] output[k],
            ext,
        ) by {
            assert(output[k] == input[m[k]]);
        }
    }
}

/// Law: categorising with a categorizer built from `rules` gives the
/// preferred match of `rules` (highest priority, first given among equals),
/// and gives nothing exactly when no rule matches. `sorted` is what
/// `Categorizer::new` guarantees of its rules, and `r` what `categorize`
/// guarantees of its result.
pub proof fn lemma_categorize_by_priority(
    rules: Seq<CategorizationRule>,
    sorted: Seq<CategorizationRule>,
    ext: Option<Seq<char>>,
    r: Option<&CategorizationRule>,
)
    requires
        is_stable_priority_sort(rules, sorted),
        categorized_as(sorted, ext, r),
    ensures
        match r {
            Some(rule) => exists|o: int| is_preferred_match(rules, ext, o) && *rule == rules[o],
            None => no_rule_matches(rules, ext),
        },
{
    lemma_sort_keeps_matches(rules, sorted, ext);
    match r {
        Some(rule) => {
            let k = choose|k: int| is_first_match(sorted, ext, k) && *rule == sorted[k];
            lemma_first_match_is_preferred(rules, sorted, ext, k);
        },
        None => {},
    }
}

impl View for Categorizer {
    type V = Seq<CategorizationRule>;

    /// The rules in the order in which they are tried.
    closed spec fn view(&self) -> Seq<CategorizationRule> {
        self.rules@
    }
}

/// Inserting `r` (which is `input[n]`) at position `j` of `sorted`, where
/// `j` is the first position whose priority is below that of `r`, keeps a
/// stable sort of the first `n + 1` rules of `input`.
proof fn lemma_insert_keeps_stable_sort(
    input: Seq<CategorizationRule>,
    sorted: Seq<CategorizationRule>,
    m: Seq<int>,
    n: int,
    j: int,
)
    requires
        0 <= n < input.len(),
        stable_sort_witness(input.take(n), sorted, m),
        0 <= j <= sorted.len(),
        forall|k: int| 0 <= k < j ==> (#[trigger] sorted[k]).priority >= input[n].priority,
        j < sorted.len() ==> sorted[j].priority < input[n].priority,
    ensures
        stable_sort_witness(input.take(n + 1), sorted.insert(j, input[n]), m.insert(j, n)),
{
    let r = input[n];
    let out = sorted.insert(j, r);
    let m2 = m.insert(j, n);
    let inp = input.take(n + 1);
    assert(inp.len() == n + 1);
    assert forall|k: int| 0 <= k < m2.len() implies 0 <= #[trigger] m2[k] < inp.len() && out[k]
        == inp[m2[k]] by {
        if k < j {
            assert(m2[k] == m[k]);
            assert(input.take(n)[m[k]] == input[m[k]]);
        } else if k == j {
        } else {
            assert(m2[k] == m[k - 1]);
            assert(out[k] == sorted[k - 1]);
            assert(input.take(n)[m[k - 1]] == input[m[k - 1]]);
        }
    }
    assert forall|a: int, b: int| 0 <= a < b < m2.len() implies #[trigger] m2[a] != #[trigger] m2[b] by {
        if a < j && b < j {
            assert(m[a] != m[b]);
        } else if a < j && b == j {
            assert(m[a] < n);
        } else if a < j && b > j {
            assert(m[a] != m[b - 1]);
        } else if a == j {
            assert(m[b - 1] < n);
        } else {
            assert(m[a - 1] != m[b - 1]);
        }
    }
    assert forall|i: int| 0 <= i < inp.len() implies #[trigger] position_hit(m2, i) by {
        if i == n {
            assert(m2[j] == n);
        } else {
            assert(0 <= i < input.take(n).len());
            assert(position_hit(m, i));
            let k0 = choose|k: int| 0 <= k < m.len() && #[trigger] m[k] == i;
            if k0 < j {
                assert(m2[k0] == i);
            } else {
                assert(m2[k0 + 1] == i);
            }
        }
    }
    assert forall|a: int, b: int| 0 <= a < b < out.len() implies #[trigger] out[a].priority
        >= #[trigger] out[b].priority by {
        if a < j && b < j {
        } else if a < j && b == j {
        } else if a < j && b > j {
            assert(out[b] == sorted[b - 1]);
        } else if a == j {
            assert(out[b] == sorted[b - 1]);
            assert(sorted[j].priority >= sorted[b - 1].priority || b - 1 == j);
        } else {
            assert(out[a] == sorted[a - 1]);
            assert(out[b] == sorted[b - 1]);
        }
    }
    assert forall|a: int, b: int|
        0 <= a < b < out.len() && (#[trigger] out[a]).priority == (#[trigger] out[b]).priority
            implies m2[a] < m2[b] by {
        if a < j && b < j {
        } else if a < j && b == j {
            assert(m[a] < n);
        } else if a < j && b > j {
            assert(out[b] == sorted[b - 1]);
        } else if a == j {
            assert(out[b] == sorted[b - 1]);
            assert(sorted[j].priority >= sorted[b - 1].priority || b - 1 == j);
        } else {
            assert(out[a] == sorted[a - 1]);
            assert(out[b] == sorted[b - 1]);
        }
    }
}

impl Categorizer {
    /// Orders the rules by priority, higher first; rules of equal priority
    /// keep the order in which they were given.
    pub fn new(rules: Vec<CategorizationRule>) -> (c: Self)
        ensures
            is_stable_priority_sort(rules@, c@),
    {
        let ghost orig = rules@;
        let total: usize = rules.len();
        let mut input = rules;
        let mut sorted: Vec<CategorizationRule> = Vec::new();
        let ghost mut m: Seq<int> = Seq::empty();
        let mut n: usize = 0;
        assert(orig.take(0) =~= Seq::<CategorizationRule>::empty());
        while input.len() > 0
            invariant
                n + input.len() == orig.len(),
                orig.len() == total,
                input@ == orig.skip(n as int),
                stable_sort_witness(orig.take(n as int), sorted@, m),
            decreases input.len(),
        {
            assert(input@[0] == orig[n as int]);
            let r = input.remove(0);
            let mut j: usize = 0;
            while j < sorted.len() && sorted[j].priority >= r.priority
                invariant
                    j <= sorted.len(),
                    forall|k: int| 0 <= k < j ==> (#[trigger] sorted@[k]).priority >= r.priority,
                decreases sorted.len() - j,
            {
                j = j + 1;
            }
            proof {
                lemma_insert_keeps_stable_sort(orig, sorted@, m, n as int, j as int);
                m = m.insert(j as int, n as int);
            }
            sorted.insert(j, r);
            n = n + 1;
            assert(input@ =~= orig.skip(n as int));
        }
        assert(orig.take(n as int) =~= orig);
        let c = Categorizer { rules: sorted };
        assert(stable_sort_witness(rules@, c@, m));
        c
    }

    /// Categorize a file whose extension is `ext`: the first rule, in the
    /// order tried, that matches it.
    pub fn categorize_extension(&self, ext: Option<&str>) -> (r: Option<&CategorizationRule>)
        ensures
            categorized_as(self@, opt_str_view(ext), r),
    {
        let mut i: usize = 0;
        while i < self.rules.len()
            invariant
                i <= self.rules.len(),
                forall|j: int|
                    0 <= j < i ==> !rule_matches_extension(#[trigger] self.rules@[j], opt_str_view(ext)),
            decreases self.rules.len() - i,
        {
            if self.rules[i].matches_extension(ext) {
                assert(is_first_match(self@, opt_str_view(ext), i as int));
                return Some(&self.rules[i]);
            }
            i = i + 1;
        }
        None
    }

    /// Categorize a file based on rules: the first rule, in the order tried,
    /// that matches the extension camino finds in `file_path`.
    pub fn categorize(&self, file_path: &str) -> (r: Option<&CategorizationRule>)
        ensures
            categorized_as(self@, path_extension_of(file_path@), r),
    {
        let ext = path_extension(file_path);
        self.categorize_extension(ext)
    }
}

} // verus!
