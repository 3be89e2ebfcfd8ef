use vstd::prelude::*;

verus! {

/// One entry of the configured page list.
///
/// `page` is the legacy alias of `page_index`; `page_number` is accepted for
/// compatibility and never consulted.
pub struct PageConfig {
    pub name: String,
    pub page_index: Option<u32>,
    pub page: Option<u32>,
    pub page_number: Option<u32>,
}

/// The effective index of an entry: `page_index` if present, else `page`.
pub open spec fn effective_index(p: PageConfig) -> Option<u32> {
    match p.page_index {
        Some(i) => Some(i),
        None => p.page,
    }
}

/// The effective indices of the entries that have one, in list order.
pub open spec fn present_indices(ps: Seq<PageConfig>) -> Seq<u32>
    decreases ps.len(),
{
    if ps.len() == 0 {
        Seq::empty()
    } else {
        let rest = present_indices(ps.drop_last());
        match effective_index(ps.last()) {
            Some(i) => rest.push(i),
            None => rest,
        }
    }
}

/// `s` with every element after its first occurrence removed.
pub open spec fn first_occurrences(s: Seq<u32>) -> Seq<u32>
    decreases s.len(),
{
    if s.len() == 0 {
        Seq::empty()
    } else {
        let d = first_occurrences(s.drop_last());
        if d.contains(s.last()) {
            d
        } else {
            d.push(s.last())
        }
    }
}

/// The position at which `x` first occurs in `s` (meaningful when it does).
pub open spec fn first_position(s: Seq<u32>, x: u32) -> int
    decreases s.len(),
{
    if s.len() == 0 {
        0
    } else if s.drop_last().contains(x) {
        first_position(s.drop_last(), x)
    } else {
        s.len() - 1
    }
}

/// The pages that a configured list selects, in the order they are extracted.
pub open spec fn selection(ps: Seq<PageConfig>) -> Seq<u32> {
    first_occurrences(present_indices(ps))
}

/// The effective index of one entry: `page_index`, falling back to `page`.
pub fn effective_page(p: &PageConfig) -> (r: Option<u32>)
    ensures
        r == effective_index(*p),
{
    match p.page_index {
        Some(i) => Some(i),
        None => p.page,
    }
}

/// The effective indices of the entries that have one, in list order.
pub fn page_indices(pages: &Vec<PageConfig>) -> (r: Vec<u32>)
    ensures
        r@ == present_indices(pages@),
{
    let mut r: Vec<u32> = Vec::new();
    let mut k: usize = 0;
    while k < pages.len()
        invariant
            k <= pages.len(),
            r@ == present_indices(pages@.subrange(0, k as int)),
        decreases pages.len() - k,
    {
        assert(pages@.subrange(0, k as int + 1).drop_last() == pages@.subrange(0, k as int));
        if let Some(i) = effective_page(&pages[k]) {
            r.push(i);
        }
        k = k + 1;
    }
    assert(pages@.subrange(0, pages.len() as int) == pages@);
    r
}

/// Keeps the first occurrence of each index and drops the later ones,
/// preserving order.
pub fn dedup_first(indices: &Vec<u32>) -> (r: Vec<u32>)
    ensures
        r@ == first_occurrences(indices@),
{
    let mut r: Vec<u32> = Vec::new();
    let mut k: usize = 0;
    while k < indices.len()
        invariant
            k <= indices.len(),
            r@ == first_occurrences(indices@.subrange(0, k as int)),
        decreases indices.len() - k,
    {
        let x = indices[k];
        assert(indices@.subrange(0, k as int + 1).drop_last() == indices@.subrange(0, k as int));
        let mut seen = false;
        let mut j: usize = 0;
        while j < r.len()
            invariant
                j <= r.len(),
                seen == (exists|i: int| 0 <= i < j && r@[i] == x),
            decreases r.len() - j,
        {
            if r[j] == x {
                seen = true;
            }
            j = j + 1;
        }
        if !seen {
            r.push(x);
        }
        k = k + 1;
    }
    assert(indices@.subrange(0, indices.len() as int) == indices@);
    r
}

/// The pages to extract: effective indices in configuration order, each kept
/// at its first occurrence only.
pub fn select_pages(pages: &Vec<PageConfig>) -> (r: Vec<u32>)
    ensures
        r@ == selection(pages@),
        r@.no_duplicates(),
{
    let candidates = page_indices(pages);
    proof {
        lemma_first_occurrences_distinct(candidates@);
    }
    dedup_first(&candidates)
}

/// Every element of `first_occurrences(s)` is in `s`, and conversely.
pub proof fn lemma_first_occurrences_members(s: Seq<u32>)
    ensures
        forall|x: u32| first_occurrences(s).contains(x) <==> s.contains(x),
    decreases s.len(),
{
    if s.len() > 0 {
        let t = s.drop_last();
        lemma_first_occurrences_members(t);
        assert forall|x: u32| s.contains(x) <==> (t.contains(x) || x == s.last()) by {
            if s.contains(x) {
                let k = choose|k: int| 0 <= k < s.len() && s[k] == x;
                if k < s.len() - 1 {
                    assert(t[k] == x);
                }
            }
            if t.contains(x) {
                let k = choose|k: int| 0 <= k < t.len() && t[k] == x;
                assert(s[k] == x);
            }
            if x == s.last() {
                assert(s[s.len() - 1] == x);
            }
        }
        let d = first_occurrences(t);
        if !d.contains(s.last()) {
            assert forall|x: u32| d.push(s.last()).contains(x) <==> (d.contains(x) || x == s.last()) by {
                if d.push(s.last()).contains(x) {
                    let k = choose|k: int| 0 <= k < d.len() + 1 && d.push(s.last())[k] == x;
                    if k < d.len() {
                        assert(d[k] == x);
                    }
                }
                if d.contains(x) {
                    let k = choose|k: int| 0 <= k < d.len() && d[k] == x;
                    assert(d.push(s.last())[k] == x);
                }
                if x == s.last() {
                    assert(d.push(s.last())[d.len() as int] == x);
                }
            }
        }
    }
}

/// `first_occurrences(s)` holds no index twice.
pub proof fn lemma_first_occurrences_distinct(s: Seq<u32>)
    ensures
        first_occurrences(s).no_duplicates(),
    decreases s.len(),
{
    if s.len() > 0 {
        lemma_first_occurrences_distinct(s.drop_last());
    }
}

/// Where `x` occurs in `s`, `first_position` is an index of `x` with no
/// earlier occurrence.
pub proof fn lemma_first_position(s: Seq<u32>, x: u32)
    requires
        s.contains(x),
    ensures
        0 <= first_position(s, x) < s.len(),
        s[first_position(s, x)] == x,
        !s.subrange(0, first_position(s, x)).contains(x),
    decreases s.len(),
{
    let t = s.drop_last();
    if t.contains(x) {
        lemma_first_position(t, x);
        let p = first_position(t, x);
        assert(s.subrange(0, p) == t.subrange(0, p));
    } else {
        let k = choose|k: int| 0 <= k < s.len() && s[k] == x;
        if k < s.len() - 1 {
            assert(t[k] == x);
        }
        assert(s.subrange(0, s.len() - 1) == t);
    }
}

/// The kept indices appear in the order of their first occurrences.
pub proof fn lemma_first_occurrences_order(s: Seq<u32>)
    ensures
        forall|i: int, j: int|
            0 <= i < j < first_occurrences(s).len() ==> first_position(s, first_occurrences(s)[i])
                < first_position(s, first_occurrences(s)[j]),
    decreases s.len(),
{
    if s.len() > 0 {
        let t = s.drop_last();
        let d = first_occurrences(t);
        lemma_first_occurrences_order(t);
        lemma_first_occurrences_members(t);
        assert forall|i: int| 0 <= i < d.len() implies first_position(s, d[i]) == first_position(t, d[i])
            && first_position(t, d[i]) < t.len() by {
            assert(d.contains(d[i]));
            lemma_first_position(t, d[i]);
        }
    }
}

/// A list that holds no index twice is its own first occurrences.
pub proof fn lemma_first_occurrences_of_distinct(t: Seq<u32>)
    requires
        t.no_duplicates(),
    ensures
        first_occurrences(t) == t,
    decreases t.len(),
{
    if t.len() > 0 {
        let u = t.drop_last();
        lemma_first_occurrences_of_distinct(u);
        if u.contains(t.last()) {
            let k = choose|k: int| 0 <= k < u.len() && u[k] == t.last();
            assert(t[k] == t[t.len() - 1]);
        }
        assert(u.push(t.last()) == t);
    }
}

/// The selection holds exactly the configured effective indices, each once,
/// in the order of their first occurrences in the configuration; selecting
/// again from the selection changes nothing.
pub proof fn law_selection_order_and_idempotence(ps: Seq<PageConfig>)
    ensures
        selection(ps).no_duplicates(),
        forall|x: u32| selection(ps).contains(x) <==> present_indices(ps).contains(x),
        forall|i: int, j: int|
            0 <= i < j < selection(ps).len() ==> first_position(present_indices(ps), selection(ps)[i])
                < first_position(present_indices(ps), selection(ps)[j]),
        first_occurrences(selection(ps)) == selection(ps),
{
    let s = present_indices(ps);
    lemma_first_occurrences_distinct(s);
    lemma_first_occurrences_members(s);
    lemma_first_occurrences_order(s);
    lemma_first_occurrences_of_distinct(first_occurrences(s));
}

} // verus!
