//! Hugging Face search on the models screen: queries, their results, and the order in which
//! results are listed.
use vstd::prelude::*;
use vstd::string::StrSliceExecFns;

use crate::app::{App, Command};
use crate::format::{catalog_rank, spec_catalog_rank};
use crate::lists::searching;
use crate::records::{CatalogModel, CatalogSearchEvent, SearchModelsResponse};
use crate::text::{has_content, has_text, trim_chars, trimmed};

verus! {

/// Results asked for by one search request.
pub const SEARCH_LIMIT: u64 = 25;

/// Whether `a` comes before `b` in lexicographic order of their characters.
pub open spec fn chars_less(a: Seq<char>, b: Seq<char>) -> bool
    decreases a.len(),
{
    if a.len() == 0 {
        b.len() > 0
    } else if b.len() == 0 {
        false
    } else if a[0] != b[0] {
        a[0] < b[0]
    } else {
        chars_less(a.drop_first(), b.drop_first())
    }
}

proof fn lemma_chars_less_skip(a: Seq<char>, b: Seq<char>, i: int)
    requires
        0 <= i <= a.len(),
        i <= b.len(),
        a.take(i) == b.take(i),
    ensures
        chars_less(a, b) == chars_less(a.skip(i), b.skip(i)),
    decreases i,
{
    if i == 0 {
        assert(a.skip(0) =~= a);
        assert(b.skip(0) =~= b);
    } else {
        assert(a[0] == a.take(i)[0]);
        assert(b[0] == b.take(i)[0]);
        assert(a.drop_first().take(i - 1) =~= a.take(i).drop_first());
        assert(b.drop_first().take(i - 1) =~= b.take(i).drop_first());
        lemma_chars_less_skip(a.drop_first(), b.drop_first(), i - 1);
        assert(a.drop_first().skip(i - 1) =~= a.skip(i));
        assert(b.drop_first().skip(i - 1) =~= b.skip(i));
    }
}

/// Whether `a` comes before `b` in lexicographic order of their characters, which for UTF-8
/// text is also the order of its bytes.
pub fn chars_before(a: &str, b: &str) -> (less: bool)
    ensures
        less == chars_less(a@, b@),
{
    let la = a.unicode_len();
    let lb = b.unicode_len();
    let mut i: usize = 0;
    while i < la && i < lb
        invariant
            la == a@.len(),
            lb == b@.len(),
            i <= la,
            i <= lb,
            a@.take(i as int) == b@.take(i as int),
        decreases la - i,
    {
        let ca = a.get_char(i);
        let cb = b.get_char(i);
        if ca != cb {
            proof {
                lemma_chars_less_skip(a@, b@, i as int);
                assert(a@.skip(i as int)[0] == ca);
                assert(b@.skip(i as int)[0] == cb);
            }
            return ca < cb;
        }
        proof {
            assert(a@.take(i + 1) =~= a@.take(i as int).push(ca));
            assert(b@.take(i + 1) =~= b@.take(i as int).push(cb));
        }
        i += 1;
    }
    proof {
        lemma_chars_less_skip(a@, b@, i as int);
    }
    la < lb
}

/// Whether search result `a` is listed before `b`: better compatibility and memory fit first,
/// then more downloads, then by id.
pub open spec fn catalog_precedes(a: CatalogModel, b: CatalogModel) -> bool {
    let ra = spec_catalog_rank(a.compatibility@, a.memory_fit@);
    let rb = spec_catalog_rank(b.compatibility@, b.memory_fit@);
    ||| ra < rb
    ||| ra == rb && a.downloads > b.downloads
    ||| ra == rb && a.downloads == b.downloads && chars_less(a.id@, b.id@)
}

/// Whether search result `a` is listed before `b`.
pub fn catalog_before(a: &CatalogModel, b: &CatalogModel) -> (before: bool)
    ensures
        before == catalog_precedes(*a, *b),
{
    let ra = catalog_rank(a);
    let rb = catalog_rank(b);
    if ra != rb {
        return ra < rb;
    }
    if a.downloads != b.downloads {
        return a.downloads > b.downloads;
    }
    chars_before(a.id.as_str(), b.id.as_str())
}

/// `sorted` with `model` inserted after every result that it does not precede.
pub open spec fn insert_ranked(sorted: Seq<CatalogModel>, model: CatalogModel) -> Seq<CatalogModel>
    decreases sorted.len(),
{
    if sorted.len() == 0 {
        seq![model]
    } else if !catalog_precedes(model, sorted.last()) {
        sorted.push(model)
    } else {
        insert_ranked(sorted.drop_last(), model).push(sorted.last())
    }
}

/// Search results in listing order; results that tie keep their order.
pub open spec fn ranked(models: Seq<CatalogModel>) -> Seq<CatalogModel>
    decreases models.len(),
{
    if models.len() == 0 {
        models
    } else {
        insert_ranked(ranked(models.drop_last()), models.last())
    }
}

proof fn lemma_insert_ranked_suffix(s: Seq<CatalogModel>, model: CatalogModel, j: int)
    requires
        0 <= j <= s.len(),
        forall|k: int| j <= k < s.len() ==> catalog_precedes(model, #[trigger] s[k]),
    ensures
        insert_ranked(s, model) == insert_ranked(s.take(j), model) + s.skip(j),
    decreases s.len() - j,
{
    if j == s.len() {
        assert(s.take(j) =~= s);
        assert(s.skip(j) =~= Seq::<CatalogModel>::empty());
        assert(insert_ranked(s.take(j), model) + s.skip(j) =~= insert_ranked(s.take(j), model));
    } else {
        lemma_insert_ranked_suffix(s, model, j + 1);
        let t = s.take(j + 1);
        assert(t.drop_last() =~= s.take(j));
        assert(t.last() == s[j]);
        assert(catalog_precedes(model, s[j]));
        assert(insert_ranked(t, model) == insert_ranked(s.take(j), model).push(s[j]));
        assert(insert_ranked(s.take(j), model).push(s[j]) + s.skip(j + 1) =~= insert_ranked(
            s.take(j),
            model,
        ) + s.skip(j));
    }
}

/// Inserts `model` into `sorted` after every result that it does not precede.
pub fn insert_result(sorted: &mut Vec<CatalogModel>, model: CatalogModel)
    ensures
        final(sorted)@ == insert_ranked(old(sorted)@, model),
{
    let ghost pre = sorted@;
    let mut j = sorted.len();
    while j > 0 && catalog_before(&model, &sorted[j - 1])
        invariant
            j <= pre.len(),
            sorted@ == pre,
            forall|k: int| j <= k < pre.len() ==> catalog_precedes(model, #[trigger] pre[k]),
        decreases j,
    {
        j -= 1;
    }
    proof {
        lemma_insert_ranked_suffix(pre, model, j as int);
        let t = pre.take(j as int);
        if j > 0 {
            assert(t.last() == pre[j - 1]);
            assert(insert_ranked(t, model) == t.push(model));
        } else {
            assert(insert_ranked(t, model) == seq![model]);
        }
    }
    sorted.insert(j, model);
    proof {
        assert(sorted@ =~= pre.take(j as int).push(model) + pre.skip(j as int));
    }
}

/// Search results in listing order, keeping the order of results that tie.
pub fn sort_results(models: Vec<CatalogModel>) -> (sorted: Vec<CatalogModel>)
    ensures
        sorted@ == ranked(models@),
{
    let ghost all = models@;
    let mut sorted: Vec<CatalogModel> = Vec::new();
    let mut rest = models;
    let ghost mut consumed: Seq<CatalogModel> = Seq::empty();
    proof {
        assert(all =~= consumed + rest@);
    }
    while rest.len() > 0
        invariant
            all == consumed + rest@,
            sorted@ == ranked(consumed),
        decreases rest@.len(),
    {
        let model = rest.remove(0);
        proof {
            assert(consumed.push(model).drop_last() =~= consumed);
            assert(consumed.push(model).last() == model);
        }
        insert_result(&mut sorted, model);
        proof {
            consumed = consumed.push(model);
            assert(all =~= consumed + rest@);
        }
    }
    proof {
        assert(consumed =~= all);
    }
    sorted
}

/// The search request for the current query, asked for when the query has text: the trimmed
/// query, and for more results of it the cursor where the last page ended.
pub open spec fn search_queued(pre: App, append: bool, post: App, command: Option<Command>) -> bool {
    if !has_content(pre.search_query@) {
        command is None && post == pre
    } else {
        &&& post == App { catalog_search_pending: true, ..pre }
        &&& command matches Some(Command::SearchModels { query, limit, append: a, cursor })
        &&& query@ == trim_chars(pre.search_query@)
        &&& limit == SEARCH_LIMIT
        &&& a == append
        &&& cursor == (if append { pre.catalog_next_cursor } else { None })
    }
}

/// `app` after the search `response`: its results replace the list, or join it when they
/// continue it, and the list is put in listing order; the cursor and the memory figures are
/// the response's.
pub open spec fn response_applied(pre: App, response: SearchModelsResponse, append: bool, post: App) -> bool {
    let merged = if append { pre.catalog@ + response.models@ } else { response.models@ };
    &&& post.catalog@ == ranked(merged)
    &&& post == App {
        catalog: post.catalog,
        catalog_selected: if append { pre.catalog_selected } else { 0 },
        catalog_error: None,
        catalog_next_cursor: response.next_cursor,
        memory_source: response.memory_source,
        total_memory_bytes: response.total_memory_bytes,
        available_memory_bytes: response.available_memory_bytes,
        ..pre
    }
}

/// `app` after the answer `event` to a search: the search is over; an answer to a query that
/// is no longer typed is dropped, a failure shows as the catalog error.
pub open spec fn search_answered(pre: App, event: CatalogSearchEvent, post: App) -> bool {
    let idle = App { catalog_search_pending: false, ..pre };
    if event.query@ != trim_chars(pre.search_query@) {
        post == idle
    } else {
        match event.result {
            Ok(response) => response_applied(idle, response, event.append, post),
            Err(e) => post == App { catalog_error: Some(e), ..idle },
        }
    }
}

impl App {
    /// Asks for the search results of the current query, or for more of them.
    #[verifier::rlimit(50)]
    pub fn queue_search(&mut self, append: bool) -> (command: Option<Command>)
        ensures
            search_queued(*old(self), append, *final(self), command),
    {
        if !has_text(self.search_query.as_str()) {
            return None;
        }
        let query = trimmed(self.search_query.as_str());
        let cursor = if append {
            match &self.catalog_next_cursor {
                Some(c) => Some(c.clone()),
                None => None,
            }
        } else {
            None
        };
        self.catalog_search_pending = true;
        Some(Command::SearchModels { query, limit: SEARCH_LIMIT, append, cursor })
    }

    /// Takes a search response.
    pub fn apply_search_response(&mut self, response: SearchModelsResponse, append: bool)
        ensures
            response_applied(*old(self), response, append, *final(self)),
    {
        let mut models = response.models;
        let mut merged: Vec<CatalogModel> = Vec::new();
        std::mem::swap(&mut merged, &mut self.catalog);
        if append {
            merged.append(&mut models);
        } else {
            merged = models;
            self.catalog_selected = 0;
        }
        self.catalog = sort_results(merged);
        self.catalog_error = None;
        self.catalog_next_cursor = response.next_cursor;
        self.memory_source = response.memory_source;
        self.total_memory_bytes = response.total_memory_bytes;
        self.available_memory_bytes = response.available_memory_bytes;
    }

    /// Takes the answer to a search.
    pub fn apply_search_event(&mut self, event: CatalogSearchEvent)
        ensures
            search_answered(*old(self), event, *final(self)),
    {
        self.catalog_search_pending = false;
        let current = trimmed(self.search_query.as_str());
        if !crate::text::equals(event.query.as_str(), current.as_str()) {
            return;
        }
        match event.result {
            Ok(response) => self.apply_search_response(response, event.append),
            Err(error) => self.catalog_error = Some(error),
        }
    }

    /// The search ended without an answer.
    pub fn search_closed(&mut self)
        ensures
            *final(self) == (App { catalog_search_pending: false, ..*old(self) }),
    {
        self.catalog_search_pending = false;
    }
}

/// No text comes before itself.
pub proof fn lemma_chars_less_irreflexive(a: Seq<char>)
    ensures
        !chars_less(a, a),
    decreases a.len(),
{
    if a.len() > 0 {
        lemma_chars_less_irreflexive(a.drop_first());
    }
}

/// The order of texts is transitive.
pub proof fn lemma_chars_less_transitive(a: Seq<char>, b: Seq<char>, c: Seq<char>)
    requires
        chars_less(a, b),
        chars_less(b, c),
    ensures
        chars_less(a, c),
    decreases a.len(),
{
    if a.len() > 0 && b.len() > 0 && c.len() > 0 && a[0] == b[0] && b[0] == c[0] {
        lemma_chars_less_transitive(a.drop_first(), b.drop_first(), c.drop_first());
    }
}

/// Of two different texts, one comes before the other.
pub proof fn lemma_chars_less_total(a: Seq<char>, b: Seq<char>)
    requires
        a != b,
    ensures
        chars_less(a, b) || chars_less(b, a),
    decreases a.len(),
{
    if a.len() > 0 && b.len() > 0 && a[0] == b[0] {
        if a.drop_first() == b.drop_first() {
            assert(a =~= seq![a[0]] + a.drop_first());
            assert(b =~= seq![b[0]] + b.drop_first());
        }
        lemma_chars_less_total(a.drop_first(), b.drop_first());
    } else if a.len() == 0 && b.len() == 0 {
        assert(a =~= b);
    }
}

/// A result that comes before `y`, which `z` does not precede, comes before `z`: listing
/// order is a strict weak order.
pub proof fn lemma_precedes_before_not_after(x: CatalogModel, y: CatalogModel, z: CatalogModel)
    requires
        catalog_precedes(x, y),
        !catalog_precedes(z, y),
    ensures
        catalog_precedes(x, z),
{
    if z.id@ != y.id@ {
        lemma_chars_less_total(z.id@, y.id@);
    }
    if chars_less(x.id@, y.id@) && chars_less(y.id@, z.id@) {
        lemma_chars_less_transitive(x.id@, y.id@, z.id@);
    }
}

/// A result that comes before another is not preceded by it.
pub proof fn lemma_precedes_asymmetric(x: CatalogModel, y: CatalogModel)
    requires
        catalog_precedes(x, y),
    ensures
        !catalog_precedes(y, x),
{
    if chars_less(x.id@, y.id@) && chars_less(y.id@, x.id@) {
        lemma_chars_less_transitive(x.id@, y.id@, x.id@);
        lemma_chars_less_irreflexive(x.id@);
    }
}

/// Whether no result of `s` comes before one listed ahead of it.
pub open spec fn listed_in_order(s: Seq<CatalogModel>) -> bool {
    forall|i: int, j: int| 0 <= i < j < s.len() ==> !catalog_precedes(#[trigger] s[j], #[trigger] s[i])
}

/// Inserting a result into an ordered list keeps it ordered and adds exactly that result.
pub proof fn lemma_insert_ranked_ordered(s: Seq<CatalogModel>, model: CatalogModel)
    requires
        listed_in_order(s),
    ensures
        listed_in_order(insert_ranked(s, model)),
        insert_ranked(s, model).to_multiset() == s.to_multiset().insert(model),
    decreases s.len(),
{
    broadcast use vstd::seq_lib::group_to_multiset_ensures;
    if s.len() == 0 {
        assert(seq![model] =~= Seq::<CatalogModel>::empty().push(model));
    } else if !catalog_precedes(model, s.last()) {
        let r = s.push(model);
        assert forall|i: int, j: int| 0 <= i < j < r.len() implies !catalog_precedes(
            #[trigger] r[j],
            #[trigger] r[i],
        ) by {
            if j == s.len() && i < s.len() - 1 {
                if catalog_precedes(model, s[i]) {
                    assert(!catalog_precedes(s[s.len() - 1], s[i]));
                    lemma_precedes_before_not_after(model, s[i], s.last());
                }
            }
        }
    } else {
        let init = s.drop_last();
        assert(listed_in_order(init)) by {
            assert forall|i: int, j: int| 0 <= i < j < init.len() implies !catalog_precedes(
                #[trigger] init[j],
                #[trigger] init[i],
            ) by {
                assert(init[i] == s[i] && init[j] == s[j]);
            }
        }
        lemma_insert_ranked_ordered(init, model);
        let r = insert_ranked(init, model);
        let out = r.push(s.last());
        assert forall|k: int| 0 <= k < r.len() implies !catalog_precedes(s.last(), #[trigger] r[k]) by {
            assert(r.to_multiset().count(r[k]) > 0);
            assert(init.to_multiset().insert(model).count(r[k]) > 0);
            if r[k] == model {
                lemma_precedes_asymmetric(model, s.last());
            } else {
                assert(init.to_multiset().count(r[k]) > 0);
                assert(init.contains(r[k]));
                let m = choose|m: int| 0 <= m < init.len() && init[m] == r[k];
                assert(s[m] == init[m]);
            }
        }
        assert forall|i: int, j: int| 0 <= i < j < out.len() implies !catalog_precedes(
            #[trigger] out[j],
            #[trigger] out[i],
        ) by {
            if j == r.len() {
                assert(out[j] == s.last());
                assert(out[i] == r[i]);
            } else {
                assert(out[i] == r[i] && out[j] == r[j]);
            }
        }
        assert(s =~= init.push(s.last()));
    }
}

/// Search results are always listed in order: better compatibility and fit first, then more
/// downloads, then by id; and the list holds exactly the results that were received.
pub proof fn lemma_ranked_in_order(models: Seq<CatalogModel>)
    ensures
        listed_in_order(ranked(models)),
        ranked(models).to_multiset() == models.to_multiset(),
    decreases models.len(),
{
    broadcast use vstd::seq_lib::group_to_multiset_ensures;
    if models.len() > 0 {
        lemma_ranked_in_order(models.drop_last());
        lemma_insert_ranked_ordered(ranked(models.drop_last()), models.last());
        assert(models =~= models.drop_last().push(models.last()));
    }
}

} // verus!
