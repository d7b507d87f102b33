//! The paginator.
//!
//! A list operation returns items a page at a time, each page carrying a
//! continuation token for the next one. The state here threads that token
//! from each response into the next request and applies the one
//! termination predicate every list operation shares: an absent or empty
//! token means no further pages. The caller performs each fetch;
//! successive fetches are serialized because each depends on the previous
//! page's token. No page cap is imposed: a server that never returns an
//! empty token makes iteration unbounded, which is the server's contract
//! violation, not handled here.

use crate::json::{arr_view, field_of, lemma_arr_view, Json, JsonVal};
use crate::views::{lemma_seq_view, lemma_seq_view_push, seq_view};
use vstd::prelude::*;

verus! {

broadcast use vstd::std_specs::vec::group_vec_axioms, vstd::seq::group_seq_axioms;

/// The view of an optional string.
pub open spec fn opt_str_view(t: Option<String>) -> Option<Seq<char>> {
    match t {
        Some(s) => Some(s@),
        None => None,
    }
}

/// The single termination predicate of list iteration: an absent or
/// empty continuation token means no further pages.
pub open spec fn token_exhausted(t: Option<Seq<char>>) -> bool {
    match t {
        None => true,
        Some(s) => s.len() == 0,
    }
}

/// Iteration state for one list operation: restartable from the start by
/// building a fresh value.
#[derive(Debug, PartialEq, Eq)]
pub struct Paginator {
    /// The token to send with the next call; none for the first page.
    pub next_token: Option<String>,
    /// True once a fetched page's token was exhausted: no further calls
    /// are to be issued.
    pub finished: bool,
    /// How many pages have been recorded.
    pub calls: u64,
}

/// The spec-level shape of a [`Paginator`].
pub struct PaginatorV {
    pub next_token: Option<Seq<char>>,
    pub finished: bool,
    pub calls: int,
}

impl View for Paginator {
    type V = PaginatorV;

    open spec fn view(&self) -> PaginatorV {
        PaginatorV {
            next_token: opt_str_view(self.next_token),
            finished: self.finished,
            calls: self.calls as int,
        }
    }
}

impl Paginator {
    /// Fresh iteration state: no token yet, nothing fetched.
    pub fn new() -> (p: Paginator)
        ensures
            p@.next_token is None,
            !p@.finished,
            p@.calls == 0,
    {
        Paginator { next_token: None, finished: false, calls: 0 }
    }

    /// True once no further calls are to be issued.
    pub fn is_finished(&self) -> (r: bool)
        ensures
            r == self@.finished,
    {
        self.finished
    }

    /// The token to send with the next call; none for the first page.
    pub fn page_token(&self) -> (r: &Option<String>)
        ensures
            opt_str_view(*r) == self@.next_token,
    {
        &self.next_token
    }

    /// Records one fetched page's continuation token: one more call was
    /// issued, and iteration finishes exactly when the token is absent or
    /// empty.
    pub fn record_page(&mut self, next_token: Option<String>)
        requires
            !old(self)@.finished,
            old(self)@.calls < u64::MAX,
        ensures
            final(self)@.calls == old(self)@.calls + 1,
            final(self)@.finished == token_exhausted(opt_str_view(next_token)),
            final(self)@.next_token == opt_str_view(next_token),
    {
        self.finished = match &next_token {
            None => true,
            Some(s) => s.as_str().is_empty(),
        };
        self.next_token = next_token;
        self.calls = self.calls + 1;
    }
}

/// One page of a list operation: its items and its continuation token.
#[derive(Debug, PartialEq, Eq)]
pub struct Page<T> {
    /// The items of this page, in order.
    pub items: Vec<T>,
    /// The continuation token the response carried.
    pub next_token: Option<String>,
}

/// How many calls a full drain of these responses issues: one per page,
/// in page order, stopping with the first exhausted token; all of them
/// when no token is exhausted.
pub open spec fn pages_fetched<T>(pages: Seq<Page<T>>) -> int
    decreases pages.len(),
{
    if pages.len() == 0 {
        0
    } else if token_exhausted(opt_str_view(pages[0].next_token)) {
        1
    } else {
        1 + pages_fetched(pages.drop_first())
    }
}

/// The items of the first `n` pages, in page order.
pub open spec fn items_of_fetched<T>(pages: Seq<Page<T>>, n: int) -> Seq<T>
    decreases n,
{
    if n <= 0 || pages.len() == 0 {
        Seq::empty()
    } else {
        pages[0].items@ + items_of_fetched(pages.drop_first(), n - 1)
    }
}

proof fn lemma_pages_fetched_skip<T>(pages: Seq<Page<T>>, k: int)
    requires
        0 <= k <= pages.len(),
        forall|j: int| 0 <= j < k ==> !token_exhausted(opt_str_view(pages[j].next_token)),
    ensures
        pages_fetched(pages) == k + pages_fetched(pages.skip(k)),
    decreases k,
{
    if k == 0 {
        assert(pages.skip(0) =~= pages);
    } else {
        lemma_pages_fetched_skip(pages.drop_first(), k - 1);
        assert(pages.drop_first().skip(k - 1) =~= pages.skip(k));
    }
}

proof fn lemma_items_of_fetched_step<T>(pages: Seq<Page<T>>, k: int)
    requires
        0 <= k < pages.len(),
    ensures
        items_of_fetched(pages, k + 1) == items_of_fetched(pages, k) + pages[k].items@,
    decreases k,
{
    if k == 0 {
        assert(items_of_fetched(pages, 0) =~= Seq::<T>::empty());
        assert(items_of_fetched(pages.drop_first(), 0) =~= Seq::<T>::empty());
        assert(items_of_fetched(pages, 1) =~= pages[0].items@);
        assert(items_of_fetched(pages, 1) =~= items_of_fetched(pages, 0) + pages[0].items@);
    } else {
        lemma_items_of_fetched_step(pages.drop_first(), k - 1);
        assert(items_of_fetched(pages, k + 1) =~= items_of_fetched(pages, k) + pages[k].items@);
    }
}

/// Drains a pre-recorded sequence of page responses through a
/// [`Paginator`], as a list operation drains a server: one call per page,
/// in page order, stopping after the first exhausted token. Returns all
/// items fetched, in order, and how many calls were issued.
pub fn drain_pages<T>(pages: Vec<Page<T>>) -> (r: (Vec<T>, usize))
    ensures
        r.1 == pages_fetched(pages@),
        r.0@ == items_of_fetched(pages@, r.1 as int),
{
    let ghost gpages = pages@;
    let mut rest = pages;
    let mut out: Vec<T> = Vec::new();
    let mut pager = Paginator::new();
    let mut calls: usize = 0;
    let total = rest.len();
    proof {
        assert(gpages.len() == total);
        assert(gpages.skip(0) =~= gpages);
        assert(items_of_fetched(gpages, 0) =~= Seq::<T>::empty());
    }
    loop
        invariant
            gpages.len() <= usize::MAX,
            calls <= gpages.len(),
            rest@ == gpages.skip(calls as int),
            out@ == items_of_fetched(gpages, calls as int),
            pager@.calls == calls,
            calls == 0 ==> !pager@.finished,
            calls > 0 ==> pager@.finished == token_exhausted(
                opt_str_view(gpages[calls - 1].next_token),
            ),
            forall|j: int|
                0 <= j < calls - 1 ==> !token_exhausted(opt_str_view(gpages[j].next_token)),
            calls > 0 && !pager@.finished ==> !token_exhausted(
                opt_str_view(gpages[calls - 1].next_token),
            ),
        ensures
            pager@.finished || rest@.len() == 0,
            gpages.len() <= usize::MAX,
            calls <= gpages.len(),
            rest@ == gpages.skip(calls as int),
            out@ == items_of_fetched(gpages, calls as int),
            pager@.calls == calls,
            calls == 0 ==> !pager@.finished,
            calls > 0 ==> pager@.finished == token_exhausted(
                opt_str_view(gpages[calls - 1].next_token),
            ),
            forall|j: int|
                0 <= j < calls - 1 ==> !token_exhausted(opt_str_view(gpages[j].next_token)),
            calls > 0 && !pager@.finished ==> !token_exhausted(
                opt_str_view(gpages[calls - 1].next_token),
            ),
        decreases gpages.len() - calls,
    {
        if pager.is_finished() {
            break;
        }
        if rest.len() == 0 {
            break;
        }
        proof {
            assert(calls < gpages.len());
        }
        let page = rest.remove(0);
        proof {
            assert(gpages.skip(calls as int)[0] == gpages[calls as int]);
            assert(gpages.skip(calls as int).remove(0) =~= gpages.skip(calls + 1));
            lemma_items_of_fetched_step(gpages, calls as int);
        }
        let Page { mut items, next_token } = page;
        out.append(&mut items);
        pager.record_page(next_token);
        calls = calls + 1;
    }
    if pager.is_finished() {
        proof {
            lemma_pages_fetched_skip(gpages, calls - 1);
            assert(gpages.skip(calls - 1)[0] == gpages[calls - 1]);
        }
    } else {
        proof {
            lemma_pages_fetched_skip(gpages, calls as int);
            assert(gpages.skip(calls as int).len() == 0);
        }
    }
    (out, calls)
}

/// The `name` string of one list item, when it has one.
pub open spec fn name_of_item(e: JsonVal) -> Option<Seq<char>> {
    match field_of(e, "name"@) {
        Some(JsonVal::Str(s)) => Some(s),
        _ => None,
    }
}

/// The names of the items that carry one, in wire order.
pub open spec fn names_of(items: Seq<JsonVal>) -> Seq<Seq<char>>
    decreases items.len(),
{
    if items.len() == 0 {
        Seq::empty()
    } else {
        match name_of_item(items.last()) {
            Some(n) => names_of(items.drop_last()).push(n),
            None => names_of(items.drop_last()),
        }
    }
}

/// The items array of a list response, under the operation's own key;
/// empty when the response has no such array.
pub open spec fn page_items(resp: JsonVal, key: Seq<char>) -> Seq<JsonVal> {
    match field_of(resp, key) {
        Some(JsonVal::Arr(a)) => a,
        _ => Seq::empty(),
    }
}

/// The continuation token of a list response, when it carries one.
pub open spec fn page_token_of(resp: JsonVal) -> Option<Seq<char>> {
    match field_of(resp, "nextPageToken"@) {
        Some(JsonVal::Str(s)) => Some(s),
        _ => None,
    }
}

/// Reads one list response: the names of the items under `items_key`,
/// in wire order, and the response's continuation token. Items without
/// a name are skipped; a missing array reads as empty.
pub fn page_names(resp: &Json, items_key: &str) -> (r: (Vec<String>, Option<String>))
    ensures
        seq_view(r.0@) == names_of(page_items(resp@, items_key@)),
        opt_str_view(r.1) == page_token_of(resp@),
{
    let token: Option<String> = match resp.get("nextPageToken") {
        Some(v) => match v {
            Json::Str(s) => Some(s.clone()),
            _ => None,
        },
        None => None,
    };
    let mut names: Vec<String> = Vec::new();
    proof {
        lemma_seq_view(names@);
        assert(seq_view(names@) =~= Seq::<Seq<char>>::empty());
    }
    match resp.get(items_key) {
        Some(v) => match v {
            Json::Arr(a) => {
                let ghost ga = arr_view(a@);
                proof {
                    lemma_arr_view(a@);
                    assert(ga.take(0) =~= Seq::<JsonVal>::empty());
                }
                let mut i: usize = 0;
                while i < a.len()
                    invariant
                        i <= a.len(),
                        ga == arr_view(a@),
                        ga.len() == a.len(),
                        forall|k: int| 0 <= k < a.len() ==> ga[k] == a[k]@,
                        seq_view(names@) == names_of(ga.take(i as int)),
                    decreases a.len() - i,
                {
                    proof {
                        assert(ga.take(i + 1).drop_last() =~= ga.take(i as int));
                        assert(ga.take(i + 1).last() == ga[i as int]);
                    }
                    match a[i].get("name") {
                        Some(nv) => match nv {
                            Json::Str(s) => {
                                let ghost old_names = names@;
                                proof {
                                    lemma_seq_view_push(old_names, *s);
                                }
                                names.push(s.clone());
                            },
                            _ => {},
                        },
                        None => {},
                    }
                    i += 1;
                }
                proof {
                    assert(ga.take(a.len() as int) =~= ga);
                }
                (names, token)
            },
            _ => (names, token),
        },
        None => (names, token),
    }
}

} // verus!
