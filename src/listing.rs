use vstd::prelude::*;

use crate::config::{opt_view, BackendKind};
use crate::errors::{error_message, error_text};
use crate::path::{parse_object_path, split_path};

verus! {

/// An object found by a listing: its full name `"<bucket>/<key>"` and its
/// size in bytes.
pub struct ObjectEntry {
    pub name: String,
    pub size: i64,
}

/// An object as one page of a listing reports it.
pub struct ListedObject {
    pub key: String,
    pub size: i64,
}

/// One page of a listing: its objects, and the token that continues the
/// listing, absent on the last page.
pub struct ListPage {
    pub objects: Vec<ListedObject>,
    pub next_token: Option<String>,
}

/// A request for one page.
pub struct PageRequest {
    pub bucket: String,
    pub prefix: String,
    pub token: Option<String>,
    pub requester_pays: bool,
}

/// A page as pairs of key and size, with its continuation token.
pub struct PageModel {
    pub objects: Seq<(Seq<char>, i64)>,
    pub next: Option<Seq<char>>,
}

/// The state of a listing.
pub struct ListingModel {
    pub bucket: Seq<char>,
    pub prefix: Seq<char>,
    pub requester_pays: bool,
    pub token: Option<Seq<char>>,
    pub entries: Seq<(Seq<char>, i64)>,
    pub finished: bool,
}

pub open spec fn page_model(p: ListPage) -> PageModel {
    PageModel {
        objects: p.objects@.map_values(|o: ListedObject| (o.key@, o.size)),
        next: opt_view(p.next_token),
    }
}

/// The entries that a page contributes: each key named under its bucket.
pub open spec fn page_entries(bucket: Seq<char>, objects: Seq<(Seq<char>, i64)>) -> Seq<
    (Seq<char>, i64),
> {
    objects.map_values(|o: (Seq<char>, i64)| (bucket + seq!['/'] + o.0, o.1))
}

/// The listing after a page arrived (`Some`) or its request failed
/// (`None`): a page adds its entries and hands on its token, and the
/// listing ends on a page without token or on a failure.
pub open spec fn after_page(m: ListingModel, page: Option<PageModel>) -> ListingModel {
    match page {
        None => ListingModel { finished: true, ..m },
        Some(p) => ListingModel {
            entries: m.entries + page_entries(m.bucket, p.objects),
            token: p.next,
            finished: p.next is None,
            ..m
        },
    }
}

/// The listing after a sequence of page results, in order.
pub open spec fn after_pages(m: ListingModel, pages: Seq<Option<PageModel>>) -> ListingModel
    decreases pages.len(),
{
    if pages.len() == 0 {
        m
    } else {
        after_page(after_pages(m, pages.drop_last()), pages.last())
    }
}

/// The entries of a sequence of pages, page after page.
pub open spec fn all_entries(bucket: Seq<char>, pages: Seq<PageModel>) -> Seq<(Seq<char>, i64)>
    decreases pages.len(),
{
    if pages.len() == 0 {
        Seq::empty()
    } else {
        all_entries(bucket, pages.drop_last()) + page_entries(bucket, pages.last().objects)
    }
}

/// A paginated listing of the objects under a prefix.
pub struct Listing {
    bucket: String,
    prefix: String,
    requester_pays: bool,
    token: Option<String>,
    entries: Vec<ObjectEntry>,
    finished: bool,
}

impl Listing {
    pub closed spec fn model(&self) -> ListingModel {
        ListingModel {
            bucket: self.bucket@,
            prefix: self.prefix@,
            requester_pays: self.requester_pays,
            token: opt_view(self.token),
            entries: self.entries@.map_values(|e: ObjectEntry| (e.name@, e.size)),
            finished: self.finished,
        }
    }

    /// Starts listing the objects under `path` (`"<bucket>/<prefix>"`). A
    /// path without `/` lists nothing.
    pub fn start(path: &str, requester_pays: bool) -> (r: Listing)
        ensures
            r.model().entries.len() == 0,
            r.model().token is None,
            r.model().requester_pays == requester_pays,
            split_path(path@) is None ==> r.model().finished,
            split_path(path@) matches Some((bucket, prefix)) ==> !r.model().finished
                && r.model().bucket == bucket && r.model().prefix == prefix,
    {
        match parse_object_path(path) {
            None => Listing {
                bucket: String::new(),
                prefix: String::new(),
                requester_pays,
                token: None,
                entries: Vec::new(),
                finished: true,
            },
            Some(t) => Listing {
                bucket: t.container,
                prefix: t.key,
                requester_pays,
                token: None,
                entries: Vec::new(),
                finished: false,
            },
        }
    }

    /// Whether the listing has ended.
    pub fn is_finished(&self) -> (r: bool)
        ensures
            r == self.model().finished,
    {
        self.finished
    }

    /// The request for the next page, none once the listing has ended.
    pub fn next_request(&self) -> (r: Option<PageRequest>)
        ensures
            r is None <==> self.model().finished,
            r matches Some(q) ==> q.bucket@ == self.model().bucket && q.prefix@
                == self.model().prefix && opt_view(q.token) == self.model().token
                && q.requester_pays == self.model().requester_pays,
    {
        if self.finished {
            None
        } else {
            Some(
                PageRequest {
                    bucket: self.bucket.clone(),
                    prefix: self.prefix.clone(),
                    token: crate::config::copy_text(&self.token),
                    requester_pays: self.requester_pays,
                },
            )
        }
    }

    /// Takes in the result of the last page request: the page, or `None`
    /// when the request failed.
    pub fn accept_page(&mut self, page: Option<ListPage>)
        requires
            !old(self).model().finished,
        ensures
            final(self).model() == after_page(
                old(self).model(),
                match page {
                    Some(p) => Some(page_model(p)),
                    None => None,
                },
            ),
    {
        match page {
            None => {
                self.finished = true;
                assert(self.model().entries =~= old(self).model().entries);
            },
            Some(p) => {
                let ghost pm = page_model(p);
                let ListPage { objects, next_token } = p;
                let mut i: usize = 0;
                while i < objects.len()
                    invariant
                        i <= objects@.len(),
                        self.bucket == old(self).bucket,
                        self.prefix == old(self).prefix,
                        self.token == old(self).token,
                        self.requester_pays == old(self).requester_pays,
                        self.finished == old(self).finished,
                        pm.objects == objects@.map_values(|o: ListedObject| (o.key@, o.size)),
                        self.model().entries == old(self).model().entries + page_entries(
                            self.bucket@,
                            pm.objects.subrange(0, i as int),
                        ),
                    decreases objects@.len() - i,
                {
                    let ghost before = self.model().entries;
                    let name = self.bucket.clone().concat("/").concat(objects[i].key.as_str());
                    proof {
                        reveal_strlit("/");
                        assert("/"@ =~= seq!['/']);
                    }
                    assert(name@ == self.bucket@ + seq!['/'] + objects@[i as int].key@);
                    self.entries.push(ObjectEntry { name, size: objects[i].size });
                    i += 1;
                    assert(page_entries(self.bucket@, pm.objects.subrange(0, i as int))
                        =~= page_entries(self.bucket@, pm.objects.subrange(0, i - 1)).push(
                        (self.bucket@ + seq!['/'] + objects@[i - 1].key@, objects@[i - 1].size),
                    ));
                    assert(self.model().entries =~= before.push(
                        (self.bucket@ + seq!['/'] + objects@[i - 1].key@, objects@[i - 1].size),
                    ));
                }
                assert(pm.objects.subrange(0, objects@.len() as int) =~= pm.objects);
                self.finished = next_token.is_none();
                self.token = next_token;
            },
        }
    }

    /// The entries gathered so far, in the order of the pages.
    pub fn into_entries(self) -> (r: Vec<ObjectEntry>)
        ensures
            r@.map_values(|e: ObjectEntry| (e.name@, e.size)) == self.model().entries,
    {
        self.entries
    }
}

/// Pages that all arrived.
pub open spec fn as_results(pages: Seq<PageModel>) -> Seq<Option<PageModel>> {
    pages.map_values(|p: PageModel| Some(p))
}

proof fn lemma_pages_prefix(m: ListingModel, pages: Seq<PageModel>, k: int)
    requires
        !m.finished,
        m.token is None,
        0 <= k <= pages.len(),
        forall|i: int| 0 <= i < pages.len() - 1 ==> #[trigger] pages[i].next is Some,
    ensures
        ({
            let s = after_pages(m, as_results(pages.take(k)));
            &&& s.entries == m.entries + all_entries(m.bucket, pages.take(k))
            &&& s.bucket == m.bucket
            &&& s.prefix == m.prefix
            &&& s.requester_pays == m.requester_pays
            &&& k == 0 ==> s.token is None && !s.finished
            &&& k > 0 ==> s.token == pages[k - 1].next && s.finished == (pages[k - 1].next is None)
        }),
    decreases k,
{
    let events = as_results(pages.take(k));
    if k == 0 {
        assert(events =~= Seq::<Option<PageModel>>::empty());
        assert(pages.take(0) =~= Seq::<PageModel>::empty());
        assert(m.entries + Seq::<(Seq<char>, i64)>::empty() =~= m.entries);
    } else {
        lemma_pages_prefix(m, pages, k - 1);
        assert(events.drop_last() =~= as_results(pages.take(k - 1)));
        assert(pages.take(k).drop_last() =~= pages.take(k - 1));
        let prev = after_pages(m, as_results(pages.take(k - 1)));
        if k > 1 {
            assert(pages[k - 2].next is Some);
        }
        assert(!prev.finished);
        assert(prev.entries + page_entries(m.bucket, pages[k - 1].objects) =~= m.entries
            + all_entries(m.bucket, pages.take(k)));
    }
}

/// A listing that starts at the first page and receives pages that all
/// carry a continuation token but the last ends with the entries of all
/// pages, page after page and in each page's order; and every page but the
/// first is requested with the token of the page before it.
pub proof fn law_pages_flatten_in_order(m: ListingModel, pages: Seq<PageModel>)
    requires
        !m.finished,
        m.token is None,
        m.entries.len() == 0,
        pages.len() > 0,
        forall|i: int| 0 <= i < pages.len() - 1 ==> #[trigger] pages[i].next is Some,
        pages.last().next is None,
    ensures
        ({
            let s = after_pages(m, as_results(pages));
            &&& s.finished
            &&& s.entries == all_entries(m.bucket, pages)
        }),
        forall|k: int|
            0 < k < pages.len() ==> {
                let s = #[trigger] after_pages(
                    m,
                    as_results(pages.take(k)),
                );
                &&& !s.finished
                &&& s.token == pages[k - 1].next
            },
{
    lemma_pages_prefix(m, pages, pages.len() as int);
    assert(pages.take(pages.len() as int) =~= pages);
    assert(m.entries + all_entries(m.bucket, pages) =~= all_entries(m.bucket, pages));
    assert forall|k: int| 0 < k < pages.len() implies {
        let s = #[trigger] after_pages(m, as_results(pages.take(k)));
        &&& !s.finished
        &&& s.token == pages[k - 1].next
    } by {
        lemma_pages_prefix(m, pages, k);
        assert(pages[k - 1].next is Some);
    }
}

/// The result of an object lookup: the size, or the error message.
pub fn info_outcome(response: Result<i64, String>) -> (r: Result<i64, String>)
    ensures
        response matches Ok(n) ==> r == Ok::<i64, String>(n),
        response matches Err(e) ==> (r matches Err(m) && m@ == error_text(BackendKind::S3, e@)),
{
    match response {
        Ok(n) => Ok(n),
        Err(e) => Err(error_message(BackendKind::S3, e.as_str())),
    }
}

} // verus!
