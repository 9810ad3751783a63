//! The reading list from Hardcover: which shelf a request names, how a page of
//! the list is asked for, how the GraphQL answer becomes the books the service
//! returns, and the reply.

pub mod now_reading;

use crate::outside::debug_quoted;
use crate::outside::debug_text_of;
use crate::resp::{error_with_detail, is_reply, ok, Reply, STATUS_INTERNAL_ERROR, STATUS_OK};
use crate::text::{decimal, decimal_spec, digits_value, join2, law_decimal_is_injective, law_decimal_reads_back, lemma_decimal_digits, same_text};
use vstd::prelude::*;
use vstd::string::StringExecFns;

verus! {

/// Name of the setting that holds the Hardcover API key.
pub const SECRET_KEY: &'static str = "HARDCOVER_KEY";

/// Where Hardcover's GraphQL API is served.
pub const HARDCOVER_GRAPHQL_ENDPOINT: &'static str = "https://api.hardcover.app/v1/graphql";

/// How long a page of the reading list stays cached: one day, in seconds.
pub const BOOKS_CACHE_TTL_SECS: u64 = 86400;

// ---------------------------------------------------------------------------
// Shelves

/// The Hardcover status id of a shelf name, if the name is one of the six
/// shelves: wanted 1, current 2, read 3, paused 4, dnf 5, ignored 6.
pub open spec fn status_id(s: Seq<char>) -> Option<usize> {
    if s == "wanted"@ {
        Some(1)
    } else if s == "current"@ {
        Some(2)
    } else if s == "read"@ {
        Some(3)
    } else if s == "paused"@ {
        Some(4)
    } else if s == "dnf"@ {
        Some(5)
    } else if s == "ignored"@ {
        Some(6)
    } else {
        None
    }
}

/// The status id of a shelf name; `None` for any other text.
pub fn status_from_str(s: &str) -> (r: Option<usize>)
    ensures
        r == status_id(s@),
{
    if same_text(s, "wanted") {
        Some(1)
    } else if same_text(s, "current") {
        Some(2)
    } else if same_text(s, "read") {
        Some(3)
    } else if same_text(s, "paused") {
        Some(4)
    } else if same_text(s, "dnf") {
        Some(5)
    } else if same_text(s, "ignored") {
        Some(6)
    } else {
        None
    }
}

/// Each known shelf has an id between 1 and 6, and no two shelf names share
/// an id.
pub proof fn law_status_ids_are_distinct(a: Seq<char>, b: Seq<char>)
    ensures
        status_id(a) matches Some(k) ==> 1 <= k <= 6,
        status_id(a) is Some && status_id(a) == status_id(b) ==> a == b,
{
}

/// The six shelves, in the order of their ids: the shelf named `names[k]`
/// has id `k + 1`, and a text that names none of them has no id.
pub proof fn law_status_table(s: Seq<char>)
    ensures
        ({
            let names = seq!["wanted"@, "current"@, "read"@, "paused"@, "dnf"@, "ignored"@];
            &&& (forall|k: int| 0 <= k < 6 ==> status_id(#[trigger] names[k]) == Some((k + 1) as usize))
            &&& (status_id(s) is None <==> !names.contains(s))
        }),
{
    reveal_strlit("wanted");
    reveal_strlit("current");
    reveal_strlit("read");
    reveal_strlit("paused");
    reveal_strlit("dnf");
    reveal_strlit("ignored");
    let names = seq!["wanted"@, "current"@, "read"@, "paused"@, "dnf"@, "ignored"@];
    assert(names[0] == "wanted"@ && names[1] == "current"@ && names[2] == "read"@);
    assert(names[3] == "paused"@ && names[4] == "dnf"@ && names[5] == "ignored"@);
    let w = "wanted"@;
    let c = "current"@;
    let r = "read"@;
    let p = "paused"@;
    let d = "dnf"@;
    let i = "ignored"@;
    assert(w.len() == 6 && c.len() == 7 && r.len() == 4 && p.len() == 6 && d.len() == 3 && i.len() == 7);
    assert(w[0] != p[0] && c[0] != i[0]);
    assert(c != w && r != w && p != w && d != w && i != w);
    assert(r != c && p != c && d != c && i != c);
    assert(p != r && d != r && i != r);
    assert(d != p && i != p && i != d);
    assert(status_id(w) == Some(1usize) && status_id(c) == Some(2usize) && status_id(r) == Some(
        3usize,
    ));
    assert(status_id(p) == Some(4usize) && status_id(d) == Some(5usize) && status_id(i) == Some(
        6usize,
    ));
    assert forall|k: int| 0 <= k < 6 implies status_id(#[trigger] names[k]) == Some((k + 1) as usize) by {
        assert(k == 0 || k == 1 || k == 2 || k == 3 || k == 4 || k == 5);
    }
    if names.contains(s) {
        let k = choose|k: int| 0 <= k < names.len() && names[k] == s;
        assert(status_id(names[k]) is Some);
    }
    if status_id(s) is Some {
        assert(names.contains(s)) by {
            if s == "wanted"@ {
                assert(names[0] == s);
            } else if s == "current"@ {
                assert(names[1] == s);
            } else if s == "read"@ {
                assert(names[2] == s);
            } else if s == "paused"@ {
                assert(names[3] == s);
            } else if s == "dnf"@ {
                assert(names[4] == s);
            } else {
                assert(names[5] == s);
            }
        }
    }
}

// ---------------------------------------------------------------------------
// Cache keys

/// The cache key of one page of one shelf:
/// `hardcover_{status}_{limit}_{page}`.
pub open spec fn books_cache_key(status: Seq<char>, limit: nat, page: nat) -> Seq<char> {
    "hardcover_"@ + status + "_"@ + decimal_spec(limit) + "_"@ + decimal_spec(page)
}

/// The cache key under which a page of a shelf is kept.
pub fn build_cache_key(status: &str, limit: usize, page: usize) -> (key: String)
    ensures
        key@ == books_cache_key(status@, limit as nat, page as nat),
{
    let mut key = join2("hardcover_", status);
    key.append("_");
    let l = decimal(limit as u64);
    key.append(l.as_str());
    key.append("_");
    let p = decimal(page as u64);
    key.append(p.as_str());
    key
}

/// Two pages of one shelf share a cache key only when they are the same page
/// of the same page size: cached pages never stand in for one another.
pub proof fn law_books_cache_keys_are_distinct(status: Seq<char>, l1: nat, p1: nat, l2: nat, p2: nat)
    requires
        books_cache_key(status, l1, p1) == books_cache_key(status, l2, p2),
    ensures
        l1 == l2,
        p1 == p2,
{
    reveal_strlit("_");
    let head = "hardcover_"@ + status + "_"@;
    let t1 = decimal_spec(l1) + "_"@ + decimal_spec(p1);
    let t2 = decimal_spec(l2) + "_"@ + decimal_spec(p2);
    assert(books_cache_key(status, l1, p1) =~= head + t1);
    assert(books_cache_key(status, l2, p2) =~= head + t2);
    assert(t1 =~= (head + t1).subrange(head.len() as int, (head + t1).len() as int));
    assert(t2 =~= (head + t2).subrange(head.len() as int, (head + t2).len() as int));
    assert(t1 == t2);
    lemma_decimal_digits(l1);
    lemma_decimal_digits(l2);
    let n1 = decimal_spec(l1).len();
    let n2 = decimal_spec(l2).len();
    if n1 < n2 {
        assert(t1[n1 as int] == '_');
        assert(t2[n1 as int] == decimal_spec(l2)[n1 as int]);
        assert(false);
    } else if n2 < n1 {
        assert(t2[n2 as int] == '_');
        assert(t1[n2 as int] == decimal_spec(l1)[n2 as int]);
        assert(false);
    }
    assert(decimal_spec(l1) =~= t1.subrange(0, n1 as int));
    assert(decimal_spec(l2) =~= t2.subrange(0, n2 as int));
    law_decimal_is_injective(l1, l2);
    assert(decimal_spec(p1) =~= t1.subrange(n1 + 1int, t1.len() as int));
    assert(decimal_spec(p2) =~= t2.subrange(n2 + 1int, t2.len() as int));
    law_decimal_is_injective(p1, p2);
}

/// A cache key names its shelf and its page: it is `hardcover_`, then the
/// shelf name itself, then `_`, then the digits of the page size, `_`, and
/// the digits of the page, which read back as those numbers.
pub proof fn law_books_cache_key_names_shelf_and_page(status: Seq<char>, limit: nat, page: nat)
    ensures
        ({
            let key = books_cache_key(status, limit, page);
            let dl = decimal_spec(limit);
            let dp = decimal_spec(page);
            &&& key.len() == 10 + status.len() + 1 + dl.len() + 1 + dp.len()
            &&& key.subrange(0, 10) == "hardcover_"@
            &&& key.subrange(10, 10int + status.len()) == status
            &&& key[10int + status.len()] == '_'
            &&& digits_value(key.subrange(11int + status.len(), 11int + status.len() + dl.len())) == limit
            &&& key[11int + status.len() + dl.len()] == '_'
            &&& digits_value(key.subrange(12int + status.len() + dl.len(), key.len() as int)) == page
        }),
{
    reveal_strlit("hardcover_");
    reveal_strlit("_");
    let key = books_cache_key(status, limit, page);
    let dl = decimal_spec(limit);
    let dp = decimal_spec(page);
    law_decimal_reads_back(limit);
    law_decimal_reads_back(page);
    assert(key =~= "hardcover_"@ + status + "_"@ + dl + "_"@ + dp);
    assert(key.subrange(0, 10) =~= "hardcover_"@);
    assert(key.subrange(10, 10int + status.len()) =~= status);
    assert(key.subrange(11int + status.len(), 11int + status.len() + dl.len()) =~= dl);
    assert(key.subrange(12int + status.len() + dl.len(), key.len() as int) =~= dp);
}

// ---------------------------------------------------------------------------
// Requests

/// The query of a reading-list request: the shelf, the page size, and the
/// page (counted from 1) if one was given.
pub struct RequestOpts {
    pub status: String,
    pub limit: usize,
    pub page: Option<usize>,
}

/// The page a request asks for: the given page, or 1, and never below 1.
pub open spec fn effective_page_spec(page: Option<usize>) -> usize {
    match page {
        Some(p) => if p < 1 { 1 } else { p },
        None => 1,
    }
}

impl RequestOpts {
    /// The page this request asks for (the given page, or 1, and at least 1).
    pub fn effective_page(&self) -> (p: usize)
        ensures
            p == effective_page_spec(self.page),
            p >= 1,
    {
        match self.page {
            Some(p) => if p < 1 { 1 } else { p },
            None => 1,
        }
    }
}

/// The page asked for and the page size used are never below 1, and a
/// request that gives a positive page or size has it used as it is.
pub proof fn law_page_and_size_are_positive(page: Option<usize>, limit: usize)
    ensures
        effective_page_spec(page) >= 1,
        page is None ==> effective_page_spec(page) == 1,
        page matches Some(p) ==> (p >= 1 ==> effective_page_spec(page) == p),
        page_size_spec(limit) >= 1,
        limit >= 1 ==> page_size_spec(limit) == limit,
{
}

/// The GraphQL operation that reads one page of a shelf.
pub struct MyBooksQuery;

/// The variables of `MyBooksQuery`.
#[derive(Debug, PartialEq, Eq)]
pub struct MyBooksVariables {
    pub status_id: Option<i64>,
    pub limit: Option<i64>,
    pub offset: Option<i64>,
}

/// What a page request turns into: the query's variables, and the page and
/// page size that the reply's pagination is counted in.
#[derive(Debug, PartialEq, Eq)]
pub struct BooksQueryPlan {
    pub variables: MyBooksVariables,
    pub page: usize,
    pub page_size: usize,
}

/// The page size actually used: the requested size, or 1 if it was 0.
pub open spec fn page_size_spec(limit: usize) -> usize {
    if limit < 1 { 1 } else { limit }
}

/// How many books precede the page: `(page - 1) * size`, or 0 if that does
/// not fit in a `usize`.
pub open spec fn offset_spec(page: usize, size: usize) -> usize {
    let o = (page - 1) * size;
    if o <= usize::MAX { o as usize } else { 0 }
}

/// Pages follow one another without gap or overlap: where the next page's
/// offset fits in a `usize`, it starts exactly `size` books after this one.
pub proof fn law_pages_are_consecutive(page: usize, size: usize)
    requires
        page >= 1,
        size >= 1,
        page < usize::MAX,
        page * size <= usize::MAX,
    ensures
        offset_spec((page + 1) as usize, size) == offset_spec(page, size) + size,
        offset_spec(1, size) == 0,
{
    assert((page - 1) * size + size == page * size) by (nonlinear_arith);
    assert((page - 1) * size <= page * size) by (nonlinear_arith)
        requires
            page >= 1,
            size >= 1,
    {
    }
}

impl MyBooksQuery {
    /// The operation's name, as it is sent with the query.
    pub fn operation_name() -> (s: &'static str)
        ensures
            s@ == "MyBooksQuery"@,
    {
        "MyBooksQuery"
    }

    /// Plans the request for page `page` of shelf `status` with `limit` books
    /// per page; an unknown shelf is refused with `UnknownStatus`.
    pub fn plan(status: &str, limit: usize, page: usize) -> (r: Result<BooksQueryPlan, BooksError>)
        requires
            page >= 1,
        ensures
            status_id(status@) is None <==> r is Err,
            r matches Err(e) ==> e matches BooksError::UnknownStatus(s) && s@ == status@,
            r matches Ok(plan) ==> {
                let size = page_size_spec(limit);
                &&& plan.page == page
                &&& plan.page_size == size
                &&& plan.variables.status_id == Some(status_id(status@).unwrap() as i64)
                &&& plan.variables.limit == Some(size as i64)
                &&& plan.variables.offset == Some(offset_spec(page, size) as i64)
            },
    {
        let id = match status_from_str(status) {
            Some(id) => id,
            None => {
                return Err(BooksError::UnknownStatus(String::from_str(status)));
            },
        };
        let size = if limit < 1 { 1 } else { limit };
        let offset = match (page - 1).checked_mul(size) {
            Some(o) => o,
            None => 0,
        };
        Ok(BooksQueryPlan {
            variables: MyBooksVariables {
                status_id: Some(id as i64),
                limit: Some(size as i64),
                offset: Some(offset as i64),
            },
            page,
            page_size: size,
        })
    }
}

/// The `Authorization` header value for an API key: `Bearer {key}`.
pub fn bearer(key: &str) -> (h: String)
    ensures
        h@ == "Bearer "@ + key@,
{
    join2("Bearer ", key)
}

// ---------------------------------------------------------------------------
// The GraphQL answer

/// The data of a `MyBooksQuery` answer.
pub struct MyBooksData {
    pub me: Vec<MyBooksMe>,
}

/// The signed-in user in a `MyBooksQuery` answer.
pub struct MyBooksMe {
    pub user_books_aggregate: UserBooksAggregate,
    pub user_books: Vec<UserBookEntry>,
}

/// The aggregate over the user's books on the shelf.
pub struct UserBooksAggregate {
    pub aggregate: Option<AggregateCount>,
}

/// The number of books on the shelf.
pub struct AggregateCount {
    pub count: i64,
}

/// One book on the user's shelf.
pub struct UserBookEntry {
    pub book: BookEntry,
    pub last_read_date: Option<chrono::NaiveDate>,
    pub read_count: i64,
}

/// A book as Hardcover describes it.
pub struct BookEntry {
    pub title: Option<String>,
    pub image: Option<ImageEntry>,
    pub contributions: Vec<Contribution>,
}

/// A book's cover image.
pub struct ImageEntry {
    pub url: Option<String>,
}

/// A contribution to a book, with its author if there is one.
pub struct Contribution {
    pub author: Option<AuthorEntry>,
}

/// An author of a book.
pub struct AuthorEntry {
    pub name: String,
}

// ---------------------------------------------------------------------------
// What the service returns

/// Where a page stands in the shelf.
#[derive(Debug, PartialEq, Eq)]
pub struct ResponsePagination {
    pub current_page: usize,
    pub total_pages: usize,
}

/// A book as the service returns it.
#[derive(Debug, PartialEq, Eq)]
pub struct DomainBook {
    pub title: String,
    pub author: String,
    pub image: Option<String>,
    pub last_read: Option<chrono::NaiveDate>,
    pub times_read: u32,
}

/// A page of a shelf as the service returns it.
#[derive(Debug, PartialEq, Eq)]
pub struct BooksResponse {
    pub pagination: ResponsePagination,
    pub books: Vec<DomainBook>,
}

/// Why a page of a shelf could not be had.
#[derive(Debug, PartialEq, Eq)]
pub enum BooksError {
    /// The answer held no data.
    NoData,
    /// The answer named no user.
    MissingMe,
    /// The answer held no aggregate over the shelf.
    MissingAggregate,
    /// The shelf name is not one of the six shelves.
    UnknownStatus(String),
    /// The request failed; the text is the `Debug` text of the HTTP error.
    Reqwest(String),
}

/// The `Debug` text of a `BooksError`, as `#[derive(Debug)]` writes it.
pub open spec fn books_error_debug(e: BooksError) -> Seq<char> {
    match e {
        BooksError::NoData => "NoData"@,
        BooksError::MissingMe => "MissingMe"@,
        BooksError::MissingAggregate => "MissingAggregate"@,
        BooksError::UnknownStatus(s) => "UnknownStatus("@ + debug_text_of(s@) + ")"@,
        BooksError::Reqwest(d) => "Reqwest("@ + d@ + ")"@,
    }
}

impl BooksError {
    /// The `Debug` text of this error (the failure replies quote it).
    pub fn debug_text(&self) -> (s: String)
        ensures
            s@ == books_error_debug(*self),
    {
        match self {
            BooksError::NoData => String::from_str("NoData"),
            BooksError::MissingMe => String::from_str("MissingMe"),
            BooksError::MissingAggregate => String::from_str("MissingAggregate"),
            BooksError::UnknownStatus(s) => {
                let mut t = String::from_str("UnknownStatus(");
                let q = debug_quoted(s.as_str());
                t.append(q.as_str());
                t.append(")");
                t
            },
            BooksError::Reqwest(d) => {
                let mut t = String::from_str("Reqwest(");
                t.append(d.as_str());
                t.append(")");
                t
            },
        }
    }
}

/// The names of a book's authors, in the order of its contributions;
/// contributions without an author are skipped.
pub open spec fn author_names(cs: Seq<Contribution>) -> Seq<Seq<char>>
    decreases cs.len(),
{
    if cs.len() == 0 {
        seq![]
    } else {
        let rest = author_names(cs.drop_last());
        match cs.last().author {
            Some(a) => rest.push(a.name@),
            None => rest,
        }
    }
}

/// How the service names a book's authors: "Unknown author" when there is
/// none, the name when there is one, and otherwise the first name followed by
/// " (and {n} more)", where `n` is the number of authors.
pub open spec fn author_label(names: Seq<Seq<char>>) -> Seq<char> {
    if names.len() == 0 {
        "Unknown author"@
    } else if names.len() == 1 {
        names[0]
    } else {
        names[0] + " (and "@ + decimal_spec(names.len()) + " more)"@
    }
}

proof fn lemma_no_author_no_names(cs: Seq<Contribution>)
    ensures
        (forall|j: int| 0 <= j < cs.len() ==> (#[trigger] cs[j]).author is None) <==> author_names(
            cs,
        ).len() == 0,
    decreases cs.len(),
{
    if cs.len() > 0 {
        lemma_no_author_no_names(cs.drop_last());
        if author_names(cs).len() == 0 {
            assert forall|j: int| 0 <= j < cs.len() implies (#[trigger] cs[j]).author is None by {
                if j < cs.len() - 1 {
                    assert(cs.drop_last()[j] == cs[j]);
                }
            }
        }
        if forall|j: int| 0 <= j < cs.len() ==> (#[trigger] cs[j]).author is None {
            assert forall|j: int| 0 <= j < cs.drop_last().len() implies (
            #[trigger] cs.drop_last()[j]).author is None by {
                assert(cs.drop_last()[j] == cs[j]);
            }
            assert(cs[cs.len() - 1].author is None);
        }
    }
}

proof fn lemma_first_name(cs: Seq<Contribution>, k: int)
    requires
        0 <= k < cs.len(),
        cs[k].author is Some,
        forall|j: int| 0 <= j < k ==> (#[trigger] cs[j]).author is None,
    ensures
        author_names(cs).len() >= 1,
        author_names(cs)[0] == cs[k].author.unwrap().name@,
    decreases cs.len(),
{
    let rest = cs.drop_last();
    if cs.len() == k + 1 {
        assert forall|j: int| 0 <= j < rest.len() implies (#[trigger] rest[j]).author is None by {
            assert(rest[j] == cs[j]);
        }
        lemma_no_author_no_names(rest);
        assert(cs.last() == cs[k]);
    } else {
        assert forall|j: int| 0 <= j < k implies (#[trigger] rest[j]).author is None by {
            assert(rest[j] == cs[j]);
        }
        assert(rest[k] == cs[k]);
        lemma_first_name(rest, k);
    }
}

proof fn lemma_names_count_authors(cs: Seq<Contribution>)
    ensures
        author_names(cs).len() == cs.filter(|c: Contribution| c.author is Some).len(),
    decreases cs.len(),
{
    reveal_with_fuel(Seq::filter, 1);
    if cs.len() > 0 {
        lemma_names_count_authors(cs.drop_last());
    }
}

/// How a book's authors are named, in terms of its contributions: with no
/// author anywhere it is "Unknown author" (and only then is the author list
/// empty); otherwise the label begins with the name of the first contribution
/// that has an author, and with two or more authors it is that name followed
/// by " (and {n} more)", `n` being the number of contributions with an
/// author.
pub proof fn law_author_label(cs: Seq<Contribution>)
    ensures
        (forall|j: int| 0 <= j < cs.len() ==> (#[trigger] cs[j]).author is None) ==> author_label(
            author_names(cs),
        ) == "Unknown author"@,
        forall|k: int|
            #![trigger cs[k]]
            0 <= k < cs.len() && cs[k].author is Some && (forall|j: int|
                0 <= j < k ==> (#[trigger] cs[j]).author is None) ==> {
                let first = cs[k].author.unwrap().name@;
                let label = author_label(author_names(cs));
                let n = cs.filter(|c: Contribution| c.author is Some).len();
                &&& n >= 1
                &&& first.len() <= label.len()
                &&& label.subrange(0, first.len() as int) == first
                &&& n == 1 ==> label == first
                &&& n >= 2 ==> label == first + " (and "@ + decimal_spec(n) + " more)"@
            },
{
    lemma_no_author_no_names(cs);
    lemma_names_count_authors(cs);
    assert forall|k: int|
        #![trigger cs[k]]
        0 <= k < cs.len() && cs[k].author is Some && (forall|j: int|
            0 <= j < k ==> (#[trigger] cs[j]).author is None) implies {
        let first = cs[k].author.unwrap().name@;
        let label = author_label(author_names(cs));
        let n = cs.filter(|c: Contribution| c.author is Some).len();
        &&& n >= 1
        &&& first.len() <= label.len()
        &&& label.subrange(0, first.len() as int) == first
        &&& n == 1 ==> label == first
        &&& n >= 2 ==> label == first + " (and "@ + decimal_spec(n) + " more)"@
    } by {
        lemma_first_name(cs, k);
        let first = cs[k].author.unwrap().name@;
        let names = author_names(cs);
        if names.len() >= 2 {
            let label = first + " (and "@ + decimal_spec(names.len()) + " more)"@;
            assert(label.subrange(0, first.len() as int) =~= first);
        } else {
            assert(names[0].subrange(0, first.len() as int) =~= first);
        }
    }
}

/// The view of an optional string.
pub open spec fn opt_text(o: Option<String>) -> Option<Seq<char>> {
    match o {
        Some(s) => Some(s@),
        None => None,
    }
}

/// The title of a book: its title, or the empty text if it has none.
pub open spec fn title_text(t: Option<String>) -> Seq<char> {
    match t {
        Some(s) => s@,
        None => Seq::empty(),
    }
}

/// The cover of a book: the URL of its image, if it has an image with a URL.
pub open spec fn cover_url(i: Option<ImageEntry>) -> Option<Seq<char>> {
    match i {
        Some(img) => opt_text(img.url),
        None => None,
    }
}

/// `b` is the book that the service makes of shelf entry `e`.
pub open spec fn book_of_entry(b: DomainBook, e: UserBookEntry) -> bool {
    &&& b.title@ == title_text(e.book.title)
    &&& b.author@ == author_label(author_names(e.book.contributions@))
    &&& opt_text(b.image) == cover_url(e.book.image)
    &&& b.last_read == e.last_read_date
    &&& b.times_read == e.read_count as u32
}

/// What each field of a returned book is made of: the entry's title (empty
/// when it has none), the URL of its cover when it has a cover with a URL
/// (none otherwise), its last-read date, and its read count cut to 32 bits.
pub proof fn law_book_fields(b: DomainBook, e: UserBookEntry)
    requires
        book_of_entry(b, e),
    ensures
        e.book.title matches Some(t) ==> b.title@ == t@,
        e.book.title is None ==> b.title@.len() == 0,
        e.book.image matches Some(img) ==> (img.url matches Some(u) ==> (b.image matches Some(bi)
            && bi@ == u@)),
        e.book.image matches Some(img) ==> (img.url is None ==> b.image is None),
        e.book.image is None ==> b.image is None,
        b.last_read == e.last_read_date,
        b.times_read as int == e.read_count as u32 as int,
{
}

fn copy_text(s: &Option<String>) -> (r: Option<String>)
    ensures
        opt_text(r) == opt_text(*s),
{
    match s {
        Some(t) => Some(t.clone()),
        None => None,
    }
}

fn author_of(cs: &Vec<Contribution>) -> (s: String)
    ensures
        s@ == author_label(author_names(cs@)),
{
    let mut count: usize = 0;
    let mut first = String::new();
    let n = cs.len();
    for j in 0..n
        invariant
            n == cs@.len(),
            count == author_names(cs@.take(j as int)).len(),
            count <= j,
            count > 0 ==> first@ == author_names(cs@.take(j as int))[0],
    {
        proof {
            assert(cs@.take(j + 1).drop_last() =~= cs@.take(j as int));
            assert(cs@.take(j + 1).last() == cs@[j as int]);
        }
        match &cs[j].author {
            Some(a) => {
                if count == 0 {
                    first = a.name.clone();
                }
                count = count + 1;
            },
            None => {},
        }
    }
    proof {
        assert(cs@.take(n as int) =~= cs@);
    }
    if count == 0 {
        String::from_str("Unknown author")
    } else if count == 1 {
        first
    } else {
        let mut s = first;
        s.append(" (and ");
        let d = decimal(count as u64);
        s.append(d.as_str());
        s.append(" more)");
        s
    }
}

fn book_from_entry(e: &UserBookEntry) -> (b: DomainBook)
    ensures
        book_of_entry(b, *e),
{
    let title = match &e.book.title {
        Some(t) => t.clone(),
        None => String::new(),
    };
    let image = match &e.book.image {
        Some(img) => copy_text(&img.url),
        None => None,
    };
    DomainBook {
        title,
        author: author_of(&e.book.contributions),
        image,
        last_read: e.last_read_date,
        times_read: e.read_count as u32,
    }
}

/// Turns the data of a `MyBooksQuery` answer into the shelf's size and its
/// books, in the answer's order: the size is the aggregate count of the first
/// user, the books are that user's entries. No user gives `MissingMe`; no
/// aggregate gives `MissingAggregate`.
pub fn books_from_response(data: &MyBooksData) -> (r: Result<(usize, Vec<DomainBook>), BooksError>)
    ensures
        data.me@.len() == 0 ==> r == Err::<(usize, Vec<DomainBook>), BooksError>(BooksError::MissingMe),
        data.me@.len() > 0 && data.me@[0].user_books_aggregate.aggregate is None ==> r == Err::<
            (usize, Vec<DomainBook>),
            BooksError,
        >(BooksError::MissingAggregate),
        data.me@.len() > 0 && data.me@[0].user_books_aggregate.aggregate is Some ==> (r matches Ok(res) && {
            let me = data.me@[0];
            &&& res.0 == me.user_books_aggregate.aggregate.unwrap().count as usize
            &&& res.1@.len() == me.user_books@.len()
            &&& forall|i: int|
                0 <= i < res.1@.len() ==> book_of_entry(#[trigger] res.1@[i], me.user_books@[i])
        }),
{
    if data.me.len() == 0 {
        return Err(BooksError::MissingMe);
    }
    let me = &data.me[0];
    let total = match &me.user_books_aggregate.aggregate {
        Some(a) => a.count as usize,
        None => {
            return Err(BooksError::MissingAggregate);
        },
    };
    let entries = &me.user_books;
    let mut books: Vec<DomainBook> = Vec::new();
    let n = entries.len();
    for i in 0..n
        invariant
            n == entries@.len(),
            books@.len() == i,
            forall|k: int| 0 <= k < i ==> book_of_entry(#[trigger] books@[k], entries@[k]),
    {
        let b = book_from_entry(&entries[i]);
        books.push(b);
    }
    Ok((total, books))
}

// ---------------------------------------------------------------------------
// Pagination and the page

/// The number of pages of `size` books that hold `total` books: `total`
/// divided by `size`, rounded up.
pub open spec fn total_pages_spec(total: nat, size: nat) -> int {
    (total + size - 1) / size as int
}

/// How many pages of `size` books it takes to hold `total` books.
pub fn total_pages(total: usize, size: usize) -> (r: usize)
    requires
        size >= 1,
    ensures
        r == total_pages_spec(total as nat, size as nat),
{
    let q = total / size;
    let m = total % size;
    proof {
        assert(total == q * size + m && 0 <= m < size) by (nonlinear_arith)
            requires
                q == total / size,
                m == total % size,
                size >= 1,
        {
        }
        assert(m != 0 ==> q + 1 <= total) by (nonlinear_arith)
            requires
                total == q * size + m,
                0 <= m < size,
                size >= 1,
                q >= 0,
        {
        }
        assert((total + size - 1) / (size as int) == q + (if m == 0 { 0int } else { 1int })) by (nonlinear_arith)
            requires
                total == q * size + m,
                0 <= m < size,
                size >= 1,
                q >= 0,
        {
            let t = total + size - 1;
            if m == 0 {
                assert(t == q * size + (size - 1));
            } else {
                assert(t == (q + 1) * size + (m - 1));
            }
        }
    }
    if m == 0 {
        q
    } else {
        q + 1
    }
}

/// The pages of a shelf hold all its books and end with a page that is not
/// empty: `pages * size` reaches `total` and falls short of `total + size`.
pub proof fn law_pages_cover_the_shelf(total: nat, size: nat)
    requires
        size >= 1,
    ensures
        total_pages_spec(total, size) * size >= total,
        total_pages_spec(total, size) * size < total + size,
        total_pages_spec(total, size) >= 0,
{
    let p = total_pages_spec(total, size);
    let t = total + size - 1;
    assert(p * size <= t && t < p * size + size && p >= 0) by (nonlinear_arith)
        requires
            p == t / (size as int),
            size >= 1,
            t >= 0,
    {
    }
}

/// Builds the page of the shelf from the answer's data (`None` when the answer
/// held none, which gives `NoData`) and the plan it was asked with.
pub fn assemble_books(data: Option<MyBooksData>, plan: &BooksQueryPlan) -> (r: Result<BooksResponse, BooksError>)
    requires
        plan.page_size >= 1,
    ensures
        data is None ==> r == Err::<BooksResponse, BooksError>(BooksError::NoData),
        data matches Some(d) ==> match books_from_response_spec(d) {
            Err(e) => r == Err::<BooksResponse, BooksError>(e),
            Ok((total, entries)) => (r matches Ok(page) && {
                &&& page.pagination.current_page == plan.page
                &&& page.pagination.total_pages == total_pages_spec(total as nat, plan.page_size as nat)
                &&& page.books@.len() == entries.len()
                &&& forall|i: int|
                    0 <= i < page.books@.len() ==> book_of_entry(#[trigger] page.books@[i], entries[i])
            }),
        },
{
    match data {
        None => Err(BooksError::NoData),
        Some(d) => {
            match books_from_response(&d) {
                Err(e) => Err(e),
                Ok((total, books)) => {
                    let pages = total_pages(total, plan.page_size);
                    Ok(BooksResponse {
                        pagination: ResponsePagination { current_page: plan.page, total_pages: pages },
                        books,
                    })
                },
            }
        },
    }
}

/// The outcome `books_from_response` is bound to: the error it gives, or the
/// shelf's size and the entries its books are made of.
pub open spec fn books_from_response_spec(d: MyBooksData) -> Result<(usize, Seq<UserBookEntry>), BooksError> {
    if d.me@.len() == 0 {
        Err(BooksError::MissingMe)
    } else {
        match d.me@[0].user_books_aggregate.aggregate {
            None => Err(BooksError::MissingAggregate),
            Some(a) => Ok((a.count as usize, d.me@[0].user_books@)),
        }
    }
}

/// The reply to a reading-list request: the page, or a failure that quotes
/// the error's `Debug` text.
pub fn books_reply(r: Result<BooksResponse, BooksError>) -> (reply: Reply<BooksResponse>)
    ensures
        r matches Ok(page) ==> is_reply(reply, STATUS_OK, "success"@, Some(page)),
        r matches Err(e) ==> is_reply(
            reply,
            STATUS_INTERNAL_ERROR,
            "error while fetching previously_read state: "@ + books_error_debug(e),
            None,
        ),
{
    match r {
        Ok(page) => ok("success", Some(page)),
        Err(e) => {
            let d = e.debug_text();
            error_with_detail("error while fetching previously_read state: ", d.as_str())
        },
    }
}

} // verus!
