//! The book being read right now, from Hardcover's currently-reading shelf.

use crate::resp::{error_with_detail, is_reply, ok, Reply, STATUS_INTERNAL_ERROR, STATUS_OK};
use vstd::prelude::*;
use vstd::string::StringExecFns;

verus! {

/// How long the book being read stays cached: three days, in seconds.
pub const NOW_READING_CACHE_TTL_SECS: u64 = 259200;

/// Key under which the book being read is cached.
pub const CACHE_KEY: &'static str = "hardcover_now_reading";

/// The GraphQL operation that reads the currently-reading shelf; it takes no
/// variables.
pub struct CurrentlyReadingQuery;

impl CurrentlyReadingQuery {
    /// The operation's name, as it is sent with the query.
    pub fn operation_name() -> (s: &'static str)
        ensures
            s@ == "CurrentlyReadingQuery"@,
    {
        "CurrentlyReadingQuery"
    }
}

/// The answer to `CurrentlyReadingQuery`.
pub struct ApiResponse {
    pub data: ResponseData,
}

/// The data of the answer.
pub struct ResponseData {
    pub me: Vec<MeNode>,
}

/// The signed-in user.
pub struct MeNode {
    pub user_books: Vec<UserBookNode>,
}

/// A book on the currently-reading shelf.
pub struct UserBookNode {
    pub book: BookNode,
}

/// A book as Hardcover describes it.
pub struct BookNode {
    pub title: String,
    pub contributions: Vec<ContributionNode>,
    pub image: ImageNode,
}

/// A contribution to a book.
pub struct ContributionNode {
    pub author: AuthorNode,
}

/// The author of a contribution.
pub struct AuthorNode {
    pub name: String,
}

/// A book's cover image.
pub struct ImageNode {
    pub url: String,
}

/// The book being read, as the service returns it.
#[derive(Debug, PartialEq, Eq)]
pub struct NowReading {
    pub title: String,
    pub author: String,
    pub image: String,
}

/// Why the book being read could not be had.
#[derive(Debug, PartialEq, Eq)]
pub enum NowReadingError {
    /// The answer named no user.
    MissingMe,
    /// No book is being read.
    NotReading,
    /// The request failed; the text is the `Debug` text of the HTTP error.
    Reqwest(String),
}

/// The `Debug` text of a `NowReadingError`, as `#[derive(Debug)]` writes it.
pub open spec fn now_reading_error_debug(e: NowReadingError) -> Seq<char> {
    match e {
        NowReadingError::MissingMe => "MissingMe"@,
        NowReadingError::NotReading => "NotReading"@,
        NowReadingError::Reqwest(d) => "Reqwest("@ + d@ + ")"@,
    }
}

impl NowReadingError {
    /// The `Debug` text of this error (the failure reply quotes it).
    pub fn debug_text(&self) -> (s: String)
        ensures
            s@ == now_reading_error_debug(*self),
    {
        match self {
            NowReadingError::MissingMe => String::from_str("MissingMe"),
            NowReadingError::NotReading => String::from_str("NotReading"),
            NowReadingError::Reqwest(d) => {
                let mut t = String::from_str("Reqwest(");
                t.append(d.as_str());
                t.append(")");
                t
            },
        }
    }
}

/// The author the service names for a book: the author of its first
/// contribution, or "Unknown" when it has none.
pub open spec fn first_author(cs: Seq<ContributionNode>) -> Seq<char> {
    if cs.len() == 0 {
        "Unknown"@
    } else {
        cs[0].author.name@
    }
}

/// The author reported for a book is the name of the author of its first
/// contribution whenever it has a contribution, and "Unknown" only when it
/// has none.
pub proof fn law_now_reading_author(cs: Seq<ContributionNode>)
    ensures
        cs.len() > 0 ==> first_author(cs) == cs[0].author.name@,
        cs.len() == 0 ==> first_author(cs) == "Unknown"@,
{
}

/// Reads the book being read out of the answer: the first book of the first
/// user, with its title, first author and cover. No user gives `MissingMe`;
/// an empty shelf gives `NotReading`.
pub fn now_reading_from(res: &ApiResponse) -> (r: Result<NowReading, NowReadingError>)
    ensures
        res.data.me@.len() == 0 ==> r == Err::<NowReading, NowReadingError>(NowReadingError::MissingMe),
        res.data.me@.len() > 0 && res.data.me@[0].user_books@.len() == 0 ==> r == Err::<
            NowReading,
            NowReadingError,
        >(NowReadingError::NotReading),
        res.data.me@.len() > 0 && res.data.me@[0].user_books@.len() > 0 ==> (r matches Ok(n) && {
            let book = res.data.me@[0].user_books@[0].book;
            &&& n.title@ == book.title@
            &&& n.author@ == first_author(book.contributions@)
            &&& n.image@ == book.image.url@
        }),
{
    let me = &res.data.me;
    if me.len() == 0 {
        return Err(NowReadingError::MissingMe);
    }
    let books = &me[0].user_books;
    if books.len() == 0 {
        return Err(NowReadingError::NotReading);
    }
    let book = &books[0].book;
    let author = if book.contributions.len() > 0 {
        book.contributions[0].author.name.clone()
    } else {
        String::from_str("Unknown")
    };
    Ok(NowReading { title: book.title.clone(), author, image: book.image.url.clone() })
}

/// The reply once the book being read has been fetched: the book; no reply
/// data when nothing is being read; otherwise a failure quoting the error.
pub fn after_fetch(fetched: Result<NowReading, NowReadingError>) -> (reply: Reply<NowReading>)
    ensures
        fetched matches Ok(n) ==> is_reply(reply, STATUS_OK, "success"@, Some(n)),
        fetched == Err::<NowReading, NowReadingError>(NowReadingError::NotReading) ==> is_reply(
            reply,
            STATUS_OK,
            "success"@,
            None,
        ),
        fetched matches Err(e) ==> (e != NowReadingError::NotReading ==> is_reply(
            reply,
            STATUS_INTERNAL_ERROR,
            "error while fetching now_reading state: "@ + now_reading_error_debug(e),
            None,
        )),
{
    match fetched {
        Ok(n) => ok("success", Some(n)),
        Err(NowReadingError::NotReading) => ok("success", None),
        Err(e) => {
            let d = e.debug_text();
            error_with_detail("error while fetching now_reading state: ", d.as_str())
        },
    }
}

} // verus!
