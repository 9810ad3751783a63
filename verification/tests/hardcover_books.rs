use chrono::NaiveDate;
use seer::hardcover::now_reading::{
    after_fetch, now_reading_from, ApiResponse, AuthorNode, BookNode, ContributionNode,
    CurrentlyReadingQuery, ImageNode as CoverNode, MeNode, NowReading, NowReadingError,
    ResponseData, UserBookNode,
};
use seer::hardcover::{
    assemble_books, bearer, books_from_response, books_reply, build_cache_key, status_from_str,
    total_pages, AggregateCount, AuthorEntry, BookEntry, BooksError, BooksResponse, Contribution,
    ImageEntry, MyBooksData, MyBooksMe, MyBooksQuery, RequestOpts, ResponsePagination,
    UserBookEntry, UserBooksAggregate,
};

fn contribution(name: Option<&str>) -> Contribution {
    Contribution { author: name.map(|n| AuthorEntry { name: n.to_string() }) }
}

fn entry(title: Option<&str>, authors: Vec<Option<&str>>, read_count: i64) -> UserBookEntry {
    UserBookEntry {
        book: BookEntry {
            title: title.map(|t| t.to_string()),
            image: Some(ImageEntry { url: Some("https://img/1.png".to_string()) }),
            contributions: authors.into_iter().map(contribution).collect(),
        },
        last_read_date: NaiveDate::from_ymd_opt(2024, 5, 17),
        read_count,
    }
}

fn data(count: Option<i64>, books: Vec<UserBookEntry>) -> MyBooksData {
    MyBooksData {
        me: vec![MyBooksMe {
            user_books_aggregate: UserBooksAggregate { aggregate: count.map(|c| AggregateCount { count: c }) },
            user_books: books,
        }],
    }
}

#[test]
fn shelves_have_fixed_ids() {
    assert_eq!(status_from_str("wanted"), Some(1));
    assert_eq!(status_from_str("current"), Some(2));
    assert_eq!(status_from_str("read"), Some(3));
    assert_eq!(status_from_str("paused"), Some(4));
    assert_eq!(status_from_str("dnf"), Some(5));
    assert_eq!(status_from_str("ignored"), Some(6));
    assert_eq!(status_from_str("Read"), None);
    assert_eq!(status_from_str(""), None);
}

#[test]
fn cache_key_names_shelf_size_and_page() {
    assert_eq!(build_cache_key("read", 10, 2), "hardcover_read_10_2");
    assert_ne!(build_cache_key("read", 1, 12), build_cache_key("read", 11, 2));
}

#[test]
fn page_defaults_to_one() {
    let opts = |page| RequestOpts { status: "read".to_string(), limit: 5, page };
    assert_eq!(opts(None).effective_page(), 1);
    assert_eq!(opts(Some(0)).effective_page(), 1);
    assert_eq!(opts(Some(4)).effective_page(), 4);
}

#[test]
fn plan_counts_offset_from_page_and_size() {
    let plan = MyBooksQuery::plan("paused", 10, 3).unwrap();
    assert_eq!(plan.page, 3);
    assert_eq!(plan.page_size, 10);
    assert_eq!(plan.variables.status_id, Some(4));
    assert_eq!(plan.variables.limit, Some(10));
    assert_eq!(plan.variables.offset, Some(20));
    let zero = MyBooksQuery::plan("read", 0, 1).unwrap();
    assert_eq!(zero.page_size, 1);
    assert_eq!(zero.variables.offset, Some(0));
    let huge = MyBooksQuery::plan("read", usize::MAX, 3).unwrap();
    assert_eq!(huge.variables.offset, Some(0));
}

#[test]
fn plan_refuses_unknown_shelf() {
    assert_eq!(MyBooksQuery::plan("finished", 10, 1), Err(BooksError::UnknownStatus("finished".to_string())));
}

#[test]
fn total_pages_rounds_up() {
    assert_eq!(total_pages(0, 10), 0);
    assert_eq!(total_pages(1, 10), 1);
    assert_eq!(total_pages(10, 10), 1);
    assert_eq!(total_pages(11, 10), 2);
    assert_eq!(total_pages(usize::MAX, 1), usize::MAX);
}

#[test]
fn books_are_read_from_the_answer() {
    let d = data(
        Some(42),
        vec![
            entry(Some("Dune"), vec![Some("Frank Herbert")], 2),
            entry(None, vec![], 0),
            entry(Some("Good Omens"), vec![None, Some("Terry Pratchett"), Some("Neil Gaiman")], 1),
        ],
    );
    let (total, books) = books_from_response(&d).unwrap();
    assert_eq!(total, 42);
    assert_eq!(books.len(), 3);
    assert_eq!(books[0].title, "Dune");
    assert_eq!(books[0].author, "Frank Herbert");
    assert_eq!(books[0].image, Some("https://img/1.png".to_string()));
    assert_eq!(books[0].last_read, NaiveDate::from_ymd_opt(2024, 5, 17));
    assert_eq!(books[0].times_read, 2);
    assert_eq!(books[1].title, "");
    assert_eq!(books[1].author, "Unknown author");
    assert_eq!(books[2].author, "Terry Pratchett (and 2 more)");
}

#[test]
fn read_count_is_truncated_to_u32() {
    let d = data(Some(1), vec![entry(Some("X"), vec![], (1i64 << 32) + 5)]);
    let (_, books) = books_from_response(&d).unwrap();
    assert_eq!(books[0].times_read, 5);
}

#[test]
fn missing_parts_of_the_answer_are_errors() {
    assert_eq!(books_from_response(&MyBooksData { me: vec![] }), Err(BooksError::MissingMe));
    assert_eq!(books_from_response(&data(None, vec![])), Err(BooksError::MissingAggregate));
    let plan = MyBooksQuery::plan("read", 10, 1).unwrap();
    assert_eq!(assemble_books(None, &plan), Err(BooksError::NoData));
}

#[test]
fn page_is_assembled_with_pagination() {
    let plan = MyBooksQuery::plan("read", 2, 2).unwrap();
    let page = assemble_books(Some(data(Some(5), vec![entry(Some("A"), vec![Some("B")], 1)])), &plan).unwrap();
    assert_eq!(page.pagination, ResponsePagination { current_page: 2, total_pages: 3 });
    assert_eq!(page.books.len(), 1);
    assert_eq!(page.books[0].author, "B");
}

#[test]
fn books_reply_quotes_the_error() {
    let ok = books_reply(Ok(BooksResponse {
        pagination: ResponsePagination { current_page: 1, total_pages: 0 },
        books: vec![],
    }));
    assert_eq!(ok.status, 200);
    assert_eq!(ok.message, "success");
    let e = books_reply(Err(BooksError::UnknownStatus("fin\"ished".to_string())));
    assert_eq!(e.status, 500);
    assert_eq!(e.message, "error while fetching previously_read state: UnknownStatus(\"fin\\\"ished\")");
    let e = books_reply(Err(BooksError::MissingAggregate));
    assert_eq!(e.message, "error while fetching previously_read state: MissingAggregate");
    assert_eq!(e.data, None);
}

#[test]
fn error_debug_text_matches_derived_debug() {
    for e in [
        BooksError::NoData,
        BooksError::MissingMe,
        BooksError::MissingAggregate,
        BooksError::UnknownStatus("a\nb".to_string()),
    ] {
        assert_eq!(e.debug_text(), format!("{:?}", e));
    }
    assert_eq!(BooksError::Reqwest("E".to_string()).debug_text(), "Reqwest(E)");
}

#[test]
fn bearer_header() {
    assert_eq!(bearer("k"), "Bearer k");
}

fn reading(me: Vec<MeNode>) -> ApiResponse {
    ApiResponse { data: ResponseData { me } }
}

fn book(title: &str, authors: &[&str]) -> UserBookNode {
    UserBookNode {
        book: BookNode {
            title: title.to_string(),
            contributions: authors
                .iter()
                .map(|a| ContributionNode { author: AuthorNode { name: a.to_string() } })
                .collect(),
            image: CoverNode { url: "https://img/2.png".to_string() },
        },
    }
}

#[test]
fn now_reading_is_the_first_book() {
    let r = now_reading_from(&reading(vec![MeNode {
        user_books: vec![book("Emma", &["Jane Austen", "Editor"]), book("Other", &[])],
    }]))
    .unwrap();
    assert_eq!(
        r,
        NowReading { title: "Emma".to_string(), author: "Jane Austen".to_string(), image: "https://img/2.png".to_string() }
    );
    let r = now_reading_from(&reading(vec![MeNode { user_books: vec![book("Anon", &[])] }])).unwrap();
    assert_eq!(r.author, "Unknown");
}

#[test]
fn now_reading_errors() {
    assert_eq!(now_reading_from(&reading(vec![])), Err(NowReadingError::MissingMe));
    assert_eq!(
        now_reading_from(&reading(vec![MeNode { user_books: vec![] }])),
        Err(NowReadingError::NotReading)
    );
}

#[test]
fn now_reading_replies() {
    let none = after_fetch(Err(NowReadingError::NotReading));
    assert_eq!(none.status, 200);
    assert_eq!(none.data, None);
    let e = after_fetch(Err(NowReadingError::MissingMe));
    assert_eq!(e.status, 500);
    assert_eq!(e.message, "error while fetching now_reading state: MissingMe");
    assert_eq!(CurrentlyReadingQuery::operation_name(), "CurrentlyReadingQuery");
}

#[test]
fn consecutive_pages_are_adjacent_windows() {
    let second = MyBooksQuery::plan("read", 7, 2).unwrap();
    let third = MyBooksQuery::plan("read", 7, 3).unwrap();
    assert_eq!(second.variables.offset, Some(7));
    assert_eq!(third.variables.offset, Some(14));
    assert_eq!(MyBooksQuery::plan("read", 7, 1).unwrap().variables.offset, Some(0));
    assert_eq!(MyBooksQuery::operation_name(), "MyBooksQuery");
}

#[test]
fn pages_cover_every_book_without_an_empty_last_page() {
    for total in 0..50usize {
        for size in 1..9usize {
            let pages = total_pages(total, size);
            assert!(pages * size >= total);
            assert!(pages * size < total + size);
        }
    }
}

#[test]
fn cache_keys_separate_pages_and_sizes() {
    let mut keys = std::collections::HashSet::new();
    for limit in 0..30usize {
        for page in 1..30usize {
            assert!(keys.insert(build_cache_key("read", limit, page)));
        }
    }
}
