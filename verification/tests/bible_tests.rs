use pasaka::bible::{BibleData, BibleRoot, Book, Chapter, SearchQuery, SearchResult, Verse};

fn verse(no: &str, text: &str) -> Verse {
    Verse { verse: no.to_string(), text: text.to_string() }
}

fn sample_bible() -> BibleData {
    BibleData::new(vec![
        Book {
            id: "1".to_string(),
            name: "Mwanzo".to_string(),
            chapters: vec![
                Chapter {
                    chapter: "1".to_string(),
                    verses: vec![
                        verse("1", "Hapo mwanzo Mungu aliziumba mbingu na nchi."),
                        verse("2", "Nchi ilikuwa ukiwa, tena utupu."),
                    ],
                },
                Chapter {
                    chapter: "2".to_string(),
                    verses: vec![verse("1", "Mbingu na nchi zikamalizika.")],
                },
            ],
        },
        Book {
            id: "2".to_string(),
            name: "Kutoka".to_string(),
            chapters: vec![Chapter {
                chapter: "1".to_string(),
                verses: vec![verse("1", "Haya ndiyo majina ya wana wa Israeli.")],
            }],
        },
    ])
}

#[test]
fn books_response_lists_all_in_order() {
    let bible = sample_bible();
    let r = bible.books_response();
    assert!(r.success);
    assert_eq!(r.data.len(), 2);
    assert_eq!(r.data[0].name, "Mwanzo");
    assert_eq!(r.data[1].name, "Kutoka");
}

#[test]
fn get_book_finds_by_id() {
    let bible = sample_bible();
    let b = bible.get_book("2").expect("book 2 is present");
    assert_eq!(b.name, "Kutoka");
    assert!(bible.get_book("9999").is_none());
}

#[test]
fn get_books_returns_every_book() {
    let bible = sample_bible();
    let books = bible.get_books();
    assert_eq!(books.len(), 2);
    assert_eq!(books[0].id, "1");
    assert_eq!(books[1].id, "2");
}

#[test]
fn get_chapter_finds_by_numbers() {
    let bible = sample_bible();
    let c = bible.get_chapter("1", "2").expect("chapter 1/2 is present");
    assert_eq!(c.chapter, "2");
    assert_eq!(c.verses.len(), 1);
    assert!(bible.get_chapter("1", "3").is_none());
    assert!(bible.get_chapter("9999", "1").is_none());
}

#[test]
fn get_verse_returns_the_exact_verse() {
    let bible = sample_bible();
    let v = bible.get_verse("1", "1", "2").expect("verse 1/1/2 is present");
    assert_eq!(v.verse, "2");
    assert_eq!(v.text, "Nchi ilikuwa ukiwa, tena utupu.");
    assert!(bible.get_verse("1", "1", "3").is_none());
    assert!(bible.get_verse("1", "9", "1").is_none());
    assert!(bible.get_verse("7", "1", "1").is_none());
}

#[test]
fn book_response_reports_missing_book() {
    let bible = sample_bible();
    let r = bible.book_response("9999").expect_err("book 9999 is absent");
    assert_eq!(r.status, 404);
    assert!(!r.body.success);
    assert_eq!(r.body.error, "Book '9999' not found");
}

#[test]
fn book_response_carries_the_book() {
    let bible = sample_bible();
    let r = bible.book_response("1").expect("book 1 is present");
    assert!(r.success);
    assert_eq!(r.data.name, "Mwanzo");
    assert_eq!(r.data.chapters.len(), 2);
}

#[test]
fn chapter_response_reports_innermost_missing_level() {
    let bible = sample_bible();
    let missing_book = bible.chapter_response("9999", "1").expect_err("book absent");
    assert_eq!(missing_book.body.error, "Book '9999' not found");
    let missing_chapter = bible.chapter_response("2", "5").expect_err("chapter absent");
    assert_eq!(missing_chapter.status, 404);
    assert_eq!(missing_chapter.body.error, "Chapter 5 not found in book '2'");
    let found = bible.chapter_response("2", "1").expect("chapter present");
    assert!(found.success);
    assert_eq!(found.data.chapter, "1");
}

#[test]
fn verse_response_reports_innermost_missing_level() {
    let bible = sample_bible();
    let missing_verse = bible.verse_response("1", "2", "9").expect_err("verse absent");
    assert_eq!(missing_verse.status, 404);
    assert_eq!(
        missing_verse.body.error,
        "Verse 9 not found in chapter 2 of book '1'"
    );
    let found = bible.verse_response("1", "1", "1").expect("verse present");
    assert!(found.success);
    assert_eq!(found.data.verse, "1");
    assert_eq!(found.data.text, "Hapo mwanzo Mungu aliziumba mbingu na nchi.");
}

fn hit_tuple(h: &SearchResult) -> (String, String, String, String) {
    (h.book.clone(), h.chapter.clone(), h.verse.clone(), h.text.clone())
}

#[test]
fn search_is_case_insensitive_substring() {
    let bible = sample_bible();
    let hits = bible.search("MUNGU");
    assert_eq!(hits.len(), 1);
    assert_eq!(
        hit_tuple(&hits[0]),
        (
            "Mwanzo".to_string(),
            "1".to_string(),
            "1".to_string(),
            "Hapo mwanzo Mungu aliziumba mbingu na nchi.".to_string()
        )
    );
}

#[test]
fn search_hits_satisfy_substring_rule() {
    let bible = sample_bible();
    for h in bible.search("nchi") {
        assert!(h.text.to_lowercase().contains("nchi"));
    }
    assert_eq!(bible.search("nchi").len(), 3);
}

#[test]
fn search_keeps_document_order() {
    let bible = sample_bible();
    let hits = bible.search("mbingu");
    assert_eq!(hits.len(), 2);
    assert_eq!(hits[0].chapter, "1");
    assert_eq!(hits[1].chapter, "2");
}

#[test]
fn search_empty_query_returns_every_verse_once() {
    let bible = sample_bible();
    let hits = bible.search("");
    assert_eq!(hits.len(), 4);
    let verses: Vec<(String, String, String)> = hits
        .iter()
        .map(|h| (h.book.clone(), h.chapter.clone(), h.verse.clone()))
        .collect();
    assert_eq!(
        verses,
        vec![
            ("Mwanzo".to_string(), "1".to_string(), "1".to_string()),
            ("Mwanzo".to_string(), "1".to_string(), "2".to_string()),
            ("Mwanzo".to_string(), "2".to_string(), "1".to_string()),
            ("Kutoka".to_string(), "1".to_string(), "1".to_string()),
        ]
    );
}

#[test]
fn search_query_body_drives_the_search() {
    let bible = sample_bible();
    let payload = SearchQuery { query: "Mungu".to_string() };
    let hits = bible.search(&payload.query);
    assert_eq!(hits.len(), 1);
}

#[test]
fn bible_root_books_feed_the_store() {
    let root = BibleRoot {
        books: vec![Book {
            id: "1".to_string(),
            name: "Mwanzo".to_string(),
            chapters: vec![],
        }],
    };
    let bible = BibleData::new(root.books);
    assert_eq!(bible.get_books().len(), 1);
}

#[test]
fn search_without_match_is_empty() {
    let bible = sample_bible();
    assert!(bible.search("hakuna-neno-kama-hili").is_empty());
}

#[test]
fn search_response_wraps_hits() {
    let bible = sample_bible();
    let r = bible.search_response("israeli");
    assert!(r.success);
    assert_eq!(r.data.len(), 1);
    assert_eq!(r.data[0].book, "Kutoka");
}

#[test]
fn duplicate_ids_resolve_to_first_match() {
    let bible = BibleData::new(vec![
        Book {
            id: "1".to_string(),
            name: "First".to_string(),
            chapters: vec![],
        },
        Book {
            id: "1".to_string(),
            name: "Second".to_string(),
            chapters: vec![],
        },
    ]);
    assert_eq!(bible.get_book("1").unwrap().name, "First");
}
