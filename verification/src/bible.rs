//! The Bible store: an immutable three-level hierarchy of books, chapters
//! and verses, with lookup by exact string match and case-insensitive
//! substring search over verse text.

use vstd::prelude::*;
use vstd::string::StringExecFns;

use crate::text::{contains_seq, contains_substring, lower_of, lowercase, str_eq};

verus! {

/// A successful response: the flag and the data it carries.
#[derive(Debug)]
pub struct BibleResponse<T> {
    pub success: bool,
    pub data: T,
}

/// A failed response body.
#[derive(Debug)]
pub struct ErrorResponse {
    pub success: bool,
    pub error: String,
}

/// A failed response together with the HTTP status it is served under.
#[derive(Debug)]
pub struct ApiError {
    pub status: u16,
    pub body: ErrorResponse,
}

/// One verse: its number within the chapter and its text.
#[derive(Debug)]
pub struct Verse {
    pub verse: String,
    pub text: String,
}

/// One chapter: its number within the book and its verses in document order.
#[derive(Debug)]
pub struct Chapter {
    pub chapter: String,
    pub verses: Vec<Verse>,
}

/// One book: a stable textual id, a human-readable name, and its chapters
/// in document order.
#[derive(Debug)]
pub struct Book {
    pub id: String,
    pub name: String,
    pub chapters: Vec<Chapter>,
}

/// The root of the scripture document: all books in document order.
#[derive(Debug)]
pub struct BibleRoot {
    pub books: Vec<Book>,
}

/// Mathematical model of a verse.
pub ghost struct VerseView {
    pub verse: Seq<char>,
    pub text: Seq<char>,
}

/// Mathematical model of a chapter.
pub ghost struct ChapterView {
    pub chapter: Seq<char>,
    pub verses: Seq<VerseView>,
}

/// Mathematical model of a book.
pub ghost struct BookView {
    pub id: Seq<char>,
    pub name: Seq<char>,
    pub chapters: Seq<ChapterView>,
}

impl View for Verse {
    type V = VerseView;

    open spec fn view(&self) -> VerseView {
        VerseView { verse: self.verse@, text: self.text@ }
    }
}

/// The models of a sequence of verses, in order.
pub open spec fn verses_view(s: Seq<Verse>) -> Seq<VerseView> {
    s.map_values(|v: Verse| v@)
}

impl View for Chapter {
    type V = ChapterView;

    open spec fn view(&self) -> ChapterView {
        ChapterView { chapter: self.chapter@, verses: verses_view(self.verses@) }
    }
}

/// The models of a sequence of chapters, in order.
pub open spec fn chapters_view(s: Seq<Chapter>) -> Seq<ChapterView> {
    s.map_values(|c: Chapter| c@)
}

impl View for Book {
    type V = BookView;

    open spec fn view(&self) -> BookView {
        BookView { id: self.id@, name: self.name@, chapters: chapters_view(self.chapters@) }
    }
}

/// The models of a sequence of books, in order.
pub open spec fn books_view(s: Seq<Book>) -> Seq<BookView> {
    s.map_values(|b: Book| b@)
}

impl Clone for Verse {
    fn clone(&self) -> (r: Self)
        ensures
            r@ == self@,
    {
        Verse { verse: self.verse.clone(), text: self.text.clone() }
    }
}

impl Clone for Chapter {
    fn clone(&self) -> (r: Self)
        ensures
            r@ == self@,
    {
        let mut verses: Vec<Verse> = Vec::new();
        let mut i: usize = 0;
        while i < self.verses.len()
            invariant
                i <= self.verses@.len(),
                verses@.len() == i,
                forall|j: int| 0 <= j < i ==> verses@[j]@ == self.verses@[j]@,
            decreases self.verses@.len() - i,
        {
            verses.push(self.verses[i].clone());
            i += 1;
        }
        proof {
            assert(verses_view(verses@) =~= verses_view(self.verses@));
        }
        Chapter { chapter: self.chapter.clone(), verses }
    }
}

impl Clone for Book {
    fn clone(&self) -> (r: Self)
        ensures
            r@ == self@,
    {
        let mut chapters: Vec<Chapter> = Vec::new();
        let mut i: usize = 0;
        while i < self.chapters.len()
            invariant
                i <= self.chapters@.len(),
                chapters@.len() == i,
                forall|j: int| 0 <= j < i ==> chapters@[j]@ == self.chapters@[j]@,
            decreases self.chapters@.len() - i,
        {
            chapters.push(self.chapters[i].clone());
            i += 1;
        }
        proof {
            assert(chapters_view(chapters@) =~= chapters_view(self.chapters@));
        }
        Book { id: self.id.clone(), name: self.name.clone(), chapters }
    }
}

/// The first element of `s` satisfying `p`, in order, if any.
pub open spec fn find_first<A>(s: Seq<A>, p: spec_fn(A) -> bool) -> Option<A>
    decreases s.len(),
{
    if s.len() == 0 {
        None
    } else if p(s[0]) {
        Some(s[0])
    } else {
        find_first(s.drop_first(), p)
    }
}

/// If `s[i]` satisfies `p` and nothing before it does, the first match is `s[i]`.
pub proof fn lemma_find_first_at<A>(s: Seq<A>, p: spec_fn(A) -> bool, i: int)
    requires
        0 <= i < s.len(),
        p(s[i]),
        forall|j: int| 0 <= j < i ==> !p(#[trigger] s[j]),
    ensures
        find_first(s, p) == Some(s[i]),
    decreases i,
{
    if i > 0 {
        assert(!p(s[0]));
        assert(s.drop_first()[i - 1] == s[i]);
        assert(forall|j: int| 0 <= j < i - 1 ==> !p(#[trigger] s.drop_first()[j]));
        lemma_find_first_at(s.drop_first(), p, i - 1);
    }
}

/// If nothing in `s` satisfies `p`, there is no first match.
pub proof fn lemma_find_first_none<A>(s: Seq<A>, p: spec_fn(A) -> bool)
    requires
        forall|j: int| 0 <= j < s.len() ==> !p(#[trigger] s[j]),
    ensures
        find_first(s, p) is None,
    decreases s.len(),
{
    if s.len() > 0 {
        assert(forall|j: int| 0 <= j < s.len() - 1 ==> !p(#[trigger] s.drop_first()[j]));
        lemma_find_first_none(s.drop_first(), p);
    }
}

/// A first match satisfies `p` and stands in `s`.
pub proof fn lemma_find_first_found<A>(s: Seq<A>, p: spec_fn(A) -> bool)
    requires
        find_first(s, p) is Some,
    ensures
        p(find_first(s, p)->Some_0),
        s.contains(find_first(s, p)->Some_0),
    decreases s.len(),
{
    if s.len() > 0 && !p(s[0]) {
        lemma_find_first_found(s.drop_first(), p);
        let x = find_first(s, p)->Some_0;
        let i = choose|i: int| 0 <= i < s.drop_first().len() && s.drop_first()[i] == x;
        assert(s[i + 1] == x);
    }
}

/// The first book with the given id, if any.
pub open spec fn spec_get_book(books: Seq<BookView>, book_id: Seq<char>) -> Option<BookView> {
    find_first(books, |b: BookView| b.id == book_id)
}

/// The first chapter with the given number inside the looked-up book, if any.
pub open spec fn spec_get_chapter(
    books: Seq<BookView>,
    book_id: Seq<char>,
    chapter_no: Seq<char>,
) -> Option<ChapterView> {
    match spec_get_book(books, book_id) {
        None => None,
        Some(b) => find_first(b.chapters, |c: ChapterView| c.chapter == chapter_no),
    }
}

/// The first verse with the given number inside the looked-up chapter, if any.
pub open spec fn spec_get_verse(
    books: Seq<BookView>,
    book_id: Seq<char>,
    chapter_no: Seq<char>,
    verse_no: Seq<char>,
) -> Option<VerseView> {
    match spec_get_chapter(books, book_id, chapter_no) {
        None => None,
        Some(c) => find_first(c.verses, |v: VerseView| v.verse == verse_no),
    }
}

/// One search hit: a verse whose text contains the query, annotated with
/// its location.
#[derive(Debug)]
pub struct SearchResult {
    pub book: String,
    pub chapter: String,
    pub verse: String,
    pub text: String,
}

/// The body of a search request.
#[derive(Debug)]
pub struct SearchQuery {
    pub query: String,
}

/// Mathematical model of a search hit.
pub ghost struct SearchResultView {
    pub book: Seq<char>,
    pub chapter: Seq<char>,
    pub verse: Seq<char>,
    pub text: Seq<char>,
}

impl View for SearchResult {
    type V = SearchResultView;

    open spec fn view(&self) -> SearchResultView {
        SearchResultView {
            book: self.book@,
            chapter: self.chapter@,
            verse: self.verse@,
            text: self.text@,
        }
    }
}

/// The models of a sequence of search hits, in order.
pub open spec fn hits_view(s: Seq<SearchResult>) -> Seq<SearchResultView> {
    s.map_values(|h: SearchResult| h@)
}

/// The hit reported for a verse of the given book and chapter.
pub open spec fn hit_of(book_name: Seq<char>, chapter_no: Seq<char>, v: VerseView)
    -> SearchResultView {
    SearchResultView { book: book_name, chapter: chapter_no, verse: v.verse, text: v.text }
}

/// Whether a verse matches an already-lowercased query: its lowercased
/// text contains the query as a substring.
pub open spec fn verse_matches(v: VerseView, lowered_query: Seq<char>) -> bool {
    contains_seq(lower_of(v.text), lowered_query)
}

/// The hits contributed by the verses of one chapter, in document order.
pub open spec fn search_verses(
    book_name: Seq<char>,
    chapter_no: Seq<char>,
    verses: Seq<VerseView>,
    lowered_query: Seq<char>,
) -> Seq<SearchResultView>
    decreases verses.len(),
{
    if verses.len() == 0 {
        Seq::empty()
    } else {
        let rest = search_verses(book_name, chapter_no, verses.drop_last(), lowered_query);
        if verse_matches(verses.last(), lowered_query) {
            rest.push(hit_of(book_name, chapter_no, verses.last()))
        } else {
            rest
        }
    }
}

/// The hits contributed by the chapters of one book, in document order.
pub open spec fn search_chapters(
    book_name: Seq<char>,
    chapters: Seq<ChapterView>,
    lowered_query: Seq<char>,
) -> Seq<SearchResultView>
    decreases chapters.len(),
{
    if chapters.len() == 0 {
        Seq::empty()
    } else {
        search_chapters(book_name, chapters.drop_last(), lowered_query) + search_verses(
            book_name,
            chapters.last().chapter,
            chapters.last().verses,
            lowered_query,
        )
    }
}

/// All hits of a search, in nested document order: book, then chapter,
/// then verse.
pub open spec fn spec_search(books: Seq<BookView>, lowered_query: Seq<char>)
    -> Seq<SearchResultView>
    decreases books.len(),
{
    if books.len() == 0 {
        Seq::empty()
    } else {
        spec_search(books.drop_last(), lowered_query) + search_chapters(
            books.last().name,
            books.last().chapters,
            lowered_query,
        )
    }
}

/// One hit for every verse of the chapter, in document order.
pub open spec fn all_hits_verses(
    book_name: Seq<char>,
    chapter_no: Seq<char>,
    verses: Seq<VerseView>,
) -> Seq<SearchResultView>
    decreases verses.len(),
{
    if verses.len() == 0 {
        Seq::empty()
    } else {
        all_hits_verses(book_name, chapter_no, verses.drop_last()).push(
            hit_of(book_name, chapter_no, verses.last()),
        )
    }
}

/// One hit for every verse of the book, in document order.
pub open spec fn all_hits_chapters(book_name: Seq<char>, chapters: Seq<ChapterView>)
    -> Seq<SearchResultView>
    decreases chapters.len(),
{
    if chapters.len() == 0 {
        Seq::empty()
    } else {
        all_hits_chapters(book_name, chapters.drop_last()) + all_hits_verses(
            book_name,
            chapters.last().chapter,
            chapters.last().verses,
        )
    }
}

/// One hit for every verse of the Bible, in nested document order.
pub open spec fn all_hits(books: Seq<BookView>) -> Seq<SearchResultView>
    decreases books.len(),
{
    if books.len() == 0 {
        Seq::empty()
    } else {
        all_hits(books.drop_last()) + all_hits_chapters(books.last().name, books.last().chapters)
    }
}

/// How many verses the chapters hold together.
pub open spec fn verses_in_chapters(chapters: Seq<ChapterView>) -> nat
    decreases chapters.len(),
{
    if chapters.len() == 0 {
        0
    } else {
        verses_in_chapters(chapters.drop_last()) + chapters.last().verses.len()
    }
}

/// How many verses the books hold together.
pub open spec fn verses_in_books(books: Seq<BookView>) -> nat
    decreases books.len(),
{
    if books.len() == 0 {
        0
    } else {
        verses_in_books(books.drop_last()) + verses_in_chapters(books.last().chapters)
    }
}

/// The full hit list holds one entry per verse of the chapter.
proof fn lemma_all_hits_verses_len(
    book_name: Seq<char>,
    chapter_no: Seq<char>,
    verses: Seq<VerseView>,
)
    ensures
        all_hits_verses(book_name, chapter_no, verses).len() == verses.len(),
    decreases verses.len(),
{
    if verses.len() > 0 {
        lemma_all_hits_verses_len(book_name, chapter_no, verses.drop_last());
    }
}

/// The full hit list holds one entry per verse of the book.
proof fn lemma_all_hits_chapters_len(book_name: Seq<char>, chapters: Seq<ChapterView>)
    ensures
        all_hits_chapters(book_name, chapters).len() == verses_in_chapters(chapters),
    decreases chapters.len(),
{
    if chapters.len() > 0 {
        lemma_all_hits_chapters_len(book_name, chapters.drop_last());
        lemma_all_hits_verses_len(
            book_name,
            chapters.last().chapter,
            chapters.last().verses,
        );
    }
}

/// The full hit list holds one entry per verse of the Bible: together
/// with the empty-query law, a search for the empty query returns every
/// verse exactly once.
pub proof fn lemma_all_hits_len(books: Seq<BookView>)
    ensures
        all_hits(books).len() == verses_in_books(books),
    decreases books.len(),
{
    if books.len() > 0 {
        lemma_all_hits_len(books.drop_last());
        lemma_all_hits_chapters_len(books.last().name, books.last().chapters);
    }
}

/// The empty query is contained in every text.
pub proof fn lemma_contains_empty(text: Seq<char>)
    ensures
        contains_seq(text, Seq::<char>::empty()),
{
    assert(text.subrange(0, 0 + Seq::<char>::empty().len() as int) =~= Seq::<char>::empty());
}

/// With an empty query, every verse of the chapter is a hit.
proof fn lemma_search_verses_empty(
    book_name: Seq<char>,
    chapter_no: Seq<char>,
    verses: Seq<VerseView>,
)
    ensures
        search_verses(book_name, chapter_no, verses, Seq::<char>::empty()) == all_hits_verses(
            book_name,
            chapter_no,
            verses,
        ),
    decreases verses.len(),
{
    if verses.len() > 0 {
        lemma_search_verses_empty(book_name, chapter_no, verses.drop_last());
        lemma_contains_empty(lower_of(verses.last().text));
    }
}

/// With an empty query, every verse of the book is a hit.
proof fn lemma_search_chapters_empty(book_name: Seq<char>, chapters: Seq<ChapterView>)
    ensures
        search_chapters(book_name, chapters, Seq::<char>::empty()) == all_hits_chapters(
            book_name,
            chapters,
        ),
    decreases chapters.len(),
{
    if chapters.len() > 0 {
        lemma_search_chapters_empty(book_name, chapters.drop_last());
        lemma_search_verses_empty(
            book_name,
            chapters.last().chapter,
            chapters.last().verses,
        );
    }
}

/// With an empty query, the search lists every verse of the Bible exactly
/// once, in nested document order.
pub proof fn lemma_search_empty(books: Seq<BookView>)
    ensures
        spec_search(books, Seq::<char>::empty()) == all_hits(books),
    decreases books.len(),
{
    if books.len() > 0 {
        lemma_search_empty(books.drop_last());
        lemma_search_chapters_empty(books.last().name, books.last().chapters);
    }
}

/// Appends to `out` the hits of one chapter's verses, in document order.
fn search_verses_into(
    book_name: &String,
    chapter_no: &String,
    verses: &Vec<Verse>,
    lowered_query: &String,
    out: &mut Vec<SearchResult>,
)
    ensures
        hits_view(final(out)@) == hits_view(old(out)@) + search_verses(
            book_name@,
            chapter_no@,
            verses_view(verses@),
            lowered_query@,
        ),
{
    let mut i: usize = 0;
    while i < verses.len()
        invariant
            i <= verses@.len(),
            hits_view(out@) == hits_view(old(out)@) + search_verses(
                book_name@,
                chapter_no@,
                verses_view(verses@).take(i as int),
                lowered_query@,
            ),
        decreases verses@.len() - i,
    {
        let ghost vs = verses_view(verses@);
        let ghost prev = out@;
        let v = &verses[i];
        let lowered_text = lowercase(v.text.as_str());
        if contains_substring(lowered_text.as_str(), lowered_query.as_str()) {
            out.push(
                SearchResult {
                    book: book_name.clone(),
                    chapter: chapter_no.clone(),
                    verse: v.verse.clone(),
                    text: v.text.clone(),
                },
            );
            proof {
                assert(hits_view(out@) =~= hits_view(prev).push(
                    hit_of(book_name@, chapter_no@, vs[i as int]),
                ));
            }
        }
        proof {
            assert(vs.take(i + 1).drop_last() =~= vs.take(i as int));
            assert(vs.take(i + 1).last() == vs[i as int]);
        }
        i += 1;
    }
    proof {
        assert(verses_view(verses@).take(verses@.len() as int) =~= verses_view(verses@));
    }
}

/// Appends to `out` the hits of one book's chapters, in document order.
fn search_chapters_into(
    book_name: &String,
    chapters: &Vec<Chapter>,
    lowered_query: &String,
    out: &mut Vec<SearchResult>,
)
    ensures
        hits_view(final(out)@) == hits_view(old(out)@) + search_chapters(
            book_name@,
            chapters_view(chapters@),
            lowered_query@,
        ),
{
    let mut i: usize = 0;
    while i < chapters.len()
        invariant
            i <= chapters@.len(),
            hits_view(out@) == hits_view(old(out)@) + search_chapters(
                book_name@,
                chapters_view(chapters@).take(i as int),
                lowered_query@,
            ),
        decreases chapters@.len() - i,
    {
        let ghost cs = chapters_view(chapters@);
        let ghost prev = out@;
        let c = &chapters[i];
        search_verses_into(book_name, &c.chapter, &c.verses, lowered_query, out);
        proof {
            assert(cs.take(i + 1).drop_last() =~= cs.take(i as int));
            assert(cs.take(i + 1).last() == cs[i as int]);
            assert(hits_view(out@) =~= (hits_view(old(out)@) + search_chapters(
                book_name@,
                cs.take(i as int),
                lowered_query@,
            )) + search_verses(book_name@, cs[i as int].chapter, cs[i as int].verses,
                lowered_query@,
            ));
            assert((hits_view(old(out)@) + search_chapters(
                book_name@,
                cs.take(i as int),
                lowered_query@,
            )) + search_verses(book_name@, cs[i as int].chapter, cs[i as int].verses,
                lowered_query@,
            ) =~= hits_view(old(out)@) + (search_chapters(
                book_name@,
                cs.take(i as int),
                lowered_query@,
            ) + search_verses(book_name@, cs[i as int].chapter, cs[i as int].verses,
                lowered_query@,
            )));
        }
        i += 1;
    }
    proof {
        assert(chapters_view(chapters@).take(chapters@.len() as int) =~= chapters_view(
            chapters@,
        ));
    }
}

/// Verse numbers are unique within the chapter.
pub open spec fn chapter_wf(c: ChapterView) -> bool {
    forall|i: int, j: int| #![trigger c.verses[i], c.verses[j]]
        0 <= i < j < c.verses.len() ==> c.verses[i].verse != c.verses[j].verse
}

/// Chapter numbers are unique within the book, and each chapter is
/// well formed.
pub open spec fn book_wf(b: BookView) -> bool {
    &&& forall|i: int, j: int| #![trigger b.chapters[i], b.chapters[j]]
        0 <= i < j < b.chapters.len() ==> b.chapters[i].chapter != b.chapters[j].chapter
    &&& forall|i: int| 0 <= i < b.chapters.len() ==> chapter_wf(#[trigger] b.chapters[i])
}

/// Book ids are unique, and each book is well formed.
pub open spec fn bible_wf(books: Seq<BookView>) -> bool {
    &&& forall|i: int, j: int| #![trigger books[i], books[j]]
        0 <= i < j < books.len() ==> books[i].id != books[j].id
    &&& forall|i: int| 0 <= i < books.len() ==> book_wf(#[trigger] books[i])
}

/// In a well-formed Bible, looking a listed book up by its own id returns
/// that very book.
pub proof fn lemma_get_book_of_listed(books: Seq<BookView>, i: int)
    requires
        bible_wf(books),
        0 <= i < books.len(),
    ensures
        spec_get_book(books, books[i].id) == Some(books[i]),
{
    let p = |b: BookView| b.id == books[i].id;
    assert forall|j: int| 0 <= j < i implies !p(#[trigger] books[j]) by {
        assert(books[j].id != books[i].id);
    }
    lemma_find_first_at(books, p, i);
}

/// In a well-formed Bible, a (book, chapter, verse) triple present in the
/// source is returned exactly: the lookup finds that very verse.
pub proof fn lemma_get_verse_present(
    books: Seq<BookView>,
    book_id: Seq<char>,
    chapter_no: Seq<char>,
    verse_no: Seq<char>,
    i: int,
    j: int,
    k: int,
)
    requires
        bible_wf(books),
        0 <= i < books.len(),
        books[i].id == book_id,
        0 <= j < books[i].chapters.len(),
        books[i].chapters[j].chapter == chapter_no,
        0 <= k < books[i].chapters[j].verses.len(),
        books[i].chapters[j].verses[k].verse == verse_no,
    ensures
        spec_get_verse(books, book_id, chapter_no, verse_no) == Some(
            books[i].chapters[j].verses[k],
        ),
{
    let pb = |b: BookView| b.id == book_id;
    assert forall|m: int| 0 <= m < i implies !pb(#[trigger] books[m]) by {
        assert(books[m].id != books[i].id);
    }
    lemma_find_first_at(books, pb, i);
    let b = books[i];
    assert(book_wf(b));
    let pc = |c: ChapterView| c.chapter == chapter_no;
    assert forall|m: int| 0 <= m < j implies !pc(#[trigger] b.chapters[m]) by {
        assert(b.chapters[m].chapter != b.chapters[j].chapter);
    }
    lemma_find_first_at(b.chapters, pc, j);
    let c = b.chapters[j];
    assert(chapter_wf(c));
    let pv = |v: VerseView| v.verse == verse_no;
    assert forall|m: int| 0 <= m < k implies !pv(#[trigger] c.verses[m]) by {
        assert(c.verses[m].verse != c.verses[k].verse);
    }
    lemma_find_first_at(c.verses, pv, k);
}

/// A (book, chapter, verse) triple absent from the source is not returned:
/// the lookup comes back empty.
pub proof fn lemma_get_verse_absent(
    books: Seq<BookView>,
    book_id: Seq<char>,
    chapter_no: Seq<char>,
    verse_no: Seq<char>,
)
    requires
        forall|i: int, j: int, k: int| #![trigger books[i].chapters[j].verses[k]]
            0 <= i < books.len() && 0 <= j < books[i].chapters.len() && 0 <= k
                < books[i].chapters[j].verses.len() ==> !(books[i].id == book_id
                && books[i].chapters[j].chapter == chapter_no
                && books[i].chapters[j].verses[k].verse == verse_no),
    ensures
        spec_get_verse(books, book_id, chapter_no, verse_no) is None,
{
    if spec_get_verse(books, book_id, chapter_no, verse_no) is Some {
        let pb = |b: BookView| b.id == book_id;
        lemma_find_first_found(books, pb);
        let b = find_first(books, pb)->Some_0;
        let i = choose|i: int| 0 <= i < books.len() && books[i] == b;
        let pc = |c: ChapterView| c.chapter == chapter_no;
        lemma_find_first_found(b.chapters, pc);
        let c = find_first(b.chapters, pc)->Some_0;
        let j = choose|j: int| 0 <= j < b.chapters.len() && b.chapters[j] == c;
        let pv = |v: VerseView| v.verse == verse_no;
        lemma_find_first_found(c.verses, pv);
        let v = find_first(c.verses, pv)->Some_0;
        let k = choose|k: int| 0 <= k < c.verses.len() && c.verses[k] == v;
        assert(books[i].chapters[j].verses[k] == v);
    }
}

/// Every hit of a search contains the lowercased query as a substring of
/// its lowercased text: the chapter level.
proof fn lemma_search_verses_sound(
    book_name: Seq<char>,
    chapter_no: Seq<char>,
    verses: Seq<VerseView>,
    lowered_query: Seq<char>,
    k: int,
)
    requires
        0 <= k < search_verses(book_name, chapter_no, verses, lowered_query).len(),
    ensures
        contains_seq(
            lower_of(search_verses(book_name, chapter_no, verses, lowered_query)[k].text),
            lowered_query,
        ),
    decreases verses.len(),
{
    let hits = search_verses(book_name, chapter_no, verses, lowered_query);
    let rest = search_verses(book_name, chapter_no, verses.drop_last(), lowered_query);
    if k < rest.len() {
        lemma_search_verses_sound(book_name, chapter_no, verses.drop_last(), lowered_query, k);
    } else {
        assert(hits[k] == hit_of(book_name, chapter_no, verses.last()));
    }
}

/// Every hit of a search contains the lowercased query: the book level.
proof fn lemma_search_chapters_sound(
    book_name: Seq<char>,
    chapters: Seq<ChapterView>,
    lowered_query: Seq<char>,
    k: int,
)
    requires
        0 <= k < search_chapters(book_name, chapters, lowered_query).len(),
    ensures
        contains_seq(
            lower_of(search_chapters(book_name, chapters, lowered_query)[k].text),
            lowered_query,
        ),
    decreases chapters.len(),
{
    let rest = search_chapters(book_name, chapters.drop_last(), lowered_query);
    if k < rest.len() {
        lemma_search_chapters_sound(book_name, chapters.drop_last(), lowered_query, k);
    } else {
        lemma_search_verses_sound(
            book_name,
            chapters.last().chapter,
            chapters.last().verses,
            lowered_query,
            k - rest.len(),
        );
    }
}

/// Every hit of a search contains the lowercased query as a substring of
/// its lowercased text.
pub proof fn lemma_search_sound(books: Seq<BookView>, lowered_query: Seq<char>, k: int)
    requires
        0 <= k < spec_search(books, lowered_query).len(),
    ensures
        contains_seq(lower_of(spec_search(books, lowered_query)[k].text), lowered_query),
    decreases books.len(),
{
    let rest = spec_search(books.drop_last(), lowered_query);
    if k < rest.len() {
        lemma_search_sound(books.drop_last(), lowered_query, k);
    } else {
        lemma_search_chapters_sound(
            books.last().name,
            books.last().chapters,
            lowered_query,
            k - rest.len(),
        );
    }
}

/// The predicate a hit must meet: its lowercased text contains the
/// lowercased query.
pub open spec fn hit_matches(lowered_query: Seq<char>) -> spec_fn(SearchResultView) -> bool {
    |h: SearchResultView| contains_seq(lower_of(h.text), lowered_query)
}

/// Search keeps exactly the matching verses: the chapter level.
proof fn lemma_search_verses_complete(
    book_name: Seq<char>,
    chapter_no: Seq<char>,
    verses: Seq<VerseView>,
    lowered_query: Seq<char>,
)
    ensures
        search_verses(book_name, chapter_no, verses, lowered_query) == all_hits_verses(
            book_name,
            chapter_no,
            verses,
        ).filter(hit_matches(lowered_query)),
    decreases verses.len(),
{
    reveal(Seq::filter);
    let p = hit_matches(lowered_query);
    if verses.len() == 0 {
        assert(all_hits_verses(book_name, chapter_no, verses).filter(p)
            =~= Seq::<SearchResultView>::empty());
    } else {
        lemma_search_verses_complete(book_name, chapter_no, verses.drop_last(), lowered_query);
        let prior = all_hits_verses(book_name, chapter_no, verses.drop_last());
        let whole = all_hits_verses(book_name, chapter_no, verses);
        assert(whole.drop_last() =~= prior);
        assert(whole.last() == hit_of(book_name, chapter_no, verses.last()));
    }
}

/// Search keeps exactly the matching verses: the book level.
proof fn lemma_search_chapters_complete(
    book_name: Seq<char>,
    chapters: Seq<ChapterView>,
    lowered_query: Seq<char>,
)
    ensures
        search_chapters(book_name, chapters, lowered_query) == all_hits_chapters(
            book_name,
            chapters,
        ).filter(hit_matches(lowered_query)),
    decreases chapters.len(),
{
    reveal(Seq::filter);
    let p = hit_matches(lowered_query);
    if chapters.len() == 0 {
        assert(all_hits_chapters(book_name, chapters).filter(p)
            =~= Seq::<SearchResultView>::empty());
    } else {
        lemma_search_chapters_complete(book_name, chapters.drop_last(), lowered_query);
        lemma_search_verses_complete(
            book_name,
            chapters.last().chapter,
            chapters.last().verses,
            lowered_query,
        );
        Seq::filter_distributes_over_add(
            all_hits_chapters(book_name, chapters.drop_last()),
            all_hits_verses(book_name, chapters.last().chapter, chapters.last().verses),
            p,
        );
    }
}

/// Search returns exactly the verses whose lowercased text contains the
/// lowercased query, each exactly once, in nested document order: it is
/// the in-order filter of the full verse list.
pub proof fn lemma_search_complete(books: Seq<BookView>, lowered_query: Seq<char>)
    ensures
        spec_search(books, lowered_query) == all_hits(books).filter(hit_matches(lowered_query)),
    decreases books.len(),
{
    reveal(Seq::filter);
    let p = hit_matches(lowered_query);
    if books.len() == 0 {
        assert(all_hits(books).filter(p) =~= Seq::<SearchResultView>::empty());
    } else {
        lemma_search_complete(books.drop_last(), lowered_query);
        lemma_search_chapters_complete(books.last().name, books.last().chapters, lowered_query);
        Seq::filter_distributes_over_add(
            all_hits(books.drop_last()),
            all_hits_chapters(books.last().name, books.last().chapters),
            p,
        );
    }
}

/// The error text reported for a missing book.
pub open spec fn book_not_found_text(book_id: Seq<char>) -> Seq<char> {
    "Book '"@ + book_id + "' not found"@
}

/// The error text reported for a missing chapter of an existing book.
pub open spec fn chapter_not_found_text(chapter_no: Seq<char>, book_id: Seq<char>) -> Seq<char> {
    "Chapter "@ + chapter_no + " not found in book '"@ + book_id + "'"@
}

/// The error text reported for a missing verse of an existing chapter.
pub open spec fn verse_not_found_text(
    verse_no: Seq<char>,
    chapter_no: Seq<char>,
    book_id: Seq<char>,
) -> Seq<char> {
    "Verse "@ + verse_no + " not found in chapter "@ + chapter_no + " of book '"@ + book_id + "'"@
}

/// The HTTP status under which a failed Bible lookup is served.
pub const NOT_FOUND: u16 = 404;

/// Builds the not-found error for a missing book.
fn book_not_found_error(book_id: &str) -> (r: ApiError)
    ensures
        r.status == NOT_FOUND,
        !r.body.success,
        r.body.error@ == book_not_found_text(book_id@),
{
    let mut m = String::from_str("Book '");
    m.append(book_id);
    m.append("' not found");
    ApiError { status: NOT_FOUND, body: ErrorResponse { success: false, error: m } }
}

/// Builds the not-found error for a missing chapter.
fn chapter_not_found_error(chapter_no: &str, book_id: &str) -> (r: ApiError)
    ensures
        r.status == NOT_FOUND,
        !r.body.success,
        r.body.error@ == chapter_not_found_text(chapter_no@, book_id@),
{
    let mut m = String::from_str("Chapter ");
    m.append(chapter_no);
    m.append(" not found in book '");
    m.append(book_id);
    m.append("'");
    ApiError { status: NOT_FOUND, body: ErrorResponse { success: false, error: m } }
}

/// Builds the not-found error for a missing verse.
fn verse_not_found_error(verse_no: &str, chapter_no: &str, book_id: &str) -> (r: ApiError)
    ensures
        r.status == NOT_FOUND,
        !r.body.success,
        r.body.error@ == verse_not_found_text(verse_no@, chapter_no@, book_id@),
{
    let mut m = String::from_str("Verse ");
    m.append(verse_no);
    m.append(" not found in chapter ");
    m.append(chapter_no);
    m.append(" of book '");
    m.append(book_id);
    m.append("'");
    ApiError { status: NOT_FOUND, body: ErrorResponse { success: false, error: m } }
}

/// Clones a sequence of books, preserving the model of each.
fn clone_books(books: &Vec<Book>) -> (r: Vec<Book>)
    ensures
        books_view(r@) == books_view(books@),
{
    let mut out: Vec<Book> = Vec::new();
    let mut i: usize = 0;
    while i < books.len()
        invariant
            i <= books@.len(),
            out@.len() == i,
            forall|j: int| 0 <= j < i ==> out@[j]@ == books@[j]@,
        decreases books@.len() - i,
    {
        out.push(books[i].clone());
        i += 1;
    }
    proof {
        assert(books_view(out@) =~= books_view(books@));
    }
    out
}

/// The in-memory scripture store, loaded once and never mutated.
pub struct BibleData {
    books: Vec<Book>,
}

impl View for BibleData {
    type V = Seq<BookView>;

    closed spec fn view(&self) -> Seq<BookView> {
        books_view(self.books@)
    }
}

/// Finds the first book of `books` whose id equals `book_id`.
fn find_book<'a>(books: &'a Vec<Book>, book_id: &str) -> (r: Option<&'a Book>)
    ensures
        match r {
            Some(b) => spec_get_book(books_view(books@), book_id@) == Some(b@),
            None => spec_get_book(books_view(books@), book_id@) is None,
        },
{
    let ghost p = |b: BookView| b.id == book_id@;
    let mut i: usize = 0;
    while i < books.len()
        invariant
            i <= books@.len(),
            p == (|b: BookView| b.id == book_id@),
            forall|j: int| 0 <= j < i ==> !p(#[trigger] books_view(books@)[j]),
        decreases books@.len() - i,
    {
        if str_eq(books[i].id.as_str(), book_id) {
            proof {
                lemma_find_first_at(books_view(books@), p, i as int);
            }
            return Some(&books[i]);
        }
        i += 1;
    }
    proof {
        lemma_find_first_none(books_view(books@), p);
    }
    None
}

/// Finds the first chapter of `chapters` whose number equals `chapter_no`.
fn find_chapter<'a>(chapters: &'a Vec<Chapter>, chapter_no: &str) -> (r: Option<&'a Chapter>)
    ensures
        match r {
            Some(c) => find_first(
                chapters_view(chapters@),
                |c: ChapterView| c.chapter == chapter_no@,
            ) == Some(c@),
            None => find_first(
                chapters_view(chapters@),
                |c: ChapterView| c.chapter == chapter_no@,
            ) is None,
        },
{
    let ghost p = |c: ChapterView| c.chapter == chapter_no@;
    let mut i: usize = 0;
    while i < chapters.len()
        invariant
            i <= chapters@.len(),
            p == (|c: ChapterView| c.chapter == chapter_no@),
            forall|j: int| 0 <= j < i ==> !p(#[trigger] chapters_view(chapters@)[j]),
        decreases chapters@.len() - i,
    {
        if str_eq(chapters[i].chapter.as_str(), chapter_no) {
            proof {
                lemma_find_first_at(chapters_view(chapters@), p, i as int);
            }
            return Some(&chapters[i]);
        }
        i += 1;
    }
    proof {
        lemma_find_first_none(chapters_view(chapters@), p);
    }
    None
}

/// Finds the first verse of `verses` whose number equals `verse_no`.
fn find_verse<'a>(verses: &'a Vec<Verse>, verse_no: &str) -> (r: Option<&'a Verse>)
    ensures
        match r {
            Some(v) => find_first(verses_view(verses@), |v: VerseView| v.verse == verse_no@)
                == Some(v@),
            None => find_first(verses_view(verses@), |v: VerseView| v.verse == verse_no@) is None,
        },
{
    let ghost p = |v: VerseView| v.verse == verse_no@;
    let mut i: usize = 0;
    while i < verses.len()
        invariant
            i <= verses@.len(),
            p == (|v: VerseView| v.verse == verse_no@),
            forall|j: int| 0 <= j < i ==> !p(#[trigger] verses_view(verses@)[j]),
        decreases verses@.len() - i,
    {
        if str_eq(verses[i].verse.as_str(), verse_no) {
            proof {
                lemma_find_first_at(verses_view(verses@), p, i as int);
            }
            return Some(&verses[i]);
        }
        i += 1;
    }
    proof {
        lemma_find_first_none(verses_view(verses@), p);
    }
    None
}

impl BibleData {
    /// Builds the store from the books of a parsed scripture document.
    pub fn new(books: Vec<Book>) -> (r: Self)
        ensures
            r@ == books_view(books@),
    {
        BibleData { books }
    }

    /// All books in document order.
    pub fn get_books(&self) -> (r: &Vec<Book>)
        ensures
            books_view(r@) == self@,
    {
        &self.books
    }

    /// The first book whose id equals `book_id`, if any.
    pub fn get_book(&self, book_id: &str) -> (r: Option<&Book>)
        ensures
            match r {
                Some(b) => spec_get_book(self@, book_id@) == Some(b@),
                None => spec_get_book(self@, book_id@) is None,
            },
    {
        find_book(&self.books, book_id)
    }

    /// The chapter numbered `chapter_no` of the book with id `book_id`, if any.
    pub fn get_chapter(&self, book_id: &str, chapter_no: &str) -> (r: Option<&Chapter>)
        ensures
            match r {
                Some(c) => spec_get_chapter(self@, book_id@, chapter_no@) == Some(c@),
                None => spec_get_chapter(self@, book_id@, chapter_no@) is None,
            },
    {
        match find_book(&self.books, book_id) {
            None => None,
            Some(book) => find_chapter(&book.chapters, chapter_no),
        }
    }

    /// Case-insensitive substring search over all verse text. The query is
    /// lowercased once; a verse is a hit when its lowercased text contains
    /// the lowercased query. Hits come in nested document order, and an
    /// empty query matches every verse.
    pub fn search(&self, query: &str) -> (r: Vec<SearchResult>)
        ensures
            hits_view(r@) == spec_search(self@, lower_of(query@)),
            query@.len() == 0 ==> hits_view(r@) == all_hits(self@),
    {
        let lowered_query = lowercase(query);
        let mut out: Vec<SearchResult> = Vec::new();
        let mut i: usize = 0;
        proof {
            assert(hits_view(out@) =~= Seq::<SearchResultView>::empty());
        }
        while i < self.books.len()
            invariant
                i <= self.books@.len(),
                lowered_query@ == lower_of(query@),
                hits_view(out@) == spec_search(
                    books_view(self.books@).take(i as int),
                    lowered_query@,
                ),
            decreases self.books@.len() - i,
        {
            let ghost bs = books_view(self.books@);
            let ghost prev = out@;
            let b = &self.books[i];
            search_chapters_into(&b.name, &b.chapters, &lowered_query, &mut out);
            proof {
                assert(bs.take(i + 1).drop_last() =~= bs.take(i as int));
                assert(bs.take(i + 1).last() == bs[i as int]);
                assert(hits_view(out@) =~= spec_search(bs.take(i as int), lowered_query@)
                    + search_chapters(bs[i as int].name, bs[i as int].chapters, lowered_query@));
            }
            i += 1;
        }
        proof {
            assert(books_view(self.books@).take(self.books@.len() as int) =~= books_view(
                self.books@,
            ));
            if query@.len() == 0 {
                assert(lower_of(query@) =~= Seq::<char>::empty());
                lemma_search_empty(self@);
            }
        }
        out
    }

    /// The response listing all books in document order.
    pub fn books_response(&self) -> (r: BibleResponse<Vec<Book>>)
        ensures
            r.success,
            books_view(r.data@) == self@,
    {
        BibleResponse { success: true, data: clone_books(&self.books) }
    }

    /// The response for one book: its data when the id is known, the
    /// not-found error otherwise.
    pub fn book_response(&self, book_id: &str) -> (r: Result<BibleResponse<Book>, ApiError>)
        ensures
            match spec_get_book(self@, book_id@) {
                Some(b) => r is Ok && r->Ok_0.success && r->Ok_0.data@ == b,
                None => r is Err && r->Err_0.status == NOT_FOUND && !r->Err_0.body.success
                    && r->Err_0.body.error@ == book_not_found_text(book_id@),
            },
    {
        match find_book(&self.books, book_id) {
            Some(book) => Ok(BibleResponse { success: true, data: book.clone() }),
            None => Err(book_not_found_error(book_id)),
        }
    }

    /// The response for one chapter: its data when present, else the error
    /// naming the innermost level that was missing.
    pub fn chapter_response(&self, book_id: &str, chapter_no: &str) -> (r: Result<
        BibleResponse<Chapter>,
        ApiError,
    >)
        ensures
            match spec_get_chapter(self@, book_id@, chapter_no@) {
                Some(c) => r is Ok && r->Ok_0.success && r->Ok_0.data@ == c,
                None => r is Err && r->Err_0.status == NOT_FOUND && !r->Err_0.body.success,
            },
            spec_get_book(self@, book_id@) is None ==> r is Err && r->Err_0.body.error@
                == book_not_found_text(book_id@),
            spec_get_book(self@, book_id@) is Some && spec_get_chapter(
                self@,
                book_id@,
                chapter_no@,
            ) is None ==> r is Err && r->Err_0.body.error@ == chapter_not_found_text(
                chapter_no@,
                book_id@,
            ),
    {
        match find_book(&self.books, book_id) {
            None => Err(book_not_found_error(book_id)),
            Some(book) => match find_chapter(&book.chapters, chapter_no) {
                None => Err(chapter_not_found_error(chapter_no, book_id)),
                Some(chapter) => Ok(BibleResponse { success: true, data: chapter.clone() }),
            },
        }
    }

    /// The response for one verse: its data when present, else the error
    /// naming the innermost level that was missing.
    pub fn verse_response(&self, book_id: &str, chapter_no: &str, verse_no: &str) -> (r: Result<
        BibleResponse<Verse>,
        ApiError,
    >)
        ensures
            match spec_get_verse(self@, book_id@, chapter_no@, verse_no@) {
                Some(v) => r is Ok && r->Ok_0.success && r->Ok_0.data@ == v,
                None => r is Err && r->Err_0.status == NOT_FOUND && !r->Err_0.body.success,
            },
            spec_get_book(self@, book_id@) is None ==> r is Err && r->Err_0.body.error@
                == book_not_found_text(book_id@),
            spec_get_book(self@, book_id@) is Some && spec_get_chapter(
                self@,
                book_id@,
                chapter_no@,
            ) is None ==> r is Err && r->Err_0.body.error@ == chapter_not_found_text(
                chapter_no@,
                book_id@,
            ),
            spec_get_chapter(self@, book_id@, chapter_no@) is Some && spec_get_verse(
                self@,
                book_id@,
                chapter_no@,
                verse_no@,
            ) is None ==> r is Err && r->Err_0.body.error@ == verse_not_found_text(
                verse_no@,
                chapter_no@,
                book_id@,
            ),
    {
        match find_book(&self.books, book_id) {
            None => Err(book_not_found_error(book_id)),
            Some(book) => match find_chapter(&book.chapters, chapter_no) {
                None => Err(chapter_not_found_error(chapter_no, book_id)),
                Some(chapter) => match find_verse(&chapter.verses, verse_no) {
                    None => Err(verse_not_found_error(verse_no, chapter_no, book_id)),
                    Some(verse) => Ok(
                        BibleResponse { success: true, data: verse.clone() },
                    ),
                },
            },
        }
    }

    /// The response carrying all search hits for a query.
    pub fn search_response(&self, query: &str) -> (r: BibleResponse<Vec<SearchResult>>)
        ensures
            r.success,
            hits_view(r.data@) == spec_search(self@, lower_of(query@)),
            query@.len() == 0 ==> hits_view(r.data@) == all_hits(self@),
    {
        BibleResponse { success: true, data: self.search(query) }
    }

    /// The verse numbered `verse_no` of the given chapter and book, if any.
    pub fn get_verse(&self, book_id: &str, chapter_no: &str, verse_no: &str) -> (r: Option<
        &Verse,
    >)
        ensures
            match r {
                Some(v) => spec_get_verse(self@, book_id@, chapter_no@, verse_no@) == Some(v@),
                None => spec_get_verse(self@, book_id@, chapter_no@, verse_no@) is None,
            },
    {
        match find_book(&self.books, book_id) {
            None => None,
            Some(book) => match find_chapter(&book.chapters, chapter_no) {
                None => None,
                Some(chapter) => find_verse(&chapter.verses, verse_no),
            },
        }
    }
}

} // verus!
