use vstd::prelude::*;
use crate::document::{Document, ListResponse, opt_view, views};
use crate::ui::{ViewState, Location};
use crate::config::AppConfig;
use crate::api::{UpdateDocumentRequest, list_query, spec_list_query, pair_views};
use crate::tags::{replaced_tags, with_progress_tag};

verus! {

/// The bit pattern of the reading fraction one: a document read to its end.
pub const FULL_PROGRESS: u32 = 0x3f80_0000;

/// The mark written into `first_opened_at` when the reader opens a document
/// before the service has recorded it.
pub open spec fn local_mark() -> Seq<char> {
    "local"@
}

/// `b` is `a` marked as opened here, with nothing else changed.
pub open spec fn opened_from(a: Document, b: Document) -> bool {
    &&& b == Document { first_opened_at: b.first_opened_at, ..a }
    &&& opt_view(b.first_opened_at) == Some(local_mark())
}

/// `b` is `a` marked as seen (read to its end) or unseen, with nothing else changed.
pub open spec fn seen_from(a: Document, b: Document, seen: bool) -> bool {
    &&& b == Document { first_opened_at: b.first_opened_at, reading_progress: b.reading_progress, ..a }
    &&& if seen {
        opt_view(b.first_opened_at) == Some(local_mark()) && b.reading_progress == FULL_PROGRESS
    } else {
        b.first_opened_at is None && b.reading_progress == a.reading_progress
    }
}

/// The document with its reading progress replaced.
pub open spec fn with_progress(d: Document, progress: u32) -> Document {
    Document { reading_progress: progress, ..d }
}

fn mark_opened(d: Document) -> (r: Document)
    ensures
        opened_from(d, r),
{
    let mut d = d;
    d.first_opened_at = Some(String::from_str("local"));
    d
}

fn mark_seen(d: Document, seen: bool) -> (r: Document)
    ensures
        seen_from(d, r, seen),
{
    let mut d = d;
    if seen {
        d.first_opened_at = Some(String::from_str("local"));
        d.reading_progress = FULL_PROGRESS;
    } else {
        d.first_opened_at = None;
    }
    d
}

/// The listed documents with every one meant by `(id, url)` marked as opened.
fn mark_listed_opened(docs: Vec<Document>, id: &String, url: &String) -> (r: Vec<Document>)
    ensures
        r@.len() == docs@.len(),
        forall|i: int|
            0 <= i < docs@.len() ==> if (#[trigger] docs@[i]).is_listed_match(id@, url@) {
                opened_from(docs@[i], r@[i])
            } else {
                r@[i] == docs@[i]
            },
{
    let ghost old_docs = docs@;
    let mut out: Vec<Document> = Vec::new();
    for d in it: docs.into_iter()
        invariant
            it.seq() == old_docs,
            out@.len() == it.index(),
            forall|i: int|
                0 <= i < it.index() ==> if (#[trigger] old_docs[i]).is_listed_match(id@, url@) {
                    opened_from(old_docs[i], out@[i])
                } else {
                    out@[i] == old_docs[i]
                },
    {
        if d.matches_listed(id, url) {
            out.push(mark_opened(d));
        } else {
            out.push(d);
        }
    }
    out
}


/// The listed documents with every one meant by `(id, url)` marked seen or unseen.
fn mark_listed_seen(docs: Vec<Document>, id: &String, url: &String, seen: bool) -> (r: Vec<Document>)
    ensures
        r@.len() == docs@.len(),
        forall|i: int|
            0 <= i < docs@.len() ==> if (#[trigger] docs@[i]).is_listed_match(id@, url@) {
                seen_from(docs@[i], r@[i], seen)
            } else {
                r@[i] == docs@[i]
            },
{
    let ghost old_docs = docs@;
    let mut out: Vec<Document> = Vec::new();
    for d in it: docs.into_iter()
        invariant
            it.seq() == old_docs,
            out@.len() == it.index(),
            forall|i: int|
                0 <= i < it.index() ==> if (#[trigger] old_docs[i]).is_listed_match(id@, url@) {
                    seen_from(old_docs[i], out@[i], seen)
                } else {
                    out@[i] == old_docs[i]
                },
    {
        if d.matches_listed(id, url) {
            out.push(mark_seen(d, seen));
        } else {
            out.push(d);
        }
    }
    out
}

/// The listed documents with the reading progress of every one meant by
/// `(id, url)` replaced.
pub open spec fn listed_with_progress(docs: Seq<Document>, id: Seq<char>, url: Seq<char>, progress: u32) -> Seq<Document> {
    docs.map_values(|d: Document| if d.is_listed_match(id, url) { with_progress(d, progress) } else { d })
}

fn set_listed_progress(docs: Vec<Document>, id: &String, url: &String, progress: u32) -> (r: Vec<Document>)
    ensures
        r@ == listed_with_progress(docs@, id@, url@, progress),
{
    let ghost old_docs = docs@;
    let mut out: Vec<Document> = Vec::new();
    for d in it: docs.into_iter()
        invariant
            it.seq() == old_docs,
            out@ == listed_with_progress(old_docs.take(it.index()), id@, url@, progress),
    {
        let ghost i = it.index();
        assert(old_docs.take(i + 1) == old_docs.take(i).push(old_docs[i]));
        if d.matches_listed(id, url) {
            let mut d = d;
            d.reading_progress = progress;
            out.push(d);
        } else {
            out.push(d);
        }
        assert(out@ == listed_with_progress(old_docs.take(i + 1), id@, url@, progress));
    }
    assert(old_docs.take(old_docs.len() as int) == old_docs);
    out
}

/// The listed documents other than those meant by `(id, url)`, in their order.
pub open spec fn listed_without(docs: Seq<Document>, id: Seq<char>, url: Seq<char>) -> Seq<Document> {
    docs.filter(|d: Document| !d.is_listed_match(id, url))
}

proof fn lemma_listed_without_push(docs: Seq<Document>, d: Document, id: Seq<char>, url: Seq<char>)
    ensures
        listed_without(docs.push(d), id, url) == if d.is_listed_match(id, url) {
            listed_without(docs, id, url)
        } else {
            listed_without(docs, id, url).push(d)
        },
{
    reveal(Seq::filter);
    assert(docs.push(d).drop_last() == docs);
}

fn remove_listed(docs: Vec<Document>, id: &String, url: &String) -> (r: Vec<Document>)
    ensures
        r@ == listed_without(docs@, id@, url@),
{
    let ghost old_docs = docs@;
    let mut out: Vec<Document> = Vec::new();
    for d in it: docs.into_iter()
        invariant
            it.seq() == old_docs,
            out@ == listed_without(old_docs.take(it.index()), id@, url@),
    {
        let ghost i = it.index();
        assert(old_docs.take(i + 1) == old_docs.take(i).push(old_docs[i]));
        proof {
            lemma_listed_without_push(old_docs.take(i), old_docs[i], id@, url@);
        }
        if !d.matches_listed(id, url) {
            out.push(d);
        }
    }
    assert(old_docs.take(old_docs.len() as int) == old_docs);
    out
}

/// The first listed document meant by `(id, url)`.
pub open spec fn first_listed_match(docs: Seq<Document>, id: Seq<char>, url: Seq<char>) -> Option<Document>
    decreases docs.len(),
{
    if docs.len() == 0 {
        None
    } else {
        let earlier = first_listed_match(docs.drop_last(), id, url);
        if earlier is Some {
            earlier
        } else if docs.last().is_listed_match(id, url) {
            Some(docs.last())
        } else {
            None
        }
    }
}

proof fn lemma_first_listed_match_extends(docs: Seq<Document>, k: int, id: Seq<char>, url: Seq<char>)
    requires
        0 <= k <= docs.len(),
        first_listed_match(docs.take(k), id, url) is Some,
    ensures
        first_listed_match(docs, id, url) == first_listed_match(docs.take(k), id, url),
    decreases docs.len() - k,
{
    if k < docs.len() {
        assert(docs.take(k + 1).drop_last() == docs.take(k));
        lemma_first_listed_match_extends(docs, k + 1, id, url);
    } else {
        assert(docs.take(k) == docs);
    }
}

/// The tag names of the first nonempty list among those of the listed
/// documents meant by `(id, url)`, in their order; none when there is none.
pub open spec fn first_listed_tags(docs: Seq<Document>, id: Seq<char>, url: Seq<char>) -> Seq<Seq<char>>
    decreases docs.len(),
{
    if docs.len() == 0 {
        Seq::empty()
    } else {
        let earlier = first_listed_tags(docs.drop_last(), id, url);
        if earlier.len() > 0 {
            earlier
        } else if docs.last().is_listed_match(id, url) {
            docs.last().tag_views()
        } else {
            Seq::empty()
        }
    }
}


/// A reading position waiting to be sent: the document's id and source URL,
/// and the bit pattern of its reading fraction.
#[derive(Clone, Debug)]
pub struct PendingProgress {
    pub id: String,
    pub source_url: String,
    pub progress: u32,
}

/// The state of a reading session: the location on show, its page of
/// documents and the selection in it, the view, the page cursors, the last
/// error, the reader's scroll position and a reading position not yet sent.
pub struct App {
    pub location: String,
    pub articles: Vec<Document>,
    pub selected: Option<usize>,
    pub view: ViewState,
    pub current_cursor: Option<String>,
    pub next_page_cursor: Option<String>,
    pub prev_page_cursors: Vec<Option<String>>,
    pub error: Option<String>,
    pub scroll_offset: u16,
    pub pending_progress: Option<PendingProgress>,
}

/// The selection after moving down: the next row, the first after the last.
pub open spec fn spec_next_selection(selected: Option<usize>, len: nat) -> Option<usize> {
    if len == 0 {
        selected
    } else {
        match selected {
            Some(i) => if i >= len - 1 { Some(0usize) } else { Some((i + 1) as usize) },
            None => Some(0usize),
        }
    }
}

/// The selection after moving up: the row before, the last before the first.
pub open spec fn spec_prev_selection(selected: Option<usize>, len: nat) -> Option<usize> {
    if len == 0 {
        selected
    } else {
        match selected {
            Some(i) => if i == 0 { Some((len - 1) as usize) } else { Some((i - 1) as usize) },
            None => Some(0usize),
        }
    }
}

/// The selection once the list has shrunk to `len` rows: a selection past
/// the end moves to the last row, and an empty list has none.
pub open spec fn clamped_selection(selected: Option<usize>, len: nat) -> Option<usize> {
    match selected {
        Some(s) => if s >= len && len > 0 {
            Some((len - 1) as usize)
        } else if len == 0 {
            None
        } else {
            Some(s)
        },
        None => None,
    }
}

/// The page history after a page has loaded: the page left behind is
/// remembered when the move goes forward.
pub open spec fn history_after_page(history: Seq<Option<String>>, current: Option<String>, forward: bool) -> Seq<Option<String>> {
    if forward {
        history.push(current)
    } else {
        history
    }
}

/// The cursor of the page to go back to, and the history after taking it.
pub open spec fn history_back(history: Seq<Option<String>>) -> (Option<Option<String>>, Seq<Option<String>>) {
    if history.len() == 0 {
        (None, history)
    } else {
        (Some(history.last()), history.drop_last())
    }
}

/// The tags to carry into a seen or archive update of the document meant by
/// `(id, url)`: those of the open document when it is that document and has
/// any, else those of the first listed document meant by it.
pub open spec fn seen_update_tags(view: ViewState, docs: Seq<Document>, id: Seq<char>, url: Seq<char>) -> Seq<Seq<char>> {
    let from_open = match view {
        ViewState::Read { doc, .. } => if doc.is_open_match(id, url) { doc.tag_views() } else { Seq::empty() },
        ViewState::List => Seq::empty(),
    };
    if from_open.len() > 0 {
        from_open
    } else {
        match first_listed_match(docs, id, url) {
            Some(d) => d.tag_views(),
            None => Seq::empty(),
        }
    }
}

/// The tags to carry into a progress update of the document meant by
/// `(id, url)`: those of the open document when it is that document and has
/// any, else the first nonempty tag list among the listed documents meant by it.
pub open spec fn progress_update_tags(view: ViewState, docs: Seq<Document>, id: Seq<char>, url: Seq<char>) -> Seq<Seq<char>> {
    let from_open = match view {
        ViewState::Read { doc, .. } => if doc.is_open_match(id, url) { doc.tag_views() } else { Seq::empty() },
        ViewState::List => Seq::empty(),
    };
    if from_open.len() > 0 {
        from_open
    } else {
        first_listed_tags(docs, id, url)
    }
}

/// Whether the open view holds a document meant by `(id, url)`.
pub open spec fn open_doc_matches(view: ViewState, id: Seq<char>, url: Seq<char>) -> bool {
    match view {
        ViewState::Read { doc, .. } => doc.is_open_match(id, url),
        ViewState::List => false,
    }
}

impl App {
    /// A session on the configured location, with nothing loaded yet.
    pub fn new(config: AppConfig) -> (app: App)
        ensures
            app.location == config.default_location,
            app.articles@.len() == 0,
            app.selected is None,
            app.view is List,
            app.current_cursor is None,
            app.next_page_cursor is None,
            app.prev_page_cursors@.len() == 0,
            app.error is None,
            app.scroll_offset == 0,
            app.pending_progress is None,
    {
        App {
            location: config.default_location,
            articles: Vec::new(),
            selected: None,
            view: ViewState::List,
            current_cursor: None,
            next_page_cursor: None,
            prev_page_cursors: Vec::new(),
            error: None,
            scroll_offset: 0,
            pending_progress: None,
        }
    }
}


/// A copy of an optional string.
pub fn copy_opt(o: &Option<String>) -> (r: Option<String>)
    ensures
        r == *o,
{
    match o {
        Some(s) => Some(s.clone()),
        None => None,
    }
}

/// `b` is view `a` with the open document, where it is the one meant by
/// `(id, url)`, marked seen or unseen.
pub open spec fn view_seen_from(a: ViewState, b: ViewState, id: Seq<char>, url: Seq<char>, seen: bool) -> bool {
    match a {
        ViewState::Read { doc, content } => if doc.is_open_match(id, url) {
            b matches ViewState::Read { doc: d2, content: c2 } && c2 == content && seen_from(doc, d2, seen)
        } else {
            b == a
        },
        ViewState::List => b == a,
    }
}

/// The document in focus, which the keys that mark, archive and move act on:
/// the open document in the reader, the selected row in the list.
#[derive(Clone, Debug)]
pub struct FocusTarget {
    pub id: String,
    pub source_url: String,
    pub seen: bool,
}

impl App {
    fn take_articles(&mut self) -> (r: Vec<Document>)
        ensures
            r == old(self).articles,
            *final(self) == (App { articles: final(self).articles, ..*old(self) }),
            final(self).articles@.len() == 0,
    {
        let mut docs: Vec<Document> = Vec::new();
        core::mem::swap(&mut self.articles, &mut docs);
        docs
    }

    fn take_view(&mut self) -> (r: ViewState)
        ensures
            r == old(self).view,
            *final(self) == (App { view: ViewState::List, ..*old(self) }),
    {
        let mut v = ViewState::List;
        core::mem::swap(&mut self.view, &mut v);
        v
    }

    /// Takes in the outcome of loading a page of the location on show, loaded
    /// from `cursor`. A page replaces the list, selects its first row, clears
    /// the error and, when the move went `forward`, remembers the page left
    /// behind; an error is kept for the footer and changes nothing else.
    pub fn finish_fetch(&mut self, cursor: Option<String>, forward: bool, result: Result<ListResponse, String>)
        ensures
            match result {
                Ok(page) => {
                    &&& *final(self) == (App {
                        articles: page.results,
                        next_page_cursor: page.next_page_cursor,
                        current_cursor: cursor,
                        selected: Some(0usize),
                        error: None,
                        prev_page_cursors: final(self).prev_page_cursors,
                        ..*old(self)
                    })
                    &&& final(self).prev_page_cursors@ == history_after_page(
                        old(self).prev_page_cursors@,
                        old(self).current_cursor,
                        forward,
                    )
                },
                Err(msg) => *final(self) == (App { error: Some(msg), ..*old(self) }),
            },
    {
        match result {
            Ok(page) => {
                if forward {
                    let here = copy_opt(&self.current_cursor);
                    self.prev_page_cursors.push(here);
                }
                self.articles = page.results;
                self.next_page_cursor = page.next_page_cursor;
                self.current_cursor = cursor;
                self.selected = Some(0);
                self.error = None;
            },
            Err(msg) => {
                self.error = Some(msg);
            },
        }
    }

    /// Keeps an error for the footer.
    pub fn record_error(&mut self, msg: String)
        ensures
            *final(self) == (App { error: Some(msg), ..*old(self) }),
    {
        self.error = Some(msg);
    }

    /// Keeps the error of a failed progress update for the footer.
    pub fn progress_update_failed(&mut self, msg: &str)
        ensures
            *final(self) == (App { error: final(self).error, ..*old(self) }),
            opt_view(final(self).error) == Some("Failed to update progress: "@ + msg@),
    {
        let mut s = String::from_str("Failed to update progress: ");
        s.append(msg);
        self.error = Some(s);
    }

    /// The cursor of the page after the one on show.
    pub fn next_cursor(&self) -> (r: Option<String>)
        ensures
            r == self.next_page_cursor,
    {
        copy_opt(&self.next_page_cursor)
    }

    /// Takes the cursor of the page before the one on show off the history.
    pub fn take_previous_cursor(&mut self) -> (r: Option<Option<String>>)
        ensures
            (r, final(self).prev_page_cursors@) == history_back(old(self).prev_page_cursors@),
            *final(self) == (App { prev_page_cursors: final(self).prev_page_cursors, ..*old(self) }),
    {
        self.prev_page_cursors.pop()
    }

    /// Turns to another location: its name becomes the location on show and
    /// the page history is forgotten.
    pub fn switch_location(&mut self, location: Location)
        ensures
            final(self).location@ == location.spec_name(),
            final(self).prev_page_cursors@.len() == 0,
            *final(self) == (App {
                location: final(self).location,
                prev_page_cursors: final(self).prev_page_cursors,
                ..*old(self)
            }),
    {
        self.location = String::from_str(location.name());
        self.prev_page_cursors.clear();
    }

    /// Whether the feed is on show in the list, which is kept fresh.
    pub fn wants_feed_refresh(&self) -> (r: bool)
        ensures
            r == (self.location@ == "feed"@ && self.view is List),
    {
        crate::document::text_is(&self.location, "feed") && match self.view {
            ViewState::List => true,
            ViewState::Read { .. } => false,
        }
    }

    /// Moves the selection down one row, from the last row to the first.
    pub fn select_next(&mut self)
        ensures
            final(self).selected == spec_next_selection(old(self).selected, old(self).articles@.len()),
            *final(self) == (App { selected: final(self).selected, ..*old(self) }),
    {
        let len = self.articles.len();
        if len > 0 {
            let i = match self.selected {
                Some(i) => if i >= len - 1 { 0 } else { i + 1 },
                None => 0,
            };
            self.selected = Some(i);
        }
    }

    /// Moves the selection up one row, from the first row to the last.
    pub fn select_prev(&mut self)
        ensures
            final(self).selected == spec_prev_selection(old(self).selected, old(self).articles@.len()),
            *final(self) == (App { selected: final(self).selected, ..*old(self) }),
    {
        let len = self.articles.len();
        if len > 0 {
            let i = match self.selected {
                Some(i) => if i == 0 { len - 1 } else { i - 1 },
                None => 0,
            };
            self.selected = Some(i);
        }
    }

    /// The selected document, if the selection falls on one.
    pub fn selected_document(&self) -> (r: Option<&Document>)
        ensures
            r == (match self.selected {
                Some(i) => if i < self.articles@.len() { Some(&self.articles@[i as int]) } else { None },
                None => None,
            }),
    {
        match self.selected {
            Some(i) => if i < self.articles.len() { Some(&self.articles[i]) } else { None },
            None => None,
        }
    }

    /// The id, source URL and seen state of the document in focus.
    pub fn focus_target(&self) -> (r: Option<FocusTarget>)
        ensures
            match self.view {
                ViewState::Read { doc, .. } => r matches Some(t) && t.id@ == doc.id@
                    && t.source_url@ == doc.source_url@ && t.seen == doc.spec_is_seen(),
                ViewState::List => match self.selected {
                    Some(i) => if i < self.articles@.len() {
                        r matches Some(t) && t.id@ == self.articles@[i as int].id@
                            && t.source_url@ == self.articles@[i as int].source_url@
                            && t.seen == self.articles@[i as int].spec_is_seen()
                    } else {
                        r is None
                    },
                    None => r is None,
                },
            },
    {
        match &self.view {
            ViewState::Read { doc, .. } => Some(FocusTarget {
                id: doc.id.clone(),
                source_url: doc.source_url.clone(),
                seen: doc.is_seen(),
            }),
            ViewState::List => match self.selected_document() {
                Some(doc) => Some(FocusTarget {
                    id: doc.id.clone(),
                    source_url: doc.source_url.clone(),
                    seen: doc.is_seen(),
                }),
                None => None,
            },
        }
    }
}


/// The tag names of the first listed document meant by `(id, url)`.
fn first_match_tags(docs: &Vec<Document>, id: &String, url: &String) -> (r: Vec<String>)
    ensures
        views(r@) == (match first_listed_match(docs@, id@, url@) {
            Some(d) => d.tag_views(),
            None => Seq::empty(),
        }),
{
    let n = docs.len();
    for i in 0..n
        invariant
            n == docs@.len(),
            first_listed_match(docs@.take(i as int), id@, url@) is None,
    {
        assert(docs@.take(i + 1).drop_last() == docs@.take(i as int));
        if docs[i].matches_listed(id, url) {
            proof {
                lemma_first_listed_match_extends(docs@, i + 1, id@, url@);
            }
            return docs[i].tag_names();
        }
    }
    assert(docs@.take(n as int) == docs@);
    Vec::new()
}

/// The first nonempty tag list among the listed documents meant by `(id, url)`.
fn first_nonempty_match_tags(docs: &Vec<Document>, id: &String, url: &String) -> (r: Vec<String>)
    ensures
        views(r@) == first_listed_tags(docs@, id@, url@),
{
    let mut names: Vec<String> = Vec::new();
    let n = docs.len();
    for i in 0..n
        invariant
            n == docs@.len(),
            views(names@) == first_listed_tags(docs@.take(i as int), id@, url@),
    {
        assert(docs@.take(i + 1).drop_last() == docs@.take(i as int));
        if names.len() == 0 && docs[i].matches_listed(id, url) {
            names = docs[i].tag_names();
        }
    }
    assert(docs@.take(n as int) == docs@);
    names
}

/// Whether some listed document is the one meant by `(id, url)`.
fn any_listed_match(docs: &Vec<Document>, id: &String, url: &String) -> (r: bool)
    ensures
        r == exists|i: int| 0 <= i < docs@.len() && (#[trigger] docs@[i]).is_listed_match(id@, url@),
{
    let n = docs.len();
    for i in 0..n
        invariant
            n == docs@.len(),
            forall|j: int| 0 <= j < i ==> !(#[trigger] docs@[j]).is_listed_match(id@, url@),
    {
        if docs[i].matches_listed(id, url) {
            return true;
        }
    }
    false
}

/// The view with the open document's reading progress replaced, where it is
/// the document meant by `(id, url)`.
pub open spec fn view_with_progress(v: ViewState, id: Seq<char>, url: Seq<char>, progress: u32) -> ViewState {
    match v {
        ViewState::Read { doc, content } => if doc.is_open_match(id, url) {
            ViewState::Read { doc: with_progress(doc, progress), content }
        } else {
            v
        },
        ViewState::List => v,
    }
}

/// The request that files a document under `target`.
pub fn move_request(target: &str) -> (r: UpdateDocumentRequest)
    ensures
        r.seen is None,
        opt_view(r.location) == Some(target@),
        r.reading_progress is None,
        r.tags is None,
{
    UpdateDocumentRequest { seen: None, location: Some(target.to_owned()), reading_progress: None, tags: None }
}

/// The request that records a reading progress, with the progress tag for
/// `percent` replacing any progress tag among `tags`.
pub fn progress_request(progress: u32, tags: &Vec<String>, percent: i32) -> (r: UpdateDocumentRequest)
    ensures
        r.seen is None,
        r.location is None,
        r.reading_progress == Some(progress),
        r.tags matches Some(t) && views(t@) == replaced_tags(views(tags@), percent as int),
{
    UpdateDocumentRequest {
        seen: None,
        location: None,
        reading_progress: Some(progress),
        tags: Some(with_progress_tag(tags, percent)),
    }
}

impl App {
    /// Shows a document in the reader with its text, scrolled to
    /// `initial_scroll`. A document not opened before is marked as opened
    /// here, and so is every listed document meant by its id and source URL.
    pub fn open_article(&mut self, article: Document, content: String, initial_scroll: u16)
        ensures
            final(self).scroll_offset == initial_scroll,
            final(self).view matches ViewState::Read { doc, content: c } && c == content && if article.spec_is_seen() {
                doc == article
            } else {
                opened_from(article, doc)
            },
            article.spec_is_seen() ==> final(self).articles == old(self).articles,
            !article.spec_is_seen() ==> final(self).articles@.len() == old(self).articles@.len(),
            !article.spec_is_seen() ==> forall|i: int|
                0 <= i < old(self).articles@.len() ==> if (#[trigger] old(self).articles@[i]).is_listed_match(
                    article.id@,
                    article.source_url@,
                ) {
                    opened_from(old(self).articles@[i], final(self).articles@[i])
                } else {
                    final(self).articles@[i] == old(self).articles@[i]
                },
            *final(self) == (App {
                view: final(self).view,
                articles: final(self).articles,
                scroll_offset: final(self).scroll_offset,
                ..*old(self)
            }),
    {
        let doc = if article.is_seen() {
            article
        } else {
            let id = article.id.clone();
            let url = article.source_url.clone();
            let docs = self.take_articles();
            self.articles = mark_listed_opened(docs, &id, &url);
            mark_opened(article)
        };
        self.view = ViewState::Read { doc, content };
        self.scroll_offset = initial_scroll;
    }

    /// The tag names to carry into a seen or archive update of the document
    /// meant by `(id, url)`.
    pub fn seen_tags(&self, id: &String, url: &String) -> (r: Vec<String>)
        ensures
            views(r@) == seen_update_tags(self.view, self.articles@, id@, url@),
    {
        let mut names: Vec<String> = Vec::new();
        match &self.view {
            ViewState::Read { doc, .. } => {
                if doc.matches_open(id, url) {
                    names = doc.tag_names();
                }
            },
            ViewState::List => {},
        }
        if names.len() == 0 {
            names = first_match_tags(&self.articles, id, url);
        }
        names
    }

    /// The request that marks the document meant by `(id, url)` seen when it
    /// was not, with its progress full and its progress tag at 100, or unseen
    /// when it was.
    pub fn toggle_seen_request(&self, id: &String, url: &String, current_seen: bool) -> (r: UpdateDocumentRequest)
        ensures
            r.seen == Some(!current_seen),
            r.location is None,
            r.reading_progress == (if current_seen { None } else { Some(FULL_PROGRESS) }),
            current_seen ==> r.tags is None,
            !current_seen ==> (r.tags matches Some(t) && views(t@) == replaced_tags(
                seen_update_tags(self.view, self.articles@, id@, url@),
                100,
            )),
    {
        let new_seen = !current_seen;
        if new_seen {
            let names = self.seen_tags(id, url);
            UpdateDocumentRequest {
                seen: Some(true),
                location: None,
                reading_progress: Some(FULL_PROGRESS),
                tags: Some(with_progress_tag(&names, 100)),
            }
        } else {
            UpdateDocumentRequest { seen: Some(false), location: None, reading_progress: None, tags: None }
        }
    }

    /// The request that archives the document meant by `(id, url)`, marking it
    /// seen with its progress full and its progress tag at 100.
    pub fn archive_request(&self, id: &String, url: &String) -> (r: UpdateDocumentRequest)
        ensures
            r.seen == Some(true),
            opt_view(r.location) == Some("archive"@),
            r.reading_progress == Some(FULL_PROGRESS),
            r.tags matches Some(t) && views(t@) == replaced_tags(
                seen_update_tags(self.view, self.articles@, id@, url@),
                100,
            ),
    {
        let names = self.seen_tags(id, url);
        UpdateDocumentRequest {
            seen: Some(true),
            location: Some(String::from_str("archive")),
            reading_progress: Some(FULL_PROGRESS),
            tags: Some(with_progress_tag(&names, 100)),
        }
    }

    /// Takes in that the service marked the document meant by `(id, url)`
    /// seen or unseen: the open document and the listed documents meant by it
    /// follow.
    pub fn apply_seen(&mut self, id: &String, url: &String, seen: bool)
        ensures
            view_seen_from(old(self).view, final(self).view, id@, url@, seen),
            final(self).articles@.len() == old(self).articles@.len(),
            forall|i: int|
                0 <= i < old(self).articles@.len() ==> if (#[trigger] old(self).articles@[i]).is_listed_match(id@, url@) {
                    seen_from(old(self).articles@[i], final(self).articles@[i], seen)
                } else {
                    final(self).articles@[i] == old(self).articles@[i]
                },
            *final(self) == (App { view: final(self).view, articles: final(self).articles, ..*old(self) }),
    {
        let v = self.take_view();
        self.view = match v {
            ViewState::Read { doc, content } => {
                if doc.matches_open(id, url) {
                    ViewState::Read { doc: mark_seen(doc, seen), content }
                } else {
                    ViewState::Read { doc, content }
                }
            },
            ViewState::List => ViewState::List,
        };
        let docs = self.take_articles();
        self.articles = mark_listed_seen(docs, id, url, seen);
    }

    /// Drops the listed documents meant by `(id, url)`, keeps the selection on
    /// the list, and leaves the reader when it shows that document.
    fn remove_document(&mut self, id: &String, url: &String)
        ensures
            final(self).articles@ == listed_without(old(self).articles@, id@, url@),
            final(self).selected == clamped_selection(old(self).selected, final(self).articles@.len()),
            final(self).view == (if open_doc_matches(old(self).view, id@, url@) {
                ViewState::List
            } else {
                old(self).view
            }),
            *final(self) == (App {
                articles: final(self).articles,
                selected: final(self).selected,
                view: final(self).view,
                ..*old(self)
            }),
    {
        let docs = self.take_articles();
        self.articles = remove_listed(docs, id, url);
        let len = self.articles.len();
        match self.selected {
            Some(s) => {
                if s >= len && len > 0 {
                    self.selected = Some(len - 1);
                } else if len == 0 {
                    self.selected = None;
                }
            },
            None => {},
        }
        let go_back = match &self.view {
            ViewState::Read { doc, .. } => doc.matches_open(id, url),
            ViewState::List => false,
        };
        if go_back {
            self.view = ViewState::List;
        }
    }

    /// Takes in that the service archived the document meant by `(id, url)`:
    /// it leaves the list, and the reader when it is open there.
    pub fn apply_archive(&mut self, id: &String, url: &String)
        ensures
            old(self).selected matches Some(k) && k < final(self).articles@.len() ==> final(self).selected == old(self).selected,
            final(self).selected matches Some(k) ==> k < final(self).articles@.len(),
            final(self).articles@ == listed_without(old(self).articles@, id@, url@),
            final(self).selected == clamped_selection(old(self).selected, final(self).articles@.len()),
            final(self).view == (if open_doc_matches(old(self).view, id@, url@) {
                ViewState::List
            } else {
                old(self).view
            }),
            *final(self) == (App {
                articles: final(self).articles,
                selected: final(self).selected,
                view: final(self).view,
                ..*old(self)
            }),
    {
        self.remove_document(id, url);
    }

    /// Takes in that the service filed the document meant by `(id, url)` under
    /// `target`: it leaves the list, and the reader, unless `target` is the
    /// location on show.
    pub fn apply_move(&mut self, id: &String, url: &String, target: &str)
        ensures
            old(self).location@ == target@ ==> *final(self) == *old(self),
            old(self).location@ != target@ && (old(self).selected matches Some(k) && k
                < final(self).articles@.len()) ==> final(self).selected == old(self).selected,
            old(self).location@ != target@ ==> {
                &&& final(self).articles@ == listed_without(old(self).articles@, id@, url@)
                &&& final(self).selected == clamped_selection(old(self).selected, final(self).articles@.len())
                &&& final(self).view == (if open_doc_matches(old(self).view, id@, url@) {
                    ViewState::List
                } else {
                    old(self).view
                })
                &&& *final(self) == (App {
                    articles: final(self).articles,
                    selected: final(self).selected,
                    view: final(self).view,
                    ..*old(self)
                })
            },
    {
        if !crate::document::text_is(&self.location, target) {
            self.remove_document(id, url);
        }
    }

    /// Records a reading progress for the document meant by `(id, url)` on the
    /// open document and the listed documents meant by it. Gives the tag names
    /// to carry into the update when some document is meant by it, and
    /// nothing otherwise.
    pub fn record_progress(&mut self, id: &String, url: &String, progress: u32) -> (r: Option<Vec<String>>)
        ensures
            final(self).view == view_with_progress(old(self).view, id@, url@, progress),
            final(self).articles@ == listed_with_progress(old(self).articles@, id@, url@, progress),
            *final(self) == (App { view: final(self).view, articles: final(self).articles, ..*old(self) }),
            r is Some <==> (open_doc_matches(old(self).view, id@, url@) || exists|i: int|
                0 <= i < old(self).articles@.len() && (#[trigger] old(self).articles@[i]).is_listed_match(id@, url@)),
            r matches Some(t) ==> views(t@) == progress_update_tags(old(self).view, old(self).articles@, id@, url@),
    {
        let mut found = false;
        let mut names: Vec<String> = Vec::new();
        let v = self.take_view();
        self.view = match v {
            ViewState::Read { doc, content } => {
                if doc.matches_open(id, url) {
                    names = doc.tag_names();
                    found = true;
                    let mut doc = doc;
                    doc.reading_progress = progress;
                    ViewState::Read { doc, content }
                } else {
                    ViewState::Read { doc, content }
                }
            },
            ViewState::List => ViewState::List,
        };
        if names.len() == 0 {
            names = first_nonempty_match_tags(&self.articles, id, url);
        }
        if any_listed_match(&self.articles, id, url) {
            found = true;
        }
        let docs = self.take_articles();
        self.articles = set_listed_progress(docs, id, url, progress);
        if found {
            Some(names)
        } else {
            None
        }
    }

    /// Records the reading progress reached by scrolling the open document:
    /// on that document, on the listed documents meant by it, and as the
    /// position waiting to be sent.
    pub fn note_scroll_progress(&mut self, progress: u32)
        ensures
            match old(self).view {
                ViewState::Read { doc, content } => {
                    &&& final(self).view == (ViewState::Read { doc: with_progress(doc, progress), content })
                    &&& final(self).articles@ == listed_with_progress(
                        old(self).articles@,
                        doc.id@,
                        doc.source_url@,
                        progress,
                    )
                    &&& final(self).pending_progress matches Some(p) && p.id@ == doc.id@
                        && p.source_url@ == doc.source_url@ && p.progress == progress
                    &&& *final(self) == (App {
                        view: final(self).view,
                        articles: final(self).articles,
                        pending_progress: final(self).pending_progress,
                        ..*old(self)
                    })
                },
                ViewState::List => *final(self) == *old(self),
            },
    {
        let v = self.take_view();
        match v {
            ViewState::Read { doc, content } => {
                let id = doc.id.clone();
                let url = doc.source_url.clone();
                let mut doc = doc;
                doc.reading_progress = progress;
                self.view = ViewState::Read { doc, content };
                let docs = self.take_articles();
                self.articles = set_listed_progress(docs, &id, &url, progress);
                self.pending_progress = Some(PendingProgress { id, source_url: url, progress });
            },
            ViewState::List => {
                self.view = ViewState::List;
            },
        }
    }

    /// Takes the reading position waiting to be sent.
    pub fn take_pending(&mut self) -> (r: Option<PendingProgress>)
        ensures
            r == old(self).pending_progress,
            *final(self) == (App { pending_progress: None, ..*old(self) }),
    {
        self.pending_progress.take()
    }

    /// Scrolls the reader down one row while text remains below the `rows`
    /// rows on show out of `lines`.
    pub fn scroll_down(&mut self, rows: u16, lines: u16)
        requires
            old(self).scroll_offset + rows <= u16::MAX,
        ensures
            final(self).scroll_offset == (if old(self).scroll_offset + rows < lines {
                old(self).scroll_offset + 1
            } else {
                old(self).scroll_offset as int
            }),
            *final(self) == (App { scroll_offset: final(self).scroll_offset, ..*old(self) }),
    {
        if self.scroll_offset + rows < lines {
            self.scroll_offset = self.scroll_offset + 1;
        }
    }

    /// Scrolls the reader up one row, staying at the top.
    pub fn scroll_up(&mut self)
        ensures
            final(self).scroll_offset == (if old(self).scroll_offset > 0 {
                old(self).scroll_offset - 1
            } else {
                0
            }),
            *final(self) == (App { scroll_offset: final(self).scroll_offset, ..*old(self) }),
    {
        self.scroll_offset = self.scroll_offset.saturating_sub(1);
    }

    /// Whether the open document, not yet seen, has been scrolled to within
    /// two lines of its end, which marks it as read.
    pub fn reached_end_unseen(&self, rows: u16, lines: u16) -> (r: bool)
        requires
            self.scroll_offset + rows <= u16::MAX,
        ensures
            r == (match self.view {
                ViewState::Read { doc, .. } => !doc.spec_is_seen() && self.scroll_offset + rows >= (
                if lines >= 2 {
                    lines - 2
                } else {
                    0
                }),
                ViewState::List => false,
            }),
    {
        match &self.view {
            ViewState::Read { doc, .. } => !doc.is_seen() && self.scroll_offset + rows >= lines.saturating_sub(2),
            ViewState::List => false,
        }
    }

    /// Leaves the reader for the list, scrolled back to the top.
    pub fn close_reader(&mut self)
        ensures
            *final(self) == (App { view: ViewState::List, scroll_offset: 0, ..*old(self) }),
    {
        self.view = ViewState::List;
        self.scroll_offset = 0;
    }
}


/// Moving the selection down and then up, or up and then down, comes back to
/// the row it started on, the wrap-around at either end included.
pub proof fn law_selection_round_trip(i: usize, len: nat)
    requires
        i < len,
        len <= usize::MAX,
    ensures
        spec_prev_selection(spec_next_selection(Some(i), len), len) == Some(i),
        spec_next_selection(spec_prev_selection(Some(i), len), len) == Some(i),
{
}

/// Going forward a page and then back returns to the page it left, with the
/// history as it was before.
pub proof fn law_page_back_returns(history: Seq<Option<String>>, current: Option<String>)
    ensures
        history_back(history_after_page(history, current, true)) == (Some(current), history),
{
    assert(history.push(current).drop_last() == history);
}

/// Once the document meant by `(id, url)` has left the list, no listed
/// document is meant by it, every other document stays, and the selection
/// is none or falls on a row.
pub proof fn law_removal_leaves_no_match(docs: Seq<Document>, id: Seq<char>, url: Seq<char>, selected: Option<usize>)
    ensures
        forall|i: int|
            0 <= i < listed_without(docs, id, url).len() ==> !(#[trigger] listed_without(docs, id, url)[i]).is_listed_match(id, url),
        forall|i: int|
            0 <= i < docs.len() && !(#[trigger] docs[i]).is_listed_match(id, url) ==> listed_without(docs, id, url).contains(docs[i]),
        clamped_selection(selected, listed_without(docs, id, url).len()) matches Some(s) ==> s < listed_without(docs, id, url).len(),
{
    let pred = |d: Document| !d.is_listed_match(id, url);
    docs.filter_lemma(pred);
}

/// A document marked seen reads as seen, one marked unseen as unseen.
pub proof fn law_seen_mark_holds(a: Document, b: Document, seen: bool)
    requires
        seen_from(a, b, seen),
    ensures
        b.spec_is_seen() == seen,
{
}

/// A document opened in the reader reads as seen.
pub proof fn law_opened_is_seen(a: Document, b: Document)
    requires
        opened_from(a, b),
    ensures
        b.spec_is_seen(),
{
}


/// Archiving a document a second time changes nothing: the list, the
/// selection and the view after two archives of `(id, url)` are those after one.
pub proof fn law_archive_twice_is_once(
    docs: Seq<Document>,
    selected: Option<usize>,
    view: ViewState,
    id: Seq<char>,
    url: Seq<char>,
)
    ensures
        ({
            let docs1 = listed_without(docs, id, url);
            let sel1 = clamped_selection(selected, docs1.len());
            let view1 = if open_doc_matches(view, id, url) { ViewState::List } else { view };
            let docs2 = listed_without(docs1, id, url);
            let sel2 = clamped_selection(sel1, docs2.len());
            let view2 = if open_doc_matches(view1, id, url) { ViewState::List } else { view1 };
            docs2 == docs1 && sel2 == sel1 && view2 == view1
        }),
{
    lemma_listed_without_again(docs, id, url);
}

proof fn lemma_listed_without_again(docs: Seq<Document>, id: Seq<char>, url: Seq<char>)
    ensures
        listed_without(listed_without(docs, id, url), id, url) == listed_without(docs, id, url),
    decreases docs.len(),
{
    if docs.len() == 0 {
        reveal(Seq::filter);
    } else {
        let rest = docs.drop_last();
        assert(docs == rest.push(docs.last()));
        lemma_listed_without_again(rest, id, url);
        lemma_listed_without_push(rest, docs.last(), id, url);
        if !docs.last().is_listed_match(id, url) {
            lemma_listed_without_push(listed_without(rest, id, url), docs.last(), id, url);
        }
    }
}

/// The query that loads one document, by id, with its HTML content.
pub fn article_query(id: &String) -> (r: Vec<(String, String)>)
    ensures
        pair_views(r@) == spec_list_query(None, None, Some(id@), true),
{
    list_query(None, None, Some(id.clone()), true)
}

impl App {
    /// The query that loads the page of the location on show that starts at
    /// `cursor`, without HTML content.
    pub fn page_query(&self, cursor: Option<String>) -> (r: Vec<(String, String)>)
        ensures
            pair_views(r@) == spec_list_query(Some(self.location@), opt_view(cursor), None, false),
    {
        list_query(Some(self.location.as_str()), cursor, None, false)
    }
}

/// When rows leave the list, a selection that still falls on a row stays
/// where it is; one past the new end moves to the last row; an empty list
/// has no selection, and no selection stays none. The selection after is
/// always none or on a row.
pub proof fn law_clamped_selection_keeps_rows(selected: Option<usize>, len: nat)
    requires
        len <= usize::MAX,
    ensures
        selected matches Some(s) && s < len ==> clamped_selection(selected, len) == selected,
        selected matches Some(s) && s >= len && len > 0 ==> clamped_selection(selected, len) == Some((len - 1) as usize),
        len == 0 ==> clamped_selection(selected, len) is None,
        selected is None ==> clamped_selection(selected, len) is None,
        clamped_selection(selected, len) matches Some(k) ==> k < len,
{
}

} // verus!
