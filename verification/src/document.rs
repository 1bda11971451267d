use vstd::prelude::*;
use crate::hostname::{get_hostname, parsed_url_host, spec_hostname_or_url};

verus! {

/// A saved document as the list endpoint describes it.
///
/// `tags` holds the names of the document's tags, in the order in which the
/// caller gives them (the program passes them sorted by name).
/// `reading_progress` holds the bit pattern of the single-precision reading
/// fraction; the library never interprets it, it only stores, copies and
/// replaces it.
#[derive(Clone, Debug)]
pub struct Document {
    pub id: String,
    pub title: String,
    pub author: Option<String>,
    pub source: Option<String>,
    pub site_name: Option<String>,
    pub source_url: String,
    pub location: String,
    pub category: String,
    pub html_content: Option<String>,
    pub created_at: String,
    pub published_date: Option<String>,
    pub summary: Option<String>,
    pub first_opened_at: Option<String>,
    pub tags: Option<Vec<String>>,
    pub reading_progress: u32,
}

/// One page of the document list, with the cursor of the page after it.
#[derive(Debug)]
pub struct ListResponse {
    pub results: Vec<Document>,
    pub next_page_cursor: Option<String>,
}

/// Whether `s` holds the text `lit`.
pub fn text_is(s: &String, lit: &str) -> (r: bool)
    ensures
        r == (s@ == lit@),
{
    s.eq(&String::from_str(lit))
}

/// The view of an optional string.
pub open spec fn opt_view(o: Option<String>) -> Option<Seq<char>> {
    match o {
        Some(s) => Some(s@),
        None => None,
    }
}

/// The site name that feeds imported through the reader's own RSS carry.
pub open spec fn rss_site_name() -> Seq<char> {
    "Reader RSS"@
}

/// The views of a list of strings.
pub open spec fn views(v: Seq<String>) -> Seq<Seq<char>> {
    v.map_values(|s: String| s@)
}

impl Document {
    /// A document counts as seen once it has been opened.
    pub open spec fn spec_is_seen(&self) -> bool {
        self.first_opened_at is Some
    }

    /// Whether the document has been opened.
    #[verifier::when_used_as_spec(spec_is_seen)]
    pub fn is_seen(&self) -> (seen: bool)
        ensures
            seen == self.spec_is_seen(),
    {
        self.first_opened_at.is_some()
    }

    /// A listed document is the one meant by `(id, url)` when its id is `id`,
    /// or when its source URL is `url` and `url` is not empty.
    pub open spec fn is_listed_match(self, id: Seq<char>, url: Seq<char>) -> bool {
        self.id@ == id || (self.source_url@ == url && url.len() > 0)
    }

    /// The document open in the reader is the one meant by `(id, url)` when its
    /// id is `id` or its source URL is `url`.
    pub open spec fn is_open_match(self, id: Seq<char>, url: Seq<char>) -> bool {
        self.id@ == id || self.source_url@ == url
    }

    /// Whether this listed document is the one meant by `(id, url)`.
    pub fn matches_listed(&self, id: &String, url: &String) -> (r: bool)
        ensures
            r == self.is_listed_match(id@, url@),
    {
        self.id.eq(id) || (self.source_url.eq(url) && !url.as_str().is_empty())
    }

    /// Whether this document, open in the reader, is the one meant by `(id, url)`.
    pub fn matches_open(&self, id: &String, url: &String) -> (r: bool)
        ensures
            r == self.is_open_match(id@, url@),
    {
        self.id.eq(id) || self.source_url.eq(url)
    }

    /// The names of the document's tags; none when it has no tag list.
    pub open spec fn tag_views(self) -> Seq<Seq<char>> {
        match self.tags {
            Some(t) => views(t@),
            None => Seq::empty(),
        }
    }

    /// A copy of the names of the document's tags.
    pub fn tag_names(&self) -> (r: Vec<String>)
        ensures
            views(r@) == self.tag_views(),
    {
        let mut out: Vec<String> = Vec::new();
        match &self.tags {
            Some(t) => {
                let n = t.len();
                for i in 0..n
                    invariant
                        n == t@.len(),
                        views(out@) == views(t@).take(i as int),
                {
                    out.push(t[i].clone());
                    assert(views(t@).take(i + 1) == views(t@).take(i as int).push(t@[i as int]@));
                }
                assert(views(t@).take(n as int) == views(t@));
            },
            None => {},
        }
        out
    }

    /// What the source column shows: the site name unless it is the reader's
    /// own RSS name, else the source under the same rule, else the host of the
    /// source URL.
    pub open spec fn spec_source_display(self) -> Seq<char> {
        let host = spec_hostname_or_url(parsed_url_host(self.source_url@), self.source_url@);
        match self.site_name {
            Some(sn) => if sn@ != rss_site_name() { sn@ } else { host },
            None => match self.source {
                Some(s) => if s@ != rss_site_name() { s@ } else { host },
                None => host,
            },
        }
    }

    /// The text of the source column.
    pub fn source_display(&self) -> (r: String)
        ensures
            r@ == self.spec_source_display(),
    {
        let rss = String::from_str("Reader RSS");
        match &self.site_name {
            Some(sn) => {
                if !sn.eq(&rss) {
                    sn.clone()
                } else {
                    get_hostname(self.source_url.as_str())
                }
            },
            None => match &self.source {
                Some(s) => {
                    if !s.eq(&rss) {
                        s.clone()
                    } else {
                        get_hostname(self.source_url.as_str())
                    }
                },
                None => get_hostname(self.source_url.as_str()),
            },
        }
    }

    /// The text of the author column: the author, or `Unknown`.
    pub fn author_display(&self) -> (r: String)
        ensures
            r@ == (match self.author {
                Some(a) => a@,
                None => "Unknown"@,
            }),
    {
        match &self.author {
            Some(a) => a.clone(),
            None => String::from_str("Unknown"),
        }
    }

    /// The marker of the first column: a dot for an unread document.
    pub fn unread_marker(&self) -> (r: &'static str)
        ensures
            r@ == (if self.spec_is_seen() { " "@ } else { "●"@ }),
    {
        if !self.is_seen() {
            "●"
        } else {
            " "
        }
    }
}

} // verus!
