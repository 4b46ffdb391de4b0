//! Cached remote artifacts: the changelog and the news, each with the version
//! token it was fetched under.
use vstd::prelude::*;
use crate::text::{contains, lines, split_lines, text_contains};
use crate::version::{missing_etag, probed_version};

verus! {

/// The changelog's text and the version token it was fetched under.
pub struct Changelog {
    pub text: String,
    pub version: String,
}

/// One news post.
pub struct Post {
    pub title: String,
    pub description: String,
    pub button_url: String,
}

/// The latest news posts and the version token they were fetched under.
pub struct News {
    pub posts: Vec<Post>,
    pub version: String,
}

pub struct ChangelogView {
    pub text: Seq<char>,
    pub version: Seq<char>,
}

pub struct PostView {
    pub title: Seq<char>,
    pub description: Seq<char>,
    pub button_url: Seq<char>,
}

pub struct NewsView {
    pub posts: Seq<PostView>,
    pub version: Seq<char>,
}

impl View for Changelog {
    type V = ChangelogView;

    open spec fn view(&self) -> ChangelogView {
        ChangelogView { text: self.text@, version: self.version@ }
    }
}

impl View for Post {
    type V = PostView;

    open spec fn view(&self) -> PostView {
        PostView {
            title: self.title@,
            description: self.description@,
            button_url: self.button_url@,
        }
    }
}

impl View for News {
    type V = NewsView;

    open spec fn view(&self) -> NewsView {
        NewsView { posts: self.posts@.map_values(|p: Post| p@), version: self.version@ }
    }
}

impl Changelog {
    /// No text, and no version token yet.
    pub fn empty() -> (r: Changelog)
        ensures
            r@ == (ChangelogView { text: Seq::empty(), version: Seq::empty() }),
    {
        Changelog { text: String::new(), version: String::new() }
    }
}

impl News {
    /// No posts, and no version token yet.
    pub fn empty() -> (r: News)
        ensures
            r@ == (NewsView { posts: Seq::empty(), version: Seq::empty() }),
    {
        let r = News { posts: Vec::new(), version: String::new() };
        assert(r@.posts =~= Seq::<PostView>::empty());
        r
    }
}

/// Index of the first of `ls[from..]` that contains `pat`; `ls.len()` where none does.
pub open spec fn first_with(ls: Seq<Seq<char>>, from: nat, pat: Seq<char>) -> nat
    decreases ls.len() - from,
{
    if from >= ls.len() {
        ls.len()
    } else if contains(ls[from as int], pat) {
        from
    } else {
        first_with(ls, from + 1, pat)
    }
}

/// The lines `ls[from..to]`, each followed by a line feed.
pub open spec fn joined_lines(ls: Seq<Seq<char>>, from: int, to: int) -> Seq<char>
    decreases to - from,
{
    if to <= from {
        Seq::empty()
    } else {
        joined_lines(ls, from, to - 1) + ls[to - 1] + "\n"@
    }
}

pub open spec fn unreleased_marker() -> Seq<char> {
    "## [Unreleased]"@
}

pub open spec fn first_release_marker() -> Seq<char> {
    "## [0.1.0]"@
}

/// The unreleased part of a changelog: the lines after the line that holds the
/// unreleased marker and the one below it, up to the first that holds the marker
/// of the first release.
pub open spec fn unreleased_section(body: Seq<char>) -> Seq<char> {
    let ls = lines(body);
    let a = first_with(ls, 0, unreleased_marker());
    let st = if a + 2 <= ls.len() {
        (a + 2) as nat
    } else {
        ls.len()
    };
    joined_lines(ls, st as int, first_with(ls, st, first_release_marker()) as int)
}

proof fn lemma_first_with_bounds(ls: Seq<Seq<char>>, from: nat, pat: Seq<char>)
    requires
        from <= ls.len(),
    ensures
        from <= first_with(ls, from, pat) <= ls.len(),
    decreases ls.len() - from,
{
    if from < ls.len() && !contains(ls[from as int], pat) {
        lemma_first_with_bounds(ls, from + 1, pat);
    }
}

fn find_line_with(ls: &Vec<String>, from: usize, pat: &str) -> (r: usize)
    requires
        from <= ls@.len(),
    ensures
        r == first_with(ls@.map_values(|x: String| x@), from as nat, pat@),
        from <= r <= ls@.len(),
{
    let ghost v = ls@.map_values(|x: String| x@);
    let mut i: usize = from;
    while i < ls.len()
        invariant
            from <= i <= ls@.len(),
            v == ls@.map_values(|x: String| x@),
            first_with(v, i as nat, pat@) == first_with(v, from as nat, pat@),
        decreases ls@.len() - i,
    {
        if text_contains(ls[i].as_str(), pat) {
            return i;
        }
        i += 1;
    }
    i
}

fn join_lines(ls: &Vec<String>, from: usize, to: usize) -> (r: String)
    requires
        from <= to <= ls@.len(),
    ensures
        r@ == joined_lines(ls@.map_values(|x: String| x@), from as int, to as int),
{
    let ghost v = ls@.map_values(|x: String| x@);
    let mut r = String::new();
    let mut i: usize = from;
    while i < to
        invariant
            from <= i <= to <= ls@.len(),
            v == ls@.map_values(|x: String| x@),
            r@ == joined_lines(v, from as int, i as int),
        decreases to - i,
    {
        r.append(ls[i].as_str());
        r.append("\n");
        i += 1;
    }
    r
}

/// The unreleased part of the changelog text `body`.
pub fn changelog_section(body: &str) -> (r: String)
    ensures
        r@ == unreleased_section(body@),
{
    let ls = split_lines(body);
    let a = find_line_with(&ls, 0, "## [Unreleased]");
    let st = if ls.len() >= 2 && a <= ls.len() - 2 {
        a + 2
    } else {
        ls.len()
    };
    let e = find_line_with(&ls, st, "## [0.1.0]");
    join_lines(&ls, st, e)
}

/// How many posts of a feed are kept.
pub const MAX_POSTS: usize = 15;

/// How many lines of a post's text make its description.
pub const DESCRIPTION_LINES: usize = 3;

/// Width, in columns, to which a post's HTML is rendered as text.
pub const DESCRIPTION_WIDTH: usize = 400;

/// The text that html2text renders from HTML at a width; `None` where it fails.
pub uninterp spec fn html_text_of(html: Seq<char>, width: usize) -> Option<Seq<char>>;

/// The text that strip_markdown leaves of a Markdown text.
pub uninterp spec fn markdown_stripped(markdown: Seq<char>) -> Seq<char>;

/// Relies on html2text::from_read: renders HTML as plain text wrapped at `width`
/// columns, or fails; the outcome depends on the HTML and the width alone.
#[verifier::external_body]
fn html_to_text(html: &str, width: usize) -> (r: Option<String>)
    ensures
        match r {
            Some(t) => html_text_of(html@, width) == Some(t@),
            None => html_text_of(html@, width) is None,
        },
{
    html2text::from_read(html.as_bytes(), width).ok()
}

/// Relies on strip_markdown::strip_markdown: removes Markdown markup; the result
/// depends on the text alone.
#[verifier::external_body]
fn strip_markdown_text(markdown: &str) -> (r: String)
    ensures
        r@ == markdown_stripped(markdown@),
{
    strip_markdown::strip_markdown(markdown)
}

/// The lines `ls[..to]` that do not contain `pat`, each followed by a line feed.
pub open spec fn kept_lines(ls: Seq<Seq<char>>, to: int, pat: Seq<char>) -> Seq<char>
    decreases to,
{
    if to <= 0 {
        Seq::empty()
    } else if contains(ls[to - 1], pat) {
        kept_lines(ls, to - 1, pat)
    } else {
        kept_lines(ls, to - 1, pat) + ls[to - 1] + "\n"@
    }
}

/// The first lines of a rendered post, without banner lines, before markup is stripped.
pub open spec fn description_lines_of(text: Seq<char>) -> Seq<char> {
    let ls = lines(text);
    let n = if ls.len() < DESCRIPTION_LINES {
        ls.len() as int
    } else {
        DESCRIPTION_LINES as int
    };
    kept_lines(ls, n, "[banner]"@)
}

pub open spec fn no_description() -> Seq<char> {
    "No description found."@
}

/// The description shown for a post whose rendered text is `text`.
pub open spec fn description_of(text: Seq<char>) -> Seq<char> {
    markdown_stripped(description_lines_of(text))
}

/// The first lines of a rendered post's text, without the lines that hold a banner.
pub fn description_lines(text: &str) -> (r: String)
    ensures
        r@ == description_lines_of(text@),
{
    let ls = split_lines(text);
    let n = if ls.len() < DESCRIPTION_LINES {
        ls.len()
    } else {
        DESCRIPTION_LINES
    };
    let ghost v = ls@.map_values(|x: String| x@);
    let mut r = String::new();
    let mut i: usize = 0;
    while i < n
        invariant
            i <= n <= ls@.len(),
            v == ls@.map_values(|x: String| x@),
            v == lines(text@),
            n == (if v.len() < DESCRIPTION_LINES { v.len() as int } else { DESCRIPTION_LINES as int }),
            r@ == kept_lines(v, i as int, "[banner]"@),
        decreases n - i,
    {
        if !text_contains(ls[i].as_str(), "[banner]") {
            r.append(ls[i].as_str());
            r.append("\n");
        }
        i += 1;
    }
    r
}

/// The description of a post from its rendered text: its first lines without
/// banners, with Markdown markup removed.
pub fn describe_rendered(text: &str) -> (r: String)
    ensures
        r@ == description_of(text@),
{
    let kept = description_lines(text);
    strip_markdown_text(kept.as_str())
}

pub open spec fn str_opt_view(o: Option<&str>) -> Option<Seq<char>> {
    match o {
        Some(s) => Some(s@),
        None => None,
    }
}

pub open spec fn string_opt_view(o: Option<String>) -> Option<Seq<char>> {
    match o {
        Some(s) => Some(s@),
        None => None,
    }
}

/// The description shown for a post whose HTML description is `desc`, if any.
pub open spec fn post_description_of(desc: Option<Seq<char>>) -> Seq<char> {
    match desc {
        Some(d) => match html_text_of(d, DESCRIPTION_WIDTH) {
            Some(t) => description_of(t),
            None => no_description(),
        },
        None => no_description(),
    }
}

/// The post made of a feed item's title, HTML description and link.
pub open spec fn post_view_of(
    title: Option<Seq<char>>,
    desc: Option<Seq<char>>,
    link: Option<Seq<char>>,
) -> PostView {
    PostView {
        title: match title {
            Some(t) => t,
            None => "Missing title"@,
        },
        description: post_description_of(desc),
        button_url: match link {
            Some(l) => l,
            None => "https://www.veloren.net"@,
        },
    }
}

/// A feed item as the library reads it: title, HTML description and link.
pub type FeedItem = (Option<String>, Option<String>, Option<String>);

pub open spec fn feed_item_view(i: FeedItem) -> (Option<Seq<char>>, Option<Seq<char>>, Option<Seq<char>>) {
    (string_opt_view(i.0), string_opt_view(i.1), string_opt_view(i.2))
}

/// The items that rss reads from an RSS document; `None` where it cannot read one.
pub uninterp spec fn feed_items_of(xml: Seq<u8>) -> Option<Seq<(Option<Seq<char>>, Option<Seq<char>>, Option<Seq<char>>)>>;

/// Relies on rss::Channel::read_from and the title, description and link of
/// its items: the outcome depends on the bytes alone.
#[verifier::external_body]
fn read_feed(xml: &[u8]) -> (r: Option<Vec<FeedItem>>)
    ensures
        match r {
            Some(v) => feed_items_of(xml@) == Some(v@.map_values(|i: FeedItem| feed_item_view(i))),
            None => feed_items_of(xml@) is None,
        },
{
    rss::Channel::read_from(xml).ok().map(
        |c| c.items().iter().map(
            |i| (i.title().map(String::from), i.description().map(String::from), i.link().map(String::from)),
        ).collect(),
    )
}

fn as_str_opt(o: &Option<String>) -> (r: Option<&str>)
    ensures
        str_opt_view(r) == string_opt_view(*o),
{
    match o {
        Some(s) => Some(s.as_str()),
        None => None,
    }
}

/// The posts of the first items of a feed.
pub open spec fn feed_posts(items: Seq<(Option<Seq<char>>, Option<Seq<char>>, Option<Seq<char>>)>) -> Seq<PostView> {
    let n = if items.len() < MAX_POSTS { items.len() as int } else { MAX_POSTS as int };
    items.take(n).map_values(|i: (Option<Seq<char>>, Option<Seq<char>>, Option<Seq<char>>)| post_view_of(i.0, i.1, i.2))
}

/// The posts made of feed items: one for each of the first items.
pub fn posts_of_items(items: &Vec<FeedItem>) -> (r: Vec<Post>)
    ensures
        r@.map_values(|p: Post| p@) == feed_posts(items@.map_values(|i: FeedItem| feed_item_view(i))),
{
    let ghost iv = items@.map_values(|i: FeedItem| feed_item_view(i));
    let n = if items.len() < MAX_POSTS {
        items.len()
    } else {
        MAX_POSTS
    };
    let mut r: Vec<Post> = Vec::new();
    let mut k: usize = 0;
    while k < n
        invariant
            k <= n <= items@.len(),
            n == (if iv.len() < MAX_POSTS { iv.len() as int } else { MAX_POSTS as int }),
            iv == items@.map_values(|i: FeedItem| feed_item_view(i)),
            r@.len() == k,
            forall|j: int| 0 <= j < k ==> #[trigger] r@[j]@ == post_view_of(iv[j].0, iv[j].1, iv[j].2),
        decreases n - k,
    {
        let item = &items[k];
        let p = Post::from_item(as_str_opt(&item.0), as_str_opt(&item.1), as_str_opt(&item.2));
        r.push(p);
        k += 1;
    }
    assert(r@.map_values(|p: Post| p@) =~= feed_posts(iv));
    r
}

impl Post {
    /// The description shown for a post whose HTML description is `desc`.
    pub fn process_description(desc: Option<&str>) -> (r: String)
        ensures
            match desc {
                Some(d) => match html_text_of(d@, DESCRIPTION_WIDTH) {
                    Some(t) => r@ == description_of(t),
                    None => r@ == no_description(),
                },
                None => r@ == no_description(),
            },
    {
        match desc {
            Some(d) => match html_to_text(d, DESCRIPTION_WIDTH) {
                Some(t) => describe_rendered(t.as_str()),
                None => String::from_str("No description found."),
            },
            None => String::from_str("No description found."),
        }
    }

    /// A post from a feed item's title, HTML description and link, with
    /// placeholders for what the item lacks.
    pub fn from_item(title: Option<&str>, description: Option<&str>, link: Option<&str>) -> (r: Post)
        ensures
            r@ == post_view_of(str_opt_view(title), str_opt_view(description), str_opt_view(link)),
    {
        Post {
            title: match title {
                Some(t) => String::from_str(t),
                None => String::from_str("Missing title"),
            },
            description: Post::process_description(description),
            button_url: match link {
                Some(l) => String::from_str(l),
                None => String::from_str("https://www.veloren.net"),
            },
        }
    }
}

impl Changelog {
    /// The changelog fetched from a response with body `body` and validator `etag`.
    pub fn from_response(body: &str, etag: Option<String>) -> (r: Changelog)
        ensures
            r.text@ == unreleased_section(body@),
            match etag {
                Some(t) => r.version@ == t@,
                None => r.version@ == missing_etag(),
            },
    {
        Changelog { version: probed_version(etag), text: changelog_section(body) }
    }
}

impl News {
    /// The news read from an RSS document fetched under validator `etag`: a post
    /// for each of the first items; an error where the document cannot be read.
    pub fn from_feed(xml: &[u8], etag: Option<String>) -> (r: Result<News, String>)
        ensures
            match feed_items_of(xml@) {
                Some(items) => r matches Ok(n) && n@.posts == feed_posts(items) && match etag {
                    Some(t) => n.version@ == t@,
                    None => n.version@ == missing_etag(),
                },
                None => r matches Err(e) && e@ == "Failed to parse News"@,
            },
    {
        match read_feed(xml) {
            Some(items) => {
                let posts = posts_of_items(&items);
                Ok(News { posts, version: probed_version(etag) })
            },
            None => Err(String::from_str("Failed to parse News")),
        }
    }
}

} // verus!
