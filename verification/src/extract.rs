//! Readable-text extraction: line cleaning and page metadata.

use vstd::prelude::*;
use crate::fetch::{FetchedPage, PageView};
use crate::html::{ResultLink, all_matches, links_view, select_all_matches, is_convertible_document, convertible_document, first_attr, first_text_pieces, markdown_of, html_to_markdown, select_first_attr, select_first_text};
use crate::strings::{
    chars_of, copy_string, join_strings, join_with, opt_strings_view, opt_view, string_of, strings_view,
};

verus! {

/// Unicode `White_Space` (`char::is_whitespace`).
pub open spec fn is_white_space(c: char) -> bool {
    ||| ('\u{9}' <= c && c <= '\u{D}')
    ||| c == ' '
    ||| c == '\u{85}'
    ||| c == '\u{A0}'
    ||| c == '\u{1680}'
    ||| ('\u{2000}' <= c && c <= '\u{200A}')
    ||| c == '\u{2028}'
    ||| c == '\u{2029}'
    ||| c == '\u{202F}'
    ||| c == '\u{205F}'
    ||| c == '\u{3000}'
}

/// Whether `c` is white space in the sense of `char::is_whitespace`.
pub fn is_whitespace_char(c: char) -> (r: bool)
    ensures
        r == is_white_space(c),
{
    ('\u{9}' <= c && c <= '\u{D}') || c == ' ' || c == '\u{85}' || c == '\u{A0}' || c == '\u{1680}'
        || ('\u{2000}' <= c && c <= '\u{200A}') || c == '\u{2028}' || c == '\u{2029}' || c
        == '\u{202F}' || c == '\u{205F}' || c == '\u{3000}'
}

/// `s` without its trailing white space.
pub open spec fn trim_end(s: Seq<char>) -> Seq<char>
    decreases s.len(),
{
    if s.len() > 0 && is_white_space(s.last()) {
        trim_end(s.drop_last())
    } else {
        s
    }
}

/// `s` without its leading white space.
pub open spec fn trim_start(s: Seq<char>) -> Seq<char>
    decreases s.len(),
{
    if s.len() > 0 && is_white_space(s.first()) {
        trim_start(s.drop_first())
    } else {
        s
    }
}

/// `s` without leading and trailing white space (`str::trim`).
pub open spec fn trim(s: Seq<char>) -> Seq<char> {
    trim_start(trim_end(s))
}

/// The pieces of `s` between newline characters, in order; there is one more
/// piece than there are newlines.
pub open spec fn split_lines(s: Seq<char>) -> Seq<Seq<char>>
    decreases s.len(),
{
    if s.len() == 0 {
        seq![Seq::<char>::empty()]
    } else {
        let prev = split_lines(s.drop_last());
        if s.last() == '\n' {
            prev.push(Seq::<char>::empty())
        } else {
            prev.update(prev.len() - 1, prev.last().push(s.last()))
        }
    }
}

/// The trimmed, non-empty lines of `s`.
pub open spec fn kept_lines(lines: Seq<Seq<char>>) -> Seq<Seq<char>> {
    lines.map_values(|l: Seq<char>| trim(l)).filter(|l: Seq<char>| l.len() > 0)
}

/// What `clean_text` returns: the lines of `s`, each trimmed, without the empty
/// ones, joined by newlines.
pub open spec fn cleaned(s: Seq<char>) -> Seq<char> {
    join_with(kept_lines(split_lines(s)), seq!['\n'])
}

proof fn lemma_split_lines_nonempty(s: Seq<char>)
    ensures
        split_lines(s).len() >= 1,
    decreases s.len(),
{
    if s.len() > 0 {
        lemma_split_lines_nonempty(s.drop_last());
    }
}

/// `v` without its leading and trailing white space.
fn trim_chars(v: &Vec<char>) -> (r: Vec<char>)
    ensures
        r@ == trim(v@),
{
    let mut end = v.len();
    assert(v@.take(end as int) =~= v@);
    while end > 0 && is_whitespace_char(v[end - 1])
        invariant
            end <= v@.len(),
            trim_end(v@) == trim_end(v@.take(end as int)),
        decreases end,
    {
        assert(v@.take(end as int).drop_last() =~= v@.take(end - 1));
        end = end - 1;
    }
    let ghost te = v@.take(end as int);
    assert(trim_end(te) == te) by {
        if end > 0 {
            assert(te.last() == v@[end - 1]);
        }
    }
    let mut start: usize = 0;
    assert(te.skip(0) =~= te);
    while start < end && is_whitespace_char(v[start])
        invariant
            start <= end <= v@.len(),
            te == v@.take(end as int),
            trim_start(te) == trim_start(te.skip(start as int)),
        decreases end - start,
    {
        assert(te.skip(start as int).drop_first() =~= te.skip(start + 1));
        start = start + 1;
    }
    assert(trim_start(te.skip(start as int)) == te.skip(start as int)) by {
        if start < end {
            assert(te.skip(start as int).first() == v@[start as int]);
        }
    }
    let mut r: Vec<char> = Vec::new();
    let mut i = start;
    while i < end
        invariant
            start <= i <= end <= v@.len(),
            r@ == v@.subrange(start as int, i as int),
        decreases end - i,
    {
        r.push(v[i]);
        assert(v@.subrange(start as int, i + 1) =~= v@.subrange(start as int, i as int).push(v@[i as int]));
        i = i + 1;
    }
    assert(r@ =~= te.skip(start as int));
    r
}

proof fn lemma_kept_push(lines: Seq<Seq<char>>, l: Seq<char>)
    ensures
        kept_lines(lines.push(l)) == if trim(l).len() > 0 {
            kept_lines(lines).push(trim(l))
        } else {
            kept_lines(lines)
        },
{
    let f = |x: Seq<char>| trim(x);
    let p = |x: Seq<char>| x.len() > 0;
    assert(lines.push(l).map_values(f) =~= lines.map_values(f).push(trim(l)));
    reveal_with_fuel(Seq::filter, 1);
    assert(lines.map_values(f).push(trim(l)).drop_last() =~= lines.map_values(f));
}

proof fn lemma_join_push(list: Seq<Seq<char>>, x: Seq<char>)
    ensures
        join_with(list.push(x), seq!['\n']) == if list.len() == 0 {
            x
        } else {
            join_with(list, seq!['\n']) + seq!['\n'] + x
        },
{
    assert(list.push(x).drop_last() =~= list);
}

proof fn lemma_join_empty(list: Seq<Seq<char>>)
    requires
        forall|j: int| 0 <= j < list.len() ==> #[trigger] list[j].len() > 0,
    ensures
        (join_with(list, seq!['\n']).len() == 0) == (list.len() == 0),
    decreases list.len(),
{
    if list.len() > 1 {
        lemma_join_empty(list.drop_last());
    }
    if list.len() == 1 {
        assert(list[0].len() > 0);
    }
}

/// Appends `line` to `out`, separated by a newline when `out` is not empty.
fn append_line(out: &mut Vec<char>, line: &Vec<char>)
    ensures
        final(out)@ == if old(out)@.len() == 0 {
            line@
        } else {
            old(out)@ + seq!['\n'] + line@
        },
{
    let ghost start = out@;
    if out.len() > 0 {
        out.push('\n');
    }
    let ghost mid = out@;
    let n = line.len();
    for k in 0..n
        invariant
            n == line@.len(),
            out@ == mid + line@.take(k as int),
    {
        out.push(line[k]);
        assert(line@.take(k + 1) =~= line@.take(k as int).push(line@[k as int]));
    }
    assert(line@.take(n as int) =~= line@);
    assert(start.len() == 0 ==> mid + line@ =~= line@);
}

/// The lines of `value`, each trimmed of white space, with the empty ones
/// dropped, joined by `'\n'`.
pub fn clean_text(value: &str) -> (r: String)
    ensures
        r@ == cleaned(value@),
{
    let src = chars_of(value);
    let n = src.len();
    let mut out: Vec<char> = Vec::new();
    let mut cur: Vec<char> = Vec::new();
    let ghost mut kept: Seq<Seq<char>> = Seq::empty();
    proof {
        assert(src@.take(0) =~= Seq::<char>::empty());
        assert(kept_lines(Seq::<Seq<char>>::empty()) =~= Seq::<Seq<char>>::empty());
    }
    for i in 0..n
        invariant
            n == src@.len(),
            src@ == value@,
            split_lines(src@.take(i as int)).len() >= 1,
            kept == kept_lines(split_lines(src@.take(i as int)).drop_last()),
            cur@ == split_lines(src@.take(i as int)).last(),
            out@ == join_with(kept, seq!['\n']),
            forall|j: int| 0 <= j < kept.len() ==> #[trigger] kept[j].len() > 0,
    {
        let c = src[i];
        let ghost t = src@.take(i as int);
        let ghost t1 = src@.take(i + 1);
        proof {
            assert(t1.drop_last() =~= t);
            assert(t1.last() == c);
            lemma_split_lines_nonempty(t1);
        }
        if c == '\n' {
            let tl = trim_chars(&cur);
            proof {
                let lines = split_lines(t);
                assert(split_lines(t1).drop_last() =~= lines);
                assert(lines =~= lines.drop_last().push(lines.last()));
                lemma_kept_push(lines.drop_last(), lines.last());
                lemma_join_push(kept, tl@);
            }
            if tl.len() > 0 {
                proof { lemma_join_empty(kept); }
                append_line(&mut out, &tl);
            }
            cur = Vec::new();
            proof {
                kept = kept_lines(split_lines(t1).drop_last());
            }
        } else {
            cur.push(c);
            proof {
                let lines = split_lines(t);
                assert(split_lines(t1).drop_last() =~= lines.drop_last());
            }
        }
    }
    let tl = trim_chars(&cur);
    proof {
        let lines = split_lines(src@.take(n as int));
        assert(lines =~= lines.drop_last().push(lines.last()));
        lemma_kept_push(lines.drop_last(), lines.last());
        lemma_join_push(kept, tl@);
    }
    if tl.len() > 0 {
        proof { lemma_join_empty(kept); }
        append_line(&mut out, &tl);
    }
    assert(src@.take(n as int) =~= src@);
    string_of(&out)
}

/// The readable form of a fetched page.
pub struct ExtractedPage {
    pub url: String,
    pub final_url: String,
    pub title: Option<String>,
    pub description: Option<String>,
    pub canonical_url: Option<String>,
    pub text: String,
}

/// The mathematical form of an [`ExtractedPage`].
pub struct ExtractedView {
    pub url: Seq<char>,
    pub final_url: Seq<char>,
    pub title: Option<Seq<char>>,
    pub description: Option<Seq<char>>,
    pub canonical_url: Option<Seq<char>>,
    pub text: Seq<char>,
}

impl View for ExtractedPage {
    type V = ExtractedView;

    open spec fn view(&self) -> ExtractedView {
        ExtractedView {
            url: self.url@,
            final_url: self.final_url@,
            title: opt_view(self.title),
            description: opt_view(self.description),
            canonical_url: opt_view(self.canonical_url),
            text: self.text@,
        }
    }
}

/// `Some(t)` when `t` is not empty.
pub open spec fn non_empty(t: Seq<char>) -> Option<Seq<char>> {
    if t.len() > 0 {
        Some(t)
    } else {
        None
    }
}

/// The cleaned text of matched text pieces joined by spaces; `None` when
/// nothing matched or the text is empty.
pub open spec fn pieces_text(pieces: Option<Seq<Seq<char>>>) -> Option<Seq<char>> {
    match pieces {
        None => None,
        Some(p) => non_empty(cleaned(join_with(p, " "@))),
    }
}

/// The cleaned value of a matched attribute; `None` when there is none or it
/// is empty.
pub open spec fn attr_text(a: Option<Seq<char>>) -> Option<Seq<char>> {
    match a {
        None => None,
        Some(v) => non_empty(cleaned(v)),
    }
}

/// The cleaned text of the first element that `selector` matches, with its
/// text pieces joined by spaces; `None` when there is none or it is empty.
pub open spec fn text_of_first(document: Seq<char>, selector: Seq<char>) -> Option<Seq<char>> {
    pieces_text(first_text_pieces(document, selector))
}

/// The cleaned attribute `attr` of the first element that `selector` matches;
/// `None` when there is none or it is empty.
pub open spec fn attr_of_first(document: Seq<char>, selector: Seq<char>, attr: Seq<char>) -> Option<Seq<char>> {
    attr_text(first_attr(document, selector, attr))
}

/// `a`, or `b` when `a` is `None`.
pub open spec fn or_else_opt(a: Option<Seq<char>>, b: Option<Seq<char>>) -> Option<Seq<char>> {
    if a is Some {
        a
    } else {
        b
    }
}

/// The parts read from a document by the HTML crates: the text pieces of
/// `<title>`, the `og:title`, `description`, `og:description` and canonical
/// attributes, and the Markdown of the whole document.
pub struct PageParts {
    pub title_pieces: Option<Vec<String>>,
    pub og_title: Option<String>,
    pub description: Option<String>,
    pub og_description: Option<String>,
    pub canonical: Option<String>,
    pub markdown: String,
}

/// The extracted page that the parts give: the title from `<title>` or else
/// `og:title`, the description from the `description` meta tag or else
/// `og:description`, the canonical link, and the cleaned Markdown.
pub open spec fn extracted_with(url: Seq<char>, final_url: Seq<char>, parts: PageParts) -> ExtractedView {
    ExtractedView {
        url,
        final_url,
        title: or_else_opt(pieces_text(opt_strings_view(parts.title_pieces)), attr_text(opt_view(parts.og_title))),
        description: or_else_opt(attr_text(opt_view(parts.description)), attr_text(opt_view(parts.og_description))),
        canonical_url: attr_text(opt_view(parts.canonical)),
        text: cleaned(parts.markdown@),
    }
}

/// What `extract_page` makes of a page: the title from `<title>` or else
/// `og:title`, the description from the `description` meta tag or else
/// `og:description`, the canonical link, and the cleaned Markdown of the
/// whole document.
pub open spec fn extracted_of(page: PageView) -> ExtractedView {
    let doc = page.text;
    ExtractedView {
        url: page.url,
        final_url: page.final_url,
        title: or_else_opt(
            text_of_first(doc, "title"@),
            attr_of_first(doc, "meta[property='og:title']"@, "content"@),
        ),
        description: or_else_opt(
            attr_of_first(doc, "meta[name='description']"@, "content"@),
            attr_of_first(doc, "meta[property='og:description']"@, "content"@),
        ),
        canonical_url: attr_of_first(doc, "link[rel='canonical']"@, "href"@),
        text: cleaned(markdown_of(doc)),
    }
}

/// The cleaned text of matched text pieces (see `pieces_text`).
pub fn text_from_pieces(pieces: &Option<Vec<String>>) -> (r: Option<String>)
    ensures
        opt_view(r) == pieces_text(opt_strings_view(*pieces)),
{
    match pieces {
        None => None,
        Some(p) => {
            let joined = join_strings(p, " ");
            let t = clean_text(joined.as_str());
            if !t.as_str().is_empty() {
                Some(t)
            } else {
                None
            }
        },
    }
}

/// The cleaned value of a matched attribute (see `attr_text`).
pub fn text_from_attr(a: &Option<String>) -> (r: Option<String>)
    ensures
        opt_view(r) == attr_text(opt_view(*a)),
{
    match a {
        None => None,
        Some(v) => {
            let t = clean_text(v.as_str());
            if !t.as_str().is_empty() {
                Some(t)
            } else {
                None
            }
        },
    }
}

/// The extracted page of `url` and `final_url` that the parts give.
pub fn extracted_from_parts(url: &String, final_url: &String, parts: &PageParts) -> (r: ExtractedPage)
    ensures
        r@ == extracted_with(url@, final_url@, *parts),
{
    let title = match text_from_pieces(&parts.title_pieces) {
        Some(t) => Some(t),
        None => text_from_attr(&parts.og_title),
    };
    let description = match text_from_attr(&parts.description) {
        Some(t) => Some(t),
        None => text_from_attr(&parts.og_description),
    };
    ExtractedPage {
        url: copy_string(url),
        final_url: copy_string(final_url),
        title,
        description,
        canonical_url: text_from_attr(&parts.canonical),
        text: clean_text(parts.markdown.as_str()),
    }
}

/// Extracts the title, description, canonical URL and readable text of a
/// fetched HTML page.
pub fn extract_page(page: &FetchedPage) -> (r: ExtractedPage)
    requires
        convertible_document(page.text@),
    ensures
        r@ == extracted_of(page@),
{
    let doc = page.text.as_str();
    let parts = PageParts {
        title_pieces: select_first_text(doc, "title"),
        og_title: select_first_attr(doc, "meta[property='og:title']", "content"),
        description: select_first_attr(doc, "meta[name='description']", "content"),
        og_description: select_first_attr(doc, "meta[property='og:description']", "content"),
        canonical: select_first_attr(doc, "link[rel='canonical']", "href"),
        markdown: html_to_markdown(doc),
    };
    extracted_from_parts(&page.url, &page.final_url, &parts)
}

/// The extracted title is the cleaned text of the first `<title>` element
/// whenever that text is not empty, whatever `og:title` says; `og:title` is
/// read only when `<title>` is missing or gives no text.
pub proof fn lemma_title_prefers_title_element(page: PageView)
    ensures
        match first_text_pieces(page.text, "title"@) {
            Some(p) if cleaned(join_with(p, " "@)).len() > 0 => extracted_of(page).title == Some(
                cleaned(join_with(p, " "@)),
            ),
            _ => extracted_of(page).title == attr_text(
                first_attr(page.text, "meta[property='og:title']"@, "content"@),
            ),
        },
{
}

/// The extracted description is the cleaned `description` meta content
/// whenever it is not empty; `og:description` is read only otherwise.
pub proof fn lemma_description_prefers_meta_description(page: PageView)
    ensures
        match first_attr(page.text, "meta[name='description']"@, "content"@) {
            Some(d) if cleaned(d).len() > 0 => extracted_of(page).description == Some(cleaned(d)),
            _ => extracted_of(page).description == attr_text(
                first_attr(page.text, "meta[property='og:description']"@, "content"@),
            ),
        },
{
}

/// The extracted page keeps the page's URLs, takes the canonical URL from the
/// first canonical link's cleaned `href`, and its text is the cleaned
/// Markdown of the whole document.
pub proof fn lemma_extracted_links_and_text(page: PageView)
    ensures
        extracted_of(page).url == page.url,
        extracted_of(page).final_url == page.final_url,
        extracted_of(page).canonical_url == attr_text(first_attr(page.text, "link[rel='canonical']"@, "href"@)),
        extracted_of(page).text == cleaned(markdown_of(page.text)),
{
}

/// From the parts read of a page, the title is the cleaned `<title>` text
/// whenever it is not empty, and the `og:title` only otherwise; likewise the
/// description prefers the `description` meta tag to `og:description`.
pub proof fn lemma_parts_prefer_title_and_description(url: Seq<char>, final_url: Seq<char>, parts: PageParts)
    ensures
        match opt_strings_view(parts.title_pieces) {
            Some(p) if cleaned(join_with(p, " "@)).len() > 0 => extracted_with(url, final_url, parts).title
                == Some(cleaned(join_with(p, " "@))),
            _ => extracted_with(url, final_url, parts).title == attr_text(opt_view(parts.og_title)),
        },
        match opt_view(parts.description) {
            Some(d) if cleaned(d).len() > 0 => extracted_with(url, final_url, parts).description == Some(
                cleaned(d),
            ),
            _ => extracted_with(url, final_url, parts).description == attr_text(opt_view(parts.og_description)),
        },
        extracted_with(url, final_url, parts).url == url,
        extracted_with(url, final_url, parts).final_url == final_url,
{
}

/// `s` holds no newline.
pub open spec fn no_newline(s: Seq<char>) -> bool {
    forall|j: int| 0 <= j < s.len() ==> s[j] != '\n'
}

proof fn lemma_trim_end_prefix(s: Seq<char>) -> (k: int)
    ensures
        0 <= k <= s.len(),
        trim_end(s) == s.take(k),
        k > 0 ==> !is_white_space(s[k - 1]),
    decreases s.len(),
{
    if s.len() > 0 && is_white_space(s.last()) {
        let k = lemma_trim_end_prefix(s.drop_last());
        assert(s.drop_last().take(k) =~= s.take(k));
        k
    } else {
        assert(s.take(s.len() as int) =~= s);
        s.len() as int
    }
}

proof fn lemma_trim_start_suffix(s: Seq<char>) -> (k: int)
    ensures
        0 <= k <= s.len(),
        trim_start(s) == s.skip(k),
        k < s.len() ==> !is_white_space(s[k]),
    decreases s.len(),
{
    if s.len() > 0 && is_white_space(s.first()) {
        let k = lemma_trim_start_suffix(s.drop_first());
        assert(s.drop_first().skip(k) =~= s.skip(k + 1));
        k + 1
    } else {
        assert(s.skip(0) =~= s);
        0
    }
}

/// Trimming keeps a run of characters of `s`, which begins and ends with a
/// character that is not white space.
proof fn lemma_trim_shape(s: Seq<char>) -> (r: (int, int))
    ensures
        0 <= r.0 <= r.1 <= s.len(),
        trim(s) == s.subrange(r.0, r.1),
        r.0 < r.1 ==> !is_white_space(s[r.0]) && !is_white_space(s[r.1 - 1]),
{
    let k1 = lemma_trim_end_prefix(s);
    let k2 = lemma_trim_start_suffix(s.take(k1));
    assert(s.take(k1).skip(k2) =~= s.subrange(k2, k1));
    (k2, k1)
}

/// Trimming twice is trimming once.
pub proof fn lemma_trim_idempotent(s: Seq<char>)
    ensures
        trim(trim(s)) == trim(s),
{
    let (a, b) = lemma_trim_shape(s);
    let t = trim(s);
    if t.len() > 0 {
        assert(t.last() == s[b - 1]);
        assert(trim_end(t) == t);
        assert(t.first() == s[a]);
        assert(trim_start(t) == t);
    } else {
        assert(trim_end(t) == t);
        assert(trim_start(t) == t);
    }
}

proof fn lemma_split_lines_no_newline(s: Seq<char>)
    ensures
        forall|i: int| 0 <= i < split_lines(s).len() ==> no_newline(#[trigger] split_lines(s)[i]),
    decreases s.len(),
{
    if s.len() > 0 {
        lemma_split_lines_no_newline(s.drop_last());
        lemma_split_lines_nonempty(s.drop_last());
    }
}

proof fn lemma_split_without_newline(b: Seq<char>)
    requires
        no_newline(b),
    ensures
        split_lines(b) == seq![b],
    decreases b.len(),
{
    if b.len() == 0 {
        assert(b =~= Seq::<char>::empty());
    } else {
        assert(b[b.len() - 1] != '\n');
        lemma_split_without_newline(b.drop_last());
        assert(b.drop_last().push(b.last()) =~= b);
        assert(seq![b.drop_last()].update(0, b) =~= seq![b]);
    }
}

proof fn lemma_split_after_newline(a: Seq<char>, b: Seq<char>)
    requires
        no_newline(b),
    ensures
        split_lines(a + seq!['\n'] + b) == split_lines(a).push(b),
    decreases b.len(),
{
    lemma_split_lines_nonempty(a);
    if b.len() == 0 {
        assert((a + seq!['\n'] + b).drop_last() =~= a);
        assert(b =~= Seq::<char>::empty());
        assert((a + seq!['\n'] + b).last() == '\n');
    } else {
        let c = a + seq!['\n'] + b;
        assert(b[b.len() - 1] != '\n');
        assert(c.last() == b.last());
        assert(c.drop_last() =~= a + seq!['\n'] + b.drop_last());
        lemma_split_after_newline(a, b.drop_last());
        assert(b.drop_last().push(b.last()) =~= b);
        assert(split_lines(a).push(b.drop_last()).update(split_lines(a).len() as int, b) =~= split_lines(a).push(b));
    }
}

/// Lines without newlines, joined by newlines, split back into themselves.
proof fn lemma_split_join(list: Seq<Seq<char>>)
    requires
        list.len() > 0,
        forall|i: int| 0 <= i < list.len() ==> no_newline(#[trigger] list[i]),
    ensures
        split_lines(join_with(list, seq!['\n'])) == list,
    decreases list.len(),
{
    if list.len() == 1 {
        lemma_split_without_newline(list[0]);
        assert(seq![list[0]] =~= list);
    } else {
        lemma_split_join(list.drop_last());
        assert(no_newline(list[list.len() - 1]));
        lemma_split_after_newline(join_with(list.drop_last(), seq!['\n']), list.last());
        assert(list.drop_last().push(list.last()) =~= list);
    }
}

/// Lines that are already trimmed and not empty are all kept as they are.
proof fn lemma_kept_identity(list: Seq<Seq<char>>)
    requires
        forall|i: int| 0 <= i < list.len() ==> trim(#[trigger] list[i]) == list[i] && list[i].len() > 0,
    ensures
        kept_lines(list) == list,
    decreases list.len(),
{
    if list.len() == 0 {
        assert(kept_lines(list) =~= list);
    } else {
        lemma_kept_identity(list.drop_last());
        lemma_kept_push(list.drop_last(), list.last());
        assert(trim(list[list.len() - 1]) == list[list.len() - 1]);
        assert(list.drop_last().push(list.last()) =~= list);
    }
}

proof fn lemma_kept_lines_shape(lines: Seq<Seq<char>>)
    requires
        forall|i: int| 0 <= i < lines.len() ==> no_newline(#[trigger] lines[i]),
    ensures
        forall|i: int| 0 <= i < kept_lines(lines).len() ==> {
            &&& no_newline(#[trigger] kept_lines(lines)[i])
            &&& kept_lines(lines)[i].len() > 0
            &&& trim(kept_lines(lines)[i]) == kept_lines(lines)[i]
        },
    decreases lines.len(),
{
    if lines.len() > 0 {
        let prev = lines.drop_last();
        let l = lines.last();
        lemma_kept_lines_shape(prev);
        lemma_kept_push(prev, l);
        assert(prev.push(l) =~= lines);
        assert(no_newline(lines[lines.len() - 1]));
        let (a, b) = lemma_trim_shape(l);
        lemma_trim_idempotent(l);
        assert(no_newline(trim(l))) by {
            assert forall|j: int| 0 <= j < trim(l).len() implies trim(l)[j] != '\n' by {
                assert(trim(l)[j] == l[a + j]);
            }
        }
    } else {
        assert(kept_lines(lines) =~= Seq::<Seq<char>>::empty());
    }
}

/// Cleaning text twice gives the same text as cleaning it once.
pub proof fn lemma_clean_text_idempotent(s: Seq<char>)
    ensures
        cleaned(cleaned(s)) == cleaned(s),
{
    let lines = split_lines(s);
    lemma_split_lines_no_newline(s);
    lemma_kept_lines_shape(lines);
    let kept = kept_lines(lines);
    if kept.len() == 0 {
        let e = Seq::<char>::empty();
        assert(cleaned(s) == e);
        assert(split_lines(e) == seq![e]);
        lemma_kept_push(Seq::<Seq<char>>::empty(), e);
        assert(seq![e] =~= Seq::<Seq<char>>::empty().push(e));
        assert(kept_lines(Seq::<Seq<char>>::empty()) =~= Seq::<Seq<char>>::empty());
        assert(trim_end(e) == e);
        assert(trim_start(e) == e);
    } else {
        lemma_split_join(kept);
        lemma_kept_identity(kept);
    }
}

/// Cleaned text has no empty line and no line with white space at either end.
pub proof fn lemma_cleaned_lines_trimmed(s: Seq<char>)
    ensures
        forall|i: int| 0 <= i < kept_lines(split_lines(s)).len() ==> {
            &&& #[trigger] kept_lines(split_lines(s))[i].len() > 0
            &&& trim(kept_lines(split_lines(s))[i]) == kept_lines(split_lines(s))[i]
        },
{
    lemma_split_lines_no_newline(s);
    lemma_kept_lines_shape(split_lines(s));
}

/// Extracts a page whose HTML can be converted to Markdown;
/// `None` for any other page.
pub fn try_extract_page(page: &FetchedPage) -> (r: Option<ExtractedPage>)
    ensures
        convertible_document(page.text@) ==> (r matches Some(e) && e@ == extracted_of(page@)),
        !convertible_document(page.text@) ==> r is None,
{
    if is_convertible_document(page.text.as_str()) {
        Some(extract_page(page))
    } else {
        None
    }
}

/// A page prepared for reading: its metadata, its Markdown cut to a number of
/// characters, whether it was cut, and the targets of its links.
pub struct ReadPage {
    pub url: String,
    pub final_url: String,
    pub title: Option<String>,
    pub description: Option<String>,
    pub canonical_url: Option<String>,
    pub markdown: String,
    pub links: Vec<String>,
    pub truncated: bool,
}

/// The mathematical form of a [`ReadPage`].
pub struct ReadView {
    pub url: Seq<char>,
    pub final_url: Seq<char>,
    pub title: Option<Seq<char>>,
    pub description: Option<Seq<char>>,
    pub canonical_url: Option<Seq<char>>,
    pub markdown: Seq<char>,
    pub links: Seq<Seq<char>>,
    pub truncated: bool,
}

impl View for ReadPage {
    type V = ReadView;

    open spec fn view(&self) -> ReadView {
        ReadView {
            url: self.url@,
            final_url: self.final_url@,
            title: opt_view(self.title),
            description: opt_view(self.description),
            canonical_url: opt_view(self.canonical_url),
            markdown: self.markdown@,
            links: strings_view(self.links@),
            truncated: self.truncated,
        }
    }
}

/// The cleaned, non-empty link targets of a list of matched links, in order.
pub open spec fn link_targets(links: Seq<(Seq<Seq<char>>, Option<Seq<char>>)>) -> Seq<Seq<char>>
    decreases links.len(),
{
    if links.len() == 0 {
        Seq::<Seq<char>>::empty()
    } else {
        let prev = link_targets(links.drop_last());
        match links.last().1 {
            Some(h) => if cleaned(h).len() > 0 {
                prev.push(cleaned(h))
            } else {
                prev
            },
            None => prev,
        }
    }
}

/// The link targets of a document: those of its `a[href]` elements.
pub open spec fn page_links(document: Seq<char>) -> Seq<Seq<char>> {
    match all_matches(document, "a[href]"@, "href"@) {
        Ok(links) => link_targets(links),
        Err(_) => Seq::<Seq<char>>::empty(),
    }
}

/// What `read_page` makes of a page: the extracted metadata, the Markdown
/// text cut to `limit` characters, whether it was longer, and the links.
pub open spec fn read_of(page: PageView, limit: nat) -> ReadView {
    let e = extracted_of(page);
    ReadView {
        url: e.url,
        final_url: e.final_url,
        title: e.title,
        description: e.description,
        canonical_url: e.canonical_url,
        markdown: if limit < e.text.len() {
            e.text.take(limit as int)
        } else {
            e.text
        },
        links: page_links(page.text),
        truncated: e.text.len() > limit,
    }
}

/// Reading a page gives the same URLs, title, description and canonical URL
/// as extracting it; its Markdown is the extracted text, cut to `limit`
/// characters exactly when it is longer, which `truncated` reports.
pub proof fn lemma_read_keeps_extracted_metadata(page: PageView, limit: nat)
    ensures
        read_of(page, limit).url == page.url,
        read_of(page, limit).final_url == page.final_url,
        read_of(page, limit).title == extracted_of(page).title,
        read_of(page, limit).description == extracted_of(page).description,
        read_of(page, limit).canonical_url == extracted_of(page).canonical_url,
        read_of(page, limit).truncated <==> extracted_of(page).text.len() > limit,
        extracted_of(page).text.len() <= limit ==> read_of(page, limit).markdown == extracted_of(page).text,
        extracted_of(page).text.len() > limit ==> read_of(page, limit).markdown.len() == limit
            && read_of(page, limit).markdown == extracted_of(page).text.take(limit as int),
{
}

/// The cleaned, non-empty targets of matched links.
pub fn targets_of_links(links: &Vec<ResultLink>) -> (r: Vec<String>)
    ensures
        strings_view(r@) == link_targets(links_view(links@)),
{
    let ghost lv = links_view(links@);
    let mut out: Vec<String> = Vec::new();
    let n = links.len();
    assert(lv.take(0) =~= Seq::<(Seq<Seq<char>>, Option<Seq<char>>)>::empty());
    for i in 0..n
        invariant
            n == links@.len(),
            lv == links_view(links@),
            strings_view(out@) == link_targets(lv.take(i as int)),
    {
        proof {
            assert(lv.take(i + 1).drop_last() =~= lv.take(i as int));
            assert(lv.take(i + 1).last() == lv[i as int]);
        }
        if let Some(h) = &links[i].href {
            let t = clean_text(h.as_str());
            if !t.as_str().is_empty() {
                let ghost before = out@;
                out.push(t);
                assert(strings_view(out@) =~= strings_view(before).push(out@.last()@));
            }
        }
    }
    assert(lv.take(n as int) =~= lv);
    out
}

fn cut_chars(text: &String, limit: usize) -> (r: (String, bool))
    ensures
        r.0@ == (if (limit as nat) < text@.len() {
            text@.take(limit as int)
        } else {
            text@
        }),
        r.1 == (text@.len() > limit as nat),
{
    let v = chars_of(text.as_str());
    if v.len() <= limit {
        return (copy_string(text), false);
    }
    let mut out: Vec<char> = Vec::new();
    for i in 0..limit
        invariant
            limit < v@.len(),
            v@ == text@,
            out@ == v@.take(i as int),
    {
        out.push(v[i]);
        assert(v@.take(i + 1) =~= v@.take(i as int).push(v@[i as int]));
    }
    (string_of(&out), true)
}

/// Prepares a page for reading, its Markdown cut to `limit` characters.
pub fn read_page(page: &FetchedPage, limit: usize) -> (r: ReadPage)
    requires
        convertible_document(page.text@),
    ensures
        r@ == read_of(page@, limit as nat),
{
    let e = extract_page(page);
    let (markdown, truncated) = cut_chars(&e.text, limit);
    let links = match select_all_matches(page.text.as_str(), "a[href]", "href") {
        Ok(l) => targets_of_links(&l),
        Err(_) => Vec::new(),
    };
    proof {
        if all_matches(page.text@, "a[href]"@, "href"@) is Err {
            assert(strings_view(links@) =~= Seq::<Seq<char>>::empty());
        }
    }
    ReadPage {
        url: e.url,
        final_url: e.final_url,
        title: e.title,
        description: e.description,
        canonical_url: e.canonical_url,
        markdown,
        links,
        truncated,
    }
}

} // verus!
