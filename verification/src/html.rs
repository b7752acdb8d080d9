//! What the library reads of HTML documents, through `scraper` and `html2md`.

use vstd::prelude::*;
use crate::strings::{opt_strings_view, opt_view, str_equal, strings_view};

verus! {

/// The text pieces of the first element of `document` that `selector`
/// matches in the order of the tree's nodes (the order in which html5ever
/// created them); `None` when nothing matches or the selector
/// does not parse.
pub uninterp spec fn first_text_pieces(document: Seq<char>, selector: Seq<char>) -> Option<Seq<Seq<char>>>;

/// The value of attribute `attr` on the first element of `document` that
/// `selector` matches; `None` when nothing matches, the selector does not
/// parse, or that element lacks the attribute.
pub uninterp spec fn first_attr(document: Seq<char>, selector: Seq<char>, attr: Seq<char>) -> Option<Seq<char>>;

/// The Markdown that `html2md::parse_html` makes of `html`.
pub uninterp spec fn markdown_of(html: Seq<char>) -> Seq<char>;

/// Parses `document` with `scraper::Html::parse_document` and `selector` with
/// `scraper::Selector::parse`, and returns the text nodes (`ElementRef::text`)
/// of the first matching element. The contract claims only that the result is
/// the one `first_text_pieces` names for these arguments.
#[verifier::external_body]
pub(crate) fn select_first_text(document: &str, selector: &str) -> (r: Option<Vec<String>>)
    ensures
        opt_strings_view(r) == first_text_pieces(document@, selector@),
{
    let selector = scraper::Selector::parse(selector).ok()?;
    let html = scraper::Html::parse_document(document);
    html.select(&selector).next().map(|node| node.text().map(str::to_owned).collect())
}

/// Parses `document` and `selector` as `select_first_text` does, and returns
/// the attribute `attr` of the first matching element. The contract claims
/// only that the result is the one `first_attr` names for these arguments.
#[verifier::external_body]
pub(crate) fn select_first_attr(document: &str, selector: &str, attr: &str) -> (r: Option<String>)
    ensures
        opt_view(r) == first_attr(document@, selector@, attr@),
{
    let selector = scraper::Selector::parse(selector).ok()?;
    let html = scraper::Html::parse_document(document);
    html.select(&selector).next().and_then(|node| node.value().attr(attr)).map(str::to_owned)
}

/// Each node reached from the document node of the tree that html5ever's
/// tree builder makes of `document` (`scraper::Html::parse_document`), in
/// pre-order (`descendants`): its element name (`None` for a node that is not
/// an element) and its number of ancestors.
pub uninterp spec fn document_outline(document: Seq<char>) -> Seq<(Option<Seq<char>>, usize)>;

/// The names and depths of an outline read into memory.
pub open spec fn outline_view(v: Seq<(Option<String>, usize)>) -> Seq<(Option<Seq<char>>, usize)> {
    v.map_values(|e: (Option<String>, usize)| (opt_view(e.0), e.1))
}

/// Parses `document` with `scraper::Html::parse_document` and lists the
/// nodes reached from the document node in pre-order, each with its element
/// name and its number of ancestors. The contract claims only that the
/// result is the one `document_outline` names for `document`.
#[verifier::external_body]
pub(crate) fn read_document_outline(document: &str) -> (r: Vec<(Option<String>, usize)>)
    ensures
        outline_view(r@) == document_outline(document@),
{
    let html = scraper::Html::parse_document(document);
    html.tree.root().descendants().map(|n| (n.value().as_element().map(|e| e.name().to_owned()), n.ancestors().count())).collect()
}

/// The number of ancestors below which a node must stay for its document to
/// be converted. `html2md` walks the tree recursively, one stack frame (and,
/// inside tables, a few more) per level; on a 2 MiB thread stack, the size
/// of a tokio worker's and of a test thread's, its walk overflowed between
/// 840 and 855 nested elements. The limit leaves about a quarter of such a
/// stack to the frames of the caller.
pub open spec fn markdown_depth_limit() -> nat {
    640
}

/// How `html2md` treats an element, as far as the position bookkeeping of
/// its list items is concerned.
pub enum TagRole {
    /// `ul`, `ol` or `menu`: a list, which its items look for among the
    /// elements that enclose them.
    List,
    /// `a`, `q`, `cite`, `blockquote`, `b`, `i`, `s`, `strong`, `em` or
    /// `del`: an element whose handler records a position in the output and
    /// edits the output there after its children are written.
    Marker,
    /// `table`, `td` or `th`: `html2md` converts each table cell on its own,
    /// so a list item inside a cell does not see the lists around the table.
    Boundary,
    /// Any other node.
    Plain,
}

/// The role of a node with element name `name`.
pub open spec fn tag_role(name: Option<Seq<char>>) -> TagRole {
    match name {
        Some(n) => if n == "ul"@ || n == "ol"@ || n == "menu"@ {
            TagRole::List
        } else if n == "a"@ || n == "q"@ || n == "cite"@ || n == "blockquote"@ || n == "b"@ || n == "i"@
            || n == "s"@ || n == "strong"@ || n == "em"@ || n == "del"@ {
            TagRole::Marker
        } else if n == "table"@ || n == "td"@ || n == "th"@ {
            TagRole::Boundary
        } else {
            TagRole::Plain
        },
        None => TagRole::Plain,
    }
}

/// The closest node at or before `j` in `outline` with fewer than `depth`
/// ancestors; -1 when there is none.
pub open spec fn shallower_before(outline: Seq<(Option<Seq<char>>, usize)>, j: int, depth: int) -> int
    decreases j + 1,
{
    if j < 0 {
        -1
    } else if (outline[j].1 as int) < depth {
        j
    } else {
        shallower_before(outline, j - 1, depth)
    }
}

/// The parent of node `k` of a pre-order outline: the closest node before it
/// that is shallower; -1 for the document node.
pub open spec fn outline_parent(outline: Seq<(Option<Seq<char>>, usize)>, k: int) -> int {
    shallower_before(outline, k - 1, outline[k].1 as int)
}

/// Whether some ancestor of node `k` is a list, with no table or table cell
/// between the two.
pub open spec fn list_reachable(outline: Seq<(Option<Seq<char>>, usize)>, k: int) -> bool
    decreases k,
{
    let p = outline_parent(outline, k);
    if 0 <= p < k {
        match tag_role(outline[p].0) {
            TagRole::List => true,
            TagRole::Boundary => false,
            _ => list_reachable(outline, p),
        }
    } else {
        false
    }
}

/// Whether some ancestor of node `k` is a marker.
pub open spec fn marked(outline: Seq<(Option<Seq<char>>, usize)>, k: int) -> bool
    decreases k,
{
    let p = outline_parent(outline, k);
    if 0 <= p < k {
        tag_role(outline[p].0) is Marker || marked(outline, p)
    } else {
        false
    }
}

/// What node `j` tells its descendants about lists: whether it is a list, or
/// is neither a table nor a cell and reaches a list itself.
pub open spec fn reach_of(outline: Seq<(Option<Seq<char>>, usize)>, j: int) -> bool {
    match tag_role(outline[j].0) {
        TagRole::List => true,
        TagRole::Boundary => false,
        _ => list_reachable(outline, j),
    }
}

/// Whether node `j` is a marker or lies inside one.
pub open spec fn mark_of(outline: Seq<(Option<Seq<char>>, usize)>, j: int) -> bool {
    tag_role(outline[j].0) is Marker || marked(outline, j)
}

/// Node `k` is a list item (`li`) inside a marker that reaches no list:
/// `html2md` may then find no list for it, keep position 0 as its start and
/// strip and indent the output from there, which moves the text under the
/// marker's recorded position.
pub open spec fn stray_item(outline: Seq<(Option<Seq<char>>, usize)>, k: int) -> bool {
    outline[k].0 == Some("li"@) && !list_reachable(outline, k) && marked(outline, k)
}

/// Every node has fewer ancestors than the limit and none is a stray item.
pub open spec fn convertible_outline(outline: Seq<(Option<Seq<char>>, usize)>) -> bool {
    forall|k: int|
        0 <= k < outline.len() ==> (#[trigger] outline[k]).1 < markdown_depth_limit() && !stray_item(outline, k)
}

/// `document` is one that `html2md` converts: nested less deeply than the
/// limit, and without a stray list item.
pub open spec fn convertible_document(document: Seq<char>) -> bool {
    convertible_outline(document_outline(document))
}

proof fn lemma_shallower_bounds(outline: Seq<(Option<Seq<char>>, usize)>, j: int, depth: int)
    requires
        j >= -1,
    ensures
        -1 <= shallower_before(outline, j, depth) <= j,
        shallower_before(outline, j, depth) >= 0 ==> (outline[shallower_before(outline, j, depth)].1 as int)
            < depth,
    decreases j + 1,
{
    if j >= 0 && (outline[j].1 as int) >= depth {
        lemma_shallower_bounds(outline, j - 1, depth);
    }
}

/// Looking for a node shallower than `depth` can start from the closest node
/// shallower than a larger `bound`.
proof fn lemma_shallower_skip(outline: Seq<(Option<Seq<char>>, usize)>, j: int, depth: int, bound: int)
    requires
        depth <= bound,
    ensures
        shallower_before(outline, j, depth) == (if shallower_before(outline, j, bound) < 0 {
            -1
        } else {
            shallower_before(outline, shallower_before(outline, j, bound), depth)
        }),
    decreases j + 1,
{
    if j >= 0 && (outline[j].1 as int) >= bound {
        lemma_shallower_skip(outline, j - 1, depth, bound);
    }
}

/// The role of the element named `name`.
fn role_of(name: &Option<String>) -> (r: TagRole)
    ensures
        r == tag_role(opt_view(*name)),
{
    match name {
        Some(n) => {
            let s = n.as_str();
            if str_equal(s, "ul") || str_equal(s, "ol") || str_equal(s, "menu") {
                TagRole::List
            } else if str_equal(s, "a") || str_equal(s, "q") || str_equal(s, "cite") || str_equal(s, "blockquote")
                || str_equal(s, "b") || str_equal(s, "i") || str_equal(s, "s") || str_equal(s, "strong")
                || str_equal(s, "em") || str_equal(s, "del") {
                TagRole::Marker
            } else if str_equal(s, "table") || str_equal(s, "td") || str_equal(s, "th") {
                TagRole::Boundary
            } else {
                TagRole::Plain
            }
        },
        None => TagRole::Plain,
    }
}

/// Whether the element named `name` is a list item.
fn is_list_item(name: &Option<String>) -> (r: bool)
    ensures
        r == (opt_view(*name) == Some("li"@)),
{
    match name {
        Some(n) => str_equal(n.as_str(), "li"),
        None => false,
    }
}

/// Whether `html2md` converts `document`: see `convertible_document`. One
/// pass over the outline keeps the path from the document node to the
/// current node, each entry with what it tells its descendants.
pub fn is_convertible_document(document: &str) -> (r: bool)
    ensures
        r == convertible_document(document@),
{
    let outline = read_document_outline(document);
    let ghost o = outline_view(outline@);
    let n = outline.len();
    let mut path: Vec<(usize, usize, bool, bool)> = Vec::new();
    for k in 0..n
        invariant
            n == outline@.len(),
            o == outline_view(outline@),
            o == document_outline(document@),
            forall|j: int| 0 <= j < k ==> (#[trigger] o[j]).1 < markdown_depth_limit() && !stray_item(o, j),
            k == 0 <==> path@.len() == 0,
            path@.len() > 0 ==> path@.last().0 == k - 1,
            forall|t: int|
                0 <= t < path@.len() ==> {
                    &&& (#[trigger] path@[t]).0 < k
                    &&& path@[t].1 == o[path@[t].0 as int].1
                    &&& path@[t].2 == reach_of(o, path@[t].0 as int)
                    &&& path@[t].3 == mark_of(o, path@[t].0 as int)
                },
            forall|t: int| 0 < t < path@.len() ==> (#[trigger] path@[t]).0 > 0 && path@[t - 1].0 as int == outline_parent(o, path@[t].0 as int),
            path@.len() > 0 ==> outline_parent(o, path@[0].0 as int) < 0,
    {
        let depth = outline[k].1;
        if depth >= 640 {
            assert(o[k as int].1 >= markdown_depth_limit());
            return false;
        }
        proof {
            lemma_shallower_bounds(o, k - 1, depth as int);
        }
        while path.len() > 0 && path[path.len() - 1].1 >= depth
            invariant
                n == outline@.len(),
                o == outline_view(outline@),
                k < n,
                depth == o[k as int].1,
                forall|t: int|
                    0 <= t < path@.len() ==> {
                        &&& (#[trigger] path@[t]).0 < k
                        &&& path@[t].1 == o[path@[t].0 as int].1
                        &&& path@[t].2 == reach_of(o, path@[t].0 as int)
                        &&& path@[t].3 == mark_of(o, path@[t].0 as int)
                    },
                forall|t: int| 0 < t < path@.len() ==> (#[trigger] path@[t]).0 > 0 && path@[t - 1].0 as int == outline_parent(o, path@[t].0 as int),
                path@.len() > 0 ==> outline_parent(o, path@[0].0 as int) < 0,
                shallower_before(o, k - 1, depth as int) == (if path@.len() == 0 {
                    -1
                } else {
                    shallower_before(o, path@.last().0 as int, depth as int)
                }),
            decreases path@.len(),
        {
            let ghost top = path@.last().0 as int;
            proof {
                lemma_shallower_skip(o, top - 1, depth as int, o[top].1 as int);
                if path@.len() > 1 {
                    assert(path@[path@.len() - 1].0 > 0);
                }
            }
            path.pop();
        }
        let ghost parent = shallower_before(o, k - 1, depth as int);
        let (reach, mark) = if path.len() == 0 {
            (false, false)
        } else {
            (path[path.len() - 1].2, path[path.len() - 1].3)
        };
        proof {
            if path@.len() > 0 {
                let top = path@.last().0 as int;
                assert(parent == top);
            }
            assert(outline_parent(o, k as int) == parent);
            assert(reach == list_reachable(o, k as int));
            assert(mark == marked(o, k as int));
        }
        let name = &outline[k].0;
        if is_list_item(name) && !reach && mark {
            assert(stray_item(o, k as int));
            return false;
        }
        let role = role_of(name);
        let reach_here = match role {
            TagRole::List => true,
            TagRole::Boundary => false,
            _ => reach,
        };
        let mark_here = match role {
            TagRole::Marker => true,
            _ => mark,
        };
        assert(reach_here == reach_of(o, k as int));
        assert(mark_here == mark_of(o, k as int));
        path.push((k, depth, reach_here, mark_here));
        assert(!stray_item(o, k as int));
    }
    true
}

/// Converts HTML to Markdown with `html2md::parse_html`. The contract claims
/// that the result is the one `markdown_of` names for `html`. The
/// precondition leaves out what `html2md` cannot convert: a document nested
/// so deeply that its recursive walk overflows the stack, and one with a
/// stray list item, whose handler can move text under a position that an
/// enclosing link, quote or emphasis recorded, so that the enclosing
/// handler's later insertion panics off a character boundary or past the
/// end. A list item that finds its list edits the output only after its own
/// start, and one inside no such element moves no recorded position. The
/// condition is wider than the panics: it also leaves out some documents
/// that `html2md` converts. Its other handlers edit the output only at or
/// after positions they recorded themselves, and only list items remove
/// text. `html2md` parses
/// with html5ever 0.39, the outline comes from html5ever 0.40 through
/// `scraper`; both build the tree by the WHATWG tree-construction algorithm.
/// `html2md` converts each table cell apart, twice per enclosing table, so
/// tables nested many levels deep take a time that grows exponentially with
/// the nesting; that is not stated here.
#[verifier::external_body]
pub(crate) fn html_to_markdown(html: &str) -> (r: String)
    requires
        convertible_document(html@),
    ensures
        r@ == markdown_of(html@),
{
    html2md::parse_html(html)
}

/// The link of one result block: its text pieces and its link target.
pub struct ResultLink {
    pub text: Vec<String>,
    pub href: Option<String>,
}

/// What the library reads of one search-result block.
pub struct ResultBlock {
    /// The first element inside the block that the link selector matches.
    pub link: Option<ResultLink>,
    /// The text pieces of the first element inside the block that the snippet
    /// selector matches.
    pub snippet: Option<Vec<String>>,
}

/// The mathematical form of a [`ResultBlock`].
pub struct BlockView {
    pub link: Option<(Seq<Seq<char>>, Option<Seq<char>>)>,
    pub snippet: Option<Seq<Seq<char>>>,
}

impl View for ResultBlock {
    type V = BlockView;

    open spec fn view(&self) -> BlockView {
        BlockView {
            link: match self.link {
                Some(l) => Some((strings_view(l.text@), opt_view(l.href))),
                None => None,
            },
            snippet: opt_strings_view(self.snippet),
        }
    }
}

/// The mathematical form of each block of a list.
pub open spec fn blocks_view(v: Seq<ResultBlock>) -> Seq<BlockView> {
    v.map_values(|b: ResultBlock| b@)
}

/// The blocks of `document` that `block` matches, in the order in which html5ever
/// created them, each with
/// what `link` (and attribute `href_attr` of it) and `snippet` match inside
/// it; or the description of the first of the three selectors that does not
/// parse.
pub uninterp spec fn result_blocks(
    document: Seq<char>,
    block: Seq<char>,
    link: Seq<char>,
    snippet: Seq<char>,
    href_attr: Seq<char>,
) -> Result<Seq<BlockView>, Seq<char>>;

/// Parses the three selectors with `scraper::Selector::parse` (failing with
/// the first error's `Display` text) and `document` with
/// `scraper::Html::parse_document`, then reads each element that `block`
/// matches. The contract claims only that the result is the one
/// `result_blocks` names for these arguments.
#[verifier::external_body]
pub(crate) fn select_result_blocks(document: &str, block: &str, link: &str, snippet: &str, href_attr: &str) -> (r:
    Result<Vec<ResultBlock>, String>)
    ensures
        match r {
            Ok(v) => result_blocks(document@, block@, link@, snippet@, href_attr@) == Ok::<Seq<BlockView>, Seq<char>>(blocks_view(v@)),
            Err(m) => result_blocks(document@, block@, link@, snippet@, href_attr@) == Err::<Seq<BlockView>, Seq<char>>(m@),
        },
{
    let parse = |s: &str| scraper::Selector::parse(s).map_err(|e| e.to_string());
    let (block, link, snippet) = (parse(block)?, parse(link)?, parse(snippet)?);
    let html = scraper::Html::parse_document(document);
    Ok(html.select(&block).map(|b| ResultBlock {
        link: b.select(&link).next().map(|a| ResultLink {
            text: a.text().map(str::to_owned).collect(),
            href: a.value().attr(href_attr).map(str::to_owned),
        }),
        snippet: b.select(&snippet).next().map(|n| n.text().map(str::to_owned).collect()),
    }).collect())
}

/// The text pieces and link target of each link of a list.
pub open spec fn links_view(v: Seq<ResultLink>) -> Seq<(Seq<Seq<char>>, Option<Seq<char>>)> {
    v.map_values(|l: ResultLink| (strings_view(l.text@), opt_view(l.href)))
}

/// Every element of `document` that `selector` matches, in the order in which
/// html5ever created them, each
/// with its text pieces and its attribute `attr`; or the description of the
/// selector's parse error.
pub uninterp spec fn all_matches(document: Seq<char>, selector: Seq<char>, attr: Seq<char>) -> Result<
    Seq<(Seq<Seq<char>>, Option<Seq<char>>)>,
    Seq<char>,
>;

/// Parses `selector` with `scraper::Selector::parse` (failing with the
/// error's `Display` text) and `document` with
/// `scraper::Html::parse_document`, then reads every matching element. The
/// contract claims only that the result is the one `all_matches` names for
/// these arguments.
#[verifier::external_body]
pub(crate) fn select_all_matches(document: &str, selector: &str, attr: &str) -> (r: Result<Vec<ResultLink>, String>)
    ensures
        match r {
            Ok(v) => all_matches(document@, selector@, attr@) == Ok::<
                Seq<(Seq<Seq<char>>, Option<Seq<char>>)>,
                Seq<char>,
            >(links_view(v@)),
            Err(m) => all_matches(document@, selector@, attr@) == Err::<
                Seq<(Seq<Seq<char>>, Option<Seq<char>>)>,
                Seq<char>,
            >(m@),
        },
{
    let selector = scraper::Selector::parse(selector).map_err(|e| e.to_string())?;
    let html = scraper::Html::parse_document(document);
    Ok(html.select(&selector).map(|a| ResultLink {
        text: a.text().map(str::to_owned).collect(),
        href: a.value().attr(attr).map(str::to_owned),
    }).collect())
}

} // verus!
