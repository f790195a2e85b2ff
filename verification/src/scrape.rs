use vstd::prelude::*;
use scraper::{ElementRef, Html, Selector};

verus! {

/// The characters of an optional string.
pub open spec fn opt_view(o: Option<String>) -> Option<Seq<char>> {
    match o {
        Some(s) => Some(s@),
        None => None,
    }
}

/// A link of a page: its target, its text, and the text of the element two nodes after its
/// parent's (on the killboard, the cell that names the killer).
pub struct Link {
    pub href: Option<String>,
    pub text: String,
    pub killer: Option<String>,
}

impl Link {
    pub open spec fn view(self) -> (Option<Seq<char>>, Seq<char>, Option<Seq<char>>) {
        (opt_view(self.href), self.text@, opt_view(self.killer))
    }
}

/// The views of a list of links.
pub open spec fn link_views(v: Seq<Link>) -> Seq<(Option<Seq<char>>, Seq<char>, Option<Seq<char>>)> {
    Seq::new(v.len(), |i: int| v[i].view())
}

/// A row of the chat: its id attribute, the inner HTML of its cells, and the target and text
/// of the first link to a player within its first cell.
pub struct Row {
    pub id: Option<String>,
    pub cells: Vec<String>,
    pub link: Option<(Option<String>, String)>,
}

impl Row {
    pub open spec fn view(self) -> (Option<Seq<char>>, Seq<Seq<char>>, Option<(Option<Seq<char>>, Seq<char>, Option<Seq<char>>)>) {
        (
            opt_view(self.id),
            crate::text::str_views(self.cells@),
            match self.link {
                Some(l) => Some((opt_view(l.0), l.1@, None)),
                None => None,
            },
        )
    }
}

/// The views of a list of rows.
pub open spec fn row_views(v: Seq<Row>) -> Seq<(Option<Seq<char>>, Seq<Seq<char>>, Option<(Option<Seq<char>>, Seq<char>, Option<Seq<char>>)>)> {
    Seq::new(v.len(), |i: int| v[i].view())
}

/// A panel of the website: the text of its title, of its body, and of its mission particulars.
pub struct PanelDiv {
    pub title: Option<String>,
    pub body: Option<String>,
    pub particulars: Option<String>,
}

impl PanelDiv {
    pub open spec fn view(self) -> (Option<Seq<char>>, Option<Seq<char>>, Option<Seq<char>>) {
        (opt_view(self.title), opt_view(self.body), opt_view(self.particulars))
    }
}

/// The views of a list of panels.
pub open spec fn panel_views(v: Seq<PanelDiv>) -> Seq<(Option<Seq<char>>, Option<Seq<char>>, Option<Seq<char>>)> {
    Seq::new(v.len(), |i: int| v[i].view())
}

/// A control of a form: its `type`, `name` and `value` attributes.
pub struct Control {
    pub kind: Option<String>,
    pub name: Option<String>,
    pub value: Option<String>,
}

impl Control {
    pub open spec fn view(self) -> (Option<Seq<char>>, Option<Seq<char>>, Option<Seq<char>>) {
        (opt_view(self.kind), opt_view(self.name), opt_view(self.value))
    }
}

/// The views of a list of controls.
pub open spec fn control_views(v: Seq<Control>) -> Seq<(Option<Seq<char>>, Option<Seq<char>>, Option<Seq<char>>)> {
    Seq::new(v.len(), |i: int| v[i].view())
}

/// What `scraper` finds for the links selected by `selector` in the document `html`, as
/// `select_links` extracts them; `None` when the selector does not parse.
pub uninterp spec fn selected_links(html: Seq<char>, selector: Seq<char>) -> Option<Seq<(Option<Seq<char>>, Seq<char>, Option<Seq<char>>)>>;

/// What `scraper` finds for the rows selected in the fragment `html`, as `select_rows`
/// extracts them; `None` when a selector does not parse.
pub uninterp spec fn selected_rows(html: Seq<char>, row: Seq<char>, cell: Seq<char>, link: Seq<char>) -> Option<Seq<(Option<Seq<char>>, Seq<Seq<char>>, Option<(Option<Seq<char>>, Seq<char>, Option<Seq<char>>)>)>>;

/// What `scraper` finds for the panels selected in the document `html`, as `select_panels`
/// extracts them; `None` when a selector does not parse.
pub uninterp spec fn selected_panels(html: Seq<char>, panel: Seq<char>, title: Seq<char>, body: Seq<char>, particulars: Seq<char>) -> Option<Seq<(Option<Seq<char>>, Option<Seq<char>>, Option<Seq<char>>)>>;

/// The inner HTML of the first element of the document `html` selected by `selector`, as
/// `scraper` gives it; `None` when the selector does not parse.
pub uninterp spec fn first_inner(html: Seq<char>, selector: Seq<char>) -> Option<Option<Seq<char>>>;

/// What `scraper` finds of the first form of the document `html` (its `action` attribute, if
/// there is a form) and of the controls selected by `control`; `None` when a selector does not
/// parse.
pub uninterp spec fn selected_form(html: Seq<char>, form: Seq<char>, control: Seq<char>) -> Option<(Option<Option<Seq<char>>>, Seq<(Option<Seq<char>>, Option<Seq<char>>, Option<Seq<char>>)>)>;

/// `scraper::Html::parse_document` then `select`: for each element selected, its `href`, its
/// text, and the text of the element two nodes after its parent. The contract claims only that
/// the result is the named function `selected_links` of the document and the selector.
#[verifier::external_body]
pub(crate) fn select_links(html: &str, selector: &str) -> (r: Option<Vec<Link>>)
    ensures
        match r {
            Some(v) => selected_links(html@, selector@) == Some(link_views(v@)),
            None => selected_links(html@, selector@) is None,
        },
{
    let sel = Selector::parse(selector).ok()?;
    let doc = Html::parse_document(html);
    Some(doc.select(&sel).map(|a| Link {
        href: a.attr("href").map(String::from),
        text: a.text().collect(),
        killer: a.parent().and_then(|p| p.next_sibling()).and_then(|p| p.next_sibling())
            .and_then(ElementRef::wrap).map(|p| p.text().collect()),
    }).collect())
}

/// `scraper::Html::parse_fragment` then `select`: for each row selected, its `id`, the inner
/// HTML of its cells, and the first link selected within its first cell. The contract claims
/// only that the result is the named function `selected_rows` of the fragment and selectors.
#[verifier::external_body]
pub(crate) fn select_rows(html: &str, row: &str, cell: &str, link: &str) -> (r: Option<Vec<Row>>)
    ensures
        match r {
            Some(v) => selected_rows(html@, row@, cell@, link@) == Some(row_views(v@)),
            None => selected_rows(html@, row@, cell@, link@) is None,
        },
{
    let (rs, cs, ls) = (Selector::parse(row).ok()?, Selector::parse(cell).ok()?, Selector::parse(link).ok()?);
    Some(Html::parse_fragment(html).select(&rs).map(|tr| {
        let cols: Vec<_> = tr.select(&cs).collect();
        Row {
            id: tr.attr("id").map(String::from),
            cells: cols.iter().map(|c| c.inner_html()).collect(),
            link: cols.first().and_then(|c| c.select(&ls).next()).map(|a| (a.attr("href").map(String::from), a.text().collect())),
        }
    }).collect())
}

/// `scraper::Html::parse_document` then `select`: for each panel selected, the text of the
/// first title, body and particulars within it. The contract claims only that the result is
/// the named function `selected_panels` of the document and selectors.
#[verifier::external_body]
pub(crate) fn select_panels(html: &str, panel: &str, title: &str, body: &str, particulars: &str) -> (r: Option<Vec<PanelDiv>>)
    ensures
        match r {
            Some(v) => selected_panels(html@, panel@, title@, body@, particulars@) == Some(panel_views(v@)),
            None => selected_panels(html@, panel@, title@, body@, particulars@) is None,
        },
{
    let (ps, ts, bs, xs) = (Selector::parse(panel).ok()?, Selector::parse(title).ok()?, Selector::parse(body).ok()?, Selector::parse(particulars).ok()?);
    let doc = Html::parse_document(html);
    Some(doc.select(&ps).map(|div| PanelDiv {
        title: div.select(&ts).next().map(|e| e.text().collect()),
        body: div.select(&bs).next().map(|e| e.text().collect()),
        particulars: div.select(&xs).next().map(|e| e.text().collect()),
    }).collect())
}

/// `scraper::Html::parse_document` then `select(..).next()` and `inner_html`. The contract
/// claims only that the result is the named function `first_inner` of the document and the
/// selector.
#[verifier::external_body]
pub(crate) fn select_first_inner(html: &str, selector: &str) -> (r: Option<Option<String>>)
    ensures
        match r {
            Some(Some(s)) => first_inner(html@, selector@) == Some(Some(s@)),
            Some(None) => first_inner(html@, selector@) == Some(None::<Seq<char>>),
            None => first_inner(html@, selector@) is None,
        },
{
    let sel = Selector::parse(selector).ok()?;
    Some(Html::parse_document(html).select(&sel).next().map(|e| e.inner_html()))
}

/// `scraper::Html::parse_document` then `select`: the `action` of the first form, and the
/// `type`, `name` and `value` of each control selected. The contract claims only that the
/// result is the named function `selected_form` of the document and selectors.
#[verifier::external_body]
pub(crate) fn select_form(html: &str, form: &str, control: &str) -> (r: Option<(Option<Option<String>>, Vec<Control>)>)
    ensures
        match r {
            Some((a, c)) => selected_form(html@, form@, control@) == Some((
                match a {
                    Some(x) => Some(opt_view(x)),
                    None => None,
                },
                control_views(c@),
            )),
            None => selected_form(html@, form@, control@) is None,
        },
{
    let (fs, cs) = (Selector::parse(form).ok()?, Selector::parse(control).ok()?);
    let doc = Html::parse_document(html);
    let action = doc.select(&fs).next().map(|f| f.attr("action").map(String::from));
    Some((action, doc.select(&cs).map(|e| Control {
        kind: e.attr("type").map(String::from),
        name: e.attr("name").map(String::from),
        value: e.attr("value").map(String::from),
    }).collect()))
}

} // verus!
