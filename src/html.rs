use vstd::prelude::*;
use select::document::Document;
use select::predicate::{Attr, Name, Predicate};
use crate::text::{trim, trimmed_of, country_code_from_icon, icon_country_code, opt_view, view_or_empty, text_or_empty};

verus! {

#[verifier::external_type_specification]
#[verifier::external_body]
pub struct ExDocument(Document);

/// The nodes of the `tr` elements under the element with a given `id`, in
/// document order, in the tree that select builds from an HTML text.
pub uninterp spec fn table_rows(html: Seq<char>, table_id: Seq<char>) -> Seq<usize>;

/// The descendants of a node that are elements of a given name, in document
/// order, in the tree that select builds from an HTML text.
pub uninterp spec fn named_descendants(html: Seq<char>, node: usize, name: Seq<char>) -> Seq<usize>;

/// The descendants of a node whose `class` attribute is a given text, in
/// document order, in the tree that select builds from an HTML text.
pub uninterp spec fn class_descendants(html: Seq<char>, node: usize, class: Seq<char>) -> Seq<usize>;

/// The value of an attribute of a node, in the tree that select builds from
/// an HTML text.
pub uninterp spec fn attr_value(html: Seq<char>, node: usize, name: Seq<char>) -> Option<Seq<char>>;

/// The text of a node and all its descendants, in the tree that select
/// builds from an HTML text.
pub uninterp spec fn node_text(html: Seq<char>, node: usize) -> Seq<char>;

/// An HTML text together with the node tree that select builds from it.
/// Both fields are private and set together in `parse` alone, so `doc` is
/// always the tree of `html`.
pub struct Page {
    html: String,
    doc: Document,
}

/// Relies on select's `Document::from(&str)`: builds the node tree of an HTML text.
#[verifier::external_body]
fn parse_document(html: &str) -> Document {
    Document::from(html)
}

/// Relies on select's `Document::find` with `Attr("id", ..).descendant(Name("tr"))`:
/// the rows under the element with that `id`, as node indices.
#[verifier::external_body]
fn rows_of_table(page: &Page, table_id: &str) -> (r: Vec<usize>)
    ensures
        r@ == table_rows(page.html(), table_id@),
{
    page.doc.find(Attr("id", table_id).descendant(Name("tr"))).map(|n| n.index()).collect()
}

/// Relies on select's `Node::find` with `Name(..)`: the descendants of a node
/// that are elements of that name, as node indices.
#[verifier::external_body]
fn descendants_named(page: &Page, node: usize, name: &str) -> (r: Vec<usize>)
    ensures
        r@ == named_descendants(page.html(), node, name@),
{
    page.doc.nth(node).map(|n| n.find(Name(name)).map(|d| d.index()).collect()).unwrap_or_default()
}

/// Relies on select's `Node::find` with `Attr("class", ..)`: the descendants of
/// a node whose `class` attribute is exactly that text, as node indices.
#[verifier::external_body]
fn descendants_of_class(page: &Page, node: usize, class: &str) -> (r: Vec<usize>)
    ensures
        r@ == class_descendants(page.html(), node, class@),
{
    page.doc.nth(node).map(|n| n.find(Attr("class", class)).map(|d| d.index()).collect()).unwrap_or_default()
}

/// Relies on select's `Node::attr`: the value of an attribute of a node.
#[verifier::external_body]
fn attr_of(page: &Page, node: usize, name: &str) -> (r: Option<String>)
    ensures
        opt_view(r) == attr_value(page.html(), node, name@),
{
    page.doc.nth(node).and_then(|n| n.attr(name)).map(|v| v.to_string())
}

/// Relies on select's `Node::text`: the text of a node and all its descendants.
#[verifier::external_body]
fn text_of(page: &Page, node: usize) -> (r: String)
    ensures
        r@ == node_text(page.html(), node),
{
    page.doc.nth(node).map(|n| n.text()).unwrap_or_default()
}

impl Page {
    /// The HTML text that the page was built from.
    pub closed spec fn html(&self) -> Seq<char> {
        self.html@
    }

    /// Builds the node tree of an HTML text.
    pub fn parse(html: String) -> (r: Page)
        ensures
            r.html() == html@,
    {
        let doc = parse_document(html.as_str());
        Page { html, doc }
    }
}

/// The views of a sequence of texts.
pub open spec fn texts(v: Seq<String>) -> Seq<Seq<char>> {
    v.map_values(|s: String| s@)
}

/// How a source marks a row's country with an icon.
#[derive(Clone, Copy, Debug, PartialEq, Eq, Structural)]
pub enum FlagStyle {
    /// Icons inside a flag box: the icon's path carries the country code and
    /// its title the country name.
    PathAndTitle,
    /// The first icon of a cell: its title alone names the country.
    TitleOnly,
}

/// The attributes of an icon (`img`) that name a country.
pub struct Icon {
    pub src: Option<String>,
    pub title: Option<String>,
}

/// An icon as a value.
pub ghost struct IconView {
    pub src: Option<Seq<char>>,
    pub title: Option<Seq<char>>,
}

impl View for Icon {
    type V = IconView;

    open spec fn view(&self) -> IconView {
        IconView { src: opt_view(self.src), title: opt_view(self.title) }
    }
}

/// What a table cell holds: its country icons and its whole text.
pub struct CellParts {
    pub icons: Vec<Icon>,
    pub text: String,
}

/// A cell as a value.
pub ghost struct CellView {
    pub icons: Seq<IconView>,
    pub text: Seq<char>,
}

/// The views of a sequence of icons.
pub open spec fn icon_views(v: Seq<Icon>) -> Seq<IconView> {
    v.map_values(|i: Icon| i@)
}

impl View for CellParts {
    type V = CellView;

    open spec fn view(&self) -> CellView {
        CellView { icons: icon_views(self.icons@), text: self.text@ }
    }
}

/// The views of the cells of a row.
pub open spec fn cell_views(v: Seq<CellParts>) -> Seq<CellView> {
    v.map_values(|c: CellParts| c@)
}

/// The views of the rows of a table.
pub open spec fn row_views(v: Seq<Vec<CellParts>>) -> Seq<Seq<CellView>> {
    v.map_values(|row: Vec<CellParts>| cell_views(row@))
}

// ---------------------------------------------------------------------------
// What a page's table holds

/// The class of the box that holds the flag icons of a cell.
pub open spec fn flag_box_class() -> Seq<char> {
    "flag alignright floatright"@
}

/// An icon of a page: its `src` and `title` attributes.
pub open spec fn icon_at(html: Seq<char>, img: usize) -> IconView {
    IconView { src: attr_value(html, img, "src"@), title: attr_value(html, img, "title"@) }
}

/// The country icons of a cell of a page: every `img` of the cell's first flag
/// box, or only the title of the cell's first `img`.
pub open spec fn icons_at(html: Seq<char>, cell: usize, style: FlagStyle) -> Seq<IconView> {
    match style {
        FlagStyle::PathAndTitle => {
            let boxes = class_descendants(html, cell, flag_box_class());
            if boxes.len() > 0 {
                named_descendants(html, boxes[0], "img"@).map_values(|i: usize| icon_at(html, i))
            } else {
                Seq::empty()
            }
        },
        FlagStyle::TitleOnly => {
            let imgs = named_descendants(html, cell, "img"@);
            if imgs.len() > 0 {
                seq![IconView { src: None, title: attr_value(html, imgs[0], "title"@) }]
            } else {
                Seq::empty()
            }
        },
    }
}

/// A cell of a page: its country icons and its text.
pub open spec fn cell_at(html: Seq<char>, cell: usize, style: FlagStyle) -> CellView {
    CellView { icons: icons_at(html, cell, style), text: node_text(html, cell) }
}

/// The cells (`td`) of a row of a page.
pub open spec fn row_at(html: Seq<char>, row: usize, style: FlagStyle) -> Seq<CellView> {
    named_descendants(html, row, "td"@).map_values(|c: usize| cell_at(html, c, style))
}

/// The rows of the table of a page with a given `id`, each as its cells.
pub open spec fn cells_of(html: Seq<char>, table_id: Seq<char>, style: FlagStyle) -> Seq<Seq<CellView>> {
    table_rows(html, table_id).map_values(|r: usize| row_at(html, r, style))
}

// ---------------------------------------------------------------------------
// Flattening a row

/// The fragments that one icon contributes to a row.
pub open spec fn icon_fragments(icon: IconView, style: FlagStyle) -> Seq<Seq<char>> {
    match style {
        FlagStyle::PathAndTitle => {
            let code = match icon.src {
                Some(src) => seq![icon_country_code(src)],
                None => Seq::empty(),
            };
            code.push(view_or_empty(icon.title))
        },
        FlagStyle::TitleOnly => match icon.title {
            Some(t) => seq![t],
            None => Seq::empty(),
        },
    }
}

/// The fragments of a sequence of icons, in order.
pub open spec fn icons_fragments(icons: Seq<IconView>, style: FlagStyle) -> Seq<Seq<char>>
    decreases icons.len(),
{
    if icons.len() == 0 {
        Seq::empty()
    } else {
        icons_fragments(icons.drop_last(), style) + icon_fragments(icons.last(), style)
    }
}

/// The fragments of a cell: those of its icons, then its trimmed text.
pub open spec fn cell_fragments(cell: CellView, style: FlagStyle) -> Seq<Seq<char>> {
    icons_fragments(cell.icons, style).push(trimmed_of(cell.text))
}

/// A row flattened: the fragments of its cells, one cell after the other.
pub open spec fn row_fragments(cells: Seq<CellView>, style: FlagStyle) -> Seq<Seq<char>>
    decreases cells.len(),
{
    if cells.len() == 0 {
        Seq::empty()
    } else {
        row_fragments(cells.drop_last(), style) + cell_fragments(cells.last(), style)
    }
}

/// Appends the fragments of one icon to `out`.
fn push_icon_fragments(icon: &Icon, style: FlagStyle, out: &mut Vec<String>)
    ensures
        texts(final(out)@) == texts(old(out)@) + icon_fragments(icon@, style),
{
    match style {
        FlagStyle::PathAndTitle => {
            if let Some(src) = &icon.src {
                out.push(country_code_from_icon(src.as_str()));
            }
            out.push(text_or_empty(&icon.title));
        },
        FlagStyle::TitleOnly => {
            if let Some(t) = &icon.title {
                out.push(t.clone());
            }
        },
    }
    assert(texts(out@) =~= texts(old(out)@) + icon_fragments(icon@, style));
}

/// Appends the fragments of one cell to `out`.
fn push_cell_fragments(cell: &CellParts, style: FlagStyle, out: &mut Vec<String>)
    ensures
        texts(final(out)@) == texts(old(out)@) + cell_fragments(cell@, style),
{
    let ghost start = texts(out@);
    let mut k: usize = 0;
    assert(icon_views(cell.icons@.take(0)) =~= Seq::<IconView>::empty());
    while k < cell.icons.len()
        invariant
            k <= cell.icons@.len(),
            texts(out@) == start + icons_fragments(icon_views(cell.icons@.take(k as int)), style),
        decreases cell.icons@.len() - k,
    {
        push_icon_fragments(&cell.icons[k], style, out);
        assert(icon_views(cell.icons@.take(k + 1)).drop_last() =~= icon_views(cell.icons@.take(k as int)));
        assert(icon_views(cell.icons@.take(k + 1)).last() == cell.icons@[k as int]@);
        assert(texts(out@) =~= start + icons_fragments(icon_views(cell.icons@.take(k + 1)), style));
        k += 1;
    }
    assert(cell.icons@.take(k as int) =~= cell.icons@);
    let ghost before = out@;
    out.push(trim(cell.text.as_str()));
    assert(texts(out@) =~= texts(before).push(trimmed_of(cell.text@)));
    assert(texts(out@) =~= start + cell_fragments(cell@, style));
}

/// Flattens the cells of a table row into one sequence of fields: for each
/// cell, the fragments of its icons and then its trimmed text.
pub fn flatten_row(cells: &Vec<CellParts>, style: FlagStyle) -> (r: Vec<String>)
    ensures
        texts(r@) == row_fragments(cell_views(cells@), style),
{
    let mut out: Vec<String> = Vec::new();
    let mut k: usize = 0;
    assert(texts(out@) =~= row_fragments(cell_views(cells@.take(0)), style));
    while k < cells.len()
        invariant
            k <= cells@.len(),
            texts(out@) == row_fragments(cell_views(cells@.take(k as int)), style),
        decreases cells@.len() - k,
    {
        push_cell_fragments(&cells[k], style, &mut out);
        assert(cell_views(cells@.take(k + 1)).drop_last() =~= cell_views(cells@.take(k as int)));
        assert(cell_views(cells@.take(k + 1)).last() == cells@[k as int]@);
        k += 1;
    }
    assert(cells@.take(k as int) =~= cells@);
    out
}

// ---------------------------------------------------------------------------
// Reading a page's table

/// Reads the country icons and the text of one table cell.
fn cell_parts(page: &Page, cell: usize, style: FlagStyle) -> (r: CellParts)
    ensures
        r@ == cell_at(page.html(), cell, style),
{
    let ghost html = page.html();
    let mut icons: Vec<Icon> = Vec::new();
    match style {
        FlagStyle::PathAndTitle => {
            let boxes = descendants_of_class(page, cell, "flag alignright floatright");
            if boxes.len() > 0 {
                let imgs = descendants_named(page, boxes[0], "img");
                let mut k: usize = 0;
                assert(icon_views(icons@) =~= imgs@.take(0).map_values(|i: usize| icon_at(html, i)));
                while k < imgs.len()
                    invariant
                        k <= imgs@.len(),
                        html == page.html(),
                        icon_views(icons@) == imgs@.take(k as int).map_values(|i: usize| icon_at(html, i)),
                    decreases imgs@.len() - k,
                {
                    let src = attr_of(page, imgs[k], "src");
                    let title = attr_of(page, imgs[k], "title");
                    let ghost prev = icons@;
                    let icon = Icon { src, title };
                    assert(icon@ == icon_at(html, imgs@[k as int]));
                    icons.push(icon);
                    assert(icon_views(icons@) =~= icon_views(prev).push(icon_at(html, imgs@[k as int])));
                    assert(imgs@.take(k + 1).map_values(|i: usize| icon_at(html, i))
                        =~= imgs@.take(k as int).map_values(|i: usize| icon_at(html, i)).push(icon_at(html, imgs@[k as int])));
                    k += 1;
                }
                assert(imgs@.take(k as int) =~= imgs@);
            }
        },
        FlagStyle::TitleOnly => {
            let imgs = descendants_named(page, cell, "img");
            if imgs.len() > 0 {
                let title = attr_of(page, imgs[0], "title");
                icons.push(Icon { src: None, title });
            }
        },
    }
    let text = text_of(page, cell);
    let r = CellParts { icons, text };
    assert(r@.icons =~= icons_at(html, cell, style));
    r
}

/// Reads the cells (`td`) of one table row.
fn row_cells(page: &Page, row: usize, style: FlagStyle) -> (r: Vec<CellParts>)
    ensures
        cell_views(r@) == row_at(page.html(), row, style),
{
    let ghost html = page.html();
    let tds = descendants_named(page, row, "td");
    let mut cells: Vec<CellParts> = Vec::new();
    let mut k: usize = 0;
    assert(cell_views(cells@) =~= tds@.take(0).map_values(|c: usize| cell_at(html, c, style)));
    while k < tds.len()
        invariant
            k <= tds@.len(),
            html == page.html(),
            cell_views(cells@) == tds@.take(k as int).map_values(|c: usize| cell_at(html, c, style)),
        decreases tds@.len() - k,
    {
        let ghost prev = cells@;
        let cell = cell_parts(page, tds[k], style);
        cells.push(cell);
        assert(cell_views(cells@) =~= cell_views(prev).push(cell_at(html, tds@[k as int], style)));
        assert(tds@.take(k + 1).map_values(|c: usize| cell_at(html, c, style))
            =~= tds@.take(k as int).map_values(|c: usize| cell_at(html, c, style)).push(cell_at(html, tds@[k as int], style)));
        k += 1;
    }
    assert(tds@.take(k as int) =~= tds@);
    cells
}

/// Reads every row of the table with the given `id`: one entry per row of
/// that table, and of no other, in document order, each with its cells.
pub fn table_cells(page: &Page, table_id: &str, style: FlagStyle) -> (r: Vec<Vec<CellParts>>)
    ensures
        row_views(r@) == cells_of(page.html(), table_id@, style),
{
    let ghost html = page.html();
    let rows = rows_of_table(page, table_id);
    let mut out: Vec<Vec<CellParts>> = Vec::new();
    let mut k: usize = 0;
    assert(row_views(out@) =~= rows@.take(0).map_values(|r: usize| row_at(html, r, style)));
    while k < rows.len()
        invariant
            k <= rows@.len(),
            html == page.html(),
            rows@ == table_rows(html, table_id@),
            row_views(out@) == rows@.take(k as int).map_values(|r: usize| row_at(html, r, style)),
        decreases rows@.len() - k,
    {
        let ghost prev = out@;
        let row = row_cells(page, rows[k], style);
        out.push(row);
        assert(row_views(out@) =~= row_views(prev).push(row_at(html, rows@[k as int], style)));
        assert(rows@.take(k + 1).map_values(|r: usize| row_at(html, r, style))
            =~= rows@.take(k as int).map_values(|r: usize| row_at(html, r, style)).push(row_at(html, rows@[k as int], style)));
        k += 1;
    }
    assert(rows@.take(k as int) =~= rows@);
    out
}

} // verus!
