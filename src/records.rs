use vstd::prelude::*;
use crate::models::{ApiResponse, Data, Family, Prefix};
use crate::cidr::{classify, classified};
use crate::text::{or_empty, text_or_empty};
use crate::html::{texts, row_fragments, flatten_row, row_views, cell_views, CellParts, CellView, FlagStyle};

verus! {

/// One announced prefix, in the shape that every source is brought to.
pub struct PrefixRecord {
    /// The family of the prefix, always the one that was asked for.
    pub family: Family,
    /// The canonical text of the prefix, as the plain list shows it.
    pub prefix: String,
    /// The tabular row, in the column order of the source.
    pub fields: Vec<String>,
}

/// A record as a value.
pub ghost struct RecordView {
    pub family: Family,
    pub prefix: Seq<char>,
    pub fields: Seq<Seq<char>>,
}

impl View for PrefixRecord {
    type V = RecordView;

    open spec fn view(&self) -> RecordView {
        RecordView { family: self.family, prefix: self.prefix@, fields: texts(self.fields@) }
    }
}

/// The views of a sequence of records.
pub open spec fn views(v: Seq<PrefixRecord>) -> Seq<RecordView> {
    v.map_values(|r: PrefixRecord| r@)
}

/// The record that a row makes when `raw` is a network literal of `family`,
/// and nothing otherwise.
pub open spec fn accepted(raw: Seq<char>, family: Family, fields: Seq<Seq<char>>) -> Option<RecordView> {
    match classified(raw) {
        Some((f, t)) => if f == family {
            Some(RecordView { family, prefix: t, fields })
        } else {
            None
        },
        None => None,
    }
}

/// A record keeps the family asked for, and its prefix reads back as a
/// network of that family with the same text.
pub open spec fn sound(r: RecordView, family: Family) -> bool {
    r.family == family && classified(r.prefix) == Some((family, r.prefix))
}

/// Every record of a sequence is sound for `family`.
pub open spec fn all_sound(v: Seq<PrefixRecord>, family: Family) -> bool {
    forall|i: int| 0 <= i < v.len() ==> #[trigger] sound(v[i]@, family)
}

/// The one-element sequence of a record that was made, or nothing.
pub open spec fn kept(r: Option<RecordView>) -> Seq<RecordView> {
    match r {
        Some(v) => seq![v],
        None => Seq::empty(),
    }
}

/// Builds the record of a row whose prefix field is `raw`, provided `raw` is a
/// network literal of `family`.
pub fn accept(raw: &str, family: Family, fields: Vec<String>) -> (r: Option<PrefixRecord>)
    ensures
        match accepted(raw@, family, texts(fields@)) {
            Some(v) => r matches Some(x) && x@ == v,
            None => r is None,
        },
        r matches Some(x) ==> sound(x@, family),
{
    match classify(raw) {
        Ok(n) => if n.family == family {
            Some(PrefixRecord { family, prefix: n.text, fields })
        } else {
            None
        },
        Err(_) => None,
    }
}

/// Appends a record, if one was made, keeping the records sound.
fn push_kept(out: &mut Vec<PrefixRecord>, r: Option<PrefixRecord>, family: Family, Ghost(made): Ghost<Option<RecordView>>)
    requires
        all_sound(old(out)@, family),
        match made {
            Some(v) => r matches Some(x) && x@ == v && sound(v, family),
            None => r is None,
        },
    ensures
        views(final(out)@) == views(old(out)@) + kept(made),
        all_sound(final(out)@, family),
{
    if let Some(x) = r {
        out.push(x);
    }
    assert(views(out@) =~= views(old(out)@) + kept(made));
}

// ---------------------------------------------------------------------------
// The JSON prefix API

/// The tabular row of an API prefix: prefix, country code, name, description
/// and registry name, each absent field as the empty text.
pub open spec fn api_fields(p: Prefix) -> Seq<Seq<char>> {
    seq![
        p.prefix@,
        or_empty(p.country_code),
        or_empty(p.name),
        or_empty(p.description),
        or_empty(p.parent.rir_name),
    ]
}

/// The API list of a family.
pub open spec fn api_list(data: Data, family: Family) -> Seq<Prefix> {
    match family {
        Family::V4 => data.ipv4_prefixes@,
        Family::V6 => data.ipv6_prefixes@,
    }
}

/// The records of a list of API prefixes, those not of `family` left out.
pub open spec fn api_records(ps: Seq<Prefix>, family: Family) -> Seq<RecordView>
    decreases ps.len(),
{
    if ps.len() == 0 {
        Seq::empty()
    } else {
        api_records(ps.drop_last(), family) + kept(accepted(ps.last().prefix@, family, api_fields(ps.last())))
    }
}

/// The tabular row of an API prefix.
pub fn api_row(p: &Prefix) -> (r: Vec<String>)
    ensures
        texts(r@) == api_fields(*p),
{
    let mut row: Vec<String> = Vec::new();
    row.push(p.prefix.clone());
    row.push(text_or_empty(&p.country_code));
    row.push(text_or_empty(&p.name));
    row.push(text_or_empty(&p.description));
    row.push(text_or_empty(&p.parent.rir_name));
    assert(texts(row@) =~= api_fields(*p));
    row
}

/// The records of the API list of `family`: one per prefix, in order, each
/// checked to be a network of `family`; the other list is never read.
pub fn api_prefix_records(data: &Data, family: Family) -> (r: Vec<PrefixRecord>)
    ensures
        views(r@) == api_records(api_list(*data, family), family),
        all_sound(r@, family),
{
    let list = match family {
        Family::V4 => &data.ipv4_prefixes,
        Family::V6 => &data.ipv6_prefixes,
    };
    let mut out: Vec<PrefixRecord> = Vec::new();
    let mut k: usize = 0;
    assert(views(out@) =~= api_records(list@.take(0), family));
    while k < list.len()
        invariant
            k <= list@.len(),
            list@ == api_list(*data, family),
            views(out@) == api_records(list@.take(k as int), family),
            all_sound(out@, family),
        decreases list@.len() - k,
    {
        let p = &list[k];
        let made = accept(p.prefix.as_str(), family, api_row(p));
        push_kept(&mut out, made, family, Ghost(accepted(p.prefix@, family, api_fields(*p))));
        assert(list@.take(k + 1).drop_last() =~= list@.take(k as int));
        k += 1;
    }
    assert(list@.take(k as int) =~= list@);
    out
}

// ---------------------------------------------------------------------------
// The two HTML sources

/// The two sources that serve their prefixes as an HTML table.
#[derive(Clone, Copy, Debug, PartialEq, Eq, Structural)]
pub enum HtmlSource {
    /// One table per family; a flag box in a cell gives code and name.
    HeNet,
    /// One table for both families; an icon title gives the country.
    BgpTools,
}

/// The `id` of the table that holds the rows of `family`.
pub open spec fn table_id_of(source: HtmlSource, family: Family) -> Seq<char> {
    match source {
        HtmlSource::HeNet => match family {
            Family::V4 => "table_prefixes4"@,
            Family::V6 => "table_prefixes6"@,
        },
        HtmlSource::BgpTools => "donotscrapebgptools-prefixlist-tbody"@,
    }
}

/// How the source marks a country.
pub open spec fn style_of(source: HtmlSource) -> FlagStyle {
    match source {
        HtmlSource::HeNet => FlagStyle::PathAndTitle,
        HtmlSource::BgpTools => FlagStyle::TitleOnly,
    }
}

/// A field of a row by position, the empty text past its end.
pub open spec fn field_at(row: Seq<Seq<char>>, i: int) -> Seq<char> {
    if 0 <= i < row.len() {
        row[i]
    } else {
        Seq::empty()
    }
}

/// The output columns of a flattened bgp.tools row: the third field (the
/// prefix), the first (the country icon's title), the fourth (the description).
pub open spec fn bgp_tools_fields(row: Seq<Seq<char>>) -> Seq<Seq<char>> {
    seq![field_at(row, 2), field_at(row, 0), field_at(row, 3)]
}

/// The field of a flattened row that a source reads as the prefix.
pub open spec fn prefix_field(row: Seq<Seq<char>>, source: HtmlSource) -> Seq<char> {
    match source {
        HtmlSource::HeNet => field_at(row, 0),
        HtmlSource::BgpTools => field_at(row, 2),
    }
}

/// The output columns of a flattened row: the row itself for bgp.he.net, the
/// reordered columns for bgp.tools.
pub open spec fn output_fields(row: Seq<Seq<char>>, source: HtmlSource) -> Seq<Seq<char>> {
    match source {
        HtmlSource::HeNet => row,
        HtmlSource::BgpTools => bgp_tools_fields(row),
    }
}

/// The record that a flattened row makes, if its prefix field is a network of
/// `family`. A row without fields makes none: its prefix field is empty.
pub open spec fn row_record(row: Seq<Seq<char>>, family: Family, source: HtmlSource) -> Option<RecordView> {
    accepted(prefix_field(row, source), family, output_fields(row, source))
}

/// The records of a table's rows, read cell by cell, in order.
pub open spec fn table_records(rows: Seq<Seq<CellView>>, family: Family, source: HtmlSource) -> Seq<RecordView>
    decreases rows.len(),
{
    if rows.len() == 0 {
        Seq::empty()
    } else {
        table_records(rows.drop_last(), family, source)
            + kept(row_record(row_fragments(rows.last(), style_of(source)), family, source))
    }
}

impl HtmlSource {
    /// The `id` of the table to read for `family`; the other family's table
    /// is never read.
    pub fn table_id(self, family: Family) -> (r: &'static str)
        ensures
            r@ == table_id_of(self, family),
    {
        match self {
            HtmlSource::HeNet => match family {
                Family::V4 => "table_prefixes4",
                Family::V6 => "table_prefixes6",
            },
            HtmlSource::BgpTools => "donotscrapebgptools-prefixlist-tbody",
        }
    }

    /// How the source marks a country.
    pub fn flag_style(self) -> (r: FlagStyle)
        ensures
            r == style_of(self),
    {
        match self {
            HtmlSource::HeNet => FlagStyle::PathAndTitle,
            HtmlSource::BgpTools => FlagStyle::TitleOnly,
        }
    }
}

/// A field of a row by position, the empty text past its end.
fn field_or_empty(row: &Vec<String>, i: usize) -> (r: String)
    ensures
        r@ == field_at(texts(row@), i as int),
{
    if i < row.len() {
        row[i].clone()
    } else {
        String::new()
    }
}

/// Reorders a flattened bgp.tools row into prefix, country and description.
pub fn permute_bgp_tools_row(row: &Vec<String>) -> (r: Vec<String>)
    ensures
        texts(r@) == bgp_tools_fields(texts(row@)),
{
    let mut out: Vec<String> = Vec::new();
    out.push(field_or_empty(row, 2));
    out.push(field_or_empty(row, 0));
    out.push(field_or_empty(row, 3));
    assert(texts(out@) =~= bgp_tools_fields(texts(row@)));
    out
}

/// The record of a flattened row, if its prefix field is a network of `family`.
pub fn record_from_row(row: Vec<String>, family: Family, source: HtmlSource) -> (r: Option<PrefixRecord>)
    ensures
        match row_record(texts(row@), family, source) {
            Some(v) => r matches Some(x) && x@ == v,
            None => r is None,
        },
        r matches Some(x) ==> sound(x@, family),
{
    match source {
        HtmlSource::HeNet => {
            let raw = field_or_empty(&row, 0);
            accept(raw.as_str(), family, row)
        },
        HtmlSource::BgpTools => {
            let fields = permute_bgp_tools_row(&row);
            assert(texts(fields@).len() == 3);
            let raw = fields[0].clone();
            assert(texts(fields@)[0] == raw@);
            accept(raw.as_str(), family, fields)
        },
    }
}

/// The records of a table's rows: each row is flattened, and kept where its
/// prefix field is a network of `family`; other rows are passed over.
pub fn records_from_cells(rows: &Vec<Vec<CellParts>>, family: Family, source: HtmlSource) -> (r: Vec<PrefixRecord>)
    ensures
        views(r@) == table_records(row_views(rows@), family, source),
        all_sound(r@, family),
{
    let style = source.flag_style();
    let mut out: Vec<PrefixRecord> = Vec::new();
    let mut k: usize = 0;
    assert(views(out@) =~= table_records(row_views(rows@.take(0)), family, source));
    while k < rows.len()
        invariant
            k <= rows@.len(),
            style == style_of(source),
            views(out@) == table_records(row_views(rows@.take(k as int)), family, source),
            all_sound(out@, family),
        decreases rows@.len() - k,
    {
        let flat = flatten_row(&rows[k], style);
        let ghost flat_view = texts(flat@);
        let made = record_from_row(flat, family, source);
        push_kept(&mut out, made, family, Ghost(row_record(flat_view, family, source)));
        assert(row_views(rows@.take(k + 1)).drop_last() =~= row_views(rows@.take(k as int)));
        assert(row_views(rows@.take(k + 1)).last() == cell_views(rows@[k as int]@));
        k += 1;
    }
    assert(rows@.take(k as int) =~= rows@);
    out
}

/// The records of two runs of rows, one after the other, are those of the
/// first run followed by those of the second.
pub proof fn lemma_table_records_concat(
    a: Seq<Seq<CellView>>,
    b: Seq<Seq<CellView>>,
    family: Family,
    source: HtmlSource,
)
    ensures
        table_records(a + b, family, source) == table_records(a, family, source) + table_records(b, family, source),
    decreases b.len(),
{
    if b.len() == 0 {
        assert(a + b =~= a);
        assert(table_records(b, family, source) =~= Seq::<RecordView>::empty());
    } else {
        lemma_table_records_concat(a, b.drop_last(), family, source);
        assert((a + b).drop_last() =~= a + b.drop_last());
        assert((a + b).last() == b.last());
    }
}

/// A row whose prefix field is not a network literal yields no record, and
/// the rows after it are read as if it were not there.
pub proof fn lemma_malformed_row_skipped(
    before: Seq<Seq<CellView>>,
    row: Seq<CellView>,
    after: Seq<Seq<CellView>>,
    family: Family,
    source: HtmlSource,
)
    requires
        classified(prefix_field(row_fragments(row, style_of(source)), source)) is None,
    ensures
        row_record(row_fragments(row, style_of(source)), family, source) is None,
        table_records(before.push(row) + after, family, source)
            == table_records(before, family, source) + table_records(after, family, source),
{
    lemma_table_records_concat(before.push(row), after, family, source);
    assert(before.push(row).drop_last() =~= before);
    assert(table_records(before.push(row), family, source) =~= table_records(before, family, source));
}

/// A flattened row is kept for at most one family, and for one of the two
/// exactly when its prefix field is a network in CIDR notation; bgp.tools
/// reads the same table for both families. So the lines of an IPv4 run and of
/// an IPv6 run over one page are apart, and together they are the rows whose
/// prefix field classifies.
pub proof fn lemma_row_kept_for_one_family(row: Seq<Seq<char>>, source: HtmlSource)
    ensures
        !(row_record(row, Family::V4, source) is Some && row_record(row, Family::V6, source) is Some),
        (row_record(row, Family::V4, source) is Some || row_record(row, Family::V6, source) is Some)
            <==> classified(prefix_field(row, source)) is Some,
        table_id_of(HtmlSource::BgpTools, Family::V4) == table_id_of(HtmlSource::BgpTools, Family::V6),
{
}

} // verus!
