use vstd::prelude::*;
use crate::models::{ApiResponse, Family};
use crate::html::{texts, cells_of, table_cells, Page};
use crate::records::{
    api_list, api_prefix_records, api_records, all_sound, records_from_cells, style_of,
    table_id_of, table_records, views, HtmlSource, PrefixRecord, RecordView,
};

verus! {

/// The three sources of prefixes.
#[derive(Clone, Copy, Debug, PartialEq, Eq, Structural)]
pub enum Source {
    /// The JSON prefix API of api.bgpview.io.
    ApiJson,
    /// The HTML page of bgp.he.net.
    HeNetHtml,
    /// The HTML page of bgp.tools.
    BgpToolsHtml,
}

impl Source {
    /// The source with a given index: 0, 1 and 2 stand for the JSON API,
    /// bgp.he.net and bgp.tools; any other index for none.
    pub fn from_index(index: u8) -> (r: Option<Source>)
        ensures
            r == (if index == 0 {
                Some(Source::ApiJson)
            } else if index == 1 {
                Some(Source::HeNetHtml)
            } else if index == 2 {
                Some(Source::BgpToolsHtml)
            } else {
                None
            }),
    {
        if index == 0 {
            Some(Source::ApiJson)
        } else if index == 1 {
            Some(Source::HeNetHtml)
        } else if index == 2 {
            Some(Source::BgpToolsHtml)
        } else {
            None
        }
    }
}

/// The body of a response, as the source that sent it serves it.
pub enum SourceBody {
    /// The JSON API's payload; `None` where the body was not such a payload.
    ApiJson(Option<ApiResponse>),
    /// The HTML page of bgp.he.net.
    HeNetHtml(String),
    /// The HTML page of bgp.tools.
    BgpToolsHtml(String),
}

/// Why a run produced no records.
#[derive(Debug)]
pub enum SourceError {
    /// The transport answered with a status that is no success.
    HttpFailure(u16),
    /// The JSON API answered, but its own status is not `ok`; the status is kept.
    SourceStatusNotOk(String),
}

/// The column names of the tabular output of a source.
pub open spec fn header_of(source: Source) -> Seq<Seq<char>> {
    match source {
        Source::ApiJson => seq!["IP地址前缀"@, "国家代码"@, "名称"@, "描述"@, "rir名称"@],
        Source::HeNetHtml => seq!["IP地址前缀"@, "国家代码"@, "国家名称"@, "描述"@],
        Source::BgpToolsHtml => seq!["IP地址前缀"@, "国家代码"@, "描述"@],
    }
}

/// The column names of the tabular output of a source.
pub fn header(source: Source) -> (r: Vec<String>)
    ensures
        texts(r@) == header_of(source),
{
    let mut h: Vec<String> = Vec::new();
    h.push("IP地址前缀".to_owned());
    h.push("国家代码".to_owned());
    match source {
        Source::ApiJson => {
            h.push("名称".to_owned());
            h.push("描述".to_owned());
            h.push("rir名称".to_owned());
        },
        Source::HeNetHtml => {
            h.push("国家名称".to_owned());
            h.push("描述".to_owned());
        },
        Source::BgpToolsHtml => {
            h.push("描述".to_owned());
        },
    }
    assert(texts(h@) =~= header_of(source));
    h
}

/// A transport status counts as a success from 200 to 299.
pub open spec fn success(status: u16) -> bool {
    200 <= status < 300
}

/// Whether a transport status is a success (200 to 299).
pub fn is_success(status: u16) -> (r: bool)
    ensures
        r == success(status),
{
    200 <= status && status < 300
}

/// The JSON API's own status of success.
pub open spec fn status_ok(status: Seq<char>) -> bool {
    status == "ok"@
}

/// The records of a JSON API payload: an error carrying the payload's status
/// where that status is not `ok`, else the records of the list of `family`.
pub fn api_json_records(resp: &ApiResponse, family: Family) -> (r: Result<Vec<PrefixRecord>, SourceError>)
    ensures
        status_ok(resp.status@) <==> r is Ok,
        r matches Err(e) ==> (e matches SourceError::SourceStatusNotOk(s) && s@ == resp.status@),
        r matches Ok(v) ==> views(v@) == api_records(api_list(resp.data, family), family),
        r matches Ok(v) ==> all_sound(v@, family),
{
    let ok = "ok".to_owned();
    if resp.status == ok {
        Ok(api_prefix_records(&resp.data, family))
    } else {
        Err(SourceError::SourceStatusNotOk(resp.status.clone()))
    }
}

/// The records that an HTML page of `source` yields for `family`: those of
/// the rows of the table that `source` reads for that family, in document
/// order; a page without that table yields none.
pub open spec fn html_yield(html: Seq<char>, family: Family, source: HtmlSource) -> Seq<RecordView> {
    table_records(cells_of(html, table_id_of(source, family), style_of(source)), family, source)
}

/// The records of an HTML page of `source` for `family`.
pub fn html_records(html: String, family: Family, source: HtmlSource) -> (r: Vec<PrefixRecord>)
    ensures
        views(r@) == html_yield(html@, family, source),
        all_sound(r@, family),
{
    let page = Page::parse(html);
    let rows = table_cells(&page, source.table_id(family), source.flag_style());
    records_from_cells(&rows, family, source)
}

/// Runs one request's response through the adapter of its source.
/// A status that is no success gives `HttpFailure`; a JSON payload whose own
/// status is not `ok` gives `SourceStatusNotOk`; a body that could not be read
/// gives no records. Every record returned is of `family`.
pub fn run(family: Family, status: u16, body: SourceBody) -> (r: Result<Vec<PrefixRecord>, SourceError>)
    ensures
        !success(status) ==> (r matches Err(SourceError::HttpFailure(s)) && s == status),
        success(status) ==> match body {
            SourceBody::ApiJson(None) => r matches Ok(v) && v@.len() == 0,
            SourceBody::ApiJson(Some(resp)) => {
                &&& (status_ok(resp.status@) <==> r is Ok)
                &&& (r matches Err(e) ==> (e matches SourceError::SourceStatusNotOk(s) && s@ == resp.status@))
                &&& (r matches Ok(v) ==> views(v@) == api_records(api_list(resp.data, family), family))
            },
            SourceBody::HeNetHtml(html) => r matches Ok(v) && views(v@) == html_yield(html@, family, HtmlSource::HeNet),
            SourceBody::BgpToolsHtml(html) => r matches Ok(v) && views(v@) == html_yield(html@, family, HtmlSource::BgpTools),
        },
        r matches Ok(v) ==> all_sound(v@, family),
{
    if !is_success(status) {
        return Err(SourceError::HttpFailure(status));
    }
    match body {
        SourceBody::ApiJson(None) => Ok(Vec::new()),
        SourceBody::ApiJson(Some(resp)) => api_json_records(&resp, family),
        SourceBody::HeNetHtml(html) => Ok(html_records(html, family, HtmlSource::HeNet)),
        SourceBody::BgpToolsHtml(html) => Ok(html_records(html, family, HtmlSource::BgpTools)),
    }
}

impl SourceBody {
    /// The source that served the body.
    pub fn source(&self) -> (r: Source)
        ensures
            r == match self {
                SourceBody::ApiJson(_) => Source::ApiJson,
                SourceBody::HeNetHtml(_) => Source::HeNetHtml,
                SourceBody::BgpToolsHtml(_) => Source::BgpToolsHtml,
            },
    {
        match self {
            SourceBody::ApiJson(_) => Source::ApiJson,
            SourceBody::HeNetHtml(_) => Source::HeNetHtml,
            SourceBody::BgpToolsHtml(_) => Source::BgpToolsHtml,
        }
    }
}

/// On bgp.he.net each family is read from its own table: the IPv4 rows come
/// from `table_prefixes4`, the IPv6 rows from `table_prefixes6`, and the two
/// ids differ, so rows of the other family's table are never read.
pub proof fn lemma_he_net_tables_apart()
    ensures
        table_id_of(HtmlSource::HeNet, Family::V4) == "table_prefixes4"@,
        table_id_of(HtmlSource::HeNet, Family::V6) == "table_prefixes6"@,
        table_id_of(HtmlSource::HeNet, Family::V4) != table_id_of(HtmlSource::HeNet, Family::V6),
{
    reveal_strlit("table_prefixes4");
    reveal_strlit("table_prefixes6");
    assert("table_prefixes4"@[14] != "table_prefixes6"@[14]);
}

} // verus!
