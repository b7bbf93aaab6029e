use asn_prefixes::cidr::classify;
use asn_prefixes::models::{ApiResponse, Data, Family, Parent, Prefix};
use asn_prefixes::pipeline::{header, run, Source, SourceBody, SourceError};
use asn_prefixes::records::PrefixRecord;

fn prefix(p: &str, name: Option<&str>, cc: Option<&str>, desc: Option<&str>, rir: Option<&str>) -> Prefix {
    Prefix {
        prefix: p.to_string(),
        name: name.map(|s| s.to_string()),
        country_code: cc.map(|s| s.to_string()),
        description: desc.map(|s| s.to_string()),
        parent: Parent { rir_name: rir.map(|s| s.to_string()) },
    }
}

fn response(status: &str, v4: Vec<Prefix>, v6: Vec<Prefix>) -> ApiResponse {
    ApiResponse {
        status: status.to_string(),
        data: Data { ipv4_prefixes: v4, ipv6_prefixes: v6 },
    }
}

fn strings(v: &[&str]) -> Vec<String> {
    v.iter().map(|s| s.to_string()).collect()
}

fn he_net_page(v4_rows: &str, v6_rows: &str) -> String {
    format!(
        "<html><body><table id=\"table_prefixes4\"><thead><tr><th>Prefix</th><th>Description</th></tr></thead><tbody>{}</tbody></table>\
         <table id=\"table_prefixes6\"><tbody>{}</tbody></table></body></html>",
        v4_rows, v6_rows
    )
}

fn he_net_row(prefix: &str, code: &str, country: &str, desc: &str) -> String {
    format!(
        "<tr><td><a href=\"/net/{p}\">{p}</a></td><td><div class=\"flag alignright floatright\"><img src=\"/images/flags/{c}.gif\" title=\"{n}\" /></div> {d} </td></tr>",
        p = prefix,
        c = code,
        n = country,
        d = desc
    )
}

fn bgp_tools_page(rows: &str) -> String {
    format!(
        "<html><body><table><thead><tr><th>Country</th><th>Prefix</th><th>Name</th></tr></thead><tbody id=\"donotscrapebgptools-prefixlist-tbody\">{}</tbody></table></body></html>",
        rows
    )
}

fn bgp_tools_row(country: &str, prefix: &str, desc: &str) -> String {
    format!(
        "<tr><td><img src=\"/flag.png\" title=\"{}\" /></td><td><a href=\"/prefix/{p}\">{p}</a></td><td>{}</td></tr>",
        country,
        desc,
        p = prefix
    )
}

fn ok_records(r: Result<Vec<PrefixRecord>, SourceError>) -> Vec<PrefixRecord> {
    match r {
        Ok(v) => v,
        Err(e) => panic!("unexpected error {:?}", e),
    }
}

#[test]
fn json_source_scenario_one_record() {
    let resp = response(
        "ok",
        vec![prefix("1.1.1.0/24", None, Some("US"), Some("CLOUDFLARENET"), None)],
        vec![],
    );
    let records = ok_records(run(Family::V4, 200, SourceBody::ApiJson(Some(resp))));
    assert_eq!(records.len(), 1);
    assert_eq!(records[0].fields, strings(&["1.1.1.0/24", "US", "", "CLOUDFLARENET", ""]));
    assert_eq!(records[0].prefix, "1.1.1.0/24");
    assert_eq!(records[0].family, Family::V4);
}

#[test]
fn json_source_keeps_all_fields_and_order() {
    let resp = response(
        "ok",
        vec![
            prefix("1.1.1.0/24", Some("CF"), Some("US"), Some("one"), Some("ARIN")),
            prefix("1.0.0.0/24", Some("CF2"), None, None, Some("APNIC")),
        ],
        vec![prefix("2606:4700::/32", Some("CF6"), Some("US"), None, Some("ARIN"))],
    );
    let records = ok_records(run(Family::V4, 200, SourceBody::ApiJson(Some(resp))));
    assert_eq!(records.len(), 2);
    assert_eq!(records[0].fields, strings(&["1.1.1.0/24", "US", "CF", "one", "ARIN"]));
    assert_eq!(records[1].fields, strings(&["1.0.0.0/24", "", "CF2", "", "APNIC"]));
}

#[test]
fn json_source_reads_only_the_requested_list() {
    let resp = response(
        "ok",
        vec![prefix("1.1.1.0/24", None, None, None, None)],
        vec![prefix("2606:4700::/32", None, None, None, None)],
    );
    let records = ok_records(run(Family::V6, 200, SourceBody::ApiJson(Some(resp))));
    assert_eq!(records.len(), 1);
    assert_eq!(records[0].prefix, "2606:4700::/32");
    assert_eq!(records[0].family, Family::V6);
}

#[test]
fn json_source_drops_a_misfiled_prefix() {
    let resp = response(
        "ok",
        vec![
            prefix("2001:db8::/32", None, None, None, None),
            prefix("8.8.8.0/24", None, None, None, None),
        ],
        vec![],
    );
    let records = ok_records(run(Family::V4, 200, SourceBody::ApiJson(Some(resp))));
    assert_eq!(records.len(), 1);
    assert_eq!(records[0].prefix, "8.8.8.0/24");
}

#[test]
fn json_source_status_not_ok_gives_no_records() {
    let resp = response("error", vec![prefix("1.1.1.0/24", None, None, None, None)], vec![]);
    match run(Family::V4, 200, SourceBody::ApiJson(Some(resp))) {
        Err(SourceError::SourceStatusNotOk(s)) => assert_eq!(s, "error"),
        other => panic!("unexpected {:?}", other.map(|v| v.len())),
    }
}

#[test]
fn json_source_unreadable_body_gives_no_records() {
    let records = ok_records(run(Family::V4, 200, SourceBody::ApiJson(None)));
    assert!(records.is_empty());
}

#[test]
fn http_failure_is_reported_with_its_status() {
    let resp = response("ok", vec![prefix("1.1.1.0/24", None, None, None, None)], vec![]);
    match run(Family::V4, 404, SourceBody::ApiJson(Some(resp))) {
        Err(SourceError::HttpFailure(s)) => assert_eq!(s, 404),
        other => panic!("unexpected {:?}", other.map(|v| v.len())),
    }
    match run(Family::V4, 503, SourceBody::HeNetHtml(he_net_page("", ""))) {
        Err(SourceError::HttpFailure(s)) => assert_eq!(s, 503),
        other => panic!("unexpected {:?}", other.map(|v| v.len())),
    }
    match run(Family::V6, 199, SourceBody::BgpToolsHtml(bgp_tools_page(""))) {
        Err(SourceError::HttpFailure(s)) => assert_eq!(s, 199),
        other => panic!("unexpected {:?}", other.map(|v| v.len())),
    }
}

#[test]
fn he_net_scenario_row_with_flag() {
    let page = he_net_page(&he_net_row("1.2.3.0/24", "us", "United States", "Example Org"), "");
    let records = ok_records(run(Family::V4, 200, SourceBody::HeNetHtml(page)));
    assert_eq!(records.len(), 1);
    assert_eq!(records[0].fields, strings(&["1.2.3.0/24", "US", "United States", "Example Org"]));
    assert_eq!(records[0].prefix, "1.2.3.0/24");
}

#[test]
fn he_net_reads_only_the_table_of_the_requested_family() {
    let page = he_net_page(
        &he_net_row("1.2.3.0/24", "us", "United States", "Four"),
        &format!(
            "{}{}",
            he_net_row("2001:db8::/32", "de", "Germany", "Six"),
            he_net_row("5.6.7.0/24", "fr", "France", "Four in the six table")
        ),
    );
    let v4 = ok_records(run(Family::V4, 200, SourceBody::HeNetHtml(page.clone())));
    assert_eq!(v4.len(), 1);
    assert_eq!(v4[0].fields, strings(&["1.2.3.0/24", "US", "United States", "Four"]));
    let v6 = ok_records(run(Family::V6, 200, SourceBody::HeNetHtml(page)));
    assert_eq!(v6.len(), 1);
    assert_eq!(v6[0].fields, strings(&["2001:db8::/32", "DE", "Germany", "Six"]));
}

#[test]
fn he_net_page_without_table_gives_no_records() {
    let records = ok_records(run(Family::V4, 200, SourceBody::HeNetHtml("<html><p>none</p></html>".to_string())));
    assert!(records.is_empty());
}

#[test]
fn he_net_malformed_row_is_skipped() {
    let rows = format!(
        "{}{}",
        he_net_row("not-a-cidr", "us", "United States", "Bad"),
        he_net_row("9.9.9.0/24", "ch", "Switzerland", "Good")
    );
    let records = ok_records(run(Family::V4, 200, SourceBody::HeNetHtml(he_net_page(&rows, ""))));
    assert_eq!(records.len(), 1);
    assert_eq!(records[0].fields, strings(&["9.9.9.0/24", "CH", "Switzerland", "Good"]));
}

#[test]
fn bgp_tools_permutes_columns() {
    let page = bgp_tools_page(&bgp_tools_row("US", "1.2.3.0/24", "Example Org"));
    let records = ok_records(run(Family::V4, 200, SourceBody::BgpToolsHtml(page)));
    assert_eq!(records.len(), 1);
    assert_eq!(records[0].fields, strings(&["1.2.3.0/24", "US", "Example Org"]));
}

#[test]
fn bgp_tools_filters_mixed_families() {
    let rows = format!(
        "{}{}{}{}",
        bgp_tools_row("US", "1.2.3.0/24", "a"),
        bgp_tools_row("DE", "2001:db8::/32", "b"),
        bgp_tools_row("FR", "2001:db8:1::/48", "c"),
        bgp_tools_row("NL", "5.6.7.0/24", "d")
    );
    let v6 = ok_records(run(Family::V6, 200, SourceBody::BgpToolsHtml(bgp_tools_page(&rows))));
    assert_eq!(v6.len(), 2);
    assert_eq!(v6[0].fields, strings(&["2001:db8::/32", "DE", "b"]));
    assert_eq!(v6[1].fields, strings(&["2001:db8:1::/48", "FR", "c"]));
    let v4 = ok_records(run(Family::V4, 200, SourceBody::BgpToolsHtml(bgp_tools_page(&rows))));
    assert_eq!(v4.len(), 2);
    for r in v4.iter().chain(v6.iter()) {
        let again = classify(&r.prefix).expect("an emitted prefix reads back");
        assert_eq!(again.family, r.family);
        assert_eq!(again.text, r.prefix);
    }
    assert!(v4.iter().all(|r| r.family == Family::V4));
    assert!(v6.iter().all(|r| r.family == Family::V6));
}

#[test]
fn bgp_tools_malformed_row_is_skipped() {
    let rows = format!(
        "{}{}",
        bgp_tools_row("US", "not-a-cidr", "bad"),
        bgp_tools_row("US", "4.4.4.0/24", "good")
    );
    let records = ok_records(run(Family::V4, 200, SourceBody::BgpToolsHtml(bgp_tools_page(&rows))));
    assert_eq!(records.len(), 1);
    assert_eq!(records[0].fields, strings(&["4.4.4.0/24", "US", "good"]));
}

#[test]
fn emitted_prefixes_are_canonical() {
    let page = bgp_tools_page(&bgp_tools_row("US", "2001:0db8:0000::/32", "x"));
    let records = ok_records(run(Family::V6, 200, SourceBody::BgpToolsHtml(page)));
    assert_eq!(records.len(), 1);
    assert_eq!(records[0].prefix, "2001:db8::/32");
    assert_eq!(records[0].fields[0], "2001:0db8:0000::/32");
}

#[test]
fn headers_per_source() {
    assert_eq!(header(Source::ApiJson), strings(&["IP地址前缀", "国家代码", "名称", "描述", "rir名称"]));
    assert_eq!(header(Source::HeNetHtml), strings(&["IP地址前缀", "国家代码", "国家名称", "描述"]));
    assert_eq!(header(Source::BgpToolsHtml), strings(&["IP地址前缀", "国家代码", "描述"]));
}

#[test]
fn source_indices() {
    assert_eq!(Source::from_index(0), Some(Source::ApiJson));
    assert_eq!(Source::from_index(1), Some(Source::HeNetHtml));
    assert_eq!(Source::from_index(2), Some(Source::BgpToolsHtml));
    assert_eq!(Source::from_index(3), None);
    assert_eq!(SourceBody::HeNetHtml(String::new()).source(), Source::HeNetHtml);
    assert_eq!(SourceBody::ApiJson(None).source(), Source::ApiJson);
}

#[test]
fn he_net_fixture_tables_without_tbody() {
    let page = "<table id=\"table_prefixes4\"><tr><td>1.2.3.0/24</td><td>Four</td></tr></table>\
                <table id=\"table_prefixes6\"><tr><td>2001:db8::/32</td><td>Six</td></tr><tr><td>9.9.9.0/24</td><td>Stray</td></tr></table>";
    let v4 = ok_records(run(Family::V4, 200, SourceBody::HeNetHtml(page.to_string())));
    assert_eq!(v4.len(), 1);
    assert_eq!(v4[0].prefix, "1.2.3.0/24");
    assert_eq!(v4[0].fields, strings(&["1.2.3.0/24", "Four"]));
}

#[test]
fn he_net_bare_address_row_is_discarded() {
    let page = "<table id=\"table_prefixes4\"><tr><td>1.2.3.4</td><td>Host</td></tr></table>";
    let v4 = ok_records(run(Family::V4, 200, SourceBody::HeNetHtml(page.to_string())));
    assert!(v4.is_empty());
}

#[test]
fn bgp_tools_runs_per_family_are_apart() {
    let rows = format!(
        "{}{}{}",
        bgp_tools_row("US", "1.2.3.0/24", "a"),
        bgp_tools_row("DE", "2001:db8::/32", "b"),
        bgp_tools_row("FR", "garbage", "c")
    );
    let page = bgp_tools_page(&rows);
    let v4 = ok_records(run(Family::V4, 200, SourceBody::BgpToolsHtml(page.clone())));
    let v6 = ok_records(run(Family::V6, 200, SourceBody::BgpToolsHtml(page)));
    let l4: Vec<String> = v4.iter().map(|r| r.prefix.clone()).collect();
    let l6: Vec<String> = v6.iter().map(|r| r.prefix.clone()).collect();
    assert_eq!(l4, strings(&["1.2.3.0/24"]));
    assert_eq!(l6, strings(&["2001:db8::/32"]));
}
