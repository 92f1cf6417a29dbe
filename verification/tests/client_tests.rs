use d365_odata_mcp::auth::OAuth2Auth;
use d365_odata_mcp::client::{decode_page, decode_record, ODataClient, ODataResponse};
use d365_odata_mcp::config::ProductType;
use d365_odata_mcp::query::QueryOptions;
use d365_odata_mcp::retry::ODataError;

fn client(endpoint: &str, product: ProductType) -> ODataClient {
    let auth = OAuth2Auth::new_azure("t".to_string(), "c".to_string(), "s".to_string());
    ODataClient::new(auth, endpoint.to_string(), product, 3, 1000, false)
}

fn record(json: &str) -> serde_json::Value {
    serde_json::from_str(json).unwrap()
}

#[test]
fn test_endpoint_normalized() {
    let c = client("https://org.crm.dynamics.com/api/data/v9.2", ProductType::Dataverse);
    assert_eq!(c.endpoint(), "https://org.crm.dynamics.com/api/data/v9.2/");
    let c2 = client("https://org.crm.dynamics.com/api/data/v9.2/", ProductType::Dataverse);
    assert_eq!(c2.endpoint(), "https://org.crm.dynamics.com/api/data/v9.2/");
    assert_eq!(*c2.product(), ProductType::Dataverse);
}

#[test]
fn test_client_resource() {
    let c = client("https://org.crm.dynamics.com/api/data/v9.2/", ProductType::Dataverse);
    assert_eq!(c.resource(), "https://org.crm.dynamics.com");
}

#[test]
fn test_metadata_url_and_result() {
    let c = client("https://org.crm.dynamics.com/api/data/v9.2/", ProductType::Dataverse);
    assert_eq!(c.metadata_url(), "https://org.crm.dynamics.com/api/data/v9.2/$metadata");
    match ODataClient::metadata_result(200, "<edmx/>".to_string()) {
        Ok(xml) => assert_eq!(xml, "<edmx/>"),
        Err(_) => panic!("expected the metadata body"),
    }
    match ODataClient::metadata_result(500, "boom".to_string()) {
        Err(ODataError::ServerError(status, b)) => {
            assert_eq!(status, 500);
            assert_eq!(b, "boom");
        }
        _ => panic!("expected a server-error failure"),
    }
}

#[test]
fn test_page_url() {
    let c = client("https://base/", ProductType::Dataverse);
    let options = QueryOptions {
        top: Some(10),
        ..Default::default()
    };
    assert_eq!(c.page_url("contacts", None, &options), "https://base/contacts?$top=10");
    assert_eq!(
        c.page_url("contacts", Some("https://base/contacts?page=2"), &options),
        "https://base/contacts?page=2"
    );
}

#[test]
fn test_entity_url() {
    let c = client("https://base/", ProductType::Dataverse);
    assert_eq!(c.entity_url("contacts", "42"), "https://base/contacts(42)");
}

#[test]
fn test_request_headers() {
    let hs = ODataClient::request_headers("tok");
    assert_eq!(hs.len(), 5);
    assert_eq!(hs[0], ("Authorization".to_string(), "Bearer tok".to_string()));
    assert_eq!(hs[1], ("Accept".to_string(), "application/json".to_string()));
    assert_eq!(hs[2], ("OData-MaxVersion".to_string(), "4.0".to_string()));
    assert_eq!(hs[3], ("OData-Version".to_string(), "4.0".to_string()));
    assert_eq!(hs[4], ("Prefer".to_string(), "odata.include-annotations=*".to_string()));

    let mh = ODataClient::metadata_headers("tok");
    assert_eq!(mh.len(), 2);
    assert_eq!(mh[1], ("Accept".to_string(), "application/xml".to_string()));
}

#[test]
fn test_decode_page_full() {
    let body = "{\"@odata.context\":\"ctx\",\"@odata.nextLink\":\"https://next\",\
                 \"@odata.count\":42,\"@odata.deltaLink\":\"https://delta\",\
                 \"value\":[{\"id\":1},{\"id\":2}]}";
    let page = decode_page(body).unwrap();
    assert_eq!(page.context.as_deref(), Some("ctx"));
    assert_eq!(page.next_link.as_deref(), Some("https://next"));
    assert_eq!(page.count, Some(42));
    assert_eq!(page.delta_link.as_deref(), Some("https://delta"));
    assert_eq!(page.value, vec![record("{\"id\":1}"), record("{\"id\":2}")]);
}

#[test]
fn test_decode_page_minimal_and_malformed() {
    let page = decode_page("{}").unwrap();
    assert!(page.context.is_none());
    assert!(page.next_link.is_none());
    assert!(page.count.is_none());
    assert!(page.delta_link.is_none());
    assert!(page.value.is_empty());

    match decode_page("not json at all") {
        Err(ODataError::ParseError(m)) => {
            assert!(m.starts_with("Failed to parse OData response: "));
        }
        _ => panic!("expected a parse failure"),
    }
}

#[test]
fn test_decode_page_mis_shaped_members() {
    // members of the wrong shape are left empty rather than failing the
    // decode: only a body that is no JSON document at all is refused
    let body = "{\"@odata.context\":7,\"@odata.count\":\"many\",\"value\":\"rows\"}";
    let page = decode_page(body).unwrap();
    assert!(page.context.is_none());
    assert!(page.count.is_none());
    assert!(page.value.is_empty());
}

#[test]
fn test_decode_record() {
    let v = decode_record("{\"name\":\"contoso\"}").unwrap();
    assert_eq!(v, record("{\"name\":\"contoso\"}"));
    match decode_record("][") {
        Err(ODataError::ParseError(m)) => assert!(m.starts_with("Failed to parse entity: ")),
        _ => panic!("expected a parse failure"),
    }
}

#[test]
fn test_page_walk_three_pages() {
    // three pages, each carrying a continuation link except the last: the
    // walk makes exactly three fetches and returns the records in
    // arrival order
    let c = client("https://base/", ProductType::Dataverse);
    let options = QueryOptions::default();
    let pages = vec![
        ODataResponse {
            context: None,
            next_link: Some("https://base/contacts?page=2".to_string()),
            count: None,
            delta_link: None,
            value: vec![record("1"), record("2")],
        },
        ODataResponse {
            context: None,
            next_link: Some("https://base/contacts?page=3".to_string()),
            count: None,
            delta_link: None,
            value: vec![record("3")],
        },
        ODataResponse {
            context: None,
            next_link: None,
            count: None,
            delta_link: None,
            value: vec![record("4"), record("5")],
        },
    ];

    let mut walk = c.begin_walk("contacts", &options);
    assert_eq!(walk.next_url.as_deref(), Some("https://base/contacts"));
    let mut fetches = 0;
    let mut expected_urls = vec![
        "https://base/contacts".to_string(),
        "https://base/contacts?page=2".to_string(),
        "https://base/contacts?page=3".to_string(),
    ]
    .into_iter();
    let mut supply = pages.into_iter();
    while let Some(url) = walk.next_url.clone() {
        assert_eq!(Some(url), expected_urls.next());
        let page = supply.next().expect("the server has no more pages");
        walk.step(page);
        fetches += 1;
    }
    assert_eq!(fetches, 3);
    assert_eq!(
        walk.records,
        vec![record("1"), record("2"), record("3"), record("4"), record("5")]
    );
}

#[test]
fn test_client_token_roundtrip() {
    let mut c = client("https://org.crm.dynamics.com/api/data/v9.2/", ProductType::Dataverse);
    let now_ms: u64 = 1_000;
    match c.token_step(now_ms) {
        d365_odata_mcp::auth::TokenStep::Acquire { url, params } => {
            assert_eq!(url, "https://login.microsoftonline.com/t/oauth2/v2.0/token");
            assert_eq!(
                params[3],
                ("scope".to_string(), "https://org.crm.dynamics.com/.default".to_string())
            );
        }
        _ => panic!("an empty cache must acquire"),
    }
    let body = "{\"access_token\":\"tk\",\"token_type\":\"Bearer\",\"expires_in\":3600}";
    let tok = c.accept_token_response(200, body, now_ms).unwrap();
    assert_eq!(tok, "tk");
    match c.token_step(now_ms) {
        d365_odata_mcp::auth::TokenStep::Cached(t) => assert_eq!(t, "tk"),
        _ => panic!("expected the cached token"),
    }
}

#[test]
fn test_client_token_failure_wrapped() {
    let mut c = client("https://base/", ProductType::Dataverse);
    match c.accept_token_response(503, "busy", 0) {
        Err(ODataError::AuthError(d365_odata_mcp::auth::AuthError::TokenRequestFailed(m))) => {
            assert_eq!(m, "Status: 503, Body: busy");
        }
        _ => panic!("expected a wrapped token request failure"),
    }
}
