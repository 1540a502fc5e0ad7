//! Tests of the ping request builder, its header formatting and its
//! best-effort body pretty-printing.

use glean_core::request::{
    create_date_header_value, create_x_telemetry_agent_header_value, Builder, ErrorKind,
    HeaderMap, PingRequest,
};
use glean_core::time::Datetime;

fn dt(year: i32, month: u32, day: u32, hour: u32, minute: u32, second: u32) -> Datetime {
    Datetime::new(year, month, day, hour, minute, second).unwrap()
}

#[test]
fn date_header_resolution() {
    let date = dt(2018, 2, 25, 11, 10, 37);
    let test_value = create_date_header_value(&date);
    assert_eq!("Sun, 25 Feb 2018 11:10:37 GMT", test_value);
}

#[test]
fn date_header_pads_every_field() {
    let date = dt(2020, 2, 29, 4, 0, 7);
    let test_value = create_date_header_value(&date);
    assert_eq!("Sat, 29 Feb 2020 04:00:07 GMT", test_value);
}

#[test]
fn x_telemetry_agent_header_resolution() {
    let test_value = create_x_telemetry_agent_header_value("0.0.0", "Rust", "Windows");
    assert_eq!("Glean/0.0.0 (Rust on Windows)", test_value);
}

#[test]
fn correctly_builds_ping_request() {
    let request = PingRequest::builder(/* language_binding_name */ "Rust", 1024 * 1024)
        .document_id("woop")
        .path("/random/path/doesnt/matter")
        .body("{}")
        .body_has_info_sections(false)
        .ping_name("whatevs")
        .uploader_capabilities(vec![])
        .build()
        .unwrap();

    assert_eq!(request.document_id, "woop");
    assert_eq!(request.path, "/random/path/doesnt/matter");
    assert!(!request.body_has_info_sections);
    assert_eq!(request.ping_name, "whatevs");

    // Make sure all the expected headers were added.
    assert!(request.headers.contains_key("X-Telemetry-Agent"));
    assert!(request.headers.contains_key("Content-Type"));
    assert!(request.headers.contains_key("Content-Length"));
}

#[test]
fn errors_when_request_body_exceeds_max_size() {
    let request = Builder::new(
        /* language_binding_name */ "Rust", /* body_max_size */ 1,
    )
    .document_id("woop")
    .path("/random/path/doesnt/matter")
    .body("{}")
    .build();

    assert!(request.is_err());
}

// A body is stored compressed: the content-encoding marker is present,
// the stored bytes differ from the raw payload, and the content length
// records the stored body's byte length.
#[test]
fn body_is_stored_compressed_with_matching_headers() {
    let request = PingRequest::builder("Rust", 1024 * 1024)
        .document_id("woop")
        .path("/random/path/doesnt/matter")
        .body("{}")
        .body_has_info_sections(false)
        .ping_name("whatevs")
        .uploader_capabilities(vec![])
        .build()
        .unwrap();

    assert_ne!(request.body, "{}".as_bytes());
    assert_eq!("gzip", request.headers.get("Content-Encoding").unwrap().as_str());
    assert_eq!(
        request.body.len().to_string().as_str(),
        request.headers.get("Content-Length").unwrap().as_str()
    );
}

// The size-overflow error reports the actual size of the stored,
// compressed body.
#[test]
fn overflow_error_reports_the_compressed_size() {
    let roomy = PingRequest::builder("Rust", 1024 * 1024)
        .document_id("woop")
        .path("/random/path/doesnt/matter")
        .body("{}")
        .body_has_info_sections(false)
        .ping_name("whatevs")
        .uploader_capabilities(vec![])
        .build()
        .unwrap();
    let compressed_size = roomy.body.len();
    assert!(compressed_size > 1);

    let cramped = Builder::new("Rust", 1)
        .document_id("woop")
        .path("/random/path/doesnt/matter")
        .body("{}")
        .build();

    match cramped {
        Err(ErrorKind::PingBodyOverflow(size)) => assert_eq!(compressed_size, size),
        Ok(_) => panic!("a one-byte maximum must reject a compressed body"),
    }
}

// The pretty-printed body is recovered through decompression.
#[test]
fn pretty_body_decompresses_and_reindents() {
    let request = PingRequest::builder("Rust", 1024 * 1024)
        .document_id("woop")
        .path("/random/path/doesnt/matter")
        .body("{}")
        .body_has_info_sections(false)
        .ping_name("whatevs")
        .uploader_capabilities(vec![])
        .build()
        .unwrap();

    assert!(request.headers.contains_key("Content-Encoding"));
    assert_eq!("{}", request.pretty_body().unwrap());
}

// A structured payload keeps its contents through compression and
// pretty-printing.
#[test]
fn pretty_body_reindents_structured_payloads() {
    let request = PingRequest::builder("Rust", 1024 * 1024)
        .document_id("woop")
        .path("/random/path/doesnt/matter")
        .body("{\"a\":1}")
        .body_has_info_sections(true)
        .ping_name("whatevs")
        .uploader_capabilities(vec![])
        .build()
        .unwrap();

    assert_eq!("{\n  \"a\": 1\n}", request.pretty_body().unwrap());
}

// A body that is neither a gzip stream nor JSON yields no pretty form.
#[test]
fn pretty_body_gives_nothing_on_garbage() {
    let request = PingRequest {
        document_id: "id".to_string(),
        path: "/p".to_string(),
        body: vec![0xff, 0x00, 0x13],
        headers: HeaderMap::new(),
        body_has_info_sections: false,
        ping_name: "whatevs".to_string(),
        uploader_capabilities: vec![],
    };
    assert_eq!(None, request.pretty_body());
}

// The deletion-request check holds exactly for the reserved name.
#[test]
fn deletion_request_is_recognized_by_name() {
    let mut request = PingRequest {
        document_id: "id".to_string(),
        path: "/p".to_string(),
        body: vec![],
        headers: HeaderMap::new(),
        body_has_info_sections: false,
        ping_name: "deletion-request".to_string(),
        uploader_capabilities: vec![],
    };
    assert!(request.is_deletion_request());

    request.ping_name = "metrics".to_string();
    assert!(!request.is_deletion_request());
}

// Inserting under an existing name replaces the value without growing the
// map; a caller-supplied header set overrides and extends the defaults.
#[test]
fn headers_replace_and_extend() {
    let mut headers = HeaderMap::new();
    headers.insert("X-Debug-ID".to_string(), "one".to_string());
    headers.insert("X-Debug-ID".to_string(), "two".to_string());
    assert_eq!(1, headers.len());
    assert_eq!("two", headers.get("X-Debug-ID").unwrap().as_str());

    let mut extra = HeaderMap::new();
    extra.insert("X-Debug-ID".to_string(), "three".to_string());
    extra.insert("X-Source-Tags".to_string(), "automation".to_string());

    let builder = Builder::new("Rust", 1024).headers(extra).header("X-Client-Type", "Glean");
    let built = builder.headers;
    assert_eq!("three", built.get("X-Debug-ID").unwrap().as_str());
    assert_eq!("automation", built.get("X-Source-Tags").unwrap().as_str());
    assert_eq!("Glean", built.get("X-Client-Type").unwrap().as_str());
    assert!(built.contains_key("X-Telemetry-Agent"));
    assert!(built.contains_key("Content-Type"));
}

// An uncompressed JSON body still pretty-prints, through the plain UTF-8
// fallback.
#[test]
fn pretty_body_reads_uncompressed_bodies() {
    let request = PingRequest {
        document_id: "id".to_string(),
        path: "/p".to_string(),
        body: "{\"b\":2}".as_bytes().to_vec(),
        headers: HeaderMap::new(),
        body_has_info_sections: false,
        ping_name: "whatevs".to_string(),
        uploader_capabilities: vec![],
    };
    assert_eq!("{\n  \"b\": 2\n}", request.pretty_body().unwrap());
}
