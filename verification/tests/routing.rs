use edgelet_workload::route::{
    match_pattern, route, route_workload, server_certificate_route, single_segment_route,
    workload_routes, ApiVersion, ApiVersionRange, Handler, RouteEntry, RoutePattern, Segment,
};
use edgelet_workload::session::{CallerContext, find_capture};

const CERT_PATH: &str = "/modules/edgeHub/genid/637001/certificate/server";

#[test]
fn server_certificate_path_is_matched_and_captured() {
    let captures = match_pattern(&server_certificate_route(), CERT_PATH).unwrap();
    assert_eq!(captures.len(), 2);
    assert_eq!(captures[0].name, "moduleId");
    assert_eq!(captures[0].value, "edgeHub");
    assert_eq!(captures[1].name, "genId");
    assert_eq!(captures[1].value, "637001");
}

#[test]
fn captures_are_percent_decoded() {
    let path = "/modules/%24edgeAgent/genid/a%20b%2Fc/certificate/server";
    let captures = match_pattern(&server_certificate_route(), path).unwrap();
    assert_eq!(captures[0].value, "$edgeAgent");
    assert_eq!(captures[1].value, "a b/c");
    let path = "/modules/caf%C3%A9/genid/100%/certificate/server";
    let captures = match_pattern(&server_certificate_route(), path).unwrap();
    assert_eq!(captures[0].value, "caf\u{e9}");
    assert_eq!(captures[1].value, "100%");
    let path = "/modules/%4a%4B%zz/genid/%2/certificate/server";
    let captures = match_pattern(&server_certificate_route(), path).unwrap();
    assert_eq!(captures[0].value, "JK%zz");
    assert_eq!(captures[1].value, "%2");
}

#[test]
fn capture_that_is_not_utf8_does_not_match() {
    let path = "/modules/%FF/genid/1/certificate/server";
    assert!(match_pattern(&server_certificate_route(), path).is_none());
    let path = "/modules/m/genid/%C3/certificate/server";
    assert!(match_pattern(&server_certificate_route(), path).is_none());
}

#[test]
fn paths_of_another_shape_do_not_match() {
    let pattern = server_certificate_route();
    for path in [
        "",
        "/",
        "/modules",
        "/modules//genid/1/certificate/server",
        "/modules/m/genid//certificate/server",
        "/modules/m/genid/1/certificate/server/",
        "/modules/m/genid/1/certificate/client",
        "/modules/m/x/genid/1/certificate/server",
        "modules/m/genid/1/certificate/server",
        "//modules/m/genid/1/certificate/server",
        "/Modules/m/genid/1/certificate/server",
        "/modules/m/genid/1/certificate",
    ] {
        assert!(match_pattern(&pattern, path).is_none(), "{}", path);
    }
    assert!(match_pattern(&pattern, "/modules/a\nb/genid/ /certificate/server").is_some());
}

#[test]
fn first_matching_entry_wins() {
    let table = vec![
        RouteEntry {
            pattern: single_segment_route("other"),
            versions: ApiVersionRange { min: ApiVersion::V2018_06_28 },
            handler: Handler::ListModules,
        },
        RouteEntry {
            pattern: RoutePattern {
                segments: vec![
                    Segment::Literal("x".to_string()),
                    Segment::Capture("what".to_string()),
                ],
            },
            versions: ApiVersionRange { min: ApiVersion::V2018_06_28 },
            handler: Handler::TrustBundle,
        },
        RouteEntry {
            pattern: RoutePattern {
                segments: vec![
                    Segment::Capture("first".to_string()),
                    Segment::Capture("second".to_string()),
                ],
            },
            versions: ApiVersionRange { min: ApiVersion::V2018_06_28 },
            handler: Handler::ManifestTrustBundle,
        },
    ];
    let found = route(&table, "/x/y", ApiVersion::V2018_06_28).unwrap();
    assert_eq!(found.index, 1);
    assert_eq!(found.handler, Handler::TrustBundle);
    assert_eq!(found.captures.len(), 1);
    assert_eq!(found.captures[0].value, "y");
    let found = route(&table, "/z/y", ApiVersion::V2018_06_28).unwrap();
    assert_eq!(found.index, 2);
    assert_eq!(found.captures[0].name, "first");
    assert_eq!(found.captures[0].value, "z");
    assert_eq!(found.captures[1].value, "y");
    // A capture that cannot be decoded makes the entry fall through.
    let found = route(&table, "/x/%FF", ApiVersion::V2018_06_28);
    assert!(found.is_none());
    assert!(route(&table, "/nothing", ApiVersion::V2018_06_28).is_none());
}

#[test]
fn entry_below_its_minimum_version_is_not_found() {
    let table = vec![
        RouteEntry {
            pattern: single_segment_route("thing"),
            versions: ApiVersionRange { min: ApiVersion::V2020_07_07 },
            handler: Handler::TrustBundle,
        },
        RouteEntry {
            pattern: single_segment_route("thing"),
            versions: ApiVersionRange { min: ApiVersion::V2019_01_30 },
            handler: Handler::ListModules,
        },
    ];
    assert!(route(&table, "/thing", ApiVersion::V2018_06_28).is_none());
    assert_eq!(route(&table, "/thing", ApiVersion::V2019_01_30).unwrap().index, 1);
    assert_eq!(route(&table, "/thing", ApiVersion::V2019_11_05).unwrap().index, 1);
    assert_eq!(route(&table, "/thing", ApiVersion::V2020_07_07).unwrap().index, 0);
    assert_eq!(route(&table, "/thing", ApiVersion::V2021_12_07).unwrap().index, 0);
}

#[test]
fn workload_table_routes_every_path() {
    let table = workload_routes();
    assert_eq!(table.len(), 4);
    let version = ApiVersion::V2018_06_28;
    assert_eq!(route(&table, CERT_PATH, version).unwrap().handler, Handler::ServerCertificate);
    assert_eq!(route(&table, "/modules", version).unwrap().handler, Handler::ListModules);
    assert_eq!(route(&table, "/trust-bundle", version).unwrap().handler, Handler::TrustBundle);
    assert_eq!(
        route(&table, "/manifest-trust-bundle", version).unwrap().handler,
        Handler::ManifestTrustBundle
    );
    assert!(route(&table, "/unknown", version).is_none());
    assert!(route(&table, CERT_PATH, ApiVersion::V2021_12_07).is_some());
}

#[test]
fn versions_are_parsed_and_ordered_by_date() {
    let names =
        ["2018-06-28", "2019-01-30", "2019-10-22", "2019-11-05", "2020-07-07", "2021-12-07"];
    let versions: Vec<ApiVersion> =
        names.iter().map(|name| ApiVersion::parse(name).unwrap()).collect();
    for (i, a) in versions.iter().enumerate() {
        assert_eq!(a.as_str(), names[i]);
        assert_eq!(a.ordinal() as usize, i);
        for (j, b) in versions.iter().enumerate() {
            assert_eq!(a.is_at_least(*b), i >= j);
            assert_eq!(a.is_at_least(*b), names[i] >= names[j]);
        }
    }
    assert_eq!(ApiVersion::parse("2018-06-27"), None);
    assert_eq!(ApiVersion::parse(""), None);
    assert_eq!(ApiVersion::parse("2018-06-28 "), None);
    let range = ApiVersionRange { min: ApiVersion::V2019_10_22 };
    assert!(!range.contains(ApiVersion::V2019_01_30));
    assert!(range.contains(ApiVersion::V2019_10_22));
    assert!(range.contains(ApiVersion::V2021_12_07));
}

#[test]
fn caller_context_comes_from_path_and_transport() {
    let context = CallerContext::from_uri(CERT_PATH, Some(4711)).unwrap().unwrap();
    assert_eq!(context.module_id, "edgeHub");
    assert_eq!(context.generation_id, "637001");
    assert_eq!(context.process_id, 4711);
    assert!(CallerContext::from_uri("/modules", Some(4711)).is_none());
    assert!(CallerContext::from_uri("/modules/%FF/genid/1/certificate/server", Some(1)).is_none());
}

#[test]
fn captures_are_found_by_name() {
    let captures = match_pattern(&server_certificate_route(), CERT_PATH).unwrap();
    assert_eq!(find_capture(&captures, "moduleId"), Some("edgeHub"));
    assert_eq!(find_capture(&captures, "genId"), Some("637001"));
    assert_eq!(find_capture(&captures, "genid"), None);
    assert_eq!(find_capture(&[], "moduleId"), None);
}

/// What the route makes of a path when its pattern is read as a regular
/// expression and its captures are decoded one by one.
fn by_regular_expression(path: &str) -> Option<(String, String)> {
    let pattern = regex::Regex::new(
        "^/modules/(?P<moduleId>[^/]+)/genid/(?P<genId>[^/]+)/certificate/server$",
    )
    .unwrap();
    let captures = pattern.captures(path)?;
    let module_id =
        percent_encoding::percent_decode_str(&captures["moduleId"]).decode_utf8().ok()?;
    let generation_id =
        percent_encoding::percent_decode_str(&captures["genId"]).decode_utf8().ok()?;
    Some((module_id.into_owned(), generation_id.into_owned()))
}

#[test]
fn matcher_agrees_with_the_pattern_as_a_regular_expression() {
    let pieces = [
        "", "/", "m", "modules", "genid", "certificate", "server", "%41", "%ff", "%C3%A9", "a b",
        "\n", "\u{e9}", "%", "$edgeAgent",
    ];
    let mut paths: Vec<String> = Vec::new();
    for a in pieces {
        for b in pieces {
            paths.push(format!("/modules/{}/genid/{}/certificate/server", a, b));
            paths.push(format!("/modules/{}{}/genid/1/certificate/server", a, b));
            paths.push(format!("/{}/m/{}/1/certificate/server", a, b));
            paths.push(format!("/modules/m/genid/1/{}/{}", a, b));
            paths.push(format!("{}/modules/m/genid/1/certificate/server{}", a, b));
        }
    }
    let mut matched = 0;
    for path in paths {
        let expected = by_regular_expression(&path);
        let found = match_pattern(&server_certificate_route(), &path)
            .map(|captures| (captures[0].value.clone(), captures[1].value.clone()));
        assert_eq!(found, expected, "{:?}", path);
        if expected.is_some() {
            matched += 1;
        }
    }
    assert!(matched > 100);
}

#[test]
fn workload_requests_go_to_their_handlers() {
    for version in [ApiVersion::V2018_06_28, ApiVersion::V2020_07_07, ApiVersion::V2021_12_07] {
        let found = route_workload(CERT_PATH, version).unwrap();
        assert_eq!(found.handler, Handler::ServerCertificate);
        assert_eq!(found.captures.len(), 2);
        assert_eq!(found.captures[0].value, "edgeHub");
        assert_eq!(found.captures[1].value, "637001");
        let found = route_workload("/modules", version).unwrap();
        assert_eq!(found.handler, Handler::ListModules);
        assert!(found.captures.is_empty());
        assert_eq!(route_workload("/trust-bundle", version).unwrap().handler, Handler::TrustBundle);
        assert_eq!(
            route_workload("/manifest-trust-bundle", version).unwrap().handler,
            Handler::ManifestTrustBundle
        );
        for path in ["", "/", "/modules/", "/trust-bundle/x", "/modules/m/genid/1/certificate"] {
            assert!(route_workload(path, version).is_none(), "{:?}", path);
        }
    }
}

#[test]
fn patterns_are_checked_for_their_form() {
    assert!(server_certificate_route().is_well_formed());
    assert!(single_segment_route("modules").is_well_formed());
    assert!(!single_segment_route("a/b").is_well_formed());
    let twice = vec![
        Segment::Capture("id".to_string()),
        Segment::Literal("x".to_string()),
        Segment::Capture("id".to_string()),
    ];
    assert!(RoutePattern::new(twice).is_none());
    let once = vec![
        Segment::Capture("id".to_string()),
        Segment::Literal("id".to_string()),
        Segment::Capture("other".to_string()),
    ];
    assert!(RoutePattern::new(once).is_some());
    assert!(RoutePattern::new(Vec::new()).is_some());
    assert!(RoutePattern::new(vec![Segment::Literal("/".to_string())]).is_none());
}
