use edgelet_workload::ip::is_ip_literal;
use edgelet_workload::restart::{Restart, RestartAction, RestartError, RestartEvent};
use edgelet_workload::text::{is_blank, is_whitespace};
use edgelet_workload::trust_bundle::{Route, TrustBundleConfig};

#[test]
fn whitespace_is_the_unicode_property() {
    for code in 0u32..=0x10FFFF {
        if let Some(c) = char::from_u32(code) {
            assert_eq!(is_whitespace(c), c.is_whitespace(), "U+{:04X}", code);
        }
    }
}

#[test]
fn blank_means_empty_after_trimming() {
    for text in ["", " ", "\t\n", "\u{2028}\u{205f}", " a ", "a", "\u{200b}", "\0", " \u{feff}"] {
        assert_eq!(is_blank(text), text.trim().is_empty(), "{:?}", text);
    }
}

/// The texts of the corpus below that are IP addresses, in order.
const ADDRESSES: [&str; 479] = [
    "0.0.0.1", "0.0.255.1", "0.255.0.1", "0.255.255.1", "001::", "00::", "0101::", "010::",
    "01:01::", "01:0::", "01:255::", "01:256::", "01::", "01::0", "01::01", "01::01:0",
    "01::01:01", "01::01:1.2.3.4", "01::01:255", "01::01:256", "01::01:fFff", "01::0:0",
    "01::0:01", "01::0:1.2.3.4", "01::0:255", "01::0:256", "01::0:fFff", "01::1.2.3.4", "01::255",
    "01::255:0", "01::255:01", "01::255:1.2.3.4", "01::255:255", "01::255:256", "01::255:fFff",
    "01::256", "01::256:0", "01::256:01", "01::256:1.2.3.4", "01::256:255", "01::256:256",
    "01::256:fFff", "01::fFff", "01::fFff:0", "01::fFff:01", "01::fFff:1.2.3.4", "01::fFff:255",
    "01::fFff:256", "01::fFff:fFff", "01:fFff::", "0255::", "0256::", "0:01::", "0:0::",
    "0:255::", "0:256::", "0::", "0::0", "0::01", "0::01:0", "0::01:01", "0::01:1.2.3.4",
    "0::01:255", "0::01:256", "0::01:fFff", "0::0:0", "0::0:01", "0::0:1.2.3.4", "0::0:255",
    "0::0:256", "0::0:fFff", "0::1.2.3.4", "0::255", "0::255:0", "0::255:01", "0::255:1.2.3.4",
    "0::255:255", "0::255:256", "0::255:fFff", "0::256", "0::256:0", "0::256:01",
    "0::256:1.2.3.4", "0::256:255", "0::256:256", "0::256:fFff", "0::fFff", "0::fFff:0",
    "0::fFff:01", "0::fFff:1.2.3.4", "0::fFff:255", "0::fFff:256", "0::fFff:fFff", "0:fFff::",
    "1.2.3.4", "1.2.3.40", "1:2:3:4:5:01:01:0", "1:2:3:4:5:01:01:01", "1:2:3:4:5:01:01:255",
    "1:2:3:4:5:01:01:256", "1:2:3:4:5:01:01::", "1:2:3:4:5:01:01:fFff", "1:2:3:4:5:01:0:0",
    "1:2:3:4:5:01:0:01", "1:2:3:4:5:01:0:255", "1:2:3:4:5:01:0:256", "1:2:3:4:5:01:0::",
    "1:2:3:4:5:01:0:fFff", "1:2:3:4:5:01:255:0", "1:2:3:4:5:01:255:01", "1:2:3:4:5:01:255:255",
    "1:2:3:4:5:01:255:256", "1:2:3:4:5:01:255::", "1:2:3:4:5:01:255:fFff", "1:2:3:4:5:01:256:0",
    "1:2:3:4:5:01:256:01", "1:2:3:4:5:01:256:255", "1:2:3:4:5:01:256:256", "1:2:3:4:5:01:256::",
    "1:2:3:4:5:01:256:fFff", "1:2:3:4:5:01::", "1:2:3:4:5:01::0", "1:2:3:4:5:01::01",
    "1:2:3:4:5:01::255", "1:2:3:4:5:01::256", "1:2:3:4:5:01::fFff", "1:2:3:4:5:01:fFff:0",
    "1:2:3:4:5:01:fFff:01", "1:2:3:4:5:01:fFff:255", "1:2:3:4:5:01:fFff:256",
    "1:2:3:4:5:01:fFff::", "1:2:3:4:5:01:fFff:fFff", "1:2:3:4:5:0:01:0", "1:2:3:4:5:0:01:01",
    "1:2:3:4:5:0:01:255", "1:2:3:4:5:0:01:256", "1:2:3:4:5:0:01::", "1:2:3:4:5:0:01:fFff",
    "1:2:3:4:5:0:0:0", "1:2:3:4:5:0:0:01", "1:2:3:4:5:0:0:255", "1:2:3:4:5:0:0:256",
    "1:2:3:4:5:0:0::", "1:2:3:4:5:0:0:fFff", "1:2:3:4:5:0:255:0", "1:2:3:4:5:0:255:01",
    "1:2:3:4:5:0:255:255", "1:2:3:4:5:0:255:256", "1:2:3:4:5:0:255::", "1:2:3:4:5:0:255:fFff",
    "1:2:3:4:5:0:256:0", "1:2:3:4:5:0:256:01", "1:2:3:4:5:0:256:255", "1:2:3:4:5:0:256:256",
    "1:2:3:4:5:0:256::", "1:2:3:4:5:0:256:fFff", "1:2:3:4:5:0::", "1:2:3:4:5:0::0",
    "1:2:3:4:5:0::01", "1:2:3:4:5:0::255", "1:2:3:4:5:0::256", "1:2:3:4:5:0::fFff",
    "1:2:3:4:5:0:fFff:0", "1:2:3:4:5:0:fFff:01", "1:2:3:4:5:0:fFff:255", "1:2:3:4:5:0:fFff:256",
    "1:2:3:4:5:0:fFff::", "1:2:3:4:5:0:fFff:fFff", "1:2:3:4:5:255:01:0", "1:2:3:4:5:255:01:01",
    "1:2:3:4:5:255:01:255", "1:2:3:4:5:255:01:256", "1:2:3:4:5:255:01::", "1:2:3:4:5:255:01:fFff",
    "1:2:3:4:5:255:0:0", "1:2:3:4:5:255:0:01", "1:2:3:4:5:255:0:255", "1:2:3:4:5:255:0:256",
    "1:2:3:4:5:255:0::", "1:2:3:4:5:255:0:fFff", "1:2:3:4:5:255:255:0", "1:2:3:4:5:255:255:01",
    "1:2:3:4:5:255:255:255", "1:2:3:4:5:255:255:256", "1:2:3:4:5:255:255::",
    "1:2:3:4:5:255:255:fFff", "1:2:3:4:5:255:256:0", "1:2:3:4:5:255:256:01",
    "1:2:3:4:5:255:256:255", "1:2:3:4:5:255:256:256", "1:2:3:4:5:255:256::",
    "1:2:3:4:5:255:256:fFff", "1:2:3:4:5:255::", "1:2:3:4:5:255::0", "1:2:3:4:5:255::01",
    "1:2:3:4:5:255::255", "1:2:3:4:5:255::256", "1:2:3:4:5:255::fFff", "1:2:3:4:5:255:fFff:0",
    "1:2:3:4:5:255:fFff:01", "1:2:3:4:5:255:fFff:255", "1:2:3:4:5:255:fFff:256",
    "1:2:3:4:5:255:fFff::", "1:2:3:4:5:255:fFff:fFff", "1:2:3:4:5:256:01:0",
    "1:2:3:4:5:256:01:01", "1:2:3:4:5:256:01:255", "1:2:3:4:5:256:01:256", "1:2:3:4:5:256:01::",
    "1:2:3:4:5:256:01:fFff", "1:2:3:4:5:256:0:0", "1:2:3:4:5:256:0:01", "1:2:3:4:5:256:0:255",
    "1:2:3:4:5:256:0:256", "1:2:3:4:5:256:0::", "1:2:3:4:5:256:0:fFff", "1:2:3:4:5:256:255:0",
    "1:2:3:4:5:256:255:01", "1:2:3:4:5:256:255:255", "1:2:3:4:5:256:255:256",
    "1:2:3:4:5:256:255::", "1:2:3:4:5:256:255:fFff", "1:2:3:4:5:256:256:0",
    "1:2:3:4:5:256:256:01", "1:2:3:4:5:256:256:255", "1:2:3:4:5:256:256:256",
    "1:2:3:4:5:256:256::", "1:2:3:4:5:256:256:fFff", "1:2:3:4:5:256::", "1:2:3:4:5:256::0",
    "1:2:3:4:5:256::01", "1:2:3:4:5:256::255", "1:2:3:4:5:256::256", "1:2:3:4:5:256::fFff",
    "1:2:3:4:5:256:fFff:0", "1:2:3:4:5:256:fFff:01", "1:2:3:4:5:256:fFff:255",
    "1:2:3:4:5:256:fFff:256", "1:2:3:4:5:256:fFff::", "1:2:3:4:5:256:fFff:fFff",
    "1:2:3:4:5::01:0", "1:2:3:4:5::01:01", "1:2:3:4:5::01:255", "1:2:3:4:5::01:256",
    "1:2:3:4:5::01:fFff", "1:2:3:4:5::0:0", "1:2:3:4:5::0:01", "1:2:3:4:5::0:255",
    "1:2:3:4:5::0:256", "1:2:3:4:5::0:fFff", "1:2:3:4:5::255:0", "1:2:3:4:5::255:01",
    "1:2:3:4:5::255:255", "1:2:3:4:5::255:256", "1:2:3:4:5::255:fFff", "1:2:3:4:5::256:0",
    "1:2:3:4:5::256:01", "1:2:3:4:5::256:255", "1:2:3:4:5::256:256", "1:2:3:4:5::256:fFff",
    "1:2:3:4:5::fFff:0", "1:2:3:4:5::fFff:01", "1:2:3:4:5::fFff:255", "1:2:3:4:5::fFff:256",
    "1:2:3:4:5::fFff:fFff", "1:2:3:4:5:fFff:01:0", "1:2:3:4:5:fFff:01:01",
    "1:2:3:4:5:fFff:01:255", "1:2:3:4:5:fFff:01:256", "1:2:3:4:5:fFff:01::",
    "1:2:3:4:5:fFff:01:fFff", "1:2:3:4:5:fFff:0:0", "1:2:3:4:5:fFff:0:01", "1:2:3:4:5:fFff:0:255",
    "1:2:3:4:5:fFff:0:256", "1:2:3:4:5:fFff:0::", "1:2:3:4:5:fFff:0:fFff", "1:2:3:4:5:fFff:255:0",
    "1:2:3:4:5:fFff:255:01", "1:2:3:4:5:fFff:255:255", "1:2:3:4:5:fFff:255:256",
    "1:2:3:4:5:fFff:255::", "1:2:3:4:5:fFff:255:fFff", "1:2:3:4:5:fFff:256:0",
    "1:2:3:4:5:fFff:256:01", "1:2:3:4:5:fFff:256:255", "1:2:3:4:5:fFff:256:256",
    "1:2:3:4:5:fFff:256::", "1:2:3:4:5:fFff:256:fFff", "1:2:3:4:5:fFff::", "1:2:3:4:5:fFff::0",
    "1:2:3:4:5:fFff::01", "1:2:3:4:5:fFff::255", "1:2:3:4:5:fFff::256", "1:2:3:4:5:fFff::fFff",
    "1:2:3:4:5:fFff:fFff:0", "1:2:3:4:5:fFff:fFff:01", "1:2:3:4:5:fFff:fFff:255",
    "1:2:3:4:5:fFff:fFff:256", "1:2:3:4:5:fFff:fFff::", "1:2:3:4:5:fFff:fFff:fFff", "255.0.0.1",
    "255.0.255.1", "255.255.0.1", "255.255.255.1", "2550::", "255:01::", "255:0::", "255:255::",
    "255:256::", "255::", "255::0", "255::01", "255::01:0", "255::01:01", "255::01:1.2.3.4",
    "255::01:255", "255::01:256", "255::01:fFff", "255::0:0", "255::0:01", "255::0:1.2.3.4",
    "255::0:255", "255::0:256", "255::0:fFff", "255::1.2.3.4", "255::255", "255::255:0",
    "255::255:01", "255::255:1.2.3.4", "255::255:255", "255::255:256", "255::255:fFff",
    "255::256", "255::256:0", "255::256:01", "255::256:1.2.3.4", "255::256:255", "255::256:256",
    "255::256:fFff", "255::fFff", "255::fFff:0", "255::fFff:01", "255::fFff:1.2.3.4",
    "255::fFff:255", "255::fFff:256", "255::fFff:fFff", "255:fFff::", "2560::", "256:01::",
    "256:0::", "256:255::", "256:256::", "256::", "256::0", "256::01", "256::01:0", "256::01:01",
    "256::01:1.2.3.4", "256::01:255", "256::01:256", "256::01:fFff", "256::0:0", "256::0:01",
    "256::0:1.2.3.4", "256::0:255", "256::0:256", "256::0:fFff", "256::1.2.3.4", "256::255",
    "256::255:0", "256::255:01", "256::255:1.2.3.4", "256::255:255", "256::255:256",
    "256::255:fFff", "256::256", "256::256:0", "256::256:01", "256::256:1.2.3.4", "256::256:255",
    "256::256:256", "256::256:fFff", "256::fFff", "256::fFff:0", "256::fFff:01",
    "256::fFff:1.2.3.4", "256::fFff:255", "256::fFff:256", "256::fFff:fFff", "256:fFff::", "::",
    "::0", "::00", "::001", "::01", "::010", "::0101", "::01:0", "::01:01", "::01:1.2.3.4",
    "::01:255", "::01:256", "::01:fFff", "::0255", "::0256", "::0:0", "::0:01", "::0:1.2.3.4",
    "::0:255", "::0:256", "::0:fFff", "::1.2.3.4", "::1.2.3.40", "::255", "::2550", "::255:0",
    "::255:01", "::255:1.2.3.4", "::255:255", "::255:256", "::255:fFff", "::256", "::2560",
    "::256:0", "::256:01", "::256:1.2.3.4", "::256:255", "::256:256", "::256:fFff", "::fFff",
    "::fFff:0", "::fFff:01", "::fFff:1.2.3.4", "::fFff:255", "::fFff:256", "::fFff:fFff",
    "fFff:01::", "fFff:0::", "fFff:255::", "fFff:256::", "fFff::", "fFff::0", "fFff::01",
    "fFff::01:0", "fFff::01:01", "fFff::01:1.2.3.4", "fFff::01:255", "fFff::01:256",
    "fFff::01:fFff", "fFff::0:0", "fFff::0:01", "fFff::0:1.2.3.4", "fFff::0:255", "fFff::0:256",
    "fFff::0:fFff", "fFff::1.2.3.4", "fFff::255", "fFff::255:0", "fFff::255:01",
    "fFff::255:1.2.3.4", "fFff::255:255", "fFff::255:256", "fFff::255:fFff", "fFff::256",
    "fFff::256:0", "fFff::256:01", "fFff::256:1.2.3.4", "fFff::256:255", "fFff::256:256",
    "fFff::256:fFff", "fFff::fFff", "fFff::fFff:0", "fFff::fFff:01", "fFff::fFff:1.2.3.4",
    "fFff::fFff:255", "fFff::fFff:256", "fFff::fFff:fFff", "fFff:fFff::",
];

#[test]
fn ip_literals_of_a_corpus_are_recognized() {
    let pieces = ["", "0", "01", "255", "256", "fFff", "1.2.3.4", "::", ":", "g", "12345"];
    let mut count = 0;
    for a in pieces {
        for b in pieces {
            for c in pieces {
                let texts = [
                    format!("{}{}{}", a, b, c),
                    format!("{}:{}:{}", a, b, c),
                    format!("{}.{}.{}.1", a, b, c),
                    format!("1:2:3:4:5:{}:{}:{}", a, b, c),
                    format!("{}::{}:{}", a, b, c),
                ];
                for text in texts {
                    let expected = ADDRESSES.binary_search(&text.as_str()).is_ok();
                    assert_eq!(is_ip_literal(&text), expected, "{:?}", text);
                    count += 1;
                }
            }
        }
    }
    assert_eq!(count, 6655);
    for address in ADDRESSES {
        assert!(is_ip_literal(address), "{:?}", address);
    }
}

#[test]
fn restart_runs_its_steps_in_order() {
    let command = Restart::new("edgeHub".to_string(), (), Vec::<u8>::new());
    assert_eq!(command.id, "edgeHub");
    assert!(matches!(command.execute(RestartEvent::Started),
        RestartAction::RestartModule(id) if id == "edgeHub"));
    assert!(matches!(command.execute(RestartEvent::Restarted),
        RestartAction::WriteLine(line) if line == "edgeHub\n"));
    assert!(matches!(command.execute(RestartEvent::Written), RestartAction::Finish(Ok(()))));
}

#[test]
fn restart_ends_at_the_first_failure() {
    let command = Restart::new("edgeHub".to_string(), (), ());
    assert!(matches!(
        command.execute(RestartEvent::RestartFailed),
        RestartAction::Finish(Err(RestartError::ModuleRuntime))
    ));
    assert!(matches!(
        command.execute(RestartEvent::WriteFailed),
        RestartAction::Finish(Err(RestartError::WriteToStdout))
    ));
}

fn bundles() -> TrustBundleConfig {
    TrustBundleConfig {
        trust_bundle: "aziot-edged-trust-bundle".to_string(),
        manifest_trust_bundle: "aziot-edged-manifest-trust-bundle".to_string(),
    }
}

#[test]
fn trust_bundle_paths_name_their_bundles() {
    let config = bundles();
    assert_eq!(
        Route::from_uri(&config, "/trust-bundle").unwrap().trust_bundle,
        "aziot-edged-trust-bundle"
    );
    assert_eq!(
        Route::from_uri(&config, "/manifest-trust-bundle").unwrap().trust_bundle,
        "aziot-edged-manifest-trust-bundle"
    );
    assert!(Route::from_uri(&config, "/trust-bundle/").is_none());
    assert!(Route::from_uri(&config, "/modules").is_none());
    assert!(Route::from_uri(&config, "").is_none());
}

#[test]
fn trust_bundle_is_handed_out_as_text() {
    let route = Route::from_uri(&bundles(), "/trust-bundle").unwrap();
    let pem = "-----BEGIN CERTIFICATE-----\nMIIB\u{e9}\n-----END CERTIFICATE-----\n";
    let response = route.get(Some(pem.as_bytes().to_vec())).unwrap();
    assert_eq!(response.certificate, pem);
}

#[test]
fn trust_bundle_that_is_missing_or_not_text_is_an_error() {
    let route = Route::from_uri(&bundles(), "/trust-bundle").unwrap();
    let missing = route.get(None).unwrap_err();
    assert_eq!(missing.status, 404);
    assert_eq!(missing.message, "certificate aziot-edged-trust-bundle not found");
    let bytes = vec![b'a', 0xff, b'b'];
    let reason = std::str::from_utf8(&bytes).unwrap_err().to_string();
    let broken = route.get(Some(bytes)).unwrap_err();
    assert_eq!(broken.status, 500);
    assert_eq!(broken.message, format!("could not parse certificate: {}", reason));
}
