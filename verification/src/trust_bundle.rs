//! The trust bundle routes.
//!
//! Two paths hand out a trust bundle: one the bundle of the device, one the
//! bundle for manifests. Each names a certificate that the certificate
//! service keeps; the answer is that certificate as text.

use vstd::prelude::*;
use vstd::string::StringExecFns;
use vstd::utf8::{decode_utf8, valid_utf8};
use crate::response::{ErrorResponse, ErrorResponseView};
use crate::route::{lemma_single_segment_path, match_path, single_segment_pattern};

verus! {

/// What `std::str::from_utf8` says of bytes that are not well-formed UTF-8.
pub uninterp spec fn utf8_error_text(bytes: Seq<u8>) -> Seq<char>;

/// `std::str::from_utf8`: bytes that are well-formed UTF-8 give the text
/// they encode; other bytes give an error, handed back as the text that it
/// displays, which depends on the bytes alone.
#[verifier::external_body]
pub(crate) fn text_of_utf8(bytes: &[u8]) -> (r: Result<String, String>)
    ensures
        match r {
            Ok(text) => valid_utf8(bytes@) && text@ == decode_utf8(bytes@),
            Err(reason) => !valid_utf8(bytes@) && reason@ == utf8_error_text(bytes@),
        },
{
    match std::str::from_utf8(bytes) {
        Ok(text) => Ok(text.to_string()),
        Err(reason) => Err(reason.to_string()),
    }
}

/// The names under which the certificate service keeps the two bundles.
#[derive(Debug)]
pub struct TrustBundleConfig {
    pub trust_bundle: String,
    pub manifest_trust_bundle: String,
}

/// The name of the bundle that `path` asks for, if it asks for one.
pub open spec fn bundle_for(config: TrustBundleConfig, path: Seq<char>) -> Option<Seq<char>> {
    if path == "/trust-bundle"@ {
        Some(config.trust_bundle@)
    } else if path == "/manifest-trust-bundle"@ {
        Some(config.manifest_trust_bundle@)
    } else {
        None
    }
}

/// A request for a trust bundle.
#[derive(Debug)]
pub struct Route {
    pub trust_bundle: String,
}

/// The answer to a request for a trust bundle, as plain text.
pub struct TrustBundleResponseView {
    pub certificate: Seq<char>,
}

/// The answer to a request for a trust bundle.
#[derive(Debug)]
pub struct TrustBundleResponse {
    pub certificate: String,
}

impl View for TrustBundleResponse {
    type V = TrustBundleResponseView;

    open spec fn view(&self) -> TrustBundleResponseView {
        TrustBundleResponseView { certificate: self.certificate@ }
    }
}

/// What the service's answer to the question for bundle `name` becomes. A
/// bundle that the service does not have is not found; one that is not
/// text is the server's fault.
pub open spec fn bundle_response(name: Seq<char>, fetched: Option<Seq<u8>>) -> Result<
    TrustBundleResponseView,
    ErrorResponseView,
> {
    match fetched {
        None => Err(
            ErrorResponseView {
                status: 404,
                message: "certificate "@ + name + " not found"@,
            },
        ),
        Some(bytes) => if valid_utf8(bytes) {
            Ok(TrustBundleResponseView { certificate: decode_utf8(bytes) })
        } else {
            Err(
                ErrorResponseView {
                    status: 500,
                    message: "could not parse certificate: "@ + utf8_error_text(bytes),
                },
            )
        },
    }
}

/// The bytes that a vector holds, where there is one.
pub open spec fn option_bytes(bytes: Option<Vec<u8>>) -> Option<Seq<u8>> {
    match bytes {
        Some(bytes) => Some(bytes@),
        None => None,
    }
}

impl Route {
    /// The request that `path` stands for, if it is one of the two trust
    /// bundle paths.
    pub fn from_uri(config: &TrustBundleConfig, path: &str) -> (r: Option<Route>)
        ensures
            match bundle_for(*config, path@) {
                Some(name) => r matches Some(route) && route.trust_bundle@ == name,
                None => r is None,
            },
    {
        let asked = path.to_owned();
        if asked == String::from_str("/trust-bundle") {
            Some(Route { trust_bundle: config.trust_bundle.clone() })
        } else if asked == String::from_str("/manifest-trust-bundle") {
            Some(Route { trust_bundle: config.manifest_trust_bundle.clone() })
        } else {
            None
        }
    }

    /// The answer to the request, given what the certificate service
    /// handed out under the bundle's name: the certificate's bytes, or
    /// nothing where it has none.
    pub fn get(&self, fetched: Option<Vec<u8>>) -> (r: Result<TrustBundleResponse, ErrorResponse>)
        ensures
            match bundle_response(self.trust_bundle@, option_bytes(fetched)) {
                Ok(expected) => r matches Ok(response) && response@ == expected,
                Err(expected) => r matches Err(response) && response@ == expected,
            },
    {
        let bytes = match fetched {
            Some(bytes) => bytes,
            None => {
                let mut message = String::from_str("certificate ");
                message.append(self.trust_bundle.as_str());
                message.append(" not found");
                return Err(ErrorResponse { status: 404, message });
            },
        };
        match text_of_utf8(bytes.as_slice()) {
            Ok(certificate) => Ok(TrustBundleResponse { certificate }),
            Err(reason) => {
                let mut message = String::from_str("could not parse certificate: ");
                message.append(reason.as_str());
                Err(ErrorResponse { status: 500, message })
            },
        }
    }
}

/// The two trust bundle paths are the paths that the route table of the
/// workload API sends to the trust bundle handlers.
pub proof fn lemma_bundle_paths_are_routed(config: TrustBundleConfig, path: Seq<char>)
    ensures
        path == "/trust-bundle"@ <==> match_path(single_segment_pattern("trust-bundle"@), path)
            is Some,
        path == "/manifest-trust-bundle"@ <==> match_path(
            single_segment_pattern("manifest-trust-bundle"@),
            path,
        ) is Some,
        bundle_for(config, path) is Some <==> path == "/trust-bundle"@ || path
            == "/manifest-trust-bundle"@,
{
    reveal_strlit("/trust-bundle");
    reveal_strlit("trust-bundle");
    reveal_strlit("/manifest-trust-bundle");
    reveal_strlit("manifest-trust-bundle");
    assert("/trust-bundle"@ == seq!['/'] + "trust-bundle"@);
    assert("/manifest-trust-bundle"@ == seq!['/'] + "manifest-trust-bundle"@);
    lemma_single_segment_path("trust-bundle"@, path);
    lemma_single_segment_path("manifest-trust-bundle"@, path);
}

} // verus!
