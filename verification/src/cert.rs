//! Validation of a server certificate request.
//!
//! The request body names a common name. From it and from the caller's
//! module and generation this module builds the canonical description of the
//! certificate to issue: its alias, its common name and its subject
//! alternative names. No outside service is involved.

use vstd::prelude::*;
use crate::alias::{alias_text, derive_alias, CertClass, CertificateAlias};
use crate::ip::{ip_literal, is_ip_literal, lemma_ip_literal_has_separator};
use crate::label::{dns_label, label_char, lemma_dns_label_shape, sanitize_dns_label};
use crate::text::{blank, is_blank};

verus! {

/// The character sequences that the strings of `v` hold.
pub open spec fn texts(v: Seq<String>) -> Seq<Seq<char>> {
    Seq::new(v.len(), |i: int| v[i]@)
}

/// The body of a server certificate request.
#[derive(Debug)]
pub struct ServerCertificateRequest {
    pub common_name: String,
}

/// The common name that a request body asks for, where there is a body.
pub open spec fn requested_name(body: Option<ServerCertificateRequest>) -> Option<Seq<char>> {
    match body {
        Some(request) => Some(request.common_name@),
        None => None,
    }
}

/// The subject alternative names of a certificate, as plain text.
pub struct SanEntries {
    pub dns: Seq<Seq<char>>,
    pub ip: Seq<Seq<char>>,
}

/// The subject alternative names of a certificate: DNS names and IP
/// addresses.
#[derive(Debug)]
pub struct SanEntrySet {
    pub dns: Vec<String>,
    pub ip: Vec<String>,
}

impl View for SanEntrySet {
    type V = SanEntries;

    open spec fn view(&self) -> SanEntries {
        SanEntries { dns: texts(self.dns@), ip: texts(self.ip@) }
    }
}

/// The alternative names of the certificate that module `module_id` asks
/// for under `common_name`.
///
/// The module's own label is always a DNS name of the certificate, also
/// where the module's name leaves an empty label. A verifier that finds a
/// DNS name in a certificate goes by it and not by the common name, so a
/// common name that is no IP address is a DNS name as well; one that is an
/// IP address is the certificate's one IP entry.
pub open spec fn san_entries(module_id: Seq<char>, common_name: Seq<char>) -> SanEntries {
    if ip_literal(common_name) {
        SanEntries { dns: seq![dns_label(module_id)], ip: seq![common_name] }
    } else {
        SanEntries { dns: seq![dns_label(module_id), common_name], ip: Seq::empty() }
    }
}

/// A common name that is an IP literal is the one IP entry, and no DNS
/// entry repeats it: the only DNS entry is the module's label.
pub proof fn lemma_ip_name_is_ip_entry(module_id: Seq<char>, common_name: Seq<char>)
    requires
        ip_literal(common_name),
    ensures
        san_entries(module_id, common_name).ip == seq![common_name],
        san_entries(module_id, common_name).dns == seq![dns_label(module_id)],
        !san_entries(module_id, common_name).dns.contains(common_name),
{
    let label = dns_label(module_id);
    let dns = san_entries(module_id, common_name).dns;
    lemma_dns_label_shape(module_id);
    lemma_ip_literal_has_separator(common_name);
    if label == common_name {
        let sep = if common_name.contains('.') {
            '.'
        } else {
            ':'
        };
        let i = choose|i: int| 0 <= i < common_name.len() && common_name[i] == sep;
        assert(!label_char(label[i]));
    }
    if dns.contains(common_name) {
        let j = choose|j: int| 0 <= j < dns.len() && dns[j] == common_name;
        assert(dns[j] == label);
    }
}

/// A common name that is no IP literal is a DNS entry, beside the module's
/// label: there are two DNS entries even where the two are the same text,
/// and no IP entry.
pub proof fn lemma_other_name_is_dns_entry(module_id: Seq<char>, common_name: Seq<char>)
    requires
        !ip_literal(common_name),
    ensures
        san_entries(module_id, common_name).ip.len() == 0,
        san_entries(module_id, common_name).dns == seq![dns_label(module_id), common_name],
        san_entries(module_id, common_name).dns.len() == 2,
        san_entries(module_id, common_name).dns.contains(common_name),
        san_entries(module_id, common_name).dns.contains(dns_label(module_id)),
{
    let dns = san_entries(module_id, common_name).dns;
    assert(dns[0] == dns_label(module_id));
    assert(dns[1] == common_name);
}

/// The common name is in exactly one of the two lists, whatever it is.
pub proof fn lemma_common_name_in_one_list(module_id: Seq<char>, common_name: Seq<char>)
    ensures
        san_entries(module_id, common_name).ip.contains(common_name) != san_entries(
            module_id,
            common_name,
        ).dns.contains(common_name),
{
    let sans = san_entries(module_id, common_name);
    if ip_literal(common_name) {
        lemma_ip_name_is_ip_entry(module_id, common_name);
        assert(sans.ip[0] == common_name);
    } else {
        lemma_other_name_is_dns_entry(module_id, common_name);
        if sans.ip.contains(common_name) {
            let j = choose|j: int| 0 <= j < sans.ip.len() && sans.ip[j] == common_name;
        }
    }
}

/// Builds the alternative names of a certificate.
pub fn build_san_entries(module_id: &str, common_name: &str) -> (sans: SanEntrySet)
    ensures
        sans@ == san_entries(module_id@, common_name@),
{
    let mut dns: Vec<String> = Vec::new();
    let mut ip: Vec<String> = Vec::new();
    dns.push(sanitize_dns_label(module_id));
    if is_ip_literal(common_name) {
        ip.push(common_name.to_owned());
    } else {
        dns.push(common_name.to_owned());
    }
    let sans = SanEntrySet { dns, ip };
    assert(sans@.dns == san_entries(module_id@, common_name@).dns);
    assert(sans@.ip == san_entries(module_id@, common_name@).ip);
    sans
}

/// Why a request body was turned down.
#[derive(Clone, Copy, Debug, PartialEq, Eq, Structural)]
pub enum ValidationError {
    /// The request had no body.
    MissingBody,
    /// The common name is empty once trimmed.
    EmptyCommonName,
}

/// The canonical description of a certificate to issue, as plain text.
pub struct CertificateSpecView {
    pub alias: Seq<char>,
    pub common_name: Seq<char>,
    pub sans: SanEntries,
    pub cert_class: CertClass,
}

/// The canonical description of a certificate to issue.
#[derive(Debug)]
pub struct CertificateSpec {
    pub alias: CertificateAlias,
    pub common_name: String,
    pub sans: SanEntrySet,
    pub cert_class: CertClass,
}

impl View for CertificateSpec {
    type V = CertificateSpecView;

    open spec fn view(&self) -> CertificateSpecView {
        CertificateSpecView {
            alias: self.alias@,
            common_name: self.common_name@,
            sans: self.sans@,
            cert_class: self.cert_class,
        }
    }
}

/// What validation makes of a request: the certificate that generation
/// `generation_id` of module `module_id` is to get, or the reason why there
/// is none.
pub open spec fn validated(
    module_id: Seq<char>,
    generation_id: Seq<char>,
    common_name: Option<Seq<char>>,
) -> Result<CertificateSpecView, ValidationError> {
    match common_name {
        None => Err(ValidationError::MissingBody),
        Some(name) => if blank(name) {
            Err(ValidationError::EmptyCommonName)
        } else {
            Ok(
                CertificateSpecView {
                    alias: alias_text(module_id, generation_id, CertClass::Server),
                    common_name: name,
                    sans: san_entries(module_id, name),
                    cert_class: CertClass::Server,
                },
            )
        },
    }
}

/// A request is turned down exactly where it has no body or a blank common
/// name. Of any other request the common name is kept as it was sent, and
/// it is in one of the two lists of alternative names: the IP entries
/// where it is an IP literal, the DNS entries where it is not.
pub proof fn lemma_validated_names(
    module_id: Seq<char>,
    generation_id: Seq<char>,
    common_name: Option<Seq<char>>,
)
    ensures
        validated(module_id, generation_id, common_name) is Err <==> common_name is None || blank(
            common_name->Some_0,
        ),
        validated(module_id, generation_id, common_name) matches Ok(spec) ==> {
            &&& common_name == Some(spec.common_name)
            &&& spec.sans == san_entries(module_id, spec.common_name)
            &&& spec.sans.ip.contains(spec.common_name) == ip_literal(spec.common_name)
            &&& spec.sans.dns.contains(spec.common_name) == !ip_literal(spec.common_name)
            &&& spec.sans.dns.contains(dns_label(module_id))
        },
{
    if validated(module_id, generation_id, common_name) is Ok {
        let spec = validated(module_id, generation_id, common_name)->Ok_0;
        let name = spec.common_name;
        lemma_common_name_in_one_list(module_id, name);
        if ip_literal(name) {
            lemma_ip_name_is_ip_entry(module_id, name);
            assert(spec.sans.dns[0] == dns_label(module_id));
        } else {
            lemma_other_name_is_dns_entry(module_id, name);
        }
    }
}

/// Validates the body of a server certificate request and describes the
/// certificate to issue.
pub fn validate(
    module_id: &str,
    generation_id: &str,
    body: Option<ServerCertificateRequest>,
) -> (r: Result<CertificateSpec, ValidationError>)
    ensures
        match validated(module_id@, generation_id@, requested_name(body)) {
            Ok(expected) => r matches Ok(spec) && spec@ == expected,
            Err(reason) => r matches Err(e) && e == reason,
        },
{
    let request = match body {
        Some(request) => request,
        None => {
            return Err(ValidationError::MissingBody);
        },
    };
    let common_name = request.common_name;
    if is_blank(common_name.as_str()) {
        return Err(ValidationError::EmptyCommonName);
    }
    let alias = derive_alias(module_id, generation_id, CertClass::Server);
    let sans = build_san_entries(module_id, common_name.as_str());
    Ok(CertificateSpec { alias, common_name, sans, cert_class: CertClass::Server })
}

} // verus!
