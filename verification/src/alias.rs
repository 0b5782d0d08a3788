//! Certificate aliases: the names under which certificates are stored and
//! found again.

use vstd::prelude::*;
use vstd::string::StringExecFns;

verus! {

/// What a certificate is issued for.
#[derive(Clone, Copy, Debug, PartialEq, Eq, Structural)]
pub enum CertClass {
    /// A TLS server certificate.
    Server,
}

/// The namespace that every alias of a module certificate begins with.
pub open spec fn alias_namespace() -> Seq<char> {
    "aziot-edged/module/"@
}

/// The tag that ends the alias of a certificate of the given class.
pub open spec fn class_tag(class: CertClass) -> Seq<char> {
    match class {
        CertClass::Server => "server"@,
    }
}

/// The alias of the certificate of class `class` that belongs to generation
/// `generation_id` of module `module_id`: the namespace, the module, the
/// generation and the class tag, the last three set apart by colons.
pub open spec fn alias_text(
    module_id: Seq<char>,
    generation_id: Seq<char>,
    class: CertClass,
) -> Seq<char> {
    alias_namespace() + module_id + seq![':'] + generation_id + seq![':'] + class_tag(class)
}

/// An identifier without a colon. Module identifiers are of this kind: the
/// colon is what sets the parts of an alias apart.
pub open spec fn colon_free(id: Seq<char>) -> bool {
    forall|i: int| 0 <= i < id.len() ==> #[trigger] id[i] != ':'
}

/// The name of a certificate issuance target.
#[derive(Debug)]
pub struct CertificateAlias {
    pub text: String,
}

impl View for CertificateAlias {
    type V = Seq<char>;

    open spec fn view(&self) -> Seq<char> {
        self.text@
    }
}

impl Clone for CertificateAlias {
    fn clone(&self) -> (r: Self)
        ensures
            r@ == self@,
    {
        CertificateAlias { text: self.text.clone() }
    }
}

impl CertificateAlias {
    /// The alias as text.
    pub fn as_str(&self) -> (r: &str)
        ensures
            r@ == self@,
    {
        self.text.as_str()
    }
}

/// The tag of a certificate class.
pub fn tag_of(class: CertClass) -> (r: &'static str)
    ensures
        r@ == class_tag(class),
{
    match class {
        CertClass::Server => "server",
    }
}

/// Derives the alias of a module's certificate. The same module, generation
/// and class always give the same alias.
pub fn derive_alias(module_id: &str, generation_id: &str, class: CertClass) -> (alias:
    CertificateAlias)
    ensures
        alias@ == alias_text(module_id@, generation_id@, class),
{
    let mut text = String::from_str("aziot-edged/module/");
    text.append(module_id);
    text.push(':');
    text.append(generation_id);
    text.push(':');
    text.append(tag_of(class));
    assert(text@ == alias_text(module_id@, generation_id@, class));
    CertificateAlias { text }
}

/// The module and the generation of an alias, set apart by a colon.
pub open spec fn alias_source(module_id: Seq<char>, generation_id: Seq<char>) -> Seq<char> {
    module_id + seq![':'] + generation_id
}

/// Two aliases of one class that are the same text have the same text
/// between namespace and class tag.
proof fn lemma_same_alias_same_source(
    module_a: Seq<char>,
    generation_a: Seq<char>,
    module_b: Seq<char>,
    generation_b: Seq<char>,
    class: CertClass,
)
    requires
        alias_text(module_a, generation_a, class) == alias_text(module_b, generation_b, class),
    ensures
        alias_source(module_a, generation_a) == alias_source(module_b, generation_b),
{
    let head = alias_namespace();
    let tail = seq![':'] + class_tag(class);
    let mid_a = alias_source(module_a, generation_a);
    let mid_b = alias_source(module_b, generation_b);
    let a = alias_text(module_a, generation_a, class);
    let b = alias_text(module_b, generation_b, class);
    assert(a == head + mid_a + tail);
    assert(b == head + mid_b + tail);
    assert(mid_a.len() == mid_b.len()) by {
        assert(a.len() == head.len() + mid_a.len() + tail.len());
        assert(b.len() == head.len() + mid_b.len() + tail.len());
    }
    assert forall|i: int| 0 <= i < mid_a.len() implies mid_a[i] == mid_b[i] by {
        assert(a[head.len() + i] == mid_a[i]);
        assert(b[head.len() + i] == mid_b[i]);
    }
    assert(mid_a == mid_b);
}

/// Two sources that are the same text and part at the same place have the
/// same parts.
proof fn lemma_same_source_same_parts(
    module_a: Seq<char>,
    generation_a: Seq<char>,
    module_b: Seq<char>,
    generation_b: Seq<char>,
)
    requires
        alias_source(module_a, generation_a) == alias_source(module_b, generation_b),
        module_a.len() == module_b.len(),
    ensures
        module_a == module_b,
        generation_a == generation_b,
{
    let mid_a = alias_source(module_a, generation_a);
    let mid_b = alias_source(module_b, generation_b);
    let at = module_a.len() as int;
    assert forall|i: int| 0 <= i < at implies module_a[i] == module_b[i] by {
        assert(mid_a[i] == module_a[i]);
        assert(mid_b[i] == module_b[i]);
    }
    assert(module_a == module_b);
    assert(generation_a.len() == generation_b.len()) by {
        assert(mid_a.len() == at + 1 + generation_a.len());
        assert(mid_b.len() == at + 1 + generation_b.len());
    }
    assert forall|i: int| 0 <= i < generation_a.len() implies generation_a[i]
        == generation_b[i] by {
        assert(mid_a[at + 1 + i] == generation_a[i]);
        assert(mid_b[at + 1 + i] == generation_b[i]);
    }
    assert(generation_a == generation_b);
}

/// Alias derivation is injective on colon-free module identifiers: two
/// aliases of one class are the same text if and only if they were derived
/// from the same module and the same generation.
pub proof fn lemma_alias_injective(
    module_a: Seq<char>,
    generation_a: Seq<char>,
    module_b: Seq<char>,
    generation_b: Seq<char>,
    class: CertClass,
)
    requires
        colon_free(module_a),
        colon_free(module_b),
    ensures
        alias_text(module_a, generation_a, class) == alias_text(module_b, generation_b, class)
            <==> module_a == module_b && generation_a == generation_b,
{
    if alias_text(module_a, generation_a, class) == alias_text(module_b, generation_b, class) {
        lemma_same_alias_same_source(module_a, generation_a, module_b, generation_b, class);
        let mid_a = alias_source(module_a, generation_a);
        let mid_b = alias_source(module_b, generation_b);
        let la = module_a.len() as int;
        let lb = module_b.len() as int;
        assert(mid_a[la] == ':');
        assert(mid_b[lb] == ':');
        if la < lb {
            assert(mid_b[la] == module_b[la]);
        } else if lb < la {
            assert(mid_a[lb] == module_a[lb]);
        }
        lemma_same_source_same_parts(module_a, generation_a, module_b, generation_b);
    }
}

/// Alias derivation is injective on colon-free generation identifiers as
/// well, whatever the module identifiers hold.
pub proof fn lemma_alias_injective_on_generations(
    module_a: Seq<char>,
    generation_a: Seq<char>,
    module_b: Seq<char>,
    generation_b: Seq<char>,
    class: CertClass,
)
    requires
        colon_free(generation_a),
        colon_free(generation_b),
    ensures
        alias_text(module_a, generation_a, class) == alias_text(module_b, generation_b, class)
            <==> module_a == module_b && generation_a == generation_b,
{
    if alias_text(module_a, generation_a, class) == alias_text(module_b, generation_b, class) {
        lemma_same_alias_same_source(module_a, generation_a, module_b, generation_b, class);
        let mid_a = alias_source(module_a, generation_a);
        let mid_b = alias_source(module_b, generation_b);
        let la = module_a.len() as int;
        let lb = module_b.len() as int;
        assert(mid_a.len() == la + 1 + generation_a.len());
        assert(mid_b.len() == lb + 1 + generation_b.len());
        assert(mid_a[la] == ':');
        assert(mid_b[lb] == ':');
        if la < lb {
            assert(mid_a[lb] == generation_a[lb - la - 1]);
        } else if lb < la {
            assert(mid_b[la] == generation_b[la - lb - 1]);
        }
        lemma_same_source_same_parts(module_a, generation_a, module_b, generation_b);
    }
}

} // verus!
