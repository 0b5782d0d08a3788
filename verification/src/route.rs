//! Versioned route dispatch.
//!
//! A route table is an ordered list of path patterns, each with the oldest
//! API version that serves it and the handler it leads to. A request goes to
//! the first entry that serves its version and whose pattern its path
//! matches.

use vstd::prelude::*;
use vstd::string::StringExecFns;
use crate::percent::{percent_decode_utf8, percent_decoded};
use crate::text::{
    from_chars, lemma_split_of_pair, lemma_split_pair, lemma_split_pieces, same_chars, split,
    split_chars, to_chars, views,
};

verus! {

/// One segment of a path pattern, as plain text.
pub enum SegmentView {
    Literal(Seq<char>),
    Capture(Seq<char>),
}

/// One segment of a path pattern.
#[derive(Debug)]
pub enum Segment {
    /// Matches the segment that is exactly this text.
    Literal(String),
    /// Matches any segment that is not empty, and captures what it decodes
    /// to under this name.
    Capture(String),
}

impl View for Segment {
    type V = SegmentView;

    open spec fn view(&self) -> SegmentView {
        match self {
            Segment::Literal(text) => SegmentView::Literal(text@),
            Segment::Capture(name) => SegmentView::Capture(name@),
        }
    }
}

/// A path pattern: the segments that follow the slashes of a path, in order.
#[derive(Debug)]
pub struct RoutePattern {
    pub segments: Vec<Segment>,
}

impl View for RoutePattern {
    type V = Seq<SegmentView>;

    open spec fn view(&self) -> Seq<SegmentView> {
        Seq::new(self.segments@.len(), |i: int| self.segments@[i]@)
    }
}

/// The text holds no slash.
pub open spec fn slash_free(text: Seq<char>) -> bool {
    forall|j: int| 0 <= j < text.len() ==> #[trigger] text[j] != '/'
}

/// The segment, if it is a capture, has another name than `name`.
pub open spec fn named_otherwise(segment: SegmentView, name: Seq<char>) -> bool {
    segment matches SegmentView::Capture(other) ==> other != name
}

/// The segment at index `i` can stand in a pattern after the segments
/// before it: as a literal it holds no slash, and as a capture it has a
/// name that no capture before it has.
pub open spec fn well_formed_segment(pattern: Seq<SegmentView>, i: int) -> bool {
    match pattern[i] {
        SegmentView::Literal(text) => slash_free(text),
        SegmentView::Capture(name) => forall|j: int|
            0 <= j < i ==> named_otherwise(#[trigger] pattern[j], name),
    }
}

/// No literal segment holds a slash, and no two captures share a name.
pub open spec fn well_formed_pattern(pattern: Seq<SegmentView>) -> bool {
    forall|i: int| 0 <= i < pattern.len() ==> #[trigger] well_formed_segment(pattern, i)
}

/// A named part of a path, as plain text.
pub struct CapturedView {
    pub name: Seq<char>,
    pub value: Seq<char>,
}

/// A named part of a path, percent-decoded.
#[derive(Debug)]
pub struct Capture {
    pub name: String,
    pub value: String,
}

impl View for Capture {
    type V = CapturedView;

    open spec fn view(&self) -> CapturedView {
        CapturedView { name: self.name@, value: self.value@ }
    }
}

/// The captures that a list holds, as plain text.
pub open spec fn capture_views(captures: Seq<Capture>) -> Seq<CapturedView> {
    Seq::new(captures.len(), |i: int| captures[i]@)
}

/// What matching the segments of a path against the segments of a pattern
/// gives, one against one: the captures in the order of the pattern, or
/// nothing where a segment does not match.
///
/// A literal matches the segment that is the same text. A capture matches a
/// segment that is not empty and percent-decodes to well-formed text.
pub open spec fn match_segments(pattern: Seq<SegmentView>, parts: Seq<Seq<char>>) -> Option<
    Seq<CapturedView>,
>
    decreases pattern.len(),
{
    if pattern.len() == 0 {
        Some(Seq::empty())
    } else {
        match match_segments(pattern.drop_last(), parts.drop_last()) {
            None => None,
            Some(found) => match pattern.last() {
                SegmentView::Literal(text) => if parts.last() == text {
                    Some(found)
                } else {
                    None
                },
                SegmentView::Capture(name) => if parts.last().len() == 0 {
                    None
                } else {
                    match percent_decoded(parts.last()) {
                        Some(value) => Some(found.push(CapturedView { name, value })),
                        None => None,
                    }
                },
            },
        }
    }
}

/// What matching a path against a pattern gives. The path has to begin
/// with a slash and to have as many segments as the pattern.
pub open spec fn match_path(pattern: Seq<SegmentView>, path: Seq<char>) -> Option<
    Seq<CapturedView>,
> {
    let parts = split(path, '/');
    if parts.len() == pattern.len() + 1 && parts[0].len() == 0 {
        match_segments(pattern, parts.skip(1))
    } else {
        None
    }
}

impl RoutePattern {
    /// The pattern of the given segments, if they make a well-formed one.
    pub fn new(segments: Vec<Segment>) -> (r: Option<RoutePattern>)
        ensures
            match r {
                Some(pattern) => pattern.segments == segments && well_formed_pattern(pattern@),
                None => !well_formed_pattern((RoutePattern { segments })@),
            },
    {
        let pattern = RoutePattern { segments };
        if pattern.is_well_formed() {
            Some(pattern)
        } else {
            None
        }
    }

    /// Whether no literal segment holds a slash and no two captures share a
    /// name.
    pub fn is_well_formed(&self) -> (r: bool)
        ensures
            r == well_formed_pattern(self@),
    {
        let mut i: usize = 0;
        while i < self.segments.len()
            invariant
                i <= self.segments@.len(),
                forall|k: int| 0 <= k < i ==> #[trigger] well_formed_segment(self@, k),
            decreases self.segments@.len() - i,
        {
            assert(self@[i as int] == self.segments@[i as int]@);
            match &self.segments[i] {
                Segment::Literal(text) => {
                    let chars = to_chars(text.as_str());
                    let mut j: usize = 0;
                    while j < chars.len()
                        invariant
                            j <= chars.len(),
                            i < self.segments@.len(),
                            self@[i as int] == SegmentView::Literal(chars@),
                            forall|k: int| 0 <= k < j ==> #[trigger] chars@[k] != '/',
                        decreases chars.len() - j,
                    {
                        if chars[j] == '/' {
                            assert(!slash_free(chars@));
                            assert(!well_formed_segment(self@, i as int));
                            return false;
                        }
                        j += 1;
                    }
                },
                Segment::Capture(name) => {
                    let wanted = to_chars(name.as_str());
                    let mut j: usize = 0;
                    while j < i
                        invariant
                            j <= i < self.segments@.len(),
                            self@[i as int] == SegmentView::Capture(wanted@),
                            forall|k: int|
                                0 <= k < j ==> named_otherwise(#[trigger] self@[k], wanted@),
                        decreases i - j,
                    {
                        assert(self@[j as int] == self.segments@[j as int]@);
                        match &self.segments[j] {
                            Segment::Capture(other) => {
                                let held = to_chars(other.as_str());
                                if same_chars(held.as_slice(), wanted.as_slice()) {
                                    assert(!named_otherwise(self@[j as int], wanted@));
                                    assert(!well_formed_segment(self@, i as int));
                                    return false;
                                }
                            },
                            Segment::Literal(_) => {},
                        }
                        j += 1;
                    }
                },
            }
            i += 1;
        }
        true
    }
}

/// Where the first segments do not match, the whole does not.
proof fn lemma_prefix_mismatch(pattern: Seq<SegmentView>, parts: Seq<Seq<char>>, k: int)
    requires
        0 <= k <= pattern.len() == parts.len(),
        match_segments(pattern.take(k), parts.take(k)) is None,
    ensures
        match_segments(pattern, parts) is None,
    decreases pattern.len() - k,
{
    if k == pattern.len() {
        assert(pattern.take(k) == pattern);
        assert(parts.take(k) == parts);
    } else {
        assert(pattern.drop_last().take(k) == pattern.take(k));
        assert(parts.drop_last().take(k) == parts.take(k));
        lemma_prefix_mismatch(pattern.drop_last(), parts.drop_last(), k);
    }
}

/// Matches a path against a pattern.
pub fn match_pattern(pattern: &RoutePattern, path: &str) -> (r: Option<Vec<Capture>>)
    ensures
        match match_path(pattern@, path@) {
            Some(expected) => r matches Some(captures) && capture_views(captures@) == expected,
            None => r is None,
        },
{
    let chars = to_chars(path);
    let parts = split_chars(chars.as_slice(), '/');
    let count = pattern.segments.len();
    proof {
        lemma_split_pieces(path@, '/');
    }
    if parts.len() - 1 != count || parts[0].len() != 0 {
        assert(views(parts@)[0] == parts@[0]@);
        return None;
    }
    assert(views(parts@)[0] == parts@[0]@);
    let ghost rest = split(path@, '/').skip(1);
    let mut captures: Vec<Capture> = Vec::new();
    let mut i: usize = 0;
    while i < count
        invariant
            i <= count == pattern.segments@.len(),
            parts.len() == count + 1,
            views(parts@) == split(path@, '/'),
            rest == split(path@, '/').skip(1),
            rest.len() == pattern@.len(),
            match_segments(pattern@.take(i as int), rest.take(i as int)) == Some(
                capture_views(captures@),
            ),
        decreases count - i,
    {
        let part = &parts[i + 1];
        assert(rest[i as int] == part@) by {
            assert(views(parts@)[i + 1] == parts@[i + 1]@);
        }
        assert(pattern@.take(i + 1).drop_last() == pattern@.take(i as int));
        assert(rest.take(i + 1).drop_last() == rest.take(i as int));
        assert(pattern@.take(i + 1).last() == pattern.segments@[i as int]@);
        assert(rest.take(i + 1).last() == part@);
        let ghost held = capture_views(captures@);
        match &pattern.segments[i] {
            Segment::Literal(text) => {
                let wanted = to_chars(text.as_str());
                if !same_chars(wanted.as_slice(), part.as_slice()) {
                    proof {
                        lemma_prefix_mismatch(pattern@, rest, i + 1);
                    }
                    return None;
                }
            },
            Segment::Capture(name) => {
                if part.len() == 0 {
                    proof {
                        lemma_prefix_mismatch(pattern@, rest, i + 1);
                    }
                    return None;
                }
                let raw = from_chars(part.as_slice());
                match percent_decode_utf8(raw.as_str()) {
                    Some(value) => {
                        captures.push(Capture { name: name.clone(), value });
                        assert(capture_views(captures@) == held.push(
                            CapturedView { name: name@, value: value@ },
                        ));
                    },
                    None => {
                        proof {
                            lemma_prefix_mismatch(pattern@, rest, i + 1);
                        }
                        return None;
                    },
                }
            },
        }
        i += 1;
    }
    assert(pattern@.take(count as int) == pattern@);
    assert(rest.take(count as int) == rest);
    Some(captures)
}

/// A version of the API. Versions are named by their dates, and a later
/// date is a later version.
#[derive(Clone, Copy, Debug, PartialEq, Eq, Structural)]
pub enum ApiVersion {
    V2018_06_28,
    V2019_01_30,
    V2019_10_22,
    V2019_11_05,
    V2020_07_07,
    V2021_12_07,
}

impl ApiVersion {
    /// The place of the version in the order of versions, from zero.
    pub open spec fn rank(self) -> nat {
        match self {
            ApiVersion::V2018_06_28 => 0,
            ApiVersion::V2019_01_30 => 1,
            ApiVersion::V2019_10_22 => 2,
            ApiVersion::V2019_11_05 => 3,
            ApiVersion::V2020_07_07 => 4,
            ApiVersion::V2021_12_07 => 5,
        }
    }

    /// The date that names the version.
    pub open spec fn name(self) -> Seq<char> {
        match self {
            ApiVersion::V2018_06_28 => "2018-06-28"@,
            ApiVersion::V2019_01_30 => "2019-01-30"@,
            ApiVersion::V2019_10_22 => "2019-10-22"@,
            ApiVersion::V2019_11_05 => "2019-11-05"@,
            ApiVersion::V2020_07_07 => "2020-07-07"@,
            ApiVersion::V2021_12_07 => "2021-12-07"@,
        }
    }

    /// `self` is `other` or a later version.
    pub open spec fn at_least(self, other: ApiVersion) -> bool {
        self.rank() >= other.rank()
    }

    /// The place of the version in the order of versions, from zero.
    pub fn ordinal(self) -> (r: u8)
        ensures
            r == self.rank(),
    {
        match self {
            ApiVersion::V2018_06_28 => 0,
            ApiVersion::V2019_01_30 => 1,
            ApiVersion::V2019_10_22 => 2,
            ApiVersion::V2019_11_05 => 3,
            ApiVersion::V2020_07_07 => 4,
            ApiVersion::V2021_12_07 => 5,
        }
    }

    /// The date that names the version.
    pub fn as_str(self) -> (r: &'static str)
        ensures
            r@ == self.name(),
    {
        match self {
            ApiVersion::V2018_06_28 => "2018-06-28",
            ApiVersion::V2019_01_30 => "2019-01-30",
            ApiVersion::V2019_10_22 => "2019-10-22",
            ApiVersion::V2019_11_05 => "2019-11-05",
            ApiVersion::V2020_07_07 => "2020-07-07",
            ApiVersion::V2021_12_07 => "2021-12-07",
        }
    }

    /// Whether `self` is `other` or a later version.
    pub fn is_at_least(self, other: ApiVersion) -> (r: bool)
        ensures
            r == self.at_least(other),
    {
        self.ordinal() >= other.ordinal()
    }

    /// The version that `text` names, if it names one.
    pub fn parse(text: &str) -> (r: Option<ApiVersion>)
        ensures
            r == version_named(text@),
    {
        let chars = to_chars(text);
        if names_version(chars.as_slice(), ApiVersion::V2018_06_28) {
            Some(ApiVersion::V2018_06_28)
        } else if names_version(chars.as_slice(), ApiVersion::V2019_01_30) {
            Some(ApiVersion::V2019_01_30)
        } else if names_version(chars.as_slice(), ApiVersion::V2019_10_22) {
            Some(ApiVersion::V2019_10_22)
        } else if names_version(chars.as_slice(), ApiVersion::V2019_11_05) {
            Some(ApiVersion::V2019_11_05)
        } else if names_version(chars.as_slice(), ApiVersion::V2020_07_07) {
            Some(ApiVersion::V2020_07_07)
        } else if names_version(chars.as_slice(), ApiVersion::V2021_12_07) {
            Some(ApiVersion::V2021_12_07)
        } else {
            None
        }
    }
}

/// Whether `text` is the name of `version`.
fn names_version(text: &[char], version: ApiVersion) -> (r: bool)
    ensures
        r == (text@ == version.name()),
{
    let name = to_chars(version.as_str());
    same_chars(text, name.as_slice())
}

/// The version that `text` names, if it names one.
pub open spec fn version_named(text: Seq<char>) -> Option<ApiVersion> {
    if text == ApiVersion::V2018_06_28.name() {
        Some(ApiVersion::V2018_06_28)
    } else if text == ApiVersion::V2019_01_30.name() {
        Some(ApiVersion::V2019_01_30)
    } else if text == ApiVersion::V2019_10_22.name() {
        Some(ApiVersion::V2019_10_22)
    } else if text == ApiVersion::V2019_11_05.name() {
        Some(ApiVersion::V2019_11_05)
    } else if text == ApiVersion::V2020_07_07.name() {
        Some(ApiVersion::V2020_07_07)
    } else if text == ApiVersion::V2021_12_07.name() {
        Some(ApiVersion::V2021_12_07)
    } else {
        None
    }
}

/// The order of versions is total: of two versions one is at least the
/// other, and two versions that are each at least the other are the same.
pub proof fn lemma_versions_totally_ordered(a: ApiVersion, b: ApiVersion, c: ApiVersion)
    ensures
        a.at_least(b) || b.at_least(a),
        a.at_least(b) && b.at_least(a) ==> a == b,
        a.at_least(b) && b.at_least(c) ==> a.at_least(c),
{
}

/// The versions that serve a route: `min` and every later one.
#[derive(Clone, Copy, Debug, PartialEq, Eq, Structural)]
pub struct ApiVersionRange {
    pub min: ApiVersion,
}

impl ApiVersionRange {
    /// `version` is in the range.
    pub open spec fn holds(self, version: ApiVersion) -> bool {
        version.at_least(self.min)
    }

    /// Whether `version` is in the range.
    pub fn contains(&self, version: ApiVersion) -> (r: bool)
        ensures
            r == self.holds(version),
    {
        version.is_at_least(self.min)
    }
}

/// What a route leads to.
#[derive(Clone, Copy, Debug, PartialEq, Eq, Structural)]
pub enum Handler {
    /// Issues the server certificate of a module.
    ServerCertificate,
    /// Lists the modules with their status.
    ListModules,
    /// Hands out the trust bundle.
    TrustBundle,
    /// Hands out the trust bundle for manifests.
    ManifestTrustBundle,
}

/// One line of a route table.
#[derive(Debug)]
pub struct RouteEntry {
    pub pattern: RoutePattern,
    pub versions: ApiVersionRange,
    pub handler: Handler,
}

/// What matching a request against one line of a route table gives. A line
/// that does not serve the version matches nothing.
pub open spec fn entry_match(entry: RouteEntry, path: Seq<char>, version: ApiVersion) -> Option<
    Seq<CapturedView>,
> {
    if entry.versions.holds(version) {
        match_path(entry.pattern@, path)
    } else {
        None
    }
}

/// The line of a route table that a request goes to.
#[derive(Debug)]
pub struct RouteMatch {
    pub index: usize,
    pub handler: Handler,
    pub captures: Vec<Capture>,
}

/// Finds the first line of `table` that serves `version` and matches `path`.
/// A request that no line matches is not found.
pub fn route(table: &[RouteEntry], path: &str, version: ApiVersion) -> (r: Option<RouteMatch>)
    ensures
        match r {
            Some(found) => {
                &&& found.index < table@.len()
                &&& found.handler == table@[found.index as int].handler
                &&& entry_match(table@[found.index as int], path@, version) == Some(
                    capture_views(found.captures@),
                )
                &&& forall|j: int|
                    0 <= j < found.index ==> entry_match(#[trigger] table@[j], path@, version)
                        is None
            },
            None => forall|j: int|
                0 <= j < table@.len() ==> entry_match(#[trigger] table@[j], path@, version)
                    is None,
        },
{
    let mut i: usize = 0;
    while i < table.len()
        invariant
            i <= table@.len(),
            forall|j: int| 0 <= j < i ==> entry_match(#[trigger] table@[j], path@, version) is None,
        decreases table@.len() - i,
    {
        let entry = &table[i];
        if entry.versions.contains(version) {
            match match_pattern(&entry.pattern, path) {
                Some(captures) => {
                    return Some(RouteMatch { index: i, handler: entry.handler, captures });
                },
                None => {},
            }
        }
        i += 1;
    }
    None
}

/// The pattern of the route that issues server certificates:
/// `/modules/{moduleId}/genid/{genId}/certificate/server`.
pub open spec fn server_certificate_pattern() -> Seq<SegmentView> {
    seq![
        SegmentView::Literal("modules"@),
        SegmentView::Capture("moduleId"@),
        SegmentView::Literal("genid"@),
        SegmentView::Capture("genId"@),
        SegmentView::Literal("certificate"@),
        SegmentView::Literal("server"@),
    ]
}

/// The pattern of a route of one literal segment.
pub open spec fn single_segment_pattern(text: Seq<char>) -> Seq<SegmentView> {
    seq![SegmentView::Literal(text)]
}

/// A pattern of one literal segment matches one path: the slash followed
/// by the segment.
pub proof fn lemma_single_segment_path(text: Seq<char>, path: Seq<char>)
    requires
        slash_free(text),
    ensures
        match_path(single_segment_pattern(text), path) is Some <==> path == seq!['/'] + text,
        match_path(single_segment_pattern(text), path) is Some ==> match_path(
            single_segment_pattern(text),
            path,
        ) == Some(Seq::<CapturedView>::empty()),
{
    let pattern = single_segment_pattern(text);
    let parts = split(path, '/');
    let nothing = Seq::<char>::empty();
    assert(pattern.drop_last() == Seq::<SegmentView>::empty());
    assert(match_segments(pattern.drop_last(), parts.skip(1).drop_last()) == Some(
        Seq::<CapturedView>::empty(),
    ));
    if match_path(pattern, path) is Some {
        assert(parts.len() == 2);
        assert(parts.skip(1).last() == parts[1]);
        assert(parts[1] == text);
        lemma_split_pair(path, '/');
        assert(parts[0] == nothing);
        assert(nothing + seq!['/'] + text == seq!['/'] + text);
    }
    if path == seq!['/'] + text {
        assert(!text.contains('/'));
        assert(!nothing.contains('/'));
        lemma_split_of_pair(nothing, text, '/');
        assert(nothing + seq!['/'] + text == seq!['/'] + text);
        assert(parts == seq![nothing, text]);
        assert(parts.skip(1).last() == text);
    }
}

/// The pattern of the route that issues server certificates.
pub fn server_certificate_route() -> (pattern: RoutePattern)
    ensures
        pattern@ == server_certificate_pattern(),
        well_formed_pattern(pattern@),
{
    let mut segments: Vec<Segment> = Vec::new();
    segments.push(Segment::Literal(String::from_str("modules")));
    segments.push(Segment::Capture(String::from_str("moduleId")));
    segments.push(Segment::Literal(String::from_str("genid")));
    segments.push(Segment::Capture(String::from_str("genId")));
    segments.push(Segment::Literal(String::from_str("certificate")));
    segments.push(Segment::Literal(String::from_str("server")));
    let pattern = RoutePattern { segments };
    assert(pattern@ == server_certificate_pattern());
    proof {
        lemma_server_certificate_pattern_well_formed();
    }
    pattern
}

/// The pattern of the server certificate route is well formed.
pub proof fn lemma_server_certificate_pattern_well_formed()
    ensures
        well_formed_pattern(server_certificate_pattern()),
{
    reveal_strlit("modules");
    reveal_strlit("moduleId");
    reveal_strlit("genid");
    reveal_strlit("genId");
    reveal_strlit("certificate");
    reveal_strlit("server");
    let pattern = server_certificate_pattern();
    assert("moduleId"@ != "genId"@) by {
        assert("moduleId"@.len() != "genId"@.len());
    }
    assert forall|i: int| 0 <= i < pattern.len() implies #[trigger] well_formed_segment(
        pattern,
        i,
    ) by {
        if i == 3 {
            assert forall|j: int| 0 <= j < i implies named_otherwise(
                #[trigger] pattern[j],
                "genId"@,
            ) by {}
        }
    }
}

/// The pattern that matches the path of one segment `/text`.
pub fn single_segment_route(text: &str) -> (pattern: RoutePattern)
    ensures
        pattern@ == single_segment_pattern(text@),
{
    let mut segments: Vec<Segment> = Vec::new();
    segments.push(Segment::Literal(String::from_str(text)));
    let pattern = RoutePattern { segments };
    assert(pattern@ == single_segment_pattern(text@));
    pattern
}

/// The route table of the workload API, as plain values: each pattern with
/// its handler. Every route is served from the first version on.
pub open spec fn workload_table() -> Seq<(Seq<SegmentView>, Handler)> {
    seq![
        (server_certificate_pattern(), Handler::ServerCertificate),
        (single_segment_pattern("modules"@), Handler::ListModules),
        (single_segment_pattern("trust-bundle"@), Handler::TrustBundle),
        (single_segment_pattern("manifest-trust-bundle"@), Handler::ManifestTrustBundle),
    ]
}

/// Every pattern of the route table of the workload API is well formed.
pub proof fn lemma_workload_table_well_formed()
    ensures
        forall|i: int|
            0 <= i < workload_table().len() ==> well_formed_pattern(
                (#[trigger] workload_table()[i]).0,
            ),
{
    reveal_strlit("modules");
    reveal_strlit("trust-bundle");
    reveal_strlit("manifest-trust-bundle");
    lemma_server_certificate_pattern_well_formed();
    assert(well_formed_segment(single_segment_pattern("modules"@), 0));
    assert(well_formed_segment(single_segment_pattern("trust-bundle"@), 0));
    assert(well_formed_segment(single_segment_pattern("manifest-trust-bundle"@), 0));
}

/// The route table of the workload API.
pub fn workload_routes() -> (table: Vec<RouteEntry>)
    ensures
        table@.len() == workload_table().len(),
        forall|i: int|
            0 <= i < table@.len() ==> {
                &&& (#[trigger] table@[i]).pattern@ == workload_table()[i].0
                &&& table@[i].handler == workload_table()[i].1
                &&& table@[i].versions.min == ApiVersion::V2018_06_28
            },
{
    let versions = ApiVersionRange { min: ApiVersion::V2018_06_28 };
    let mut table: Vec<RouteEntry> = Vec::new();
    table.push(
        RouteEntry {
            pattern: server_certificate_route(),
            versions,
            handler: Handler::ServerCertificate,
        },
    );
    table.push(
        RouteEntry {
            pattern: single_segment_route("modules"),
            versions,
            handler: Handler::ListModules,
        },
    );
    table.push(
        RouteEntry {
            pattern: single_segment_route("trust-bundle"),
            versions,
            handler: Handler::TrustBundle,
        },
    );
    table.push(
        RouteEntry {
            pattern: single_segment_route("manifest-trust-bundle"),
            versions,
            handler: Handler::ManifestTrustBundle,
        },
    );
    table
}

/// The handler that the workload API sends a path to: the server
/// certificate handler for a path of the certificate route's shape, and one
/// of the three others for its one path each.
pub open spec fn workload_handler(path: Seq<char>) -> Option<Handler> {
    if match_path(server_certificate_pattern(), path) is Some {
        Some(Handler::ServerCertificate)
    } else if path == "/modules"@ {
        Some(Handler::ListModules)
    } else if path == "/trust-bundle"@ {
        Some(Handler::TrustBundle)
    } else if path == "/manifest-trust-bundle"@ {
        Some(Handler::ManifestTrustBundle)
    } else {
        None
    }
}

/// The captures that the workload API takes from a path: the module and
/// the generation on the certificate route, none on the others.
pub open spec fn workload_captures(path: Seq<char>) -> Seq<CapturedView> {
    match match_path(server_certificate_pattern(), path) {
        Some(captures) => captures,
        None => Seq::empty(),
    }
}

/// Routes a request of the workload API. Every version of the API serves
/// every route, so the version makes no difference.
pub fn route_workload(path: &str, version: ApiVersion) -> (r: Option<RouteMatch>)
    ensures
        match workload_handler(path@) {
            Some(handler) => {
                &&& r matches Some(found)
                &&& found.handler == handler
                &&& capture_views(found.captures@) == workload_captures(path@)
            },
            None => r is None,
        },
{
    let table = workload_routes();
    let found = route(table.as_slice(), path, version);
    proof {
        reveal_strlit("modules");
        reveal_strlit("/modules");
        reveal_strlit("trust-bundle");
        reveal_strlit("/trust-bundle");
        reveal_strlit("manifest-trust-bundle");
        reveal_strlit("/manifest-trust-bundle");
        assert("/modules"@ == seq!['/'] + "modules"@);
        assert("/trust-bundle"@ == seq!['/'] + "trust-bundle"@);
        assert("/manifest-trust-bundle"@ == seq!['/'] + "manifest-trust-bundle"@);
        lemma_single_segment_path("modules"@, path@);
        lemma_single_segment_path("trust-bundle"@, path@);
        lemma_single_segment_path("manifest-trust-bundle"@, path@);
        let listed = workload_table();
        assert forall|i: int| 0 <= i < 4 implies #[trigger] entry_match(
            table@[i],
            path@,
            version,
        ) == match_path(listed[i].0, path@) by {
            assert(table@[i].pattern@ == listed[i].0);
            assert(table@[i].versions.holds(version));
        }
        if match_path(server_certificate_pattern(), path@) is Some {
            assert(entry_match(table@[0], path@, version) is Some);
        } else {
            assert(entry_match(table@[0], path@, version) is None);
            if path@ == "/modules"@ {
                assert(entry_match(table@[1], path@, version) is Some);
            } else {
                assert(entry_match(table@[1], path@, version) is None);
                if path@ == "/trust-bundle"@ {
                    assert(entry_match(table@[2], path@, version) is Some);
                } else {
                    assert(entry_match(table@[2], path@, version) is None);
                    if path@ == "/manifest-trust-bundle"@ {
                        assert(entry_match(table@[3], path@, version) is Some);
                    } else {
                        assert(entry_match(table@[3], path@, version) is None);
                    }
                }
            }
        }
    }
    found
}

} // verus!
