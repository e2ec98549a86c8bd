//! Identity of a container-image component, parsed from a single reference
//! string such as `ghcr.io/team/app:v2`.
//!
//! A reference carries a registry (defaulting to the public registry), an
//! optional namespace of one or more `/`-joined segments, a mandatory image
//! name and a tag (defaulting to `latest`).  The disambiguation rules are:
//! a trailing `:tag` is split off only when the text after the last `:`
//! contains no `/`; the head segment is a registry only when it contains a
//! `.` or a `:` or equals `localhost`.

use vstd::prelude::*;

verus! {

use crate::scan::{
    blank,
    chars_of,
    all_spacing,
    first_index_of,
    is_space,
    lacks,
    last_index_of,
    scan_first,
    scan_last,
};
use crate::scan::{lemma_first_index_of, lemma_last_index_of};
use vstd::string::StrSliceExecFns;
use vstd::string::StringExecFns;

/// Mathematical shape of a component identity: the four parts, as character
/// sequences.
pub struct ComponentIdView {
    pub registry: Seq<char>,
    pub namespace: Option<Seq<char>>,
    pub name: Seq<char>,
    pub tag: Seq<char>,
}

/// The registry assumed when the reference names none.
pub open spec fn default_registry() -> Seq<char> {
    "docker.io"@
}

/// The tag assumed when the reference names none.
pub open spec fn default_tag() -> Seq<char> {
    "latest"@
}

/// Whether a head segment is registry-shaped: it contains a `.` or a `:`,
/// or it is exactly `localhost`.
pub open spec fn registry_shaped(seg: Seq<char>) -> bool {
    first_index_of(seg, '.') >= 0 || first_index_of(seg, ':') >= 0 || seg == "localhost"@
}

/// Splits the reference part (tag already removed) into registry, namespace
/// and name.
pub open spec fn split_reference(rf: Seq<char>, tag: Seq<char>) -> ComponentIdView {
    let f = first_index_of(rf, '/');
    let l = last_index_of(rf, '/');
    if f < 0 {
        ComponentIdView { registry: default_registry(), namespace: None, name: rf, tag }
    } else if f == l {
        let head = rf.subrange(0, f);
        let rest = rf.subrange(f + 1, rf.len() as int);
        if registry_shaped(head) {
            ComponentIdView { registry: head, namespace: None, name: rest, tag }
        } else {
            ComponentIdView { registry: default_registry(), namespace: Some(head), name: rest, tag }
        }
    } else {
        let head = rf.subrange(0, f);
        let name = rf.subrange(l + 1, rf.len() as int);
        if registry_shaped(head) {
            ComponentIdView { registry: head, namespace: Some(rf.subrange(f + 1, l)), name, tag }
        } else {
            ComponentIdView {
                registry: default_registry(),
                namespace: Some(rf.subrange(0, l)),
                name,
                tag,
            }
        }
    }
}

/// Whether the string carries an explicit tag: it has a `:` and the text
/// after the last `:` contains no `/`.
pub open spec fn has_explicit_tag(s: Seq<char>) -> bool {
    last_index_of(s, ':') >= 0 && last_index_of(s, '/') < last_index_of(s, ':')
}

/// The string with any explicit tag removed.
pub open spec fn reference_part(s: Seq<char>) -> Seq<char> {
    if has_explicit_tag(s) {
        s.subrange(0, last_index_of(s, ':'))
    } else {
        s
    }
}

/// The explicit tag, or the default tag when there is none.
pub open spec fn tag_part(s: Seq<char>) -> Seq<char> {
    if has_explicit_tag(s) {
        s.subrange(last_index_of(s, ':') + 1, s.len() as int)
    } else {
        default_tag()
    }
}

/// The parse rules for a whole reference string: `None` is a format error.
pub open spec fn parse_ref(s: Seq<char>) -> Option<ComponentIdView> {
    if blank(s) {
        None
    } else {
        let c = split_reference(reference_part(s), tag_part(s));
        if c.name.len() == 0 {
            None
        } else {
            Some(c)
        }
    }
}

/// Canonical display form: `registry/namespace/name:tag`, the namespace
/// segment omitted when absent.
pub open spec fn canonical_seq(v: ComponentIdView) -> Seq<char> {
    match v.namespace {
        Some(ns) => v.registry + "/"@ + ns + "/"@ + v.name + ":"@ + v.tag,
        None => v.registry + "/"@ + v.name + ":"@ + v.tag,
    }
}

/// Identity of a component: a parsed container-image reference.
#[derive(Debug)]
pub struct ComponentId {
    registry: String,
    namespace: Option<String>,
    name: String,
    tag: String,
}

/// Failure to parse a reference string, carrying the offending input.
#[derive(Debug)]
pub enum ComponentIdError {
    InvalidFormat(String),
}

impl View for ComponentId {
    type V = ComponentIdView;

    closed spec fn view(&self) -> ComponentIdView {
        ComponentIdView {
            registry: self.registry@,
            namespace: match self.namespace {
                Some(ns) => Some(ns@),
                None => None,
            },
            name: self.name@,
            tag: self.tag@,
        }
    }
}

impl DeepView for ComponentId {
    type V = ComponentIdView;

    open spec fn deep_view(&self) -> ComponentIdView {
        self.view()
    }
}

impl Clone for ComponentId {
    fn clone(&self) -> (r: Self)
        ensures
            r == *self,
    {
        ComponentId {
            registry: self.registry.clone(),
            namespace: match &self.namespace {
                Some(ns) => Some(ns.clone()),
                None => None,
            },
            name: self.name.clone(),
            tag: self.tag.clone(),
        }
    }
}

impl PartialEq for ComponentId {
    fn eq(&self, other: &Self) -> (r: bool) {
        let ns_eq = match (self.namespace.as_ref(), other.namespace.as_ref()) {
            (Some(a), Some(b)) => a.eq(b),
            (None, None) => true,
            _ => false,
        };
        let r = self.registry == other.registry && ns_eq && self.name == other.name && self.tag
            == other.tag;
        proof {
            if r {
                assert(self@ == other@);
            } else {
                assert(self@ != other@);
            }
        }
        r
    }
}

impl vstd::std_specs::cmp::PartialEqSpecImpl for ComponentId {
    open spec fn obeys_eq_spec() -> bool {
        true
    }

    open spec fn eq_spec(&self, other: &Self) -> bool {
        self@ == other@
    }
}

impl ComponentId {
    /// The registry part of the identity.
    pub fn registry(&self) -> (r: &str)
        ensures
            r@ == self@.registry,
    {
        self.registry.as_str()
    }

    /// The namespace part, when the reference had one.
    pub fn namespace(&self) -> (r: Option<&String>)
        ensures
            match r {
                Some(ns) => self@.namespace == Some(ns@),
                None => self@.namespace is None,
            },
    {
        self.namespace.as_ref()
    }

    /// The image name.
    pub fn name(&self) -> (r: &str)
        ensures
            r@ == self@.name,
    {
        self.name.as_str()
    }

    /// The tag.
    pub fn tag(&self) -> (r: &str)
        ensures
            r@ == self@.tag,
    {
        self.tag.as_str()
    }

    /// Parses a reference string under the disambiguation rules above.
    /// Blank input, or input whose name part resolves to nothing, is a
    /// format error carrying the input itself.
    pub fn parse(s: &str) -> (r: Result<ComponentId, ComponentIdError>)
        ensures
            ({
                let p = parse_ref(s@);
                match r {
                    Ok(id) => p == Some(id@),
                    Err(e) => p is None && (e matches ComponentIdError::InvalidFormat(t) && t@
                        == s@),
                }
            }),
    {
        let v = chars_of(s);
        let n = v.len();
        if all_spacing(&v) {
            return Err(ComponentIdError::InvalidFormat(s.to_owned()));
        }
        proof {
            assert(v@.subrange(0, n as int) =~= s@);
        }
        let lc_opt = scan_last(&v, 0, n, ':');
        let ls_opt = scan_last(&v, 0, n, '/');
        let (explicit_tag, rf_end): (bool, usize) = match (lc_opt, ls_opt) {
            (Some(lc), Some(ls)) => if ls < lc {
                (true, lc)
            } else {
                (false, n)
            },
            (Some(lc), None) => (true, lc),
            _ => (false, n),
        };
        let ghost rf = if explicit_tag {
            s@.subrange(0, rf_end as int)
        } else {
            s@
        };
        proof {
            if !explicit_tag {
                assert(s@.subrange(0, rf_end as int) =~= s@);
            }
            assert(rf == v@.subrange(0, rf_end as int));
        }
        let tag: String = if explicit_tag {
            s.substring_char(rf_end + 1, n).to_owned()
        } else {
            default_tag_string()
        };
        let f_opt = scan_first(&v, 0, rf_end, '/');
        let l_opt = scan_last(&v, 0, rf_end, '/');
        let ghost expected = split_reference(rf, tag@);
        let id: ComponentId = match (f_opt, l_opt) {
            (None, _) | (_, None) => {
                // single segment: the whole reference is the image name
                proof {
                    crate::scan::lemma_first_index_of(rf, '/');
                    crate::scan::lemma_last_index_of(rf, '/');
                    if last_index_of(rf, '/') == -1 && first_index_of(rf, '/') >= 0 {
                        assert(rf[first_index_of(rf, '/')] == '/');
                        assert(false);
                    }
                    assert(first_index_of(rf, '/') < 0);
                }
                if rf_end == 0 {
                    return Err(ComponentIdError::InvalidFormat(s.to_owned()));
                }
                ComponentId {
                    registry: default_registry_string(),
                    namespace: None,
                    name: s.substring_char(0, rf_end).to_owned(),
                    tag,
                }
            },
            (Some(f), Some(l)) => {
                if f == l {
                    // head and name
                    if f + 1 == rf_end {
                        return Err(ComponentIdError::InvalidFormat(s.to_owned()));
                    }
                    let head = s.substring_char(0, f).to_owned();
                    proof {
                        assert(head@ =~= rf.subrange(0, f as int));
                        assert(v@.subrange(0, f as int) =~= rf.subrange(0, f as int));
                    }
                    let name = s.substring_char(f + 1, rf_end).to_owned();
                    proof {
                        assert(name@ =~= rf.subrange(f + 1, rf.len() as int));
                    }
                    if seg_is_registry(&v, 0, f) {
                        ComponentId { registry: head, namespace: None, name, tag }
                    } else {
                        ComponentId {
                            registry: default_registry_string(),
                            namespace: Some(head),
                            name,
                            tag,
                        }
                    }
                } else {
                    // head, middle namespace segments, and name
                    proof {
                        crate::scan::lemma_first_index_of(rf, '/');
                        crate::scan::lemma_last_index_of(rf, '/');
                        if l < f {
                            assert(rf[f as int] != '/');
                        }
                        assert(f < l);
                    }
                    if l + 1 == rf_end {
                        return Err(ComponentIdError::InvalidFormat(s.to_owned()));
                    }
                    let name = s.substring_char(l + 1, rf_end).to_owned();
                    proof {
                        assert(name@ =~= rf.subrange(l + 1, rf.len() as int));
                        assert(v@.subrange(0, f as int) =~= rf.subrange(0, f as int));
                    }
                    if seg_is_registry(&v, 0, f) {
                        let head = s.substring_char(0, f).to_owned();
                        let mid = s.substring_char(f + 1, l).to_owned();
                        proof {
                            assert(head@ =~= rf.subrange(0, f as int));
                            assert(mid@ =~= rf.subrange(f + 1, l as int));
                        }
                        ComponentId { registry: head, namespace: Some(mid), name, tag }
                    } else {
                        let all_but_last = s.substring_char(0, l).to_owned();
                        proof {
                            assert(all_but_last@ =~= rf.subrange(0, l as int));
                        }
                        ComponentId {
                            registry: default_registry_string(),
                            namespace: Some(all_but_last),
                            name,
                            tag,
                        }
                    }
                }
            },
        };
        Ok(id)
    }

    /// The canonical display form of this identity.
    pub fn canonical_string(&self) -> (r: String)
        ensures
            r@ == canonical_seq(self@),
    {
        let mut out = self.registry.clone();
        out.append("/");
        if let Some(ns) = &self.namespace {
            out.append(ns.as_str());
            out.append("/");
        }
        out.append(self.name.as_str());
        out.append(":");
        out.append(self.tag.as_str());
        proof {
            assert(out@ =~= canonical_seq(self@));
        }
        out
    }
}

impl core::str::FromStr for ComponentId {
    type Err = ComponentIdError;

    fn from_str(s: &str) -> Result<Self, Self::Err> {
        ComponentId::parse(s)
    }
}

/// Whether the reference spells out registry, namespace and tag explicitly:
/// it carries a trailing tag and at least three `/`-separated segments with
/// a registry-shaped head.
pub open spec fn fully_qualified(s: Seq<char>) -> bool {
    let rf = reference_part(s);
    let f = first_index_of(rf, '/');
    let l = last_index_of(rf, '/');
    has_explicit_tag(s) && f >= 0 && f != l && registry_shaped(rf.subrange(0, f))
}

/// Defaulting law: a reference whose reference part has no `/` gets the
/// default registry and no namespace; one whose head segment is not
/// registry-shaped gets the default registry; one without an explicit tag
/// gets the default tag.
pub proof fn lemma_parse_defaults(s: Seq<char>)
    ensures
        parse_ref(s) matches Some(v) ==> {
            let rf = reference_part(s);
            let f = first_index_of(rf, '/');
            &&& f < 0 ==> v.registry == default_registry() && v.namespace is None
            &&& f >= 0 && !registry_shaped(rf.subrange(0, f)) ==> v.registry == default_registry()
            &&& !has_explicit_tag(s) ==> v.tag == default_tag()
        },
{
}

/// Round-trip law: when a fully qualified reference parses, its canonical
/// display form is the input itself.
pub proof fn lemma_canonical_roundtrip(s: Seq<char>)
    requires
        fully_qualified(s),
    ensures
        parse_ref(s) matches Some(v) ==> canonical_seq(v) == s,
{
    let lc = last_index_of(s, ':');
    let rf = reference_part(s);
    let f = first_index_of(rf, '/');
    let l = last_index_of(rf, '/');
    crate::scan::lemma_last_index_of(s, ':');
    crate::scan::lemma_first_index_of(rf, '/');
    crate::scan::lemma_last_index_of(rf, '/');
    if l < f {
        assert(rf[f] != '/');
    }
    assert(f < l);
    reveal_strlit("/");
    reveal_strlit(":");
    match parse_ref(s) {
        Some(v) => {
            assert(canonical_seq(v) =~= s);
        },
        None => {},
    }
}

/// A canonical form parses back to the identity it displays, given the
/// shape facts every parsed identity has: a registry-shaped registry and a
/// non-empty name, no `/` in registry, name or tag, and no `:` in the tag.
proof fn lemma_canonical_parses(v: ComponentIdView)
    requires
        registry_shaped(v.registry),
        lacks(v.registry, '/'),
        v.name.len() > 0,
        lacks(v.name, '/'),
        lacks(v.tag, '/'),
        lacks(v.tag, ':'),
    ensures
        parse_ref(canonical_seq(v)) == Some(v),
{
    reveal_strlit("/");
    reveal_strlit(":");
    let s = canonical_seq(v);
    let rl = v.registry.len() as int;
    let nl = v.name.len() as int;
    let tl = v.tag.len() as int;
    assert("/"@.len() == 1 && "/"@[0] == '/');
    assert(":"@.len() == 1 && ":"@[0] == ':');
    // where the written separators stand, and which text fills the gaps
    let slash2 = match v.namespace {
        Some(ns) => rl + 1 + ns.len() as int,
        None => rl,
    };
    let colon = slash2 + 1 + nl;
    match v.namespace {
        Some(ns) => {
            assert(s.len() == colon + 1 + tl);
            assert(s[rl] == '/');
            assert(s[slash2] == '/');
            assert(s[colon] == ':');
            assert forall|i: int| 0 <= i < rl implies s[i] == v.registry[i] by {}
            assert forall|i: int| 0 <= i < ns.len() implies s[rl + 1 + i] == ns[i] by {}
            assert forall|i: int| 0 <= i < nl implies s[slash2 + 1 + i] == v.name[i] by {}
            assert forall|i: int| 0 <= i < tl implies s[colon + 1 + i] == v.tag[i] by {}
        },
        None => {
            assert(s.len() == colon + 1 + tl);
            assert(s[rl] == '/');
            assert(s[colon] == ':');
            assert forall|i: int| 0 <= i < rl implies s[i] == v.registry[i] by {}
            assert forall|i: int| 0 <= i < nl implies s[slash2 + 1 + i] == v.name[i] by {}
            assert forall|i: int| 0 <= i < tl implies s[colon + 1 + i] == v.tag[i] by {}
        },
    }
    // not blank: the first written separator is no spacing character
    if blank(s) {
        assert(is_space(s[rl]));
        assert(false);
    }
    // the last `:` is the written one: the tag holds none
    let lc = last_index_of(s, ':');
    lemma_last_index_of(s, ':');
    if lc < colon {
        assert(s[colon] != ':');
        assert(false);
    }
    if lc > colon {
        assert(s[lc] == ':');
        assert(s[lc] == v.tag[lc - (colon + 1)]);
        assert(false);
    }
    // the last `/` is the written one before the name: name and tag hold none
    let ls = last_index_of(s, '/');
    lemma_last_index_of(s, '/');
    if ls < slash2 {
        assert(s[slash2] != '/');
        assert(false);
    }
    if ls > slash2 {
        assert(s[ls] == '/');
        if ls < colon {
            assert(s[ls] == v.name[ls - (slash2 + 1)]);
        } else if ls > colon {
            assert(s[ls] == v.tag[ls - (colon + 1)]);
        }
        assert(false);
    }
    assert(has_explicit_tag(s));
    let rf = reference_part(s);
    assert(rf =~= s.subrange(0, colon));
    assert(tag_part(s) =~= v.tag);
    // within the reference part, the first `/` ends the registry and the
    // last `/` precedes the name
    let f = first_index_of(rf, '/');
    lemma_first_index_of(rf, '/');
    if f < 0 {
        assert(rf[rl] != '/');
        assert(false);
    }
    if f < rl {
        assert(rf[f] == v.registry[f]);
        assert(false);
    }
    if f > rl {
        assert(rf[rl] != '/');
        assert(false);
    }
    let l = last_index_of(rf, '/');
    lemma_last_index_of(rf, '/');
    if l < slash2 {
        assert(rf[slash2] != '/');
        assert(false);
    }
    if l > slash2 {
        assert(rf[l] == v.name[l - (slash2 + 1)]);
        assert(false);
    }
    let c = split_reference(rf, tag_part(s));
    match v.namespace {
        Some(ns) => {
            assert(f != l);
            assert(rf.subrange(0, f) =~= v.registry);
            assert(c.registry =~= v.registry);
            assert(rf.subrange(f + 1, l) =~= ns);
            assert(rf.subrange(l + 1, rf.len() as int) =~= v.name);
            match c.namespace {
                Some(x) => {
                    assert(x =~= ns);
                },
                None => {
                    assert(false);
                },
            }
        },
        None => {
            assert(f == l);
            assert(rf.subrange(0, f) =~= v.registry);
            assert(c.registry =~= v.registry);
            assert(rf.subrange(f + 1, rf.len() as int) =~= v.name);
            assert(c.namespace is None);
        },
    }
    assert(c.name =~= v.name);
    assert(c.tag =~= v.tag);
    assert(c == v);
}

/// Round-trip law, the other direction: any identity the parser produces
/// reparses from its canonical display form to the same identity, defaults
/// included.
pub proof fn lemma_canonical_reparses(s: Seq<char>)
    ensures
        parse_ref(s) matches Some(v) ==> parse_ref(canonical_seq(v)) == Some(v),
{
    match parse_ref(s) {
        Some(v) => {
            let rf = reference_part(s);
            let f = first_index_of(rf, '/');
            let l = last_index_of(rf, '/');
            lemma_last_index_of(s, ':');
            lemma_last_index_of(s, '/');
            lemma_first_index_of(rf, '/');
            lemma_last_index_of(rf, '/');
            // the tag never holds `:` or `/`: an explicit tag sits after
            // the last of either, and the default tag spells neither
            if has_explicit_tag(s) {
                let lc = last_index_of(s, ':');
                assert forall|i: int|
                    0 <= i < v.tag.len() implies v.tag[i] != ':' && v.tag[i] != '/' by {
                    assert(v.tag[i] == s[lc + 1 + i]);
                }
            } else {
                reveal_strlit("latest");
                assert("latest"@.len() == 6);
                assert forall|i: int|
                    0 <= i < v.tag.len() implies v.tag[i] != ':' && v.tag[i] != '/' by {
                    if i == 0 {
                        assert(v.tag[i] == 'l');
                    } else if i == 1 {
                        assert(v.tag[i] == 'a');
                    } else if i == 2 {
                        assert(v.tag[i] == 't');
                    } else if i == 3 {
                        assert(v.tag[i] == 'e');
                    } else if i == 4 {
                        assert(v.tag[i] == 's');
                    } else {
                        assert(v.tag[i] == 't');
                    }
                }
            }
            // the name sits after the last `/` of the reference part
            assert forall|i: int| 0 <= i < v.name.len() implies v.name[i] != '/' by {
                if f >= 0 {
                    assert(v.name[i] == rf[l + 1 + i]);
                } else {
                    assert(v.name[i] == rf[i]);
                }
            }
            // the registry is the head segment, or the default
            if f >= 0 && registry_shaped(rf.subrange(0, f)) {
                assert forall|i: int| 0 <= i < v.registry.len() implies v.registry[i] != '/' by {
                    assert(v.registry[i] == rf[i]);
                }
            } else {
                reveal_strlit("docker.io");
                assert("docker.io"@.len() == 9);
                lemma_first_index_of(default_registry(), '.');
                if first_index_of(default_registry(), '.') == -1 {
                    assert(default_registry()[6] != '.');
                    assert(false);
                }
                assert(registry_shaped(default_registry()));
                assert forall|i: int| 0 <= i < v.registry.len() implies v.registry[i] != '/' by {
                    if i == 0 {
                        assert(v.registry[i] == 'd');
                    } else if i == 1 {
                        assert(v.registry[i] == 'o');
                    } else if i == 2 {
                        assert(v.registry[i] == 'c');
                    } else if i == 3 {
                        assert(v.registry[i] == 'k');
                    } else if i == 4 {
                        assert(v.registry[i] == 'e');
                    } else if i == 5 {
                        assert(v.registry[i] == 'r');
                    } else if i == 6 {
                        assert(v.registry[i] == '.');
                    } else if i == 7 {
                        assert(v.registry[i] == 'i');
                    } else {
                        assert(v.registry[i] == 'o');
                    }
                }
            }
            lemma_canonical_parses(v);
        },
        None => {},
    }
}

/// The default registry, as an owned string.
fn default_registry_string() -> (r: String)
    ensures
        r@ == default_registry(),
{
    let r = "docker.io".to_owned();
    proof {
        reveal_strlit("docker.io");
        assert(r@ =~= default_registry());
    }
    r
}

/// The default tag, as an owned string.
fn default_tag_string() -> (r: String)
    ensures
        r@ == default_tag(),
{
    let r = "latest".to_owned();
    proof {
        reveal_strlit("latest");
        assert(r@ =~= default_tag());
    }
    r
}

/// Whether `v[lo..hi]` is a registry-shaped segment.
fn seg_is_registry(v: &Vec<char>, lo: usize, hi: usize) -> (r: bool)
    requires
        lo <= hi <= v@.len(),
    ensures
        r == registry_shaped(v@.subrange(lo as int, hi as int)),
{
    match scan_first(v, lo, hi, '.') {
        Some(_) => true,
        None => match scan_first(v, lo, hi, ':') {
            Some(_) => true,
            None => eq_localhost(v, lo, hi),
        },
    }
}

/// Whether `v[lo..hi]` spells exactly `localhost`.
fn eq_localhost(v: &Vec<char>, lo: usize, hi: usize) -> (r: bool)
    requires
        lo <= hi <= v@.len(),
    ensures
        r == (v@.subrange(lo as int, hi as int) == "localhost"@),
{
    proof {
        reveal_strlit("localhost");
        assert("localhost"@.len() == 9);
    }
    if hi - lo != 9 {
        return false;
    }
    let r = v[lo] == 'l' && v[lo + 1] == 'o' && v[lo + 2] == 'c' && v[lo + 3] == 'a' && v[lo + 4]
        == 'l' && v[lo + 5] == 'h' && v[lo + 6] == 'o' && v[lo + 7] == 's' && v[lo + 8] == 't';
    proof {
        let w = v@.subrange(lo as int, hi as int);
        if r {
            assert(w =~= "localhost"@);
        }
        if w == "localhost"@ {
            assert(v@[lo as int] == w[0]);
            assert(v@[lo + 1] == w[1]);
            assert(v@[lo + 2] == w[2]);
            assert(v@[lo + 3] == w[3]);
            assert(v@[lo + 4] == w[4]);
            assert(v@[lo + 5] == w[5]);
            assert(v@[lo + 6] == w[6]);
            assert(v@[lo + 7] == w[7]);
            assert(v@[lo + 8] == w[8]);
        }
    }
    r
}

} // verus!
