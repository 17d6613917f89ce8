//! Docker discovery and correlation.
//!
//! The container runtime's listing is one JSON object per line. Each line is
//! decoded independently against a small, flat JSON grammar — an object of
//! string keys whose values are strings or unnested scalars, with the
//! standard single-character escapes — and lines that do not fit the grammar
//! are silently skipped rather than aborting the whole listing. A service is
//! correlated to a container by the correlation label: it counts as running
//! iff some listed container's label string contains the exact substring
//! `|||name|||` and that container's reported state equals `running`.

use vstd::prelude::*;

use crate::service::{label_of, Service};
use crate::text::{chars_to_string, contains_sub, str_contains};

verus! {

/// One running container's fields, parsed from the runtime's listing.
/// Ephemeral: recomputed on every discovery call.
#[derive(Clone, Debug, PartialEq, Eq)]
pub struct DockerServiceEntry {
    pub id: String,
    pub image: String,
    pub names: String,
    pub labels: String,
    pub state: String,
}

/// Mathematical model of a `DockerServiceEntry`.
pub struct DockerServiceEntryView {
    pub id: Seq<char>,
    pub image: Seq<char>,
    pub names: Seq<char>,
    pub labels: Seq<char>,
    pub state: Seq<char>,
}

impl View for DockerServiceEntry {
    type V = DockerServiceEntryView;

    open spec fn view(&self) -> DockerServiceEntryView {
        DockerServiceEntryView {
            id: self.id@,
            image: self.image@,
            names: self.names@,
            labels: self.labels@,
            state: self.state@,
        }
    }
}

/// JSON whitespace.
pub open spec fn json_ws(c: char) -> bool {
    c == ' ' || c == '\t' || c == '\n' || c == '\r'
}

/// A character that may appear in an unquoted scalar (a number, `true`,
/// `false`, `null`): anything that does not end, quote or nest a value.
pub open spec fn scalar_char(c: char) -> bool {
    !json_ws(c) && c != ',' && c != '}' && c != '"' && c != '{' && c != '[' && c != ']' && c
        != ':'
}

/// The first position at or after `i` holding a non-whitespace character,
/// capped at the end of the text.
pub open spec fn skip_ws(s: Seq<char>, i: int) -> int
    decreases s.len() - i
        when 0 <= i
{
    if i < s.len() && json_ws(s[i]) {
        skip_ws(s, i + 1)
    } else {
        i
    }
}

/// The first position at or after `i` that cannot continue a scalar.
pub open spec fn skip_scalar(s: Seq<char>, i: int) -> int
    decreases s.len() - i
        when 0 <= i
{
    if i < s.len() && scalar_char(s[i]) {
        skip_scalar(s, i + 1)
    } else {
        i
    }
}

/// The character denoted by a backslash escape, if the escape is one the
/// grammar accepts.
pub open spec fn unescape_char(c: char) -> Option<char> {
    if c == '"' {
        Option::Some('"')
    } else if c == '\\' {
        Option::Some('\\')
    } else if c == '/' {
        Option::Some('/')
    } else if c == 'b' {
        Option::Some('\u{8}')
    } else if c == 'f' {
        Option::Some('\u{c}')
    } else if c == 'n' {
        Option::Some('\n')
    } else if c == 'r' {
        Option::Some('\r')
    } else if c == 't' {
        Option::Some('\t')
    } else {
        Option::None
    }
}

/// Parses a quoted string's body starting just after the opening quote:
/// yields the unescaped content and the position just after the closing
/// quote, or nothing if the text up to the end never closes the string or
/// uses an escape outside the grammar.
pub open spec fn parse_str_body(s: Seq<char>, i: int) -> Option<(Seq<char>, int)>
    decreases s.len() - i
        when 0 <= i
{
    if i >= s.len() {
        Option::None
    } else if s[i] == '"' {
        Option::Some((Seq::empty(), i + 1))
    } else if s[i] == '\\' {
        if i + 1 < s.len() {
            match unescape_char(s[i + 1]) {
                Option::Some(c) => match parse_str_body(s, i + 2) {
                    Option::Some(r) => Option::Some((seq![c] + r.0, r.1)),
                    Option::None => Option::None,
                },
                Option::None => Option::None,
            }
        } else {
            Option::None
        }
    } else {
        match parse_str_body(s, i + 1) {
            Option::Some(r) => Option::Some((seq![s[i]] + r.0, r.1)),
            Option::None => Option::None,
        }
    }
}

/// A member's value: a string with its unescaped content, or a scalar the
/// listing's consumers ignore.
pub enum JsonValView {
    Str(Seq<char>),
    Other,
}

/// Parses one value at `i`: a quoted string or an unquoted scalar.
pub open spec fn parse_value(s: Seq<char>, i: int) -> Option<(JsonValView, int)> {
    if i >= s.len() {
        Option::None
    } else if s[i] == '"' {
        match parse_str_body(s, i + 1) {
            Option::Some(r) => Option::Some((JsonValView::Str(r.0), r.1)),
            Option::None => Option::None,
        }
    } else if scalar_char(s[i]) {
        Option::Some((JsonValView::Other, skip_scalar(s, i + 1)))
    } else {
        Option::None
    }
}

/// `skip_ws` never moves backwards nor past the end.
pub proof fn lemma_skip_ws_bounds(s: Seq<char>, i: int)
    requires
        0 <= i <= s.len(),
    ensures
        i <= skip_ws(s, i) <= s.len(),
    decreases s.len() - i,
{
    if i < s.len() && json_ws(s[i]) {
        lemma_skip_ws_bounds(s, i + 1);
    }
}

/// `skip_scalar` never moves backwards nor past the end.
pub proof fn lemma_skip_scalar_bounds(s: Seq<char>, i: int)
    requires
        0 <= i <= s.len(),
    ensures
        i <= skip_scalar(s, i) <= s.len(),
    decreases s.len() - i,
{
    if i < s.len() && scalar_char(s[i]) {
        lemma_skip_scalar_bounds(s, i + 1);
    }
}

/// A parsed string body always advances and stays inside the text.
pub proof fn lemma_str_body_bounds(s: Seq<char>, i: int)
    requires
        0 <= i <= s.len(),
    ensures
        parse_str_body(s, i) matches Option::Some(r) ==> i < r.1 <= s.len(),
    decreases s.len() - i,
{
    if i < s.len() {
        if s[i] == '\\' {
            if i + 2 <= s.len() {
                lemma_str_body_bounds(s, i + 2);
            }
        } else if s[i] != '"' {
            lemma_str_body_bounds(s, i + 1);
        }
    }
}

/// A parsed value always advances and stays inside the text.
pub proof fn lemma_value_bounds(s: Seq<char>, i: int)
    requires
        0 <= i <= s.len(),
    ensures
        parse_value(s, i) matches Option::Some(r) ==> i < r.1 <= s.len(),
{
    if i < s.len() {
        if s[i] == '"' {
            lemma_str_body_bounds(s, i + 1);
        } else if scalar_char(s[i]) {
            lemma_skip_scalar_bounds(s, i + 1);
        }
    }
}

/// The listing's required fields, each present once its key has been seen.
pub struct PartialEntryView {
    pub id: Option<Seq<char>>,
    pub image: Option<Seq<char>>,
    pub names: Option<Seq<char>>,
    pub labels: Option<Seq<char>>,
    pub state: Option<Seq<char>>,
}

/// No field seen yet.
pub open spec fn empty_partial() -> PartialEntryView {
    PartialEntryView {
        id: Option::None,
        image: Option::None,
        names: Option::None,
        labels: Option::None,
        state: Option::None,
    }
}

/// Records one member into the partial entry: a required key must hold a
/// string (a later occurrence overwrites an earlier one), any other key is
/// ignored whatever its value.
pub open spec fn set_field_spec(
    p: PartialEntryView,
    key: Seq<char>,
    val: JsonValView,
) -> Option<PartialEntryView> {
    if key == "ID"@ {
        match val {
            JsonValView::Str(v) => Option::Some(PartialEntryView { id: Option::Some(v), ..p }),
            JsonValView::Other => Option::None,
        }
    } else if key == "Image"@ {
        match val {
            JsonValView::Str(v) => Option::Some(PartialEntryView { image: Option::Some(v), ..p }),
            JsonValView::Other => Option::None,
        }
    } else if key == "Names"@ {
        match val {
            JsonValView::Str(v) => Option::Some(PartialEntryView { names: Option::Some(v), ..p }),
            JsonValView::Other => Option::None,
        }
    } else if key == "Labels"@ {
        match val {
            JsonValView::Str(v) => Option::Some(PartialEntryView { labels: Option::Some(v), ..p }),
            JsonValView::Other => Option::None,
        }
    } else if key == "State"@ {
        match val {
            JsonValView::Str(v) => Option::Some(PartialEntryView { state: Option::Some(v), ..p }),
            JsonValView::Other => Option::None,
        }
    } else {
        Option::Some(p)
    }
}

/// Parses the members of an object from just after its opening brace (or a
/// separating comma): one `"key": value` pair after another, ending at the
/// closing brace. Yields the accumulated fields and the position just after
/// the closing brace.
pub open spec fn parse_members(s: Seq<char>, i: int, p: PartialEntryView) -> Option<
    (PartialEntryView, int),
>
    decreases s.len() - i
        when 0 <= i <= s.len()
{
    let i0 = skip_ws(s, i);
    if i0 >= s.len() || s[i0] != '"' {
        Option::None
    } else {
        match parse_str_body(s, i0 + 1) {
            Option::None => Option::None,
            Option::Some(kj) => {
                let j1 = skip_ws(s, kj.1);
                if j1 >= s.len() || s[j1] != ':' {
                    Option::None
                } else {
                    let j2 = skip_ws(s, j1 + 1);
                    match parse_value(s, j2) {
                        Option::None => Option::None,
                        Option::Some(vk) => match set_field_spec(p, kj.0, vk.0) {
                            Option::None => Option::None,
                            Option::Some(p2) => {
                                let k1 = skip_ws(s, vk.1);
                                if k1 < s.len() && s[k1] == ',' {
                                    proof {
                                        lemma_skip_ws_bounds(s, i);
                                        lemma_str_body_bounds(s, i0 + 1);
                                        lemma_skip_ws_bounds(s, kj.1);
                                        lemma_skip_ws_bounds(s, j1 + 1);
                                        lemma_value_bounds(s, j2);
                                        lemma_skip_ws_bounds(s, vk.1);
                                    }
                                    parse_members(s, k1 + 1, p2)
                                } else if k1 < s.len() && s[k1] == '}' {
                                    Option::Some((p2, k1 + 1))
                                } else {
                                    Option::None
                                }
                            },
                        },
                    }
                }
            },
        }
    }
}

/// The entry, if every required field was seen.
pub open spec fn complete_entry(p: PartialEntryView) -> Option<DockerServiceEntryView> {
    match (p.id, p.image, p.names, p.labels, p.state) {
        (
            Option::Some(id),
            Option::Some(image),
            Option::Some(names),
            Option::Some(labels),
            Option::Some(state),
        ) => Option::Some(
            DockerServiceEntryView { id, image, names, labels, state },
        ),
        _ => Option::None,
    }
}

/// Decodes one line of the listing: a single JSON object, surrounded by
/// nothing but whitespace, holding a string for each required field. Yields
/// nothing for any line outside the grammar.
pub open spec fn parse_line_spec(s: Seq<char>) -> Option<DockerServiceEntryView> {
    let i = skip_ws(s, 0);
    if i >= s.len() || s[i] != '{' {
        Option::None
    } else {
        match parse_members(s, i + 1, empty_partial()) {
            Option::None => Option::None,
            Option::Some(pk) => {
                let k1 = skip_ws(s, pk.1);
                if k1 == s.len() {
                    complete_entry(pk.0)
                } else {
                    Option::None
                }
            },
        }
    }
}

/// The position of the first newline at or after `i`, capped at the end.
pub open spec fn find_newline(s: Seq<char>, i: int) -> int
    decreases s.len() - i
        when 0 <= i
{
    if i < s.len() && s[i] != '\n' {
        find_newline(s, i + 1)
    } else {
        i
    }
}

/// `find_newline` never moves backwards nor past the end.
pub proof fn lemma_find_newline_bounds(s: Seq<char>, i: int)
    requires
        0 <= i <= s.len(),
    ensures
        i <= find_newline(s, i) <= s.len(),
    decreases s.len() - i,
{
    if i < s.len() && s[i] != '\n' {
        lemma_find_newline_bounds(s, i + 1);
    }
}

/// Decodes a whole listing: the text split at newlines, each line decoded
/// independently, lines outside the grammar skipped.
pub open spec fn parse_lines_spec(s: Seq<char>) -> Seq<DockerServiceEntryView>
    decreases s.len(),
{
    if s.len() == 0 {
        Seq::empty()
    } else {
        let k = find_newline(s, 0);
        let head = match parse_line_spec(s.subrange(0, k)) {
            Option::Some(e) => seq![e],
            Option::None => Seq::empty(),
        };
        if k < s.len() {
            proof {
                lemma_find_newline_bounds(s, 0);
            }
            head + parse_lines_spec(s.subrange(k + 1, s.len() as int))
        } else {
            head
        }
    }
}

/// Advances past whitespace, mirroring `skip_ws`.
fn skip_ws_x(s: &str, i: usize) -> (r: usize)
    requires
        i <= s@.len(),
    ensures
        r as int == skip_ws(s@, i as int),
        i <= r <= s@.len(),
{
    let len = s.unicode_len();
    let mut r = i;
    while r < len && ws_char_x(s.get_char(r))
        invariant
            i <= r <= len,
            len == s@.len(),
            skip_ws(s@, i as int) == skip_ws(s@, r as int),
        decreases len - r,
    {
        r += 1;
    }
    r
}

/// Whether the character is JSON whitespace, mirroring `json_ws`.
fn ws_char_x(c: char) -> (r: bool)
    ensures
        r == json_ws(c),
{
    c == ' ' || c == '\t' || c == '\n' || c == '\r'
}

/// Advances past scalar characters, mirroring `skip_scalar`.
fn skip_scalar_x(s: &str, i: usize) -> (r: usize)
    requires
        i <= s@.len(),
    ensures
        r as int == skip_scalar(s@, i as int),
        i <= r <= s@.len(),
{
    let len = s.unicode_len();
    let mut r = i;
    while r < len && scalar_char_x(s.get_char(r))
        invariant
            i <= r <= len,
            len == s@.len(),
            skip_scalar(s@, i as int) == skip_scalar(s@, r as int),
        decreases len - r,
    {
        r += 1;
    }
    r
}

/// Whether the character may continue a scalar, mirroring `scalar_char`.
fn scalar_char_x(c: char) -> (r: bool)
    ensures
        r == scalar_char(c),
{
    c != ' ' && c != '\t' && c != '\n' && c != '\r' && c != ',' && c != '}' && c != '"' && c
        != '{' && c != '[' && c != ']' && c != ':'
}

/// Resolves one backslash escape, mirroring `unescape_char`.
fn unescape_char_x(c: char) -> (r: Option<char>)
    ensures
        r == unescape_char(c),
{
    if c == '"' {
        Option::Some('"')
    } else if c == '\\' {
        Option::Some('\\')
    } else if c == '/' {
        Option::Some('/')
    } else if c == 'b' {
        Option::Some('\u{8}')
    } else if c == 'f' {
        Option::Some('\u{c}')
    } else if c == 'n' {
        Option::Some('\n')
    } else if c == 'r' {
        Option::Some('\r')
    } else if c == 't' {
        Option::Some('\t')
    } else {
        Option::None
    }
}

/// Decodes a quoted string's body, mirroring `parse_str_body`.
fn parse_str_body_x(s: &str, i: usize) -> (r: Option<(Vec<char>, usize)>)
    requires
        i <= s@.len(),
    ensures
        r is None ==> parse_str_body(s@, i as int) is None,
        r matches Option::Some(p) ==> parse_str_body(s@, i as int) == Option::Some(
            (p.0@, p.1 as int),
        ) && i < p.1 <= s@.len(),
    decreases s@.len() - i,
{
    let len = s.unicode_len();
    if i >= len {
        return Option::None;
    }
    let c = s.get_char(i);
    if c == '"' {
        let out: Vec<char> = Vec::new();
        assert(out@ =~= Seq::<char>::empty());
        Option::Some((out, i + 1))
    } else if c == '\\' {
        if i + 1 < len {
            match unescape_char_x(s.get_char(i + 1)) {
                Option::Some(u) => match parse_str_body_x(s, i + 2) {
                    Option::Some((v, j)) => {
                        let mut out = v;
                        out.insert(0, u);
                        proof {
                            assert(out@ =~= seq![u] + out@.subrange(1, out@.len() as int));
                        }
                        Option::Some((out, j))
                    },
                    Option::None => Option::None,
                },
                Option::None => Option::None,
            }
        } else {
            Option::None
        }
    } else {
        match parse_str_body_x(s, i + 1) {
            Option::Some((v, j)) => {
                let mut out = v;
                out.insert(0, c);
                proof {
                    assert(out@ =~= seq![c] + out@.subrange(1, out@.len() as int));
                }
                Option::Some((out, j))
            },
            Option::None => Option::None,
        }
    }
}

/// A decoded member value.
pub enum JsonScalar {
    Str(Vec<char>),
    Other,
}

impl View for JsonScalar {
    type V = JsonValView;

    open spec fn view(&self) -> JsonValView {
        match self {
            JsonScalar::Str(v) => JsonValView::Str(v@),
            JsonScalar::Other => JsonValView::Other,
        }
    }
}

/// Decodes one value, mirroring `parse_value`.
fn parse_value_x(s: &str, i: usize) -> (r: Option<(JsonScalar, usize)>)
    requires
        i <= s@.len(),
    ensures
        r is None ==> parse_value(s@, i as int) is None,
        r matches Option::Some(p) ==> parse_value(s@, i as int) == Option::Some(
            (p.0@, p.1 as int),
        ) && i < p.1 <= s@.len(),
{
    let len = s.unicode_len();
    if i >= len {
        return Option::None;
    }
    let c = s.get_char(i);
    if c == '"' {
        match parse_str_body_x(s, i + 1) {
            Option::Some((v, j)) => Option::Some((JsonScalar::Str(v), j)),
            Option::None => Option::None,
        }
    } else if scalar_char_x(c) {
        let j = skip_scalar_x(s, i + 1);
        Option::Some((JsonScalar::Other, j))
    } else {
        Option::None
    }
}

/// Whether the collected characters spell exactly the given text.
fn chars_eq_str(v: &Vec<char>, s: &str) -> (r: bool)
    ensures
        r == (v@ == s@),
{
    let n = s.unicode_len();
    if v.len() != n {
        return false;
    }
    let mut i: usize = 0;
    while i < n
        invariant
            v@.len() == n,
            n == s@.len(),
            i <= n,
            forall|j: int| 0 <= j < i ==> v@[j] == s@[j],
        decreases n - i,
    {
        if v[i] != s.get_char(i) {
            return false;
        }
        i += 1;
    }
    proof {
        assert(v@ =~= s@);
    }
    true
}

/// The listing's required fields while an object is being decoded.
pub struct PartialEntry {
    pub id: Option<String>,
    pub image: Option<String>,
    pub names: Option<String>,
    pub labels: Option<String>,
    pub state: Option<String>,
}

impl View for PartialEntry {
    type V = PartialEntryView;

    open spec fn view(&self) -> PartialEntryView {
        PartialEntryView {
            id: match self.id {
                Option::Some(v) => Option::Some(v@),
                Option::None => Option::None,
            },
            image: match self.image {
                Option::Some(v) => Option::Some(v@),
                Option::None => Option::None,
            },
            names: match self.names {
                Option::Some(v) => Option::Some(v@),
                Option::None => Option::None,
            },
            labels: match self.labels {
                Option::Some(v) => Option::Some(v@),
                Option::None => Option::None,
            },
            state: match self.state {
                Option::Some(v) => Option::Some(v@),
                Option::None => Option::None,
            },
        }
    }
}

impl PartialEntry {
    /// No field seen yet.
    fn empty() -> (r: Self)
        ensures
            r@ == empty_partial(),
    {
        PartialEntry {
            id: Option::None,
            image: Option::None,
            names: Option::None,
            labels: Option::None,
            state: Option::None,
        }
    }
}

/// Records one member, mirroring `set_field_spec`.
fn set_field_x(p: PartialEntry, key: &Vec<char>, val: JsonScalar) -> (r: Option<PartialEntry>)
    ensures
        r is None ==> set_field_spec(p@, key@, val@) is None,
        r matches Option::Some(q) ==> set_field_spec(p@, key@, val@) == Option::Some(q@),
{
    if chars_eq_str(key, "ID") {
        match val {
            JsonScalar::Str(v) => Option::Some(
                PartialEntry { id: Option::Some(chars_to_string(v)), ..p },
            ),
            JsonScalar::Other => Option::None,
        }
    } else if chars_eq_str(key, "Image") {
        match val {
            JsonScalar::Str(v) => Option::Some(
                PartialEntry { image: Option::Some(chars_to_string(v)), ..p },
            ),
            JsonScalar::Other => Option::None,
        }
    } else if chars_eq_str(key, "Names") {
        match val {
            JsonScalar::Str(v) => Option::Some(
                PartialEntry { names: Option::Some(chars_to_string(v)), ..p },
            ),
            JsonScalar::Other => Option::None,
        }
    } else if chars_eq_str(key, "Labels") {
        match val {
            JsonScalar::Str(v) => Option::Some(
                PartialEntry { labels: Option::Some(chars_to_string(v)), ..p },
            ),
            JsonScalar::Other => Option::None,
        }
    } else if chars_eq_str(key, "State") {
        match val {
            JsonScalar::Str(v) => Option::Some(
                PartialEntry { state: Option::Some(chars_to_string(v)), ..p },
            ),
            JsonScalar::Other => Option::None,
        }
    } else {
        Option::Some(p)
    }
}

/// Decodes an object's members, mirroring `parse_members`.
fn parse_members_x(s: &str, i: usize, p: PartialEntry) -> (r: Option<(PartialEntry, usize)>)
    requires
        i <= s@.len(),
    ensures
        r is None ==> parse_members(s@, i as int, p@) is None,
        r matches Option::Some(q) ==> parse_members(s@, i as int, p@) == Option::Some(
            (q.0@, q.1 as int),
        ) && q.1 <= s@.len(),
    decreases s@.len() - i,
{
    let len = s.unicode_len();
    let i0 = skip_ws_x(s, i);
    if i0 >= len || s.get_char(i0) != '"' {
        return Option::None;
    }
    let (key, kpos) = match parse_str_body_x(s, i0 + 1) {
        Option::Some(kj) => kj,
        Option::None => {
            return Option::None;
        },
    };
    let j1 = skip_ws_x(s, kpos);
    if j1 >= len || s.get_char(j1) != ':' {
        return Option::None;
    }
    let j2 = skip_ws_x(s, j1 + 1);
    let (val, vpos) = match parse_value_x(s, j2) {
        Option::Some(vk) => vk,
        Option::None => {
            return Option::None;
        },
    };
    let p2 = match set_field_x(p, &key, val) {
        Option::Some(q) => q,
        Option::None => {
            return Option::None;
        },
    };
    let k1 = skip_ws_x(s, vpos);
    if k1 < len && s.get_char(k1) == ',' {
        parse_members_x(s, k1 + 1, p2)
    } else if k1 < len && s.get_char(k1) == '}' {
        Option::Some((p2, k1 + 1))
    } else {
        Option::None
    }
}

/// The entry, if every required field was seen; mirrors `complete_entry`.
fn complete_entry_x(p: PartialEntry) -> (r: Option<DockerServiceEntry>)
    ensures
        r is None ==> complete_entry(p@) is None,
        r matches Option::Some(e) ==> complete_entry(p@) == Option::Some(e@),
{
    match (p.id, p.image, p.names, p.labels, p.state) {
        (
            Option::Some(id),
            Option::Some(image),
            Option::Some(names),
            Option::Some(labels),
            Option::Some(state),
        ) => Option::Some(DockerServiceEntry { id, image, names, labels, state }),
        _ => Option::None,
    }
}

/// Decodes one line of the container listing.
pub fn parse_line(s: &str) -> (r: Option<DockerServiceEntry>)
    ensures
        r is None ==> parse_line_spec(s@) is None,
        r matches Option::Some(e) ==> parse_line_spec(s@) == Option::Some(e@),
{
    let len = s.unicode_len();
    let i = skip_ws_x(s, 0);
    if i >= len || s.get_char(i) != '{' {
        return Option::None;
    }
    let (fields, end) = match parse_members_x(s, i + 1, PartialEntry::empty()) {
        Option::Some(pk) => pk,
        Option::None => {
            return Option::None;
        },
    };
    let k1 = skip_ws_x(s, end);
    if k1 != len {
        return Option::None;
    }
    complete_entry_x(fields)
}

/// Advances to the next newline, mirroring `find_newline`.
fn find_newline_x(s: &str, i: usize) -> (r: usize)
    requires
        i <= s@.len(),
    ensures
        r as int == find_newline(s@, i as int),
        i <= r <= s@.len(),
{
    let len = s.unicode_len();
    let mut r = i;
    while r < len && s.get_char(r) != '\n'
        invariant
            i <= r <= len,
            len == s@.len(),
            find_newline(s@, i as int) == find_newline(s@, r as int),
        decreases len - r,
    {
        r += 1;
    }
    r
}

/// Decodes a whole container listing, one JSON object per line, skipping
/// empty and malformed lines.
pub fn parse_container_list(s: &str) -> (r: Vec<DockerServiceEntry>)
    ensures
        r@.map_values(|e: DockerServiceEntry| e@) == parse_lines_spec(s@),
{
    let mut acc: Vec<DockerServiceEntry> = Vec::new();
    let mut rest: &str = s;
    proof {
        assert(acc@.map_values(|e: DockerServiceEntry| e@) + parse_lines_spec(rest@) =~= parse_lines_spec(
            s@,
        ));
    }
    loop
        invariant_except_break
            acc@.map_values(|e: DockerServiceEntry| e@) + parse_lines_spec(rest@)
                == parse_lines_spec(s@),
        ensures
            acc@.map_values(|e: DockerServiceEntry| e@) == parse_lines_spec(s@),
        decreases rest@.len(),
    {
        let len = rest.unicode_len();
        if len == 0 {
            proof {
                assert(acc@.map_values(|e: DockerServiceEntry| e@) + parse_lines_spec(rest@)
                    =~= acc@.map_values(|e: DockerServiceEntry| e@));
            }
            break;
        }
        let ghost prev = acc@.map_values(|e: DockerServiceEntry| e@);
        let ghost prev_rest = rest@;
        let k = find_newline_x(rest, 0);
        let line = rest.substring_char(0, k);
        let ghost head = match parse_line_spec(line@) {
            Option::Some(e) => seq![e],
            Option::None => Seq::<DockerServiceEntryView>::empty(),
        };
        match parse_line(line) {
            Option::Some(e) => {
                acc.push(e);
                proof {
                    assert(acc@.map_values(|x: DockerServiceEntry| x@) =~= prev + head);
                }
            },
            Option::None => {
                proof {
                    assert(acc@.map_values(|x: DockerServiceEntry| x@) =~= prev + head);
                }
            },
        }
        if k < len {
            rest = rest.substring_char(k + 1, len);
            proof {
                assert(parse_lines_spec(prev_rest) == head + parse_lines_spec(rest@));
                assert((prev + head) + parse_lines_spec(rest@) =~= prev + (head + parse_lines_spec(
                    rest@,
                )));
            }
        } else {
            proof {
                assert(parse_lines_spec(prev_rest) =~= head);
                assert(acc@.map_values(|x: DockerServiceEntry| x@) =~= prev + parse_lines_spec(
                    prev_rest,
                ));
            }
            break;
        }
    }
    acc
}

/// A container counts for a service iff its label string contains the
/// service's correlation label and its reported state is `running`.
pub open spec fn running_entry(name: Seq<char>, e: DockerServiceEntryView) -> bool {
    contains_sub(e.labels, label_of(name)) && e.state == "running"@
}

/// A service is running iff some listed container counts for it.
pub open spec fn is_running_spec(name: Seq<char>, list: Seq<DockerServiceEntryView>) -> bool {
    exists|i: int| 0 <= i < list.len() && running_entry(name, #[trigger] list[i])
}

/// An empty container listing never counts as running, whatever the service.
pub proof fn lemma_is_running_empty(name: Seq<char>)
    ensures
        !is_running_spec(name, Seq::<DockerServiceEntryView>::empty()),
{
}

impl Service {
    /// Correlates this service against a container listing: true iff some
    /// entry's label string contains the correlation label and that entry's
    /// state equals `running`.
    pub fn is_running(&self, services: &Vec<DockerServiceEntry>) -> (r: bool)
        ensures
            r == is_running_spec(
                self@.name,
                services@.map_values(|e: DockerServiceEntry| e@),
            ),
    {
        let label = self.label_name();
        let running_word = String::from_str("running");
        let ghost list = services@.map_values(|e: DockerServiceEntry| e@);
        let mut i: usize = 0;
        while i < services.len()
            invariant
                i <= services.len(),
                label@ == label_of(self@.name),
                running_word@ == "running"@,
                list == services@.map_values(|e: DockerServiceEntry| e@),
                forall|j: int| 0 <= j < i ==> !running_entry(self@.name, #[trigger] list[j]),
            decreases services.len() - i,
        {
            let entry = &services[i];
            if str_contains(entry.labels.as_str(), label.as_str()) && entry.state
                == running_word {
                proof {
                    assert(running_entry(self@.name, list[i as int]));
                }
                return true;
            }
            i += 1;
        }
        false
    }
}

} // verus!
