use vstd::assert_seqs_equal;
use vstd::prelude::*;
use vstd::string::*;

verus! {

// The engine's serializer sometimes writes a type tag with its payload glued
// directly to the tag string, e.g. `"__type": "int"-42`, which no structured
// parser accepts.  The repair inserts a proper `"value"` field:
// `"__type": "int", "value": -42`.  Three literal families are recognized:
// the boolean keywords, signed digit runs, and decimals of the exact shape
// digits `.` digits.  A decimal with no fractional part after a float tag is
// deliberately not rewritten; whether that shape occurs in practice is an
// open question, and leaving it alone keeps the repair conservative.

pub open spec fn is_ws(c: char) -> bool {
    c == ' ' || c == '\t' || c == '\n' || c == '\r' || c == '\u{b}' || c == '\u{c}'
}

pub open spec fn is_digit(c: char) -> bool {
    '0' <= c && c <= '9'
}

/// First index at or after `i` holding a non-whitespace character.
pub open spec fn ws_end(s: Seq<char>, i: int) -> int
    recommends
        0 <= i <= s.len(),
    decreases s.len() - i,
        when 0 <= i <= s.len()
{
    if i < s.len() && is_ws(s[i]) {
        ws_end(s, i + 1)
    } else {
        i
    }
}

/// First index at or after `i` holding a non-digit character.
pub open spec fn digits_end(s: Seq<char>, i: int) -> int
    recommends
        0 <= i <= s.len(),
    decreases s.len() - i,
        when 0 <= i <= s.len()
{
    if i < s.len() && is_digit(s[i]) {
        digits_end(s, i + 1)
    } else {
        i
    }
}

/// `p` occurs as a substring of `s` starting at `i`.
pub open spec fn begins(s: Seq<char>, i: int, p: Seq<char>) -> bool {
    0 <= i && i + p.len() <= s.len() && (forall|j: int| 0 <= j < p.len() ==> s[i + j] == p[j])
}

pub open spec fn type_key() -> Seq<char> {
    "\"__type\""@
}

pub open spec fn bool_tag() -> Seq<char> {
    "\"bool\""@
}

pub open spec fn int_tag() -> Seq<char> {
    "\"int\""@
}

pub open spec fn float_tag() -> Seq<char> {
    "\"float\""@
}

pub open spec fn lit_true() -> Seq<char> {
    "true"@
}

pub open spec fn lit_false() -> Seq<char> {
    "false"@
}

/// Index of the colon that follows a `"__type"` key starting at `i`.
pub open spec fn colon_pos(s: Seq<char>, i: int) -> int {
    ws_end(s, i + 8)
}

/// Index of the tag string that follows the colon.
pub open spec fn tag_pos(s: Seq<char>, i: int) -> int {
    ws_end(s, colon_pos(s, i) + 1)
}

/// A `"__type"` key followed (over optional whitespace) by a colon starts at `i`.
pub open spec fn is_marker(s: Seq<char>, i: int) -> bool {
    &&& begins(s, i, type_key())
    &&& colon_pos(s, i) < s.len()
    &&& s[colon_pos(s, i)] == ':'
}

pub enum TagKind {
    Bool,
    Int,
    Float,
}

/// A malformed occurrence found at one position: the family of the glued
/// literal, the index where the literal starts, and the index just past it.
pub struct SpecMatch {
    pub kind: TagKind,
    pub lit_start: int,
    pub end: int,
}

/// The malformed pattern at position `i` of `s`, if any: a `"__type"` marker
/// whose tag string is immediately followed by a bare literal of its family.
pub open spec fn try_match(s: Seq<char>, i: int) -> Option<SpecMatch>
    recommends
        0 <= i <= s.len(),
{
    if !is_marker(s, i) {
        None
    } else {
        let k = tag_pos(s, i);
        if begins(s, k, bool_tag()) {
            let e = k + 6;
            if begins(s, e, lit_true()) {
                Some(SpecMatch { kind: TagKind::Bool, lit_start: e, end: e + 4 })
            } else if begins(s, e, lit_false()) {
                Some(SpecMatch { kind: TagKind::Bool, lit_start: e, end: e + 5 })
            } else {
                None
            }
        } else if begins(s, k, int_tag()) {
            let e = k + 5;
            let d0 = if e < s.len() && s[e] == '-' {
                e + 1
            } else {
                e
            };
            let de = digits_end(s, d0);
            if de > d0 {
                Some(SpecMatch { kind: TagKind::Int, lit_start: e, end: de })
            } else {
                None
            }
        } else if begins(s, k, float_tag()) {
            let e = k + 7;
            let d1 = digits_end(s, e);
            if d1 > e && d1 < s.len() && s[d1] == '.' {
                let d2 = digits_end(s, d1 + 1);
                if d2 > d1 + 1 {
                    Some(SpecMatch { kind: TagKind::Float, lit_start: e, end: d2 })
                } else {
                    None
                }
            } else {
                None
            }
        } else {
            None
        }
    }
}

/// Replacement text placed in front of the preserved literal.
pub open spec fn head(kind: TagKind) -> Seq<char> {
    match kind {
        TagKind::Bool => "\"__type\": \"bool\", \"value\": "@,
        TagKind::Int => "\"__type\": \"int\", \"value\": "@,
        TagKind::Float => "\"__type\": \"float\", \"value\": "@,
    }
}

pub open spec fn rewrite(kind: TagKind, lit: Seq<char>) -> Seq<char> {
    head(kind) + lit
}

pub proof fn lemma_ws_end(s: Seq<char>, i: int)
    requires
        0 <= i <= s.len(),
    ensures
        i <= ws_end(s, i) <= s.len(),
        forall|p: int| i <= p < ws_end(s, i) ==> is_ws(s[p]),
        ws_end(s, i) < s.len() ==> !is_ws(s[ws_end(s, i)]),
    decreases s.len() - i,
{
    if i < s.len() && is_ws(s[i]) {
        lemma_ws_end(s, i + 1);
    }
}

pub proof fn lemma_digits_end(s: Seq<char>, i: int)
    requires
        0 <= i <= s.len(),
    ensures
        i <= digits_end(s, i) <= s.len(),
        forall|p: int| i <= p < digits_end(s, i) ==> is_digit(s[p]),
        digits_end(s, i) < s.len() ==> !is_digit(s[digits_end(s, i)]),
    decreases s.len() - i,
{
    if i < s.len() && is_digit(s[i]) {
        lemma_digits_end(s, i + 1);
    }
}

pub proof fn lemma_tag_lens()
    ensures
        type_key().len() == 8,
        bool_tag().len() == 6,
        int_tag().len() == 5,
        float_tag().len() == 7,
        lit_true().len() == 4,
        lit_false().len() == 5,
{
    reveal_strlit("\"__type\"");
    reveal_strlit("\"bool\"");
    reveal_strlit("\"int\"");
    reveal_strlit("\"float\"");
    reveal_strlit("true");
    reveal_strlit("false");
}

/// A match starts after the marker and ends past a non-empty literal,
/// strictly inside the text.
pub proof fn lemma_try_match_bounds(s: Seq<char>, i: int, m: SpecMatch)
    requires
        0 <= i <= s.len(),
        try_match(s, i) == Some(m),
    ensures
        i + 8 <= colon_pos(s, i) < tag_pos(s, i) <= m.lit_start,
        i < m.lit_start < m.end <= s.len(),
{
    lemma_tag_lens();
    lemma_ws_end(s, i + 8);
    let c = colon_pos(s, i);
    lemma_ws_end(s, c + 1);
    let k = tag_pos(s, i);
    if begins(s, k, int_tag()) {
        let e = k + 5;
        let d0 = if e < s.len() && s[e] == '-' {
            e + 1
        } else {
            e
        };
        lemma_digits_end(s, d0);
    } else if begins(s, k, float_tag()) {
        let e = k + 7;
        lemma_digits_end(s, e);
        let d1 = digits_end(s, e);
        if d1 > e && d1 < s.len() && s[d1] == '.' {
            lemma_digits_end(s, d1 + 1);
        }
    }
}

/// The repaired text of `s` from position `i` on: each malformed occurrence
/// is replaced by its rewrite, all other characters are copied.
pub open spec fn norm_from(s: Seq<char>, i: int) -> Seq<char>
    recommends
        0 <= i <= s.len(),
    decreases s.len() - i,
        when 0 <= i <= s.len()
        via norm_from_dec
{
    if i >= s.len() {
        Seq::empty()
    } else {
        match try_match(s, i) {
            Some(m) => rewrite(m.kind, s.subrange(m.lit_start, m.end)) + norm_from(s, m.end),
            None => seq![s[i]] + norm_from(s, i + 1),
        }
    }
}

#[via_fn]
proof fn norm_from_dec(s: Seq<char>, i: int) {
    if i < s.len() {
        match try_match(s, i) {
            Some(m) => lemma_try_match_bounds(s, i, m),
            None => {},
        }
    }
}

/// The repaired form of the whole text.
pub open spec fn norm(s: Seq<char>) -> Seq<char> {
    norm_from(s, 0)
}

/// No malformed occurrence anywhere in `s`.
pub open spec fn no_match(s: Seq<char>) -> bool {
    forall|i: int| 0 <= i <= s.len() ==> try_match(s, i) is None
}

/// First position at or after `i` holding a malformed occurrence, or the
/// text's length where there is none.
pub open spec fn first_match(s: Seq<char>, i: int) -> int
    recommends
        0 <= i <= s.len(),
    decreases s.len() - i,
        when 0 <= i <= s.len()
{
    if i >= s.len() {
        i
    } else if try_match(s, i) is Some {
        i
    } else {
        first_match(s, i + 1)
    }
}

proof fn lemma_first_match(s: Seq<char>, i: int)
    requires
        0 <= i <= s.len(),
    ensures
        i <= first_match(s, i) <= s.len(),
        forall|p: int| i <= p < first_match(s, i) ==> try_match(s, p) is None,
        first_match(s, i) < s.len() ==> try_match(s, first_match(s, i)) is Some,
    decreases s.len() - i,
{
    if i < s.len() && try_match(s, i) is None {
        lemma_first_match(s, i + 1);
    }
}

proof fn lemma_ws_end_skip(s: Seq<char>, d: int, j: int)
    requires
        0 <= d <= s.len(),
        0 <= j <= s.len() - d,
    ensures
        ws_end(s.skip(d), j) == ws_end(s, d + j) - d,
    decreases s.len() - d - j,
{
    let t = s.skip(d);
    if j < t.len() && is_ws(t[j]) {
        lemma_ws_end_skip(s, d, j + 1);
    }
}

proof fn lemma_digits_end_skip(s: Seq<char>, d: int, j: int)
    requires
        0 <= d <= s.len(),
        0 <= j <= s.len() - d,
    ensures
        digits_end(s.skip(d), j) == digits_end(s, d + j) - d,
    decreases s.len() - d - j,
{
    let t = s.skip(d);
    if j < t.len() && is_digit(t[j]) {
        lemma_digits_end_skip(s, d, j + 1);
    }
}

proof fn lemma_begins_skip(s: Seq<char>, d: int, j: int, p: Seq<char>)
    requires
        0 <= d <= s.len(),
        0 <= j,
    ensures
        begins(s.skip(d), j, p) == begins(s, d + j, p),
{
    if begins(s.skip(d), j, p) {
        assert forall|q: int| 0 <= q < p.len() implies s[d + j + q] == p[q] by {
            assert(s.skip(d)[j + q] == s[d + j + q]);
        }
    }
    if begins(s, d + j, p) {
        assert forall|q: int| 0 <= q < p.len() implies s.skip(d)[j + q] == p[q] by {
            assert(s.skip(d)[j + q] == s[d + j + q]);
        }
    }
}

/// A match is a property of the suffix alone: matching at `d + j` of `s` is
/// matching at `j` of `s` with its first `d` characters dropped.
proof fn lemma_try_match_skip(s: Seq<char>, d: int, j: int)
    requires
        0 <= d <= s.len(),
        0 <= j <= s.len() - d,
    ensures
        match try_match(s, d + j) {
            Some(m) => try_match(s.skip(d), j) == Some(
                SpecMatch { kind: m.kind, lit_start: m.lit_start - d, end: m.end - d },
            ),
            None => try_match(s.skip(d), j) is None,
        },
{
    let t = s.skip(d);
    lemma_tag_lens();
    lemma_begins_skip(s, d, j, type_key());
    if begins(s, d + j, type_key()) {
        lemma_ws_end_skip(s, d, j + 8);
        let c = colon_pos(s, d + j);
        lemma_ws_end(s, d + j + 8);
        assert(colon_pos(t, j) == c - d);
        if c < s.len() && s[c] == ':' {
            assert(t[c - d] == s[c]);
            lemma_ws_end_skip(s, d, c - d + 1);
            let k = ws_end(s, c + 1);
            lemma_ws_end(s, c + 1);
            assert(tag_pos(t, j) == k - d);
            lemma_begins_skip(s, d, k - d, bool_tag());
            lemma_begins_skip(s, d, k - d, int_tag());
            lemma_begins_skip(s, d, k - d, float_tag());
            if begins(s, k, bool_tag()) {
                lemma_begins_skip(s, d, k - d + 6, lit_true());
                lemma_begins_skip(s, d, k - d + 6, lit_false());
            } else if begins(s, k, int_tag()) {
                let e = k + 5;
                if e < s.len() && s[e] == '-' {
                    assert(t[e - d] == s[e]);
                    lemma_digits_end_skip(s, d, e - d + 1);
                } else {
                    if e <= s.len() - 1 {
                        assert(t[e - d] == s[e]);
                    }
                    if e <= s.len() {
                        lemma_digits_end_skip(s, d, e - d);
                    }
                }
            } else if begins(s, k, float_tag()) {
                let e = k + 7;
                if e <= s.len() {
                    lemma_digits_end_skip(s, d, e - d);
                    let d1 = digits_end(s, e);
                    lemma_digits_end(s, e);
                    if d1 > e && d1 < s.len() && s[d1] == '.' {
                        assert(t[d1 - d] == s[d1]);
                        lemma_digits_end_skip(s, d, d1 - d + 1);
                    }
                }
            }
        }
    }
}

pub open spec fn tag_len(kind: TagKind) -> int {
    match kind {
        TagKind::Bool => 6,
        TagKind::Int => 5,
        TagKind::Float => 7,
    }
}

/// A successful match starts with the `"__type"` key.
proof fn lemma_match_head(s: Seq<char>, i: int)
    requires
        0 <= i,
        try_match(s, i) is Some,
    ensures
        i + 8 <= s.len(),
        s[i] == '"',
        s[i + 1] == '_',
{
    reveal_strlit("\"__type\"");
    assert(begins(s, i, type_key()));
    assert(s[i + 0] == type_key()[0]);
    assert(s[i + 1] == type_key()[1]);
}

/// Anatomy of a match: the marker's segments, the tag's characters, and the
/// literal's character set.
proof fn lemma_match_shape(s: Seq<char>, i: int, m: SpecMatch)
    requires
        0 <= i <= s.len(),
        try_match(s, i) == Some(m),
    ensures
        begins(s, i, type_key()),
        i + 8 <= colon_pos(s, i) < s.len(),
        s[colon_pos(s, i)] == ':',
        colon_pos(s, i) + 1 <= tag_pos(s, i),
        forall|p: int| i + 8 <= p < colon_pos(s, i) ==> is_ws(s[p]),
        forall|p: int| colon_pos(s, i) + 1 <= p < tag_pos(s, i) ==> is_ws(s[p]),
        m.lit_start == tag_pos(s, i) + tag_len(m.kind),
        s[tag_pos(s, i)] == '"',
        s[tag_pos(s, i) + 1] != '_' && s[tag_pos(s, i) + 1] != '"',
        forall|p: int|
            tag_pos(s, i) < p < m.lit_start - 1 ==> s[p] != '"' && s[p] != '_',
        s[m.lit_start - 1] == '"',
        m.lit_start < m.end <= s.len(),
        forall|p: int| m.lit_start <= p < m.end ==> s[p] != '"' && s[p] != '_',
{
    lemma_tag_lens();
    reveal_strlit("\"__type\"");
    reveal_strlit("\"bool\"");
    reveal_strlit("\"int\"");
    reveal_strlit("\"float\"");
    reveal_strlit("true");
    reveal_strlit("false");
    lemma_try_match_bounds(s, i, m);
    lemma_ws_end(s, i + 8);
    let c = colon_pos(s, i);
    lemma_ws_end(s, c + 1);
    let k = tag_pos(s, i);
    if begins(s, k, bool_tag()) {
        let e = k + 6;
        assert(s[k + 0] == bool_tag()[0]);
        assert(s[k + 1] == bool_tag()[1]);
        assert(s[k + 2] == bool_tag()[2]);
        assert(s[k + 3] == bool_tag()[3]);
        assert(s[k + 4] == bool_tag()[4]);
        assert(s[k + 5] == bool_tag()[5]);
        if begins(s, e, lit_true()) {
            assert forall|p: int| m.lit_start <= p < m.end implies s[p] != '"' && s[p] != '_' by {
                assert(s[e + (p - e)] == lit_true()[p - e]);
            }
        } else {
            assert(begins(s, e, lit_false()));
            assert forall|p: int| m.lit_start <= p < m.end implies s[p] != '"' && s[p] != '_' by {
                assert(s[e + (p - e)] == lit_false()[p - e]);
            }
        }
    } else if begins(s, k, int_tag()) {
        let e = k + 5;
        assert(s[k + 0] == int_tag()[0]);
        assert(s[k + 1] == int_tag()[1]);
        assert(s[k + 2] == int_tag()[2]);
        assert(s[k + 3] == int_tag()[3]);
        assert(s[k + 4] == int_tag()[4]);
        let d0 = if e < s.len() && s[e] == '-' {
            e + 1
        } else {
            e
        };
        lemma_digits_end(s, d0);
        assert forall|p: int| m.lit_start <= p < m.end implies s[p] != '"' && s[p] != '_' by {
            if p >= d0 {
                assert(is_digit(s[p]));
            }
        }
    } else {
        assert(begins(s, k, float_tag()));
        let e = k + 7;
        assert(s[k + 0] == float_tag()[0]);
        assert(s[k + 1] == float_tag()[1]);
        assert(s[k + 2] == float_tag()[2]);
        assert(s[k + 3] == float_tag()[3]);
        assert(s[k + 4] == float_tag()[4]);
        assert(s[k + 5] == float_tag()[5]);
        assert(s[k + 6] == float_tag()[6]);
        let d1 = digits_end(s, e);
        lemma_digits_end(s, e);
        lemma_digits_end(s, d1 + 1);
        assert forall|p: int| m.lit_start <= p < m.end implies s[p] != '"' && s[p] != '_' by {
            if p < d1 {
                assert(is_digit(s[p]));
            } else if p > d1 {
                assert(is_digit(s[p]));
            } else {
                assert(s[p] == '.');
            }
        }
    }
}

/// Character pattern of a rewrite: it starts with the `"__type"` key, and
/// a quote followed by an underscore occurs nowhere after position zero.
proof fn lemma_rewrite_chars(kind: TagKind, lit: Seq<char>)
    requires
        lit.len() >= 1,
        forall|p: int| 0 <= p < lit.len() ==> lit[p] != '"' && lit[p] != '_',
    ensures
        rewrite(kind, lit).len() == 21 + tag_len(kind) + lit.len(),
        forall|x: int| 0 <= x < 8 ==> rewrite(kind, lit)[x] == type_key()[x],
        forall|j: int|
            1 <= j < rewrite(kind, lit).len() - 1 ==> !(#[trigger] rewrite(kind, lit)[j] == '"'
                && rewrite(kind, lit)[j + 1] == '_'),
        rewrite(kind, lit)[rewrite(kind, lit).len() - 1] != '"',
{
    lemma_tag_lens();
    reveal_strlit("\"__type\"");
    reveal_strlit("\"__type\": \"bool\", \"value\": ");
    reveal_strlit("\"__type\": \"int\", \"value\": ");
    reveal_strlit("\"__type\": \"float\", \"value\": ");
    let h = head(kind);
    let r = rewrite(kind, lit);
    assert(h.len() == 21 + tag_len(kind));
    assert forall|j: int| 1 <= j < r.len() - 1 implies !(#[trigger] r[j] == '"' && r[j + 1]
        == '_') by {
        if j + 1 < h.len() {
            assert(r[j] == h[j]);
            assert(r[j + 1] == h[j + 1]);
        } else if j < h.len() {
            assert(r[j] == h[j]);
            assert(h[h.len() - 1] == ' ');
        } else {
            assert(r[j] == lit[j - h.len()]);
        }
    }
    assert(r[r.len() - 1] == lit[lit.len() - 1]);
}

/// No match can start at the head of a rewrite: the inserted comma stands
/// where a glued literal would have to.
proof fn lemma_rewrite_no_match(kind: TagKind, lit: Seq<char>, w: Seq<char>)
    requires
        lit.len() >= 1,
        forall|p: int| 0 <= p < lit.len() ==> lit[p] != '"' && lit[p] != '_',
    ensures
        try_match(rewrite(kind, lit) + w, 0) is None,
{
    lemma_tag_lens();
    reveal_strlit("\"__type\"");
    reveal_strlit("\"bool\"");
    reveal_strlit("\"int\"");
    reveal_strlit("\"float\"");
    reveal_strlit("true");
    reveal_strlit("false");
    reveal_strlit("\"__type\": \"bool\", \"value\": ");
    reveal_strlit("\"__type\": \"int\", \"value\": ");
    reveal_strlit("\"__type\": \"float\", \"value\": ");
    let h = head(kind);
    let v = rewrite(kind, lit) + w;
    assert(v.len() >= h.len() + 1);
    assert forall|x: int| 0 <= x < h.len() implies v[x] == h[x] by {
        assert(rewrite(kind, lit)[x] == h[x]);
    }
    assert(begins(v, 0, type_key()));
    assert(v[8] == ':');
    assert(ws_end(v, 8) == 8);
    assert(colon_pos(v, 0) == 8);
    assert(v[9] == ' ');
    assert(v[10] == '"');
    assert(ws_end(v, 10) == 10);
    assert(ws_end(v, 9) == 10);
    assert(tag_pos(v, 0) == 10);
    match kind {
        TagKind::Bool => {
            assert(v[16] == ',');
            assert(!begins(v, 16, lit_true())) by {
                if begins(v, 16, lit_true()) {
                    assert(v[16int + 0] == lit_true()[0]);
                }
            }
            assert(!begins(v, 16, lit_false())) by {
                if begins(v, 16, lit_false()) {
                    assert(v[16int + 0] == lit_false()[0]);
                }
            }
        },
        TagKind::Int => {
            assert(v[11] == 'i');
            assert(!begins(v, 10, bool_tag())) by {
                if begins(v, 10, bool_tag()) {
                    assert(v[10int + 1] == bool_tag()[1]);
                }
            }
            assert(begins(v, 10, int_tag()));
            assert(v[15] == ',');
            assert(digits_end(v, 15) == 15);
        },
        TagKind::Float => {
            assert(v[11] == 'f');
            assert(!begins(v, 10, bool_tag())) by {
                if begins(v, 10, bool_tag()) {
                    assert(v[10int + 1] == bool_tag()[1]);
                }
            }
            assert(!begins(v, 10, int_tag())) by {
                if begins(v, 10, int_tag()) {
                    assert(v[10int + 1] == int_tag()[1]);
                }
            }
            assert(begins(v, 10, float_tag()));
            assert(v[17] == ',');
            assert(digits_end(v, 17) == 17);
        },
    }
}

proof fn lemma_ws_end_agree(t1: Seq<char>, t2: Seq<char>, n: int, x: int)
    requires
        0 <= x <= n,
        n <= t1.len(),
        n <= t2.len(),
        forall|q: int| 0 <= q < n ==> t1[q] == t2[q],
        ws_end(t1, x) < n,
    ensures
        ws_end(t2, x) == ws_end(t1, x),
    decreases n - x,
{
    lemma_ws_end(t1, x);
    if x < t1.len() && is_ws(t1[x]) {
        lemma_ws_end_agree(t1, t2, n, x + 1);
    }
}

proof fn lemma_digits_end_agree(t1: Seq<char>, t2: Seq<char>, n: int, x: int)
    requires
        0 <= x <= n,
        n <= t1.len(),
        n <= t2.len(),
        forall|q: int| 0 <= q < n ==> t1[q] == t2[q],
        digits_end(t1, x) < n,
    ensures
        digits_end(t2, x) == digits_end(t1, x),
    decreases n - x,
{
    lemma_digits_end(t1, x);
    if x < t1.len() && is_digit(t1[x]) {
        lemma_digits_end_agree(t1, t2, n, x + 1);
    }
}

/// A match is read off finitely many characters: any text agreeing with the
/// matched one past the literal's end carries the same match.
proof fn lemma_match_agree(t1: Seq<char>, t2: Seq<char>, n: int, m: SpecMatch)
    requires
        0 <= n,
        try_match(t1, 0) == Some(m),
        m.end + 1 <= n,
        n <= t1.len(),
        n <= t2.len(),
        forall|q: int| 0 <= q < n ==> t1[q] == t2[q],
    ensures
        try_match(t2, 0) == Some(m),
{
    lemma_tag_lens();
    lemma_try_match_bounds(t1, 0, m);
    assert(begins(t2, 0, type_key())) by {
        assert(forall|q: int| 0 <= q < 8 ==> #[trigger] t2[q] == t1[q]);
    }
    lemma_ws_end(t1, 8);
    let c = colon_pos(t1, 0);
    lemma_ws_end_agree(t1, t2, n, 8);
    assert(colon_pos(t2, 0) == c);
    assert(t2[c] == t1[c]);
    lemma_ws_end(t1, c + 1);
    let k = tag_pos(t1, 0);
    lemma_ws_end_agree(t1, t2, n, c + 1);
    assert(tag_pos(t2, 0) == k);
    assert(begins(t2, k, bool_tag()) == begins(t1, k, bool_tag())) by {
        assert(forall|q: int| 0 <= q < 6 ==> #[trigger] t2[k + q] == t1[k + q]);
    }
    assert(begins(t2, k, int_tag()) == begins(t1, k, int_tag())) by {
        assert(forall|q: int| 0 <= q < 5 ==> #[trigger] t2[k + q] == t1[k + q]);
    }
    assert(begins(t2, k, float_tag()) == begins(t1, k, float_tag())) by {
        assert(forall|q: int| 0 <= q < 7 ==> #[trigger] t2[k + q] == t1[k + q]);
    }
    if begins(t1, k, bool_tag()) {
        let e = k + 6;
        assert(begins(t2, e, lit_true()) == begins(t1, e, lit_true())) by {
            if e + 4 <= t1.len() {
                assert(forall|q: int| 0 <= q < 4 ==> #[trigger] t2[e + q] == t1[e + q]);
            }
        }
        assert(begins(t2, e, lit_false()) == begins(t1, e, lit_false())) by {
            if e + 5 <= t1.len() {
                assert(forall|q: int| 0 <= q < 5 ==> #[trigger] t2[e + q] == t1[e + q]);
            }
        }
    } else if begins(t1, k, int_tag()) {
        let e = k + 5;
        assert(e < n);
        assert(t2[e] == t1[e]);
        let d0 = if e < t1.len() && t1[e] == '-' {
            e + 1
        } else {
            e
        };
        lemma_digits_end(t1, d0);
        lemma_digits_end_agree(t1, t2, n, d0);
    } else if begins(t1, k, float_tag()) {
        let e = k + 7;
        let d1 = digits_end(t1, e);
        lemma_digits_end(t1, e);
        lemma_digits_end_agree(t1, t2, n, e);
        assert(t2[d1] == t1[d1]);
        lemma_digits_end(t1, d1 + 1);
        lemma_digits_end_agree(t1, t2, n, d1 + 1);
    }
}

/// The repaired text decomposes at the first malformed occurrence: a copied
/// prefix, the rewrite, and the repaired rest.
proof fn lemma_norm_decomp(s: Seq<char>, i: int)
    requires
        0 <= i <= s.len(),
    ensures
        ({
            let q = first_match(s, i);
            match try_match(s, q) {
                Some(m) => norm_from(s, i) == s.subrange(i, q) + rewrite(
                    m.kind,
                    s.subrange(m.lit_start, m.end),
                ) + norm_from(s, m.end),
                None => norm_from(s, i) == s.subrange(i, s.len() as int),
            }
        }),
    decreases s.len() - i,
{
    lemma_tag_lens();
    lemma_first_match(s, i);
    let q = first_match(s, i);
    if i >= s.len() {
        assert(try_match(s, q) is None);
        assert(norm_from(s, i) =~= s.subrange(i, s.len() as int));
        assert(norm_from(s, i) == s.subrange(i, s.len() as int));
    } else {
        match try_match(s, i) {
            Some(m) => {
                assert(q == i);
                lemma_try_match_bounds(s, i, m);
                assert(s.subrange(i, q) + rewrite(m.kind, s.subrange(m.lit_start, m.end))
                    + norm_from(s, m.end) =~= rewrite(m.kind, s.subrange(m.lit_start, m.end))
                    + norm_from(s, m.end));
                assert(norm_from(s, i) == rewrite(m.kind, s.subrange(m.lit_start, m.end))
                    + norm_from(s, m.end));
                assert(norm_from(s, i) == s.subrange(i, q) + rewrite(
                    m.kind,
                    s.subrange(m.lit_start, m.end),
                ) + norm_from(s, m.end));
            },
            None => {
                lemma_norm_decomp(s, i + 1);
                assert(first_match(s, i + 1) == q);
                assert(norm_from(s, i) == seq![s[i]] + norm_from(s, i + 1));
                match try_match(s, q) {
                    Some(m) => {
                        lemma_try_match_bounds(s, q, m);
                        assert(seq![s[i]] + (s.subrange(i + 1, q) + rewrite(
                            m.kind,
                            s.subrange(m.lit_start, m.end),
                        ) + norm_from(s, m.end)) =~= s.subrange(i, q) + rewrite(
                            m.kind,
                            s.subrange(m.lit_start, m.end),
                        ) + norm_from(s, m.end));
                    },
                    None => {
                        assert(seq![s[i]] + s.subrange(i + 1, s.len() as int) =~= s.subrange(
                            i,
                            s.len() as int,
                        ));
                    },
                }
            },
        }
    }
}

/// The repaired text holds no malformed occurrence, from any position on.
#[verifier::rlimit(100)]
proof fn lemma_norm_from_no_match(s: Seq<char>, i: int)
    requires
        0 <= i <= s.len(),
    ensures
        no_match(norm_from(s, i)),
    decreases s.len() - i,
{
    lemma_tag_lens();
    reveal_strlit("\"__type\"");
    lemma_first_match(s, i);
    lemma_norm_decomp(s, i);
    let q = first_match(s, i);
    let v = norm_from(s, i);
    match try_match(s, q) {
        None => {
            assert forall|j: int| 0 <= j <= v.len() implies try_match(v, j) is None by {
                assert(v =~= s.skip(i));
                lemma_try_match_skip(s, i, j);
            }
        },
        Some(m) => {
            lemma_try_match_bounds(s, q, m);
            lemma_match_shape(s, q, m);
            let lit = s.subrange(m.lit_start, m.end);
            let rw = rewrite(m.kind, lit);
            let w = norm_from(s, m.end);
            lemma_norm_from_no_match(s, m.end);
            assert(forall|p: int| 0 <= p < lit.len() ==> lit[p] != '"' && lit[p] != '_');
            lemma_rewrite_chars(m.kind, lit);
            let pl = q - i;
            let rl = rw.len();
            assert(v == s.subrange(i, q) + rw + w);
            assert(v == (s.subrange(i, q) + rw) + w);
            assert(v.len() == pl + rl + w.len());
            assert(rl >= 22);
            assert(v[pl] == rw[0]) by {
                assert((s.subrange(i, q) + rw)[pl] == rw[0]);
            }
            assert(v[pl + 1] == rw[1]) by {
                assert((s.subrange(i, q) + rw)[pl + 1] == rw[1]);
            }
            assert(rw[0] == type_key()[0] && rw[1] == type_key()[1]);
            assert(rw[0] == '"' && rw[1] == '_');
            assert forall|x: int| 0 <= x < pl + 8 implies v[x] == s[i + x] by {
                if x < pl {
                    assert(v[x] == s.subrange(i, q)[x]);
                } else {
                    assert(v[x] == rw[x - pl]);
                    assert(rw[x - pl] == type_key()[x - pl]);
                    assert(s[q + (x - pl)] == type_key()[x - pl]);
                }
            }
            assert forall|j: int| 0 <= j <= v.len() implies try_match(v, j) is None by {
                if j >= pl + rl {
                    assert(v.skip(pl + rl) =~= w);
                    lemma_try_match_skip(v, pl + rl, j - (pl + rl));
                } else if j == pl {
                    assert(v.skip(pl) =~= rw + w);
                    lemma_try_match_skip(v, pl, 0);
                    lemma_rewrite_no_match(m.kind, lit, w);
                } else if j > pl {
                    if try_match(v, j) is Some {
                        lemma_match_head(v, j);
                        if j - pl < rl - 1 {
                            assert(v[j] == rw[j - pl]);
                            assert(v[j + 1] == rw[j - pl + 1]);
                            assert(false);
                        } else {
                            assert(v[j] == rw[rl - 1]);
                            assert(false);
                        }
                    }
                } else {
                    match try_match(v, j) {
                        None => {},
                        Some(m2) => {
                            lemma_try_match_bounds(v, j, m2);
                            lemma_match_shape(v, j, m2);
                            let n = pl + 8 - j;
                            let t1 = v.skip(j);
                            let t2 = s.skip(i + j);
                            lemma_try_match_skip(v, j, 0);
                            let m2s = SpecMatch {
                                kind: m2.kind,
                                lit_start: m2.lit_start - j,
                                end: m2.end - j,
                            };
                            assert(try_match(t1, 0) == Some(m2s));
                            assert forall|y: int| 0 <= y < n implies #[trigger] t1[y] == t2[y] by {
                                assert(t1[y] == v[j + y]);
                                assert(t2[y] == s[i + j + y]);
                            }
                            if m2.end + 1 <= pl + 8 {
                                lemma_match_agree(t1, t2, n, m2s);
                                lemma_try_match_skip(s, i + j, 0);
                                assert(try_match(s, i + j) is Some);
                                assert(false);
                            } else {
                                let c2 = colon_pos(v, j);
                                let k2 = tag_pos(v, j);
                                let ls2 = m2.lit_start;
                                assert(j < pl < m2.end);
                                if pl < j + 8 {
                                    assert(v[pl] == type_key()[pl - j]);
                                    assert(pl == j + 7);
                                    if c2 == j + 8 {
                                        assert(v[c2] == ':');
                                        assert(false);
                                    } else {
                                        assert(is_ws(v[j + 8]));
                                        assert(false);
                                    }
                                } else if pl < c2 {
                                    assert(is_ws(v[pl]));
                                    assert(false);
                                } else if pl == c2 {
                                    assert(v[c2] == ':');
                                    assert(false);
                                } else if pl < k2 {
                                    assert(is_ws(v[pl]));
                                    assert(false);
                                } else if pl == k2 {
                                    assert(v[k2 + 1] != '_');
                                    assert(false);
                                } else if pl < ls2 - 1 {
                                    assert(v[pl] != '"');
                                    assert(false);
                                } else if pl == ls2 - 1 {
                                    assert(v[ls2] != '_');
                                    assert(false);
                                } else {
                                    assert(ls2 <= pl < m2.end);
                                    assert(v[pl] != '"');
                                    assert(false);
                                }
                            }
                        },
                    }
                }
            }
        },
    }
}

/// Text free of malformed occurrences is repaired to itself.
proof fn lemma_norm_fixpoint(s: Seq<char>)
    requires
        no_match(s),
    ensures
        norm(s) == s,
{
    lemma_first_match(s, 0);
    lemma_norm_decomp(s, 0);
    let q = first_match(s, 0);
    assert(try_match(s, q) is None);
    assert(s.subrange(0, s.len() as int) =~= s);
}

/// The repaired text holds no malformed occurrence at any position.
pub proof fn lemma_norm_no_match(s: Seq<char>)
    ensures
        no_match(norm(s)),
{
    lemma_norm_from_no_match(s, 0);
}

/// Idempotence: repairing already-repaired text is the identity, for all
/// input texts.
pub proof fn lemma_fix_json_format_idempotent(s: Seq<char>)
    ensures
        norm(norm(s)) == norm(s),
{
    lemma_norm_no_match(s);
    lemma_norm_fixpoint(norm(s));
}

fn ws_end_x(s: &str, i: usize, n: usize) -> (r: usize)
    requires
        n == s@.len(),
        i <= n,
    ensures
        r == ws_end(s@, i as int),
        i <= r <= n,
    decreases n - i,
{
    if i < n {
        let c = s.get_char(i);
        if c == ' ' || c == '\t' || c == '\n' || c == '\r' || c == '\u{b}' || c == '\u{c}' {
            return ws_end_x(s, i + 1, n);
        }
    }
    i
}

fn digits_end_x(s: &str, i: usize, n: usize) -> (r: usize)
    requires
        n == s@.len(),
        i <= n,
    ensures
        r == digits_end(s@, i as int),
        i <= r <= n,
    decreases n - i,
{
    if i < n {
        let c = s.get_char(i);
        if '0' <= c && c <= '9' {
            return digits_end_x(s, i + 1, n);
        }
    }
    i
}

pub(crate) fn begins_x(s: &str, i: usize, n: usize, p: &str) -> (r: bool)
    requires
        n == s@.len(),
        i <= n,
    ensures
        r == begins(s@, i as int, p@),
{
    let pn = p.unicode_len();
    if pn > n - i {
        return false;
    }
    let mut j: usize = 0;
    while j < pn
        invariant
            0 <= j <= pn,
            pn == p@.len(),
            n == s@.len(),
            i + pn <= n,
            forall|q: int| 0 <= q < j ==> s@[i + q] == p@[q],
        decreases pn - j,
    {
        if s.get_char(i + j) != p.get_char(j) {
            return false;
        }
        j = j + 1;
    }
    true
}

/// Executable form of one `SpecMatch`.
struct FoundAt {
    kind: TagKind,
    lit_start: usize,
    end: usize,
}

fn match_x(s: &str, i: usize, n: usize) -> (r: Option<FoundAt>)
    requires
        n == s@.len(),
        i <= n,
    ensures
        match r {
            Some(f) => {
                &&& try_match(s@, i as int) == Some(
                    SpecMatch { kind: f.kind, lit_start: f.lit_start as int, end: f.end as int },
                )
                &&& i < f.lit_start < f.end <= n
            },
            None => try_match(s@, i as int) is None,
        },
{
    proof {
        lemma_tag_lens();
    }
    if !begins_x(s, i, n, "\"__type\"") {
        return None;
    }
    let c = ws_end_x(s, i + 8, n);
    if !(c < n && s.get_char(c) == ':') {
        return None;
    }
    assert(is_marker(s@, i as int));
    let k = ws_end_x(s, c + 1, n);
    if begins_x(s, k, n, "\"bool\"") {
        let e = k + 6;
        if begins_x(s, e, n, "true") {
            proof {
                lemma_try_match_bounds(
                    s@,
                    i as int,
                    SpecMatch { kind: TagKind::Bool, lit_start: e as int, end: e + 4 },
                );
            }
            Some(FoundAt { kind: TagKind::Bool, lit_start: e, end: e + 4 })
        } else if begins_x(s, e, n, "false") {
            proof {
                lemma_try_match_bounds(
                    s@,
                    i as int,
                    SpecMatch { kind: TagKind::Bool, lit_start: e as int, end: e + 5 },
                );
            }
            Some(FoundAt { kind: TagKind::Bool, lit_start: e, end: e + 5 })
        } else {
            None
        }
    } else if begins_x(s, k, n, "\"int\"") {
        let e = k + 5;
        let d0 = if e < n && s.get_char(e) == '-' {
            e + 1
        } else {
            e
        };
        let de = digits_end_x(s, d0, n);
        if de > d0 {
            proof {
                lemma_try_match_bounds(
                    s@,
                    i as int,
                    SpecMatch { kind: TagKind::Int, lit_start: e as int, end: de as int },
                );
            }
            Some(FoundAt { kind: TagKind::Int, lit_start: e, end: de })
        } else {
            None
        }
    } else if begins_x(s, k, n, "\"float\"") {
        let e = k + 7;
        let d1 = digits_end_x(s, e, n);
        if d1 > e && d1 < n && s.get_char(d1) == '.' {
            let d2 = digits_end_x(s, d1 + 1, n);
            if d2 > d1 + 1 {
                proof {
                    lemma_try_match_bounds(
                        s@,
                        i as int,
                        SpecMatch { kind: TagKind::Float, lit_start: e as int, end: d2 as int },
                    );
                }
                Some(FoundAt { kind: TagKind::Float, lit_start: e, end: d2 })
            } else {
                None
            }
        } else {
            None
        }
    } else {
        None
    }
}

/// Repair the known malformed tag/value syntax of the engine's serializer.
/// Total over all inputs; text outside the three malformed families is
/// copied unchanged.
pub fn fix_json_format(content: &str) -> (r: String)
    ensures
        r@ == norm(content@),
{
    let n = content.unicode_len();
    let mut out = String::new();
    proof {
        assert(out@ + norm_from(content@, 0) =~= norm_from(content@, 0));
    }
    let mut i: usize = 0;
    while i < n
        invariant
            n == content@.len(),
            0 <= i <= n,
            norm(content@) == out@ + norm_from(content@, i as int),
        decreases n - i,
    {
        match match_x(content, i, n) {
            Some(f) => {
                match f.kind {
                    TagKind::Bool => out.append("\"__type\": \"bool\", \"value\": "),
                    TagKind::Int => out.append("\"__type\": \"int\", \"value\": "),
                    TagKind::Float => out.append("\"__type\": \"float\", \"value\": "),
                }
                out.append(content.substring_char(f.lit_start, f.end));
                proof {
                    let m = SpecMatch {
                        kind: f.kind,
                        lit_start: f.lit_start as int,
                        end: f.end as int,
                    };
                    assert(norm_from(content@, i as int) == rewrite(
                        m.kind,
                        content@.subrange(m.lit_start, m.end),
                    ) + norm_from(content@, m.end));
                    assert(norm(content@) == out@ + norm_from(content@, f.end as int)) by {
                        assert_seqs_equal!(
                            out@ + norm_from(content@, f.end as int)
                                == norm(content@)
                        );
                    }
                }
                i = f.end;
            },
            None => {
                out.append(content.substring_char(i, i + 1));
                proof {
                    assert(content@.subrange(i as int, i + 1) =~= seq![content@[i as int]]);
                    assert(norm_from(content@, i as int) == seq![content@[i as int]] + norm_from(
                        content@,
                        i + 1,
                    ));
                    assert(norm(content@) == out@ + norm_from(content@, i + 1)) by {
                        assert_seqs_equal!(
                            out@ + norm_from(content@, i + 1) == norm(content@)
                        );
                    }
                }
                i = i + 1;
            },
        }
    }
    proof {
        assert(norm_from(content@, i as int) =~= Seq::<char>::empty());
        assert(out@ =~= norm(content@));
    }
    out
}

} // verus!
