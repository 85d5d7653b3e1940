use vstd::prelude::*;
use vstd::string::*;

verus! {

broadcast use vstd::std_specs::vec::group_vec_axioms;

/// Dynamic value parsed from a normalized save document.
///
/// Numbers that fit a signed 64-bit integer are held in `Int`; every other
/// number keeps its decimal text in `Float`, so no floating point enters the
/// library and serialization can reproduce the digits unchanged.
#[derive(Debug, PartialEq)]
pub enum JsonValue {
    Null,
    Bool(bool),
    Int(i64),
    Float(String),
    Text(String),
    Sequence(Vec<JsonValue>),
    Mapping(Vec<(String, JsonValue)>),
}

/// Mathematical shape of a `JsonValue`.
pub enum Jv {
    Null,
    Bool(bool),
    Int(int),
    Float(Seq<char>),
    Text(Seq<char>),
    Sequence(Seq<Jv>),
    Mapping(Seq<(Seq<char>, Jv)>),
}

impl View for JsonValue {
    type V = Jv;

    open spec fn view(&self) -> Jv
        decreases self,
    {
        match self {
            JsonValue::Null => Jv::Null,
            JsonValue::Bool(b) => Jv::Bool(*b),
            JsonValue::Int(i) => Jv::Int(*i as int),
            JsonValue::Float(t) => Jv::Float(t@),
            JsonValue::Text(t) => Jv::Text(t@),
            JsonValue::Sequence(items) => Jv::Sequence(items_view(items@)),
            JsonValue::Mapping(entries) => Jv::Mapping(entries_view(entries@)),
        }
    }
}

/// Shape of a sequence's item list.
pub open spec fn items_view(items: Seq<JsonValue>) -> Seq<Jv>
    decreases items,
{
    if items.len() == 0 {
        Seq::empty()
    } else {
        seq![items[0]@] + items_view(items.subrange(1, items.len() as int))
    }
}

/// Shape of a mapping's entry list.
pub open spec fn entries_view(entries: Seq<(String, JsonValue)>) -> Seq<(Seq<char>, Jv)>
    decreases entries,
{
    if entries.len() == 0 {
        Seq::empty()
    } else {
        seq![(entries[0].0@, entries[0].1@)] + entries_view(
            entries.subrange(1, entries.len() as int),
        )
    }
}

pub proof fn lemma_items_view(items: Seq<JsonValue>)
    ensures
        items_view(items).len() == items.len(),
        forall|i: int| 0 <= i < items.len() ==> items_view(items)[i] == items[i]@,
    decreases items.len(),
{
    if items.len() > 0 {
        let rest = items.subrange(1, items.len() as int);
        lemma_items_view(rest);
        assert(items_view(items) == seq![items[0]@] + items_view(rest));
        assert forall|i: int| 0 <= i < items.len() implies items_view(items)[i] == items[i]@ by {
            if i > 0 {
                assert(items_view(items)[i] == items_view(rest)[i - 1]);
                assert(rest[i - 1] == items[i]);
            }
        }
    }
}

pub proof fn lemma_entries_view(entries: Seq<(String, JsonValue)>)
    ensures
        entries_view(entries).len() == entries.len(),
        forall|i: int|
            0 <= i < entries.len() ==> entries_view(entries)[i] == (
                entries[i].0@,
                entries[i].1@,
            ),
    decreases entries.len(),
{
    if entries.len() > 0 {
        let rest = entries.subrange(1, entries.len() as int);
        lemma_entries_view(rest);
        assert(entries_view(entries) == seq![(entries[0].0@, entries[0].1@)] + entries_view(rest));
        assert forall|i: int|
            0 <= i < entries.len() implies entries_view(entries)[i] == (
            entries[i].0@,
            entries[i].1@,
        ) by {
            if i > 0 {
                assert(entries_view(entries)[i] == entries_view(rest)[i - 1]);
                assert(rest[i - 1] == entries[i]);
            }
        }
    }
}

/// Value bound to `key` in an entry list: the first binding counts.
pub open spec fn spec_mget(entries: Seq<(Seq<char>, Jv)>, key: Seq<char>) -> Option<Jv>
    decreases entries.len(),
{
    if entries.len() == 0 {
        None
    } else if entries[0].0 == key {
        Some(entries[0].1)
    } else {
        spec_mget(entries.skip(1), key)
    }
}

proof fn lemma_mget_step(entries: Seq<(Seq<char>, Jv)>, key: Seq<char>, i: int)
    requires
        0 <= i < entries.len(),
        entries[i].0 != key,
    ensures
        spec_mget(entries.skip(i), key) == spec_mget(entries.skip(i + 1), key),
{
    assert(entries.skip(i).len() > 0);
    assert(entries.skip(i)[0] == entries[i]);
    assert(entries.skip(i).skip(1) =~= entries.skip(i + 1));
}

/// Exact-key lookup over a mapping's entry list.
pub fn mapping_get<'a>(entries: &'a Vec<(String, JsonValue)>, key: &String) -> (r: Option<
    &'a JsonValue,
>)
    ensures
        match r {
            Some(v) => spec_mget(entries_view(entries@), key@) == Some(v@),
            None => spec_mget(entries_view(entries@), key@) is None,
        },
{
    let ghost ev = entries_view(entries@);
    proof {
        lemma_entries_view(entries@);
        assert(ev.skip(0) =~= ev);
    }
    let mut i: usize = 0;
    while i < entries.len()
        invariant
            0 <= i <= entries.len(),
            ev == entries_view(entries@),
            ev.len() == entries.len(),
            spec_mget(ev, key@) == spec_mget(ev.skip(i as int), key@),
        decreases entries.len() - i,
    {
        proof {
            lemma_entries_view(entries@);
            assert(ev[i as int] == (entries@[i as int].0@, entries@[i as int].1@));
        }
        if entries[i].0.eq(key) {
            assert(ev.skip(i as int)[0] == ev[i as int]);
            assert(spec_mget(ev.skip(i as int), key@) == Some(ev[i as int].1));
            return Some(&entries[i].1);
        }
        proof {
            lemma_mget_step(ev, key@, i as int);
        }
        i = i + 1;
    }
    assert(ev.skip(i as int) =~= Seq::<(Seq<char>, Jv)>::empty());
    None
}

/// One tag-wrapper layer peeled off: a `{"__type": <string>, "value": <p>}`
/// mapping yields its payload `p`; any other shape is a decode miss.
pub open spec fn spec_peel(v: Jv) -> Option<Jv> {
    match v {
        Jv::Mapping(es) => {
            if spec_mget(es, "__type"@) matches Some(Jv::Text(_)) {
                spec_mget(es, "value"@)
            } else {
                None
            }
        },
        _ => None,
    }
}

/// Interpret `v` as a tagged value and hand out its payload.
pub fn peel(v: &JsonValue) -> (r: Option<&JsonValue>)
    ensures
        match r {
            Some(p) => spec_peel(v@) == Some(p@),
            None => spec_peel(v@) is None,
        },
{
    match v {
        JsonValue::Mapping(es) => {
            let tag_key = String::from_str("__type");
            match mapping_get(es, &tag_key) {
                Some(JsonValue::Text(_)) => {
                    let value_key = String::from_str("value");
                    mapping_get(es, &value_key)
                },
                _ => None,
            }
        },
        _ => None,
    }
}

pub open spec fn spec_dec_i64(v: Jv) -> Option<i64> {
    match v {
        Jv::Int(i) => if i64::MIN <= i <= i64::MAX {
            Some(i as i64)
        } else {
            None
        },
        _ => None,
    }
}

pub fn dec_i64(v: &JsonValue) -> (r: Option<i64>)
    ensures
        r == spec_dec_i64(v@),
{
    match v {
        JsonValue::Int(i) => Some(*i),
        _ => None,
    }
}

pub open spec fn spec_dec_i32(v: Jv) -> Option<i32> {
    match v {
        Jv::Int(i) => if i32::MIN <= i <= i32::MAX {
            Some(i as i32)
        } else {
            None
        },
        _ => None,
    }
}

pub fn dec_i32(v: &JsonValue) -> (r: Option<i32>)
    ensures
        r == spec_dec_i32(v@),
{
    match v {
        JsonValue::Int(i) => {
            if i32::MIN as i64 <= *i && *i <= i32::MAX as i64 {
                Some(*i as i32)
            } else {
                None
            }
        },
        _ => None,
    }
}

pub open spec fn spec_dec_u32(v: Jv) -> Option<u32> {
    match v {
        Jv::Int(i) => if 0 <= i <= u32::MAX {
            Some(i as u32)
        } else {
            None
        },
        _ => None,
    }
}

pub fn dec_u32(v: &JsonValue) -> (r: Option<u32>)
    ensures
        r == spec_dec_u32(v@),
{
    match v {
        JsonValue::Int(i) => {
            if 0 <= *i && *i <= u32::MAX as i64 {
                Some(*i as u32)
            } else {
                None
            }
        },
        _ => None,
    }
}

pub open spec fn spec_dec_bool(v: Jv) -> Option<bool> {
    match v {
        Jv::Bool(b) => Some(b),
        _ => None,
    }
}

pub fn dec_bool(v: &JsonValue) -> (r: Option<bool>)
    ensures
        r == spec_dec_bool(v@),
{
    match v {
        JsonValue::Bool(b) => Some(*b),
        _ => None,
    }
}

pub open spec fn spec_dec_text(v: Jv) -> Option<Seq<char>> {
    match v {
        Jv::Text(t) => Some(t),
        _ => None,
    }
}

pub fn dec_text(v: &JsonValue) -> (r: Option<String>)
    ensures
        r.deep_view() == spec_dec_text(v@),
{
    match v {
        JsonValue::Text(t) => Some(t.clone()),
        _ => None,
    }
}

pub open spec fn spec_field_i32(es: Seq<(Seq<char>, Jv)>, k: Seq<char>) -> Option<i32> {
    match spec_mget(es, k) {
        Some(f) => spec_dec_i32(f),
        None => None,
    }
}

pub fn field_i32(es: &Vec<(String, JsonValue)>, k: &str) -> (r: Option<i32>)
    ensures
        r == spec_field_i32(entries_view(es@), k@),
{
    match mapping_get(es, &String::from_str(k)) {
        Some(f) => dec_i32(f),
        None => None,
    }
}

pub open spec fn spec_field_i64(es: Seq<(Seq<char>, Jv)>, k: Seq<char>) -> Option<i64> {
    match spec_mget(es, k) {
        Some(f) => spec_dec_i64(f),
        None => None,
    }
}

pub fn field_i64(es: &Vec<(String, JsonValue)>, k: &str) -> (r: Option<i64>)
    ensures
        r == spec_field_i64(entries_view(es@), k@),
{
    match mapping_get(es, &String::from_str(k)) {
        Some(f) => dec_i64(f),
        None => None,
    }
}

pub open spec fn spec_field_u32(es: Seq<(Seq<char>, Jv)>, k: Seq<char>) -> Option<u32> {
    match spec_mget(es, k) {
        Some(f) => spec_dec_u32(f),
        None => None,
    }
}

pub fn field_u32(es: &Vec<(String, JsonValue)>, k: &str) -> (r: Option<u32>)
    ensures
        r == spec_field_u32(entries_view(es@), k@),
{
    match mapping_get(es, &String::from_str(k)) {
        Some(f) => dec_u32(f),
        None => None,
    }
}

pub open spec fn spec_field_bool(es: Seq<(Seq<char>, Jv)>, k: Seq<char>) -> Option<bool> {
    match spec_mget(es, k) {
        Some(f) => spec_dec_bool(f),
        None => None,
    }
}

pub fn field_bool(es: &Vec<(String, JsonValue)>, k: &str) -> (r: Option<bool>)
    ensures
        r == spec_field_bool(entries_view(es@), k@),
{
    match mapping_get(es, &String::from_str(k)) {
        Some(f) => dec_bool(f),
        None => None,
    }
}

pub open spec fn spec_field_text(es: Seq<(Seq<char>, Jv)>, k: Seq<char>) -> Option<Seq<char>> {
    match spec_mget(es, k) {
        Some(f) => spec_dec_text(f),
        None => None,
    }
}

pub fn field_text(es: &Vec<(String, JsonValue)>, k: &str) -> (r: Option<String>)
    ensures
        r.deep_view() == spec_field_text(entries_view(es@), k@),
{
    match mapping_get(es, &String::from_str(k)) {
        Some(f) => dec_text(f),
        None => None,
    }
}

pub open spec fn spec_field_numtext(es: Seq<(Seq<char>, Jv)>, k: Seq<char>) -> Option<Seq<char>> {
    match spec_mget(es, k) {
        Some(f) => spec_dec_numtext(f),
        None => None,
    }
}

pub fn field_numtext(es: &Vec<(String, JsonValue)>, k: &str) -> (r: Option<String>)
    ensures
        r.deep_view() == spec_field_numtext(entries_view(es@), k@),
{
    match mapping_get(es, &String::from_str(k)) {
        Some(f) => dec_numtext(f),
        None => None,
    }
}

pub open spec fn spec_dec_list_i32(items: Seq<Jv>) -> Option<Seq<i32>>
    decreases items.len(),
{
    if items.len() == 0 {
        Some(Seq::empty())
    } else {
        match (spec_dec_list_i32(items.drop_last()), spec_dec_i32(items.last())) {
            (Some(init), Some(x)) => Some(init.push(x)),
            _ => None,
        }
    }
}

proof fn lemma_dec_list_i32_none(items: Seq<Jv>, i: int)
    requires
        0 <= i < items.len(),
        spec_dec_i32(items[i]) is None,
    ensures
        spec_dec_list_i32(items) is None,
    decreases items.len(),
{
    if i < items.len() - 1 {
        assert(items.drop_last()[i] == items[i]);
        lemma_dec_list_i32_none(items.drop_last(), i);
    }
}

pub open spec fn spec_dec_vec_i32(v: Jv) -> Option<Seq<i32>> {
    match v {
        Jv::Sequence(items) => spec_dec_list_i32(items),
        _ => None,
    }
}

#[verifier::loop_isolation(false)]
pub fn dec_vec_i32(v: &JsonValue) -> (r: Option<Vec<i32>>)
    ensures
        r.deep_view() == spec_dec_vec_i32(v@),
{
    match v {
        JsonValue::Sequence(items) => {
            let ghost itv = items_view(items@);
            proof {
                lemma_items_view(items@);
                assert(itv.take(0) =~= Seq::<Jv>::empty());
            }
            let mut out: Vec<i32> = Vec::new();
            proof {
                assert(out.deep_view() =~= Seq::<i32>::empty());
            }
            let mut j: usize = 0;
            while j < items.len()
                invariant
                    0 <= j <= items.len(),
                    spec_dec_list_i32(itv.take(j as int)) == Some(out.deep_view()),
                decreases items.len() - j,
            {
                match dec_i32(&items[j]) {
                    Some(x) => {
                        let ghost prev = out.deep_view();
                        out.push(x);
                        proof {
                            assert(itv.take(j as int + 1).drop_last() =~= itv.take(j as int));
                            assert(itv.take(j as int + 1).last() == itv[j as int]);
                            assert(out.deep_view() =~= prev.push(x));
                        }
                    },
                    None => {
                        proof {
                            lemma_dec_list_i32_none(itv, j as int);
                        }
                        return None;
                    },
                }
                j = j + 1;
            }
            proof {
                assert(itv.take(items@.len() as int) =~= itv);
            }
            Some(out)
        },
        _ => None,
    }
}

pub open spec fn spec_field_vec_i32(es: Seq<(Seq<char>, Jv)>, k: Seq<char>) -> Option<Seq<i32>> {
    match spec_mget(es, k) {
        Some(f) => spec_dec_vec_i32(f),
        None => None,
    }
}

pub fn field_vec_i32(es: &Vec<(String, JsonValue)>, k: &str) -> (r: Option<Vec<i32>>)
    ensures
        r.deep_view() == spec_field_vec_i32(entries_view(es@), k@),
{
    match mapping_get(es, &String::from_str(k)) {
        Some(f) => dec_vec_i32(f),
        None => None,
    }
}

impl JsonValue {
    /// Structural copy; the library's contracts know nothing of a derived
    /// clone, so the copy is spelled out and proved shape-preserving.
    #[verifier::loop_isolation(false)]
    pub fn duplicate(&self) -> (r: JsonValue)
        ensures
            r@ == self@,
        decreases self,
    {
        match self {
            JsonValue::Null => JsonValue::Null,
            JsonValue::Bool(b) => JsonValue::Bool(*b),
            JsonValue::Int(i) => JsonValue::Int(*i),
            JsonValue::Float(t) => JsonValue::Float(t.clone()),
            JsonValue::Text(t) => JsonValue::Text(t.clone()),
            JsonValue::Sequence(items) => {
                let mut out: Vec<JsonValue> = Vec::new();
                let mut j: usize = 0;
                while j < items.len()
                    invariant
                        0 <= j <= items.len(),
                        out@.len() == j,
                        forall|q: int| 0 <= q < j ==> out@[q]@ == items@[q]@,
                    decreases items.len() - j,
                {
                    proof {
                        assert(decreases_to!(*self => (*self)->Sequence_0));
                        assert(decreases_to!(*items => items@));
                        assert(decreases_to!(items@ => items@[j as int]));
                    }
                    let piece = items[j].duplicate();
                    out.push(piece);
                    j = j + 1;
                }
                proof {
                    lemma_items_view(out@);
                    lemma_items_view(items@);
                    assert(items_view(out@) =~= items_view(items@));
                }
                JsonValue::Sequence(out)
            },
            JsonValue::Mapping(entries) => {
                let mut out: Vec<(String, JsonValue)> = Vec::new();
                let mut j: usize = 0;
                while j < entries.len()
                    invariant
                        0 <= j <= entries.len(),
                        out@.len() == j,
                        forall|q: int|
                            0 <= q < j ==> out@[q].0@ == entries@[q].0@ && out@[q].1@
                                == entries@[q].1@,
                    decreases entries.len() - j,
                {
                    proof {
                        assert(decreases_to!(*self => (*self)->Mapping_0));
                        assert(decreases_to!(*entries => entries@));
                        assert(decreases_to!(entries@ => entries@[j as int]));
                        assert(decreases_to!(entries@[j as int] => entries@[j as int].1));
                    }
                    let k = entries[j].0.clone();
                    let piece = entries[j].1.duplicate();
                    out.push((k, piece));
                    j = j + 1;
                }
                proof {
                    lemma_entries_view(out@);
                    lemma_entries_view(entries@);
                    assert(entries_view(out@) =~= entries_view(entries@));
                }
                JsonValue::Mapping(out)
            },
        }
    }
}

pub open spec fn digit_char(d: int) -> char {
    if d == 0 {
        '0'
    } else if d == 1 {
        '1'
    } else if d == 2 {
        '2'
    } else if d == 3 {
        '3'
    } else if d == 4 {
        '4'
    } else if d == 5 {
        '5'
    } else if d == 6 {
        '6'
    } else if d == 7 {
        '7'
    } else if d == 8 {
        '8'
    } else {
        '9'
    }
}

/// Decimal digits of a non-negative number.
pub open spec fn nat_text(n: int) -> Seq<char>
    recommends
        n >= 0,
    decreases n,
{
    if n < 10 {
        seq![digit_char(n)]
    } else {
        nat_text(n / 10).push(digit_char(n % 10))
    }
}

/// Decimal text of an integer, with a leading minus sign when negative.
pub open spec fn int_text(i: int) -> Seq<char> {
    if i < 0 {
        seq!['-'] + nat_text(-i)
    } else {
        nat_text(i)
    }
}

fn digit_str(d: u64) -> (r: &'static str)
    requires
        d < 10,
    ensures
        r@ == seq![digit_char(d as int)],
{
    proof {
        reveal_strlit("0");
        reveal_strlit("1");
        reveal_strlit("2");
        reveal_strlit("3");
        reveal_strlit("4");
        reveal_strlit("5");
        reveal_strlit("6");
        reveal_strlit("7");
        reveal_strlit("8");
        reveal_strlit("9");
    }
    match d {
        0 => "0",
        1 => "1",
        2 => "2",
        3 => "3",
        4 => "4",
        5 => "5",
        6 => "6",
        7 => "7",
        8 => "8",
        _ => "9",
    }
}

fn u64_text(n: u64) -> (r: String)
    ensures
        r@ == nat_text(n as int),
    decreases n,
{
    if n < 10 {
        String::from_str(digit_str(n))
    } else {
        let mut s = u64_text(n / 10);
        s.append(digit_str(n % 10));
        proof {
            assert(nat_text((n / 10) as int).push(digit_char((n % 10) as int)) =~= nat_text(
                (n / 10) as int,
            ) + seq![digit_char((n % 10) as int)]);
        }
        s
    }
}

/// Decimal text of a signed 64-bit integer.
pub fn i64_text(i: i64) -> (r: String)
    ensures
        r@ == int_text(i as int),
{
    if i >= 0 {
        u64_text(i as u64)
    } else {
        let m: u64 = ((-(i + 1)) as u64) + 1;
        let mut s = String::from_str("-");
        let digits = u64_text(m);
        s.append(digits.as_str());
        proof {
            reveal_strlit("-");
            assert(m as int == -(i as int));
            assert(s@ =~= seq!['-'] + nat_text(-(i as int)));
        }
        s
    }
}

pub open spec fn hex_char(d: int) -> char {
    if d < 10 {
        digit_char(d)
    } else if d == 10 {
        'a'
    } else if d == 11 {
        'b'
    } else if d == 12 {
        'c'
    } else if d == 13 {
        'd'
    } else if d == 14 {
        'e'
    } else {
        'f'
    }
}

/// Escape of one character inside a serialized string literal.
pub open spec fn esc_char(c: char) -> Seq<char> {
    if c == '"' {
        seq!['\\', '"']
    } else if c == '\\' {
        seq!['\\', '\\']
    } else if (c as u32) < 32 {
        seq!['\\', 'u', '0', '0', hex_char(c as u32 as int / 16), hex_char(c as u32 as int % 16)]
    } else {
        seq![c]
    }
}

pub open spec fn esc_text(t: Seq<char>) -> Seq<char>
    decreases t.len(),
{
    if t.len() == 0 {
        Seq::empty()
    } else {
        esc_text(t.drop_last()) + esc_char(t.last())
    }
}

/// Serialized form of a string value: quoted, with escapes.
pub open spec fn quote_text(t: Seq<char>) -> Seq<char> {
    seq!['"'] + esc_text(t) + seq!['"']
}

fn hex_str(d: u64) -> (r: &'static str)
    requires
        d < 16,
    ensures
        r@ == seq![hex_char(d as int)],
{
    if d < 10 {
        digit_str(d)
    } else {
        proof {
            reveal_strlit("a");
            reveal_strlit("b");
            reveal_strlit("c");
            reveal_strlit("d");
            reveal_strlit("e");
            reveal_strlit("f");
        }
        match d {
            10 => "a",
            11 => "b",
            12 => "c",
            13 => "d",
            14 => "e",
            _ => "f",
        }
    }
}

/// Quote and escape a string for serialized output.
#[verifier::loop_isolation(false)]
pub fn quote_str(s: &str) -> (r: String)
    ensures
        r@ == quote_text(s@),
{
    let n = s.unicode_len();
    let mut out = String::from_str("\"");
    proof {
        reveal_strlit("\"");
        assert(s@.take(0) =~= Seq::<char>::empty());
        assert(out@ =~= seq!['"'] + esc_text(s@.take(0)));
    }
    let mut i: usize = 0;
    while i < n
        invariant
            0 <= i <= n,
            n == s@.len(),
            out@ == seq!['"'] + esc_text(s@.take(i as int)),
        decreases n - i,
    {
        let c = s.get_char(i);
        if c == '"' {
            out.append("\\\"");
            proof {
                reveal_strlit("\\\"");
            }
        } else if c == '\\' {
            out.append("\\\\");
            proof {
                reveal_strlit("\\\\");
            }
        } else if (c as u32) < 32 {
            out.append("\\u00");
            let code = c as u32;
            let hi = (code / 16) as u64;
            let lo = (code % 16) as u64;
            out.append(hex_str(hi));
            out.append(hex_str(lo));
            proof {
                reveal_strlit("\\u00");
            }
        } else {
            out.append(s.substring_char(i, i + 1));
            proof {
                assert(s@.subrange(i as int, i as int + 1) =~= seq![s@[i as int]]);
            }
        }
        proof {
            assert(s@.take(i as int + 1).drop_last() =~= s@.take(i as int));
            assert(s@.take(i as int + 1).last() == s@[i as int]);
            assert(out@ =~= seq!['"'] + esc_text(s@.take(i as int + 1)));
        }
        i = i + 1;
    }
    out.append("\"");
    proof {
        assert(s@.take(n as int) =~= s@);
        assert(out@ =~= quote_text(s@));
    }
    out
}

/// Serialized text of a dynamic value, in compact object notation.
pub open spec fn jv_text(v: Jv) -> Seq<char>
    decreases v,
{
    match v {
        Jv::Null => "null"@,
        Jv::Bool(b) => if b {
            "true"@
        } else {
            "false"@
        },
        Jv::Int(i) => int_text(i),
        Jv::Float(t) => t,
        Jv::Text(t) => quote_text(t),
        Jv::Sequence(items) => seq!['['] + jv_list_text(items) + seq![']'],
        Jv::Mapping(es) => seq!['{'] + jv_entries_text(es) + seq!['}'],
    }
}

pub open spec fn jv_list_text(items: Seq<Jv>) -> Seq<char>
    decreases items,
{
    if items.len() == 0 {
        Seq::empty()
    } else if items.len() == 1 {
        jv_text(items[0])
    } else {
        jv_list_text(items.drop_last()) + seq![','] + jv_text(items.last())
    }
}

pub open spec fn jv_entry_text(e: (Seq<char>, Jv)) -> Seq<char>
    decreases e,
{
    quote_text(e.0) + seq![':'] + jv_text(e.1)
}

pub open spec fn jv_entries_text(es: Seq<(Seq<char>, Jv)>) -> Seq<char>
    decreases es,
{
    if es.len() == 0 {
        Seq::empty()
    } else if es.len() == 1 {
        jv_entry_text(es[0])
    } else {
        jv_entries_text(es.drop_last()) + seq![','] + jv_entry_text(es.last())
    }
}

/// Serialize an entry list as one mapping in compact object notation.
#[verifier::loop_isolation(false)]
pub fn entries_json_text(entries: &Vec<(String, JsonValue)>) -> (r: String)
    ensures
        r@ == seq!['{'] + jv_entries_text(entries_view(entries@)) + seq!['}'],
    decreases *entries,
{
    let ghost ev = entries_view(entries@);
    let mut out = String::from_str("{");
    proof {
        lemma_entries_view(entries@);
        reveal_strlit("{");
        assert(ev.take(0) =~= Seq::<(Seq<char>, Jv)>::empty());
        assert(out@ =~= seq!['{'] + jv_entries_text(ev.take(0)));
    }
    let mut j: usize = 0;
    while j < entries.len()
        invariant
            0 <= j <= entries.len(),
            out@ == seq!['{'] + jv_entries_text(ev.take(j as int)),
        decreases entries.len() - j,
    {
        if j > 0 {
            out.append(",");
            proof {
                reveal_strlit(",");
            }
        }
        let key_part = quote_str(entries[j].0.as_str());
        out.append(key_part.as_str());
        out.append(":");
        proof {
            reveal_strlit(":");
            assert(decreases_to!(*entries => entries@));
            assert(decreases_to!(entries@ => entries@[j as int]));
            assert(decreases_to!(entries@[j as int] => entries@[j as int].1));
        }
        let piece = entries[j].1.json_text();
        out.append(piece.as_str());
        proof {
            assert(ev.take(j as int + 1).drop_last() =~= ev.take(j as int));
            assert(ev.take(j as int + 1).last() == ev[j as int]);
            if j == 0 {
                assert(ev.take(1).len() == 1);
            }
            assert(jv_entry_text(ev[j as int]) == quote_text(entries@[j as int].0@) + seq![':']
                + jv_text(entries@[j as int].1@));
            assert(out@ =~= seq!['{'] + jv_entries_text(ev.take(j as int + 1)));
        }
        j = j + 1;
    }
    out.append("}");
    proof {
        reveal_strlit("}");
        assert(ev.take(entries@.len() as int) =~= ev);
    }
    out
}

impl JsonValue {
    /// Serialize this value as compact object-notation text.
    #[verifier::loop_isolation(false)]
    pub fn json_text(&self) -> (r: String)
        ensures
            r@ == jv_text(self@),
        decreases self,
    {
        match self {
            JsonValue::Null => String::from_str("null"),
            JsonValue::Bool(b) => if *b {
                String::from_str("true")
            } else {
                String::from_str("false")
            },
            JsonValue::Int(i) => i64_text(*i),
            JsonValue::Float(t) => t.clone(),
            JsonValue::Text(t) => quote_str(t.as_str()),
            JsonValue::Sequence(items) => {
                let ghost itv = items_view(items@);
                let mut out = String::from_str("[");
                proof {
                    lemma_items_view(items@);
                    reveal_strlit("[");
                    assert(itv.take(0) =~= Seq::<Jv>::empty());
                    assert(out@ =~= seq!['['] + jv_list_text(itv.take(0)));
                }
                let mut j: usize = 0;
                while j < items.len()
                    invariant
                        0 <= j <= items.len(),
                        out@ == seq!['['] + jv_list_text(itv.take(j as int)),
                    decreases items.len() - j,
                {
                    if j > 0 {
                        out.append(",");
                        proof {
                            reveal_strlit(",");
                        }
                    }
                    proof {
                        assert(decreases_to!(*self => (*self)->Sequence_0));
                        assert(decreases_to!(*items => items@));
                        assert(decreases_to!(items@ => items@[j as int]));
                    }
                    let piece = items[j].json_text();
                    out.append(piece.as_str());
                    proof {
                        assert(itv.take(j as int + 1).drop_last() =~= itv.take(j as int));
                        assert(itv.take(j as int + 1).last() == itv[j as int]);
                        if j == 0 {
                            assert(itv.take(1).len() == 1);
                        }
                        assert(out@ =~= seq!['['] + jv_list_text(itv.take(j as int + 1)));
                    }
                    j = j + 1;
                }
                out.append("]");
                proof {
                    reveal_strlit("]");
                    assert(itv.take(items@.len() as int) =~= itv);
                }
                out
            },
            JsonValue::Mapping(entries) => {
                proof {
                    assert(decreases_to!(*self => (*self)->Mapping_0));
                }
                entries_json_text(entries)
            },
        }
    }
}

/// Number payload kept as decimal text: an integral number is given a `.0`
/// fractional part, matching how the engine's floats read back out; any
/// other number keeps its decimal text unchanged.
pub open spec fn spec_dec_numtext(v: Jv) -> Option<Seq<char>> {
    match v {
        Jv::Int(i) => Some(int_text(i) + ".0"@),
        Jv::Float(t) => Some(t),
        _ => None,
    }
}

pub fn dec_numtext(v: &JsonValue) -> (r: Option<String>)
    ensures
        r.deep_view() == spec_dec_numtext(v@),
{
    match v {
        JsonValue::Int(i) => {
            let mut s = i64_text(*i);
            s.append(".0");
            Some(s)
        },
        JsonValue::Float(t) => Some(t.clone()),
        _ => None,
    }
}

} // verus!
