//! A JSON document as a tree of plain values, and typed access to the fields
//! of a JSON object.

use vstd::prelude::*;

verus! {

broadcast use vstd::std_specs::vec::group_vec_axioms;

/// A parsed JSON value. Numbers keep their decimal text, so that integers of
/// any size stay exact and no floating point is involved.
#[derive(Debug, PartialEq)]
pub enum JsonValue {
    Null,
    Bool(bool),
    Number(String),
    Str(String),
    Array(Vec<JsonValue>),
    Object(Vec<(String, JsonValue)>),
}

/// The mathematical form of a `JsonValue`.
pub enum JsonTree {
    Null,
    Bool(bool),
    Number(Seq<char>),
    Str(Seq<char>),
    Array(Seq<JsonTree>),
    Object(Seq<(Seq<char>, JsonTree)>),
}

pub open spec fn tree_of(j: JsonValue) -> JsonTree
    decreases j,
{
    match j {
        JsonValue::Null => JsonTree::Null,
        JsonValue::Bool(b) => JsonTree::Bool(b),
        JsonValue::Number(t) => JsonTree::Number(t@),
        JsonValue::Str(s) => JsonTree::Str(s@),
        JsonValue::Array(v) => JsonTree::Array(
            Seq::new(
                v.len() as nat,
                |i: int|
                    if 0 <= i < v.len() {
                        tree_of(v[i])
                    } else {
                        JsonTree::Null
                    },
            ),
        ),
        JsonValue::Object(m) => JsonTree::Object(
            Seq::new(
                m.len() as nat,
                |i: int|
                    if 0 <= i < m.len() {
                        (m[i].0@, tree_of(m[i].1))
                    } else {
                        (Seq::empty(), JsonTree::Null)
                    },
            ),
        ),
    }
}

impl View for JsonValue {
    type V = JsonTree;

    open spec fn view(&self) -> JsonTree {
        tree_of(*self)
    }
}

#[verifier::external_type_specification]
#[verifier::external_body]
pub struct ExSerdeJsonValue(serde_json::Value);

/// What serde_json reads from a text: `None` where the text is not one JSON
/// document.
pub uninterp spec fn json_tree(text: Seq<char>) -> Option<JsonTree>;

pub open spec fn opt_tree(o: Option<JsonValue>) -> Option<JsonTree> {
    match o {
        Some(j) => Some(j@),
        None => None,
    }
}

/// Relies on serde_json::from_str into serde_json::Value: whether the text is
/// a JSON document, and the tree that it holds.
#[verifier::external_body]
pub(crate) fn parse_json(text: &str) -> (r: Option<JsonValue>)
    ensures
        opt_tree(r) == json_tree(text@),
{
    match serde_json::from_str::<serde_json::Value>(text) {
        Ok(v) => Some(from_serde(v)),
        Err(_) => None,
    }
}

/// Relies on the variants of serde_json::Value: each one moves into the
/// variant of the same name, a number as its decimal text.
#[verifier::external_body]
fn from_serde(v: serde_json::Value) -> JsonValue {
    match v {
        serde_json::Value::Null => JsonValue::Null,
        serde_json::Value::Bool(b) => JsonValue::Bool(b),
        serde_json::Value::Number(n) => JsonValue::Number(n.to_string()),
        serde_json::Value::String(s) => JsonValue::Str(s),
        serde_json::Value::Array(a) => JsonValue::Array(a.into_iter().map(from_serde).collect()),
        serde_json::Value::Object(m) => JsonValue::Object(
            m.into_iter().map(|(k, x)| (k, from_serde(x))).collect(),
        ),
    }
}

/// The value of the first entry named `k`, from index `i` on.
pub open spec fn entry_from(entries: Seq<(Seq<char>, JsonTree)>, k: Seq<char>, i: int) -> Option<
    JsonTree,
>
    decreases entries.len() - i,
{
    if i < 0 || i >= entries.len() {
        None
    } else if entries[i].0 == k {
        Some(entries[i].1)
    } else {
        entry_from(entries, k, i + 1)
    }
}

/// The member `k` of an object; `None` where `t` is no object or has no such member.
pub open spec fn member(t: JsonTree, k: Seq<char>) -> Option<JsonTree> {
    match t {
        JsonTree::Object(entries) => entry_from(entries, k, 0),
        _ => None,
    }
}

/// Whether two strings hold the same characters.
pub fn str_eq(a: &str, b: &str) -> (r: bool)
    ensures
        r == (a@ == b@),
{
    let n = a.unicode_len();
    if n != b.unicode_len() {
        return false;
    }
    let mut i: usize = 0;
    while i < n
        invariant
            n == a@.len(),
            n == b@.len(),
            i <= n,
            forall|x: int| 0 <= x < i ==> a@[x] == b@[x],
        decreases n - i,
    {
        if a.get_char(i) != b.get_char(i) {
            return false;
        }
        i += 1;
    }
    assert(a@ =~= b@);
    true
}

/// The member `k` of `j`, where `j` is an object that has one.
pub fn get_member<'a>(j: &'a JsonValue, k: &str) -> (r: Option<&'a JsonValue>)
    ensures
        match r {
            Some(v) => member(j@, k@) == Some(v@),
            None => member(j@, k@) is None,
        },
{
    match j {
        JsonValue::Object(m) => {
            let ghost entries = match j@ {
                JsonTree::Object(e) => e,
                _ => Seq::empty(),
            };
            assert(entries.len() == m.len());
            let mut i: usize = 0;
            while i < m.len()
                invariant
                    i <= m.len(),
                    entries.len() == m.len(),
                    j@ == JsonTree::Object(entries),
                    forall|x: int| 0 <= x < m.len() ==> entries[x] == (m[x].0@, m[x].1@),
                    entry_from(entries, k@, 0) == entry_from(entries, k@, i as int),
                decreases m.len() - i,
            {
                if str_eq(m[i].0.as_str(), k) {
                    return Some(&m[i].1);
                }
                i += 1;
            }
            None
        },
        _ => None,
    }
}

/// The value of a string of decimal digits.
pub open spec fn digits_value(s: Seq<char>) -> int
    decreases s.len(),
{
    if s.len() == 0 {
        0
    } else {
        digits_value(s.drop_last()) * 10 + (s.last() as int - '0' as int)
    }
}

pub open spec fn all_digits(s: Seq<char>) -> bool {
    forall|i: int| 0 <= i < s.len() ==> '0' <= #[trigger] s[i] <= '9'
}

/// The integer that a number's text denotes: digits, after an optional minus
/// sign. `None` for any other text (a fraction or an exponent).
pub open spec fn int_text(t: Seq<char>) -> Option<int> {
    if t.len() > 0 && t[0] == '-' {
        if t.len() > 1 && all_digits(t.drop_first()) {
            Some(-digits_value(t.drop_first()))
        } else {
            None
        }
    } else if t.len() > 0 && all_digits(t) {
        Some(digits_value(t))
    } else {
        None
    }
}

pub open spec fn fits_i64(v: int) -> bool {
    i64::MIN <= v <= i64::MAX
}

/// The `i64` that a number's text denotes, where it denotes one in range.
pub open spec fn i64_text(t: Seq<char>) -> Option<int> {
    match int_text(t) {
        Some(v) => if fits_i64(v) {
            Some(v)
        } else {
            None
        },
        None => None,
    }
}

proof fn lemma_digits_step(s: Seq<char>, i: int)
    requires
        0 <= i < s.len(),
    ensures
        digits_value(s.subrange(0, i + 1)) == digits_value(s.subrange(0, i)) * 10 + (s[i] as int
            - '0' as int),
{
    assert(s.subrange(0, i + 1).drop_last() =~= s.subrange(0, i));
}

proof fn lemma_digits_nonneg(s: Seq<char>)
    requires
        all_digits(s),
    ensures
        digits_value(s) >= 0,
    decreases s.len(),
{
    if s.len() > 0 {
        lemma_digits_nonneg(s.drop_last());
    }
}

/// The magnitude of the digits of `t` from index `start` on, where all of them
/// are digits and their value stays below 2^64.
fn digits_u64(t: &str, start: usize) -> (r: Option<u64>)
    requires
        start <= t@.len(),
    ensures
        match r {
            Some(v) => all_digits(t@.skip(start as int)) && v == digits_value(t@.skip(start as int)),
            None => !all_digits(t@.skip(start as int)) || digits_value(t@.skip(start as int))
                > u64::MAX,
        },
{
    let n = t.unicode_len();
    let ghost d = t@.skip(start as int);
    let mut acc: u64 = 0;
    let mut i: usize = start;
    while i < n
        invariant
            n == t@.len(),
            start <= i <= n,
            d == t@.skip(start as int),
            all_digits(d.subrange(0, i - start)),
            acc == digits_value(d.subrange(0, i - start)),
        decreases n - i,
    {
        let c = t.get_char(i);
        proof {
            lemma_digits_step(d, i - start);
            assert(d[i - start] == c);
        }
        if c < '0' || c > '9' {
            assert(!all_digits(d)) by {
                assert(d[i - start] == c);
            }
            return None;
        }
        let dv = (c as u32 - '0' as u32) as u64;
        assert(all_digits(d.subrange(0, i + 1 - start))) by {
            assert forall|x: int| 0 <= x < i + 1 - start implies '0' <= #[trigger] d.subrange(
                0,
                i + 1 - start,
            )[x] <= '9' by {
                if x < i - start {
                    assert(d.subrange(0, i + 1 - start)[x] == d.subrange(0, i - start)[x]);
                }
            }
        }
        if acc > (u64::MAX - dv) / 10 {
            proof {
                assert(acc * 10 + dv > u64::MAX) by (nonlinear_arith)
                    requires
                        acc > (u64::MAX - dv) / 10,
                        dv <= 9,
                ;
                if all_digits(d) {
                    lemma_digits_prefix_bound(d, (i + 1 - start) as int);
                }
            }
            return None;
        }
        acc = acc * 10 + dv;
        i += 1;
    }
    assert(d.subrange(0, n - start) =~= d);
    Some(acc)
}

/// A longer string of digits is worth at least as much as its prefix.
proof fn lemma_digits_prefix_bound(s: Seq<char>, k: int)
    requires
        0 <= k <= s.len(),
        all_digits(s),
    ensures
        digits_value(s) >= digits_value(s.subrange(0, k)),
    decreases s.len() - k,
{
    if k < s.len() {
        lemma_digits_step(s, k);
        assert(all_digits(s.subrange(0, k))) by {
            assert forall|x: int| 0 <= x < k implies '0' <= #[trigger] s.subrange(0, k)[x] <= '9' by {
                assert(s.subrange(0, k)[x] == s[x]);
            }
        }
        lemma_digits_nonneg(s.subrange(0, k));
        lemma_digits_prefix_bound(s, k + 1);
    } else {
        assert(s.subrange(0, k) =~= s);
    }
}

/// The `i64` that a number's text denotes.
pub fn parse_i64(t: &str) -> (r: Option<i64>)
    ensures
        match r {
            Some(v) => i64_text(t@) == Some(v as int),
            None => i64_text(t@) is None,
        },
{
    let n = t.unicode_len();
    if n == 0 {
        return None;
    }
    if t.get_char(0) == '-' {
        if n == 1 {
            return None;
        }
        assert(t@.skip(1) =~= t@.drop_first());
        match digits_u64(t, 1) {
            Some(m) => {
                if m <= 9223372036854775807 {
                    Some(-(m as i64))
                } else if m == 9223372036854775808 {
                    Some(i64::MIN)
                } else {
                    None
                }
            },
            None => None,
        }
    } else {
        assert(t@.skip(0) =~= t@);
        match digits_u64(t, 0) {
            Some(m) => {
                if m <= 9223372036854775807 {
                    Some(m as i64)
                } else {
                    None
                }
            },
            None => None,
        }
    }
}

pub open spec fn str_member(t: JsonTree, k: Seq<char>) -> Option<Seq<char>> {
    match member(t, k) {
        Some(JsonTree::Str(s)) => Some(s),
        _ => None,
    }
}

/// An optional string member: `Some(None)` where it is absent or null, `None`
/// where it holds anything but a string.
pub open spec fn opt_str_member(t: JsonTree, k: Seq<char>) -> Option<Option<Seq<char>>> {
    match member(t, k) {
        None => Some(None),
        Some(JsonTree::Null) => Some(None),
        Some(JsonTree::Str(s)) => Some(Some(s)),
        _ => None,
    }
}

pub open spec fn int_member(t: JsonTree, k: Seq<char>) -> Option<int> {
    match member(t, k) {
        Some(JsonTree::Number(n)) => i64_text(n),
        _ => None,
    }
}

pub open spec fn opt_int_member(t: JsonTree, k: Seq<char>) -> Option<Option<int>> {
    match member(t, k) {
        None => Some(None),
        Some(JsonTree::Null) => Some(None),
        Some(JsonTree::Number(n)) => match i64_text(n) {
            Some(v) => Some(Some(v)),
            None => None,
        },
        _ => None,
    }
}

pub open spec fn opt_bool_member(t: JsonTree, k: Seq<char>) -> Option<Option<bool>> {
    match member(t, k) {
        None => Some(None),
        Some(JsonTree::Null) => Some(None),
        Some(JsonTree::Bool(b)) => Some(Some(b)),
        _ => None,
    }
}

pub open spec fn str_of(t: JsonTree) -> Seq<char> {
    match t {
        JsonTree::Str(s) => s,
        _ => Seq::empty(),
    }
}

/// A member that is an array of strings.
pub open spec fn str_list_member(t: JsonTree, k: Seq<char>) -> Option<Seq<Seq<char>>> {
    match member(t, k) {
        Some(JsonTree::Array(items)) => if forall|i: int|
            0 <= i < items.len() ==> #[trigger] items[i] is Str {
            Some(items.map_values(|x: JsonTree| str_of(x)))
        } else {
            None
        },
        _ => None,
    }
}

/// An optional member of any kind: `None` where it is absent or null.
pub open spec fn opt_value_member(t: JsonTree, k: Seq<char>) -> Option<JsonTree> {
    match member(t, k) {
        Some(JsonTree::Null) => None,
        x => x,
    }
}

pub open spec fn opt_str_view(o: Option<String>) -> Option<Seq<char>> {
    match o {
        Some(s) => Some(s@),
        None => None,
    }
}

pub open spec fn opt_int_view(o: Option<i64>) -> Option<int> {
    match o {
        Some(v) => Some(v as int),
        None => None,
    }
}

pub open spec fn strs_view(v: Vec<String>) -> Seq<Seq<char>> {
    v@.map_values(|s: String| s@)
}

pub fn get_str(j: &JsonValue, k: &str) -> (r: Option<String>)
    ensures
        opt_str_view(r) == str_member(j@, k@),
{
    match get_member(j, k) {
        Some(JsonValue::Str(s)) => Some(s.clone()),
        _ => None,
    }
}

pub fn get_opt_str(j: &JsonValue, k: &str) -> (r: Option<Option<String>>)
    ensures
        match r {
            Some(o) => opt_str_member(j@, k@) == Some(opt_str_view(o)),
            None => opt_str_member(j@, k@) is None,
        },
{
    match get_member(j, k) {
        None => Some(None),
        Some(JsonValue::Null) => Some(None),
        Some(JsonValue::Str(s)) => Some(Some(s.clone())),
        _ => None,
    }
}

pub fn get_i64(j: &JsonValue, k: &str) -> (r: Option<i64>)
    ensures
        opt_int_view(r) == int_member(j@, k@),
{
    match get_member(j, k) {
        Some(JsonValue::Number(n)) => parse_i64(n.as_str()),
        _ => None,
    }
}

pub fn get_opt_i64(j: &JsonValue, k: &str) -> (r: Option<Option<i64>>)
    ensures
        match r {
            Some(o) => opt_int_member(j@, k@) == Some(opt_int_view(o)),
            None => opt_int_member(j@, k@) is None,
        },
{
    match get_member(j, k) {
        None => Some(None),
        Some(JsonValue::Null) => Some(None),
        Some(JsonValue::Number(n)) => match parse_i64(n.as_str()) {
            Some(v) => Some(Some(v)),
            None => None,
        },
        _ => None,
    }
}

pub fn get_opt_bool(j: &JsonValue, k: &str) -> (r: Option<Option<bool>>)
    ensures
        r == opt_bool_member(j@, k@),
{
    match get_member(j, k) {
        None => Some(None),
        Some(JsonValue::Null) => Some(None),
        Some(JsonValue::Bool(b)) => Some(Some(*b)),
        _ => None,
    }
}

pub fn get_str_list(j: &JsonValue, k: &str) -> (r: Option<Vec<String>>)
    ensures
        match r {
            Some(v) => str_list_member(j@, k@) == Some(strs_view(v)),
            None => str_list_member(j@, k@) is None,
        },
{
    match get_member(j, k) {
        Some(JsonValue::Array(items)) => {
            let ghost t = JsonValue::Array(*items)@;
            let ghost ts = match t {
                JsonTree::Array(x) => x,
                _ => Seq::empty(),
            };
            assert(ts.len() == items.len());
            let mut out: Vec<String> = Vec::new();
            let mut i: usize = 0;
            while i < items.len()
                invariant
                    i <= items.len(),
                    ts.len() == items.len(),
                    member(j@, k@) == Some(JsonTree::Array(ts)),
                    forall|x: int| 0 <= x < items.len() ==> ts[x] == items[x]@,
                    out.len() == i,
                    forall|x: int| 0 <= x < i ==> ts[x] is Str,
                    forall|x: int| 0 <= x < i ==> out[x]@ == str_of(ts[x]),
                decreases items.len() - i,
            {
                match &items[i] {
                    JsonValue::Str(s) => {
                        out.push(s.clone());
                    },
                    _ => {
                        assert(!(ts[i as int] is Str));
                        return None;
                    },
                }
                i += 1;
            }
            assert(strs_view(out) =~= ts.map_values(|x: JsonTree| str_of(x)));
            Some(out)
        },
        _ => None,
    }
}

/// A copy of a JSON value.
pub fn copy_json(j: &JsonValue) -> (r: JsonValue)
    ensures
        r@ == j@,
    decreases j,
{
    match j {
        JsonValue::Null => JsonValue::Null,
        JsonValue::Bool(b) => JsonValue::Bool(*b),
        JsonValue::Number(t) => JsonValue::Number(t.clone()),
        JsonValue::Str(s) => JsonValue::Str(s.clone()),
        JsonValue::Array(v) => {
            let ghost js = match j@ {
                JsonTree::Array(x) => x,
                _ => Seq::empty(),
            };
            assert forall|x: int| 0 <= x < v.len() implies decreases_to!(*j => #[trigger] v[x]) by {
                assert(decreases_to!(*j => *v));
                assert(decreases_to!(*v => v[x]));
            }
            let mut out: Vec<JsonValue> = Vec::new();
            let mut i: usize = 0;
            while i < v.len()
                invariant
                    i <= v.len(),
                    out.len() == i,
                    j@ == JsonTree::Array(js),
                    js.len() == v.len(),
                    forall|x: int| 0 <= x < v.len() ==> js[x] == v[x]@,
                    forall|x: int| 0 <= x < v.len() ==> decreases_to!(*j => #[trigger] v[x]),
                    forall|x: int| 0 <= x < i ==> out[x]@ == v[x]@,
                decreases v.len() - i,
            {
                out.push(copy_json(&v[i]));
                i += 1;
            }
            let r = JsonValue::Array(out);
            let ghost rs = match r@ {
                JsonTree::Array(x) => x,
                _ => Seq::empty(),
            };
            assert(rs =~= js);
            r
        },
        JsonValue::Object(m) => {
            let ghost js = match j@ {
                JsonTree::Object(x) => x,
                _ => Seq::empty(),
            };
            assert forall|x: int| 0 <= x < m.len() implies decreases_to!(*j => #[trigger] m[x].1) by {
                assert(decreases_to!(*j => *m));
                assert(decreases_to!(*m => m[x]));
            }
            let mut out: Vec<(String, JsonValue)> = Vec::new();
            let mut i: usize = 0;
            while i < m.len()
                invariant
                    i <= m.len(),
                    out.len() == i,
                    j@ == JsonTree::Object(js),
                    js.len() == m.len(),
                    forall|x: int| 0 <= x < m.len() ==> js[x] == (m[x].0@, m[x].1@),
                    forall|x: int| 0 <= x < m.len() ==> decreases_to!(*j => #[trigger] m[x].1),
                    forall|x: int| 0 <= x < i ==> out[x].0@ == m[x].0@ && out[x].1@ == m[x].1@,
                decreases m.len() - i,
            {
                let v = copy_json(&m[i].1);
                out.push((m[i].0.clone(), v));
                i += 1;
            }
            let r = JsonValue::Object(out);
            let ghost rs = match r@ {
                JsonTree::Object(x) => x,
                _ => Seq::empty(),
            };
            assert(rs =~= js);
            r
        },
    }
}

impl Clone for JsonValue {
    fn clone(&self) -> (r: Self)
        ensures
            r@ == self@,
    {
        copy_json(self)
    }
}

pub fn get_opt_value(j: &JsonValue, k: &str) -> (r: Option<JsonValue>)
    ensures
        opt_tree(r) == opt_value_member(j@, k@),
{
    match get_member(j, k) {
        None => None,
        Some(JsonValue::Null) => None,
        Some(v) => Some(copy_json(v)),
    }
}

} // verus!
