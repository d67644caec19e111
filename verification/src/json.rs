//! JSON values as the library reads them: a value is the list of its nodes, each with
//! its path of keys from the root (an array element's key is its index in decimal) and
//! what stands there (a scalar, with a number kept as its text, or the mark of an array
//! or object). serde_json parses; the library looks nodes up by path.

use vstd::prelude::*;
use crate::text::{
    all_digits, chars_of, digit_value, digits_value, parse_u64_max,
    parse_unsigned, split, split_char, unsigned_digits, lemma_split_nonempty,
};

verus! {

/// What stands at one place of a JSON document.
#[derive(Debug, Clone)]
pub enum JsonItem {
    Null,
    Bool(bool),
    /// A number, as serde_json writes it.
    Number(String),
    Text(String),
    /// An array, with its length; its elements are nodes of their own.
    Array(usize),
    /// An object; its members are nodes of their own.
    Object,
}

/// The value of a [`JsonItem`], its texts taken as characters.
pub enum ItemView {
    Null,
    Bool(bool),
    Number(Seq<char>),
    Text(Seq<char>),
    Array(nat),
    Object,
}

impl View for JsonItem {
    type V = ItemView;

    open spec fn view(&self) -> ItemView {
        match self {
            JsonItem::Null => ItemView::Null,
            JsonItem::Bool(b) => ItemView::Bool(*b),
            JsonItem::Number(t) => ItemView::Number(t@),
            JsonItem::Text(t) => ItemView::Text(t@),
            JsonItem::Array(n) => ItemView::Array(*n as nat),
            JsonItem::Object => ItemView::Object,
        }
    }
}

/// The path of keys of a node, as text.
pub open spec fn keys_view(p: Seq<String>) -> Seq<Seq<char>> {
    p.map_values(|s: String| s@)
}

#[verifier::external_type_specification]
#[verifier::external_body]
pub struct ExJsonValue(serde_json::Value);

/// What a `serde_json::Value` holds, as the list of its nodes: each with its path of keys
/// from the root (an array element's key is its index in decimal) and what stands there;
/// the root first, each container before its members, members in the order serde_json
/// keeps them.
pub uninterp spec fn json_nodes(v: serde_json::Value) -> Seq<(Seq<Seq<char>>, ItemView)>;

/// The nodes of the document serde_json reads from `bytes`, or its error message.
pub uninterp spec fn json_document(bytes: Seq<u8>) -> Result<Seq<(Seq<Seq<char>>, ItemView)>, Seq<char>>;

/// Parses `bytes` with `serde_json::from_slice` into a `serde_json::Value`. Claimed: the
/// outcome (the value's nodes, or the error's `Display` text) is a function of the bytes
/// alone, named [`json_document`]; nothing more is claimed of serde_json's parser.
#[verifier::external_body]
pub(crate) fn parse_json(bytes: &[u8]) -> (r: Result<serde_json::Value, String>)
    ensures
        match r {
            Ok(v) => json_document(bytes@) == Ok::<_, Seq<char>>(json_nodes(v)),
            Err(e) => json_document(bytes@) == Err::<Seq<(Seq<Seq<char>>, ItemView)>, _>(e@),
        },
{
    serde_json::from_slice(bytes).map_err(|e| e.to_string())
}

/// `Value::pointer` with the pointer of `path` (each key with `~` written `~0` and `/`
/// written `~1`, after a `/`), what stands there converted variant by variant (a number
/// by its `Display` text, an array with its length). Claimed: it is the node at that path
/// among the value's nodes; serde_json's pointer walks object members by key and array
/// elements by an index written without sign or leading zero.
#[verifier::external_body]
pub(crate) fn item_at(v: &serde_json::Value, path: &Vec<String>) -> (r: Option<JsonItem>)
    ensures
        match r {
            Some(x) => Some(x@),
            None => None::<ItemView>,
        } == node_at(json_nodes(*v), keys_view(path@)),
{
    let ptr: String = path.iter().map(|k| format!("/{}", k.replace('~', "~0").replace('/', "~1"))).collect();
    v.pointer(&ptr).map(|x| match x {
        serde_json::Value::Null => JsonItem::Null,
        serde_json::Value::Bool(b) => JsonItem::Bool(*b),
        serde_json::Value::Number(n) => JsonItem::Number(n.to_string()),
        serde_json::Value::String(t) => JsonItem::Text(t.clone()),
        serde_json::Value::Array(a) => JsonItem::Array(a.len()),
        serde_json::Value::Object(_) => JsonItem::Object,
    })
}

/// The keys of the members of the object at `path`, in the order serde_json keeps them
/// (none when there is no object there): `Value::pointer`, then the map's keys. Claimed:
/// they are the keys of that node's members among the value's nodes, in order.
#[verifier::external_body]
pub(crate) fn object_keys(v: &serde_json::Value, path: &Vec<String>) -> (r: Vec<String>)
    ensures
        keys_view(r@) == member_keys(json_nodes(*v), keys_view(path@)),
{
    let ptr: String = path.iter().map(|k| format!("/{}", k.replace('~', "~0").replace('/', "~1"))).collect();
    match v.pointer(&ptr) {
        Some(serde_json::Value::Object(m)) => m.keys().cloned().collect(),
        _ => Vec::new(),
    }
}

/// A copy of what stands at `path` (`Value::pointer`, cloned). Claimed: there is one
/// exactly when a node stands there, and its nodes are those under that path, the path
/// taken off.
#[verifier::external_body]
pub(crate) fn value_at(v: &serde_json::Value, path: &Vec<String>) -> (r: Option<serde_json::Value>)
    ensures
        r is Some <==> node_at(json_nodes(*v), keys_view(path@)) is Some,
        r matches Some(x) ==> json_nodes(x) == subtree(json_nodes(*v), keys_view(path@)),
{
    let ptr: String = path.iter().map(|k| format!("/{}", k.replace('~', "~0").replace('/', "~1"))).collect();
    v.pointer(&ptr).cloned()
}

// ───────────────────────── finding nodes ─────────────────────────

/// What stands at path `p` among `nodes` (the first node with that path), if anything.
pub open spec fn node_at(nodes: Seq<(Seq<Seq<char>>, ItemView)>, p: Seq<Seq<char>>) -> Option<ItemView>
    decreases nodes.len(),
{
    if nodes.len() == 0 {
        None
    } else if nodes[0].0 == p {
        Some(nodes[0].1)
    } else {
        node_at(nodes.drop_first(), p)
    }
}

/// Whether path `q` names a member of the node at `p`.
pub open spec fn is_member(q: Seq<Seq<char>>, p: Seq<Seq<char>>) -> bool {
    q.len() == p.len() + 1 && q.take(p.len() as int) == p
}

/// The keys of the nodes that are members of the node at `p`, in order.
pub open spec fn child_keys(nodes: Seq<(Seq<Seq<char>>, ItemView)>, p: Seq<Seq<char>>) -> Seq<Seq<char>>
    decreases nodes.len(),
{
    if nodes.len() == 0 {
        Seq::empty()
    } else {
        let rest = child_keys(nodes.drop_last(), p);
        if is_member(nodes.last().0, p) {
            rest.push(nodes.last().0.last())
        } else {
            rest
        }
    }
}

/// The keys of the members of the object at `p` (none when no object stands there).
pub open spec fn member_keys(nodes: Seq<(Seq<Seq<char>>, ItemView)>, p: Seq<Seq<char>>) -> Seq<Seq<char>> {
    if node_at(nodes, p) == Some(ItemView::Object) {
        child_keys(nodes, p)
    } else {
        Seq::empty()
    }
}

/// The nodes at or under `p`, in order, with `p` taken off their paths.
pub open spec fn subtree(nodes: Seq<(Seq<Seq<char>>, ItemView)>, p: Seq<Seq<char>>) -> Seq<(Seq<Seq<char>>, ItemView)>
    decreases nodes.len(),
{
    if nodes.len() == 0 {
        Seq::empty()
    } else {
        let rest = subtree(nodes.drop_last(), p);
        let q = nodes.last().0;
        if p.len() <= q.len() && q.take(p.len() as int) == p {
            rest.push((q.skip(p.len() as int), nodes.last().1))
        } else {
            rest
        }
    }
}

/// The path `p` with the key `k` appended.
pub fn child_path(p: &Vec<String>, k: &str) -> (r: Vec<String>)
    ensures
        keys_view(r@) == keys_view(p@).push(k@),
{
    let mut r = p.clone();
    assert(keys_view(r@) =~= keys_view(p@)) by {
        assert forall|j: int| 0 <= j < r@.len() implies r@[j]@ == p@[j]@ by {
            assert(vstd::pervasive::cloned(p@[j], r@[j]));
        }
    }
    r.push(k.to_string());
    assert(keys_view(r@) =~= keys_view(p@).push(k@));
    r
}

// ───────────────────────── reading scalars ─────────────────────────

/// A node read as text: only a string is.
pub open spec fn text_of(n: Option<ItemView>) -> Option<Seq<char>> {
    match n {
        Some(ItemView::Text(t)) => Some(t),
        _ => None,
    }
}

/// A node read as an unsigned integer the way `Value::as_u64` reads it: a number written
/// as plain digits (serde_json writes a non-negative integer so, and any other number with
/// a sign, a point or an exponent), no larger than `u64::MAX`.
pub open spec fn number_u64(n: Option<ItemView>) -> Option<u64> {
    match n {
        Some(ItemView::Number(t)) => match parse_unsigned(t, u64::MAX as nat) {
            Some(v) => Some(v as u64),
            None => None,
        },
        _ => None,
    }
}

/// A node read as an unsigned integer, a number or a string of digits alike (ffprobe
/// writes many numbers as strings): `Value::as_u64`, else the string parsed as a `u64`.
pub open spec fn lenient_u64(n: Option<ItemView>) -> Option<u64> {
    match n {
        Some(ItemView::Number(t)) | Some(ItemView::Text(t)) => match parse_unsigned(t, u64::MAX as nat) {
            Some(v) => Some(v as u64),
            None => None,
        },
        _ => None,
    }
}

/// A node read as a count of seconds, in millionths: a number or a string in plain
/// decimal notation (see [`decimal_micros`]).
pub open spec fn seconds_micros(n: Option<ItemView>) -> Option<u64> {
    match n {
        Some(ItemView::Number(t)) | Some(ItemView::Text(t)) => match decimal_micros(t) {
            Some(v) => Some(v as u64),
            None => None,
        },
        _ => None,
    }
}

/// The first six places of a fraction's digits, padded with zeros.
pub open spec fn six_places(f: Seq<char>) -> Seq<char> {
    Seq::new(6, |i: int| if i < f.len() { f[i] } else { '0' })
}

/// A non-negative decimal `[+]digits[.digits]` (at least one digit) in millionths,
/// rounded half up at the seventh place; none for any other text, or when the value
/// exceeds `u64::MAX`.
pub open spec fn decimal_micros(s: Seq<char>) -> Option<nat> {
    let parts = split(unsigned_digits(s), '.');
    let ip = parts[0];
    let fp = if parts.len() > 1 {
        parts[1]
    } else {
        Seq::<char>::empty()
    };
    let v = digits_value(ip) * 1_000_000 + digits_value(six_places(fp)) + if fp.len() > 6 && fp[6]
        >= '5' {
        1nat
    } else {
        0nat
    };
    if parts.len() <= 2 && all_digits(ip) && all_digits(fp) && ip.len() + fp.len() > 0 && v
        <= u64::MAX {
        Some(v)
    } else {
        None
    }
}

/// A frame rate `n/d` (two unsigned integers, `d` not zero) in millionths of a frame per
/// second, rounded half up; none for any other text, or beyond `i64::MAX`.
pub open spec fn rational_micros(s: Seq<char>) -> Option<i64> {
    let parts = split(s, '/');
    if parts.len() == 2 {
        match (parse_unsigned(parts[0], u64::MAX as nat), parse_unsigned(parts[1], u64::MAX as nat)) {
            (Some(n), Some(d)) => if d > 0 && (2 * n * 1_000_000 + d) / (2 * d) <= i64::MAX {
                Some(((2 * n * 1_000_000 + d) / (2 * d)) as i64)
            } else {
                None
            },
            _ => None,
        }
    } else {
        None
    }
}

fn all_digit_chars(v: &[char]) -> (r: bool)
    ensures
        r == all_digits(v@),
{
    let mut i: usize = 0;
    while i < v.len()
        invariant
            i <= v.len(),
            all_digits(v@.take(i as int)),
        decreases v.len() - i,
    {
        if !('0' <= v[i] && v[i] <= '9') {
            return false;
        }
        assert(v@.take(i + 1)[i as int] == v@[i as int]);
        i = i + 1;
    }
    assert(v@.take(i as int) =~= v@);
    true
}

/// The value of the first six places of a fraction of digits.
fn six_places_value(f: &[char]) -> (r: u64)
    requires
        all_digits(f@),
    ensures
        r as nat == digits_value(six_places(f@)),
        r < 1_000_000,
{
    let ghost six = six_places(f@);
    let mut acc: u64 = 0;
    let mut i: usize = 0;
    while i < 6
        invariant
            i <= 6,
            six == six_places(f@),
            all_digits(f@),
            acc as nat == digits_value(six.take(i as int)),
            acc < place_bound(i as nat),
        decreases 6 - i,
    {
        let d: u64 = if i < f.len() {
            assert('0' <= f@[i as int] <= '9');
            (f[i] as u32 - '0' as u32) as u64
        } else {
            0
        };
        proof {
            assert(six.take(i + 1).drop_last() =~= six.take(i as int));
            assert(six.take(i + 1).last() == six[i as int]);
            assert(digit_value(six[i as int]) == d);
            assert(acc * 10 + d < place_bound((i + 1) as nat));
        }
        acc = acc * 10 + d;
        i = i + 1;
    }
    assert(six.take(6) =~= six);
    acc
}

/// Ten to the power `n`, for the places of a six-place fraction.
spec fn place_bound(n: nat) -> nat {
    if n == 0 {
        1
    } else if n == 1 {
        10
    } else if n == 2 {
        100
    } else if n == 3 {
        1000
    } else if n == 4 {
        10000
    } else if n == 5 {
        100000
    } else {
        1000000
    }
}

/// A decimal text in millionths, as [`decimal_micros`] reads it.
pub fn parse_decimal_micros(s: &str) -> (r: Option<u64>)
    ensures
        match r {
            Some(v) => decimal_micros(s@) == Some(v as nat),
            None => decimal_micros(s@) is None,
        },
{
    let all = chars_of(s);
    let start: usize = if all.len() > 0 && all[0] == '+' { 1 } else { 0 };
    let mut d: Vec<char> = Vec::new();
    let mut i: usize = start;
    while i < all.len()
        invariant
            start <= i <= all@.len(),
            d@ == all@.subrange(start as int, i as int),
        decreases all.len() - i,
    {
        d.push(all[i]);
        i = i + 1;
    }
    assert(d@ == unsigned_digits(s@));
    let parts = split_char(&d, '.');
    proof {
        lemma_split_nonempty(d@, '.');
    }
    if parts.len() > 2 {
        return None;
    }
    let ip = &parts[0];
    let empty: Vec<char> = Vec::new();
    let fp = if parts.len() > 1 {
        &parts[1]
    } else {
        &empty
    };
    assert(fp@ == (if parts@.len() > 1 {
        split(unsigned_digits(s@), '.')[1]
    } else {
        Seq::<char>::empty()
    }));
    if !all_digit_chars(ip) || !all_digit_chars(fp) || (ip.len() == 0 && fp.len() == 0) {
        return None;
    }
    let whole: u64 = if ip.len() == 0 {
        0
    } else {
        assert(ip@[0] != '+');
        assert(unsigned_digits(ip@) == ip@);
        match parse_u64_max(ip, u64::MAX) {
            Some(w) => w,
            None => {
                return None;
            },
        }
    };
    assert(whole as nat == digits_value(ip@)) by {
        if ip@.len() == 0 {
            assert(ip@ =~= Seq::<char>::empty());
        }
    }
    let frac = six_places_value(fp);
    let round: u64 = if fp.len() > 6 && fp[6] >= '5' { 1 } else { 0 };
    match whole.checked_mul(1_000_000) {
        Some(w) => match w.checked_add(frac + round) {
            Some(v) => Some(v),
            None => None,
        },
        None => None,
    }
}

/// A frame rate text in millionths, as [`rational_micros`] reads it.
pub fn parse_rational_micros(s: &str) -> (r: Option<i64>)
    ensures
        r == rational_micros(s@),
{
    let parts = split_char(&chars_of(s), '/');
    if parts.len() != 2 {
        return None;
    }
    let n = match parse_u64_max(&parts[0], u64::MAX) {
        Some(n) => n,
        None => {
            return None;
        },
    };
    let d = match parse_u64_max(&parts[1], u64::MAX) {
        Some(d) => d,
        None => {
            return None;
        },
    };
    if d == 0 {
        return None;
    }
    assert((n as u128) * 2_000_000 + (d as u128) < 0x1_0000_0000_0000_0000_0000_0000_0000_0000) by (nonlinear_arith)
        requires
            n <= u64::MAX,
            d <= u64::MAX,
    ;
    let num: u128 = (n as u128) * 2_000_000 + (d as u128);
    let den: u128 = (d as u128) * 2;
    let q: u128 = num / den;
    assert(num == 2 * n * 1_000_000 + d);
    if q > i64::MAX as u128 {
        return None;
    }
    Some(q as i64)
}

} // verus!
