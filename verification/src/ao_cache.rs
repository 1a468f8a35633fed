//! Names of the cached AO tensors and the decision of what a cache request does.
//!
//! The AO values with derivatives up to order `k` are cached under the key
//! `ao_deriv<k>` (`k` in decimal); the evaluation of the AO values themselves is
//! requested by the name `deriv<k>`.
use vstd::prelude::*;
use vstd::string::*;
use crate::flags::{ao_components, ao_deriv_dim, ao_deriv_order, deriv_dim, NIDenType, MAX_AO_DERIV};

verus! {

/// The character of a decimal digit `d < 10`.
pub open spec fn digit_char(d: nat) -> char {
    if d == 0 {
        '0'
    } else if d == 1 {
        '1'
    } else if d == 2 {
        '2'
    } else if d == 3 {
        '3'
    } else if d == 4 {
        '4'
    } else if d == 5 {
        '5'
    } else if d == 6 {
        '6'
    } else if d == 7 {
        '7'
    } else if d == 8 {
        '8'
    } else {
        '9'
    }
}

/// Whether a character is an ASCII decimal digit.
pub open spec fn is_digit(c: char) -> bool {
    '0' <= c && c <= '9'
}

/// The value of an ASCII decimal digit.
pub open spec fn digit_value(c: char) -> nat {
    (c as u32 - '0' as u32) as nat
}

/// The decimal representation of `n`, without leading zeros.
pub open spec fn decimal_chars(n: nat) -> Seq<char>
    decreases n,
{
    if n < 10 {
        seq![digit_char(n)]
    } else {
        decimal_chars(n / 10).push(digit_char(n % 10))
    }
}

/// The value of a sequence of decimal digits, most significant first.
pub open spec fn digits_value(ds: Seq<char>) -> nat
    decreases ds.len(),
{
    if ds.len() == 0 {
        0
    } else {
        digits_value(ds.drop_last()) * 10 + digit_value(ds.last())
    }
}

/// Whether every character is a decimal digit.
pub open spec fn all_digits(ds: Seq<char>) -> bool {
    forall|i: int| 0 <= i < ds.len() ==> #[trigger] is_digit(ds[i])
}

/// The digits of a text that may start with `+`.
pub open spec fn unsigned_digits(s: Seq<char>) -> Seq<char> {
    if s.len() > 0 && s[0] == '+' {
        s.drop_first()
    } else {
        s
    }
}

/// The reading of a text as a `usize`: an optional `+` and one or more decimal
/// digits whose value fits; otherwise nothing.
pub open spec fn parse_usize_chars(s: Seq<char>) -> Option<usize> {
    let ds = unsigned_digits(s);
    if ds.len() > 0 && all_digits(ds) && digits_value(ds) <= usize::MAX {
        Some(digits_value(ds) as usize)
    } else {
        None
    }
}

/// The prefix of the cache keys of AO tensors.
pub open spec fn ao_key_prefix() -> Seq<char> {
    "ao_deriv"@
}

/// The cache key of the AO values with derivatives up to order `d`.
pub open spec fn ao_deriv_key_chars(d: nat) -> Seq<char> {
    ao_key_prefix() + decimal_chars(d)
}

/// The derivative order that a cache key names: the key must start with the
/// prefix, and the rest must read as a `usize`.
pub open spec fn parse_ao_deriv_key(k: Seq<char>) -> Option<usize> {
    let p = ao_key_prefix();
    if k.len() >= p.len() && k.subrange(0, p.len() as int) == p {
        parse_usize_chars(k.subrange(p.len() as int, k.len() as int))
    } else {
        None
    }
}

/// The name under which the AO values with derivatives up to order `d` are evaluated.
pub open spec fn gto_eval_name_chars(d: nat) -> Seq<char> {
    "deriv"@ + decimal_chars(d)
}

/// Whether a key names a derivative order of at least `deriv`.
pub open spec fn cached_order_reaches(parsed: Option<usize>, deriv: nat) -> bool {
    match parsed {
        Some(d) => d >= deriv,
        None => false,
    }
}

/// Whether some key of the cache names a derivative order of at least `deriv`.
pub open spec fn has_cached_at_least(keys: Seq<Seq<char>>, deriv: nat) -> bool {
    exists|i: int| 0 <= i < keys.len() && cached_order_reaches(#[trigger] parse_ao_deriv_key(keys[i]), deriv)
}

/// What a request for the AO values up to order `deriv` does.
pub enum AoCacheAction {
    /// Read the tensor cached under `key`, keeping its first `ncomp` components.
    Reuse { key: String, ncomp: usize },
    /// Evaluate the AO values and cache them under `key`.
    Compute { key: String },
}

/// The mathematical value of an [`AoCacheAction`].
pub enum AoCacheActionView {
    Reuse { key: Seq<char>, ncomp: nat },
    Compute { key: Seq<char> },
}

impl View for AoCacheAction {
    type V = AoCacheActionView;

    open spec fn view(&self) -> AoCacheActionView {
        match self {
            AoCacheAction::Reuse { key, ncomp } => AoCacheActionView::Reuse { key: key@, ncomp: *ncomp as nat },
            AoCacheAction::Compute { key } => AoCacheActionView::Compute { key: key@ },
        }
    }
}

/// A request reuses the cache when some cached order reaches `deriv`, reading
/// the key of `deriv` itself and keeping the components up to `deriv`; else it
/// computes the AO values and caches them under the key of `deriv`.
pub open spec fn ao_cache_action_spec(keys: Seq<Seq<char>>, deriv: nat) -> AoCacheActionView {
    if has_cached_at_least(keys, deriv) {
        AoCacheActionView::Reuse { key: ao_deriv_key_chars(deriv), ncomp: deriv_dim(deriv) }
    } else {
        AoCacheActionView::Compute { key: ao_deriv_key_chars(deriv) }
    }
}

/// The text of one decimal digit.
fn digit_str(d: usize) -> (r: &'static str)
    requires
        d < 10,
    ensures
        r@ == seq![digit_char(d as nat)],
{
    match d {
        0 => {
            proof {
                reveal_strlit("0");
            }
            "0"
        },
        1 => {
            proof {
                reveal_strlit("1");
            }
            "1"
        },
        2 => {
            proof {
                reveal_strlit("2");
            }
            "2"
        },
        3 => {
            proof {
                reveal_strlit("3");
            }
            "3"
        },
        4 => {
            proof {
                reveal_strlit("4");
            }
            "4"
        },
        5 => {
            proof {
                reveal_strlit("5");
            }
            "5"
        },
        6 => {
            proof {
                reveal_strlit("6");
            }
            "6"
        },
        7 => {
            proof {
                reveal_strlit("7");
            }
            "7"
        },
        8 => {
            proof {
                reveal_strlit("8");
            }
            "8"
        },
        _ => {
            proof {
                reveal_strlit("9");
            }
            "9"
        },
    }
}

/// Appends the decimal representation of `n`.
pub fn push_decimal(s: &mut String, n: usize)
    ensures
        final(s)@ == old(s)@ + decimal_chars(n as nat),
    decreases n,
{
    if n >= 10 {
        push_decimal(s, n / 10);
    }
    s.append(digit_str(n % 10));
    assert(decimal_chars(n as nat) == if n < 10 {
        seq![digit_char(n as nat)]
    } else {
        decimal_chars((n / 10) as nat).push(digit_char((n % 10) as nat))
    });
}

/// The decimal representation of `n`.
pub fn decimal_string(n: usize) -> (s: String)
    ensures
        s@ == decimal_chars(n as nat),
{
    let mut s = String::new();
    push_decimal(&mut s, n);
    assert(s@ =~= decimal_chars(n as nat));
    s
}

/// The cache key `ao_deriv<deriv>` of the AO values with derivatives up to `deriv`.
pub fn ao_deriv_key(deriv: usize) -> (s: String)
    ensures
        s@ == ao_deriv_key_chars(deriv as nat),
{
    let mut s = String::from_str("ao_deriv");
    push_decimal(&mut s, deriv);
    s
}

/// The evaluation name `deriv<deriv>` of the AO values with derivatives up to `deriv`.
pub fn gto_eval_name(deriv: usize) -> (s: String)
    ensures
        s@ == gto_eval_name_chars(deriv as nat),
{
    let mut s = String::from_str("deriv");
    push_decimal(&mut s, deriv);
    s
}

/// Each digit character is a digit of its own value.
pub proof fn lemma_digit_char(d: nat)
    requires
        d < 10,
    ensures
        is_digit(digit_char(d)),
        digit_value(digit_char(d)) == d,
        digit_char(d) != '+',
{
}

/// The decimal representation is one or more digits, the first not `+`, and
/// reads back as the number.
pub proof fn lemma_decimal_chars(n: nat)
    ensures
        decimal_chars(n).len() > 0,
        all_digits(decimal_chars(n)),
        decimal_chars(n)[0] != '+',
        digits_value(decimal_chars(n)) == n,
    decreases n,
{
    if n < 10 {
        lemma_digit_char(n);
        let dc = seq![digit_char(n)];
        assert(dc.drop_last() =~= Seq::<char>::empty());
        assert(digits_value(dc) == digits_value(dc.drop_last()) * 10 + digit_value(dc.last()));
    } else {
        lemma_decimal_chars(n / 10);
        lemma_digit_char(n % 10);
        let dc = decimal_chars(n);
        assert(dc.drop_last() =~= decimal_chars(n / 10));
        assert(digits_value(dc) == digits_value(dc.drop_last()) * 10 + digit_value(dc.last()));
        assert forall|i: int| 0 <= i < dc.len() implies #[trigger] is_digit(dc[i]) by {
            if i < dc.len() - 1 {
                assert(dc[i] == decimal_chars(n / 10)[i]);
            }
        }
    }
}

/// Reading a cache key back gives the derivative order it was made from.
pub proof fn law_ao_deriv_key_round_trip(d: usize)
    ensures
        parse_ao_deriv_key(ao_deriv_key_chars(d as nat)) == Some(d),
{
    let p = ao_key_prefix();
    let dc = decimal_chars(d as nat);
    let k = ao_deriv_key_chars(d as nat);
    lemma_decimal_chars(d as nat);
    assert(k.subrange(0, p.len() as int) =~= p);
    assert(k.subrange(p.len() as int, k.len() as int) =~= dc);
    assert(unsigned_digits(dc) == dc);
}

/// The value of the digits before position `k`, extended by one digit.
pub proof fn lemma_digits_prefix_step(ds: Seq<char>, k: int)
    requires
        0 <= k < ds.len(),
    ensures
        digits_value(ds.subrange(0, k + 1)) == digits_value(ds.subrange(0, k)) * 10 + digit_value(ds[k]),
{
    assert(ds.subrange(0, k + 1).drop_last() =~= ds.subrange(0, k));
}

/// The value of the digits before a position is at most the value of all digits.
pub proof fn lemma_digits_prefix_le(ds: Seq<char>, k: int)
    requires
        0 <= k <= ds.len(),
    ensures
        digits_value(ds.subrange(0, k)) <= digits_value(ds),
    decreases ds.len() - k,
{
    if k < ds.len() {
        lemma_digits_prefix_step(ds, k);
        lemma_digits_prefix_le(ds, k + 1);
    } else {
        assert(ds.subrange(0, k) =~= ds);
    }
}

/// Whether `s` starts with the characters of `p`.
fn starts_with_chars(s: &str, p: &str) -> (r: bool)
    ensures
        r == (s@.len() >= p@.len() && s@.subrange(0, p@.len() as int) == p@),
{
    let n = s.unicode_len();
    let m = p.unicode_len();
    if n < m {
        return false;
    }
    let mut j: usize = 0;
    while j < m
        invariant
            n == s@.len(),
            m == p@.len(),
            m <= n,
            0 <= j <= m,
            forall|k: int| 0 <= k < j ==> s@[k] == p@[k],
        decreases m - j,
    {
        if s.get_char(j) != p.get_char(j) {
            assert(s@.subrange(0, m as int)[j as int] != p@[j as int]);
            return false;
        }
        j = j + 1;
    }
    assert(s@.subrange(0, m as int) =~= p@);
    true
}

/// Reads the characters of `s` from `start` on as a `usize`.
pub fn parse_usize_from(s: &str, start: usize) -> (r: Option<usize>)
    requires
        start <= s@.len(),
    ensures
        r == parse_usize_chars(s@.subrange(start as int, s@.len() as int)),
{
    let n = s.unicode_len();
    let ghost sub = s@.subrange(start as int, n as int);
    let mut b = start;
    if b < n && s.get_char(b) == '+' {
        b = b + 1;
    }
    let ghost ds = s@.subrange(b as int, n as int);
    assert(unsigned_digits(sub) =~= ds);
    if b == n {
        return None;
    }
    let mut acc: usize = 0;
    let mut i = b;
    while i < n
        invariant
            n == s@.len(),
            b <= i <= n,
            b < n,
            ds == s@.subrange(b as int, n as int),
            ds == unsigned_digits(s@.subrange(start as int, n as int)),
            all_digits(ds.subrange(0, i - b)),
            acc == digits_value(ds.subrange(0, i - b)),
        decreases n - i,
    {
        let c = s.get_char(i);
        if !('0' <= c && c <= '9') {
            assert(!is_digit(ds[i - b]));
            return None;
        }
        proof {
            lemma_digits_prefix_step(ds, i - b);
        }
        let dv = (c as u32 - '0' as u32) as usize;
        let m = acc.checked_mul(10);
        let next = match m {
            Some(v) => v.checked_add(dv),
            None => None,
        };
        match next {
            Some(v) => {
                acc = v;
            },
            None => {
                proof {
                    if all_digits(ds) {
                        lemma_digits_prefix_le(ds, i - b + 1);
                    }
                }
                return None;
            },
        }
        assert(ds.subrange(0, i - b + 1).drop_last() =~= ds.subrange(0, i - b));
        i = i + 1;
    }
    assert(ds.subrange(0, n - b) =~= ds);
    Some(acc)
}

/// The derivative order that a cache key names, if it names one.
pub fn parse_ao_deriv_key_str(key: &str) -> (r: Option<usize>)
    ensures
        r == parse_ao_deriv_key(key@),
{
    let prefix = "ao_deriv";
    if starts_with_chars(key, prefix) {
        parse_usize_from(key, prefix.unicode_len())
    } else {
        None
    }
}

/// The views of a list of keys.
pub open spec fn key_views(keys: Seq<String>) -> Seq<Seq<char>> {
    keys.map_values(|k: String| k@)
}

/// Decides what a request for the AO values up to order `deriv` does, given the
/// keys present in the cache (in any order).
pub fn ao_cache_action(keys: &[String], deriv: usize) -> (a: AoCacheAction)
    requires
        deriv <= MAX_AO_DERIV,
    ensures
        a@ == ao_cache_action_spec(key_views(keys@), deriv as nat),
{
    let ghost views = key_views(keys@);
    let mut found = false;
    let mut i: usize = 0;
    while i < keys.len()
        invariant
            0 <= i <= keys.len(),
            views == key_views(keys@),
            found ==> has_cached_at_least(views, deriv as nat),
            !found ==> forall|j: int| 0 <= j < i ==> !cached_order_reaches(#[trigger] parse_ao_deriv_key(views[j]), deriv as nat),
        decreases keys.len() - i,
    {
        let parsed = parse_ao_deriv_key_str(keys[i].as_str());
        assert(views[i as int] == keys@[i as int]@);
        if let Some(d) = parsed {
            if d >= deriv {
                found = true;
                assert(cached_order_reaches(parse_ao_deriv_key(views[i as int]), deriv as nat));
            }
        }
        i = i + 1;
    }
    let key = ao_deriv_key(deriv);
    if found {
        AoCacheAction::Reuse { key, ncomp: ao_deriv_dim(deriv) }
    } else {
        AoCacheAction::Compute { key }
    }
}

/// Once the AO values up to order `d` are cached, every request up to order `d`
/// reuses the cache, reading the key of the requested order.
pub proof fn law_ao_cache_reuse_after_compute(keys: Seq<Seq<char>>, d: usize, request: nat)
    requires
        request <= d,
    ensures
        ao_cache_action_spec(keys.push(ao_deriv_key_chars(d as nat)), request) == (AoCacheActionView::Reuse {
            key: ao_deriv_key_chars(request),
            ncomp: deriv_dim(request),
        }),
{
    let ks = keys.push(ao_deriv_key_chars(d as nat));
    law_ao_deriv_key_round_trip(d);
    assert(cached_order_reaches(parse_ao_deriv_key(ks[keys.len() as int]), request));
}

/// What a request does depends only on which keys the cache holds, not on the
/// order in which they are listed nor on how often.
pub proof fn law_ao_cache_order_independent(keys1: Seq<Seq<char>>, keys2: Seq<Seq<char>>, request: nat)
    requires
        forall|k: Seq<char>| keys1.contains(k) <==> keys2.contains(k),
    ensures
        ao_cache_action_spec(keys1, request) == ao_cache_action_spec(keys2, request),
{
    if has_cached_at_least(keys1, request) {
        let i = choose|i: int| 0 <= i < keys1.len() && cached_order_reaches(#[trigger] parse_ao_deriv_key(keys1[i]), request);
        assert(keys1.contains(keys1[i]));
        let j = choose|j: int| 0 <= j < keys2.len() && keys2[j] == keys1[i];
        assert(cached_order_reaches(parse_ao_deriv_key(keys2[j]), request));
    }
    if has_cached_at_least(keys2, request) {
        let i = choose|i: int| 0 <= i < keys2.len() && cached_order_reaches(#[trigger] parse_ao_deriv_key(keys2[i]), request);
        assert(keys2.contains(keys2[i]));
        let j = choose|j: int| 0 <= j < keys1.len() && keys1[j] == keys2[i];
        assert(cached_order_reaches(parse_ao_deriv_key(keys1[j]), request));
    }
}

/// A request for the AO derivative order of a density type, when it reuses the
/// cache, keeps exactly the AO components that the density type reads.
pub proof fn law_ao_cache_serves_den_type(keys: Seq<Seq<char>>, d: NIDenType)
    ensures
        ao_cache_action_spec(keys, ao_deriv_order(d)) matches AoCacheActionView::Reuse { ncomp, .. } ==> ncomp == ao_components(d),
{
}

/// Keys that name no derivative order (other cached tensors) do not change what
/// a request does.
pub proof fn law_ao_cache_ignores_other_keys(keys: Seq<Seq<char>>, other: Seq<char>, request: nat)
    requires
        parse_ao_deriv_key(other) is None,
    ensures
        ao_cache_action_spec(keys.push(other), request) == ao_cache_action_spec(keys, request),
{
    let ks = keys.push(other);
    if has_cached_at_least(ks, request) {
        let i = choose|i: int| 0 <= i < ks.len() && cached_order_reaches(#[trigger] parse_ao_deriv_key(ks[i]), request);
        assert(i < keys.len());
        assert(cached_order_reaches(parse_ao_deriv_key(keys[i]), request));
    }
    if has_cached_at_least(keys, request) {
        let i = choose|i: int| 0 <= i < keys.len() && cached_order_reaches(#[trigger] parse_ao_deriv_key(keys[i]), request);
        assert(ks[i] == keys[i]);
        assert(cached_order_reaches(parse_ao_deriv_key(ks[i]), request));
    }
}

} // verus!
