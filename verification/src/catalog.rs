//! The catalog that the web front ends show: the highest value among the
//! auctions and assets, the provinces and cities that hold properties, the
//! bid information of each asset, and the filters on the lists.

use vstd::prelude::*;
use crate::provinces::{
    lemma_province_position, province_at, province_position, Province, PROVINCE_COUNT,
};
use crate::types::{Amount, Asset, Auction, BidInfo, Property, Vehicle};
use crate::text::{owned, str_eq};
use std::cmp::Ordering;

verus! {

// ---------------------------------------------------------------------------
// Amounts as numbers
// ---------------------------------------------------------------------------

/// Ten to the power `n`.
pub open spec fn pow10(n: nat) -> nat
    decreases n,
{
    if n == 0 {
        1
    } else {
        10 * pow10((n - 1) as nat)
    }
}

/// Whether the amount `a` is at most the amount `b` as numbers, that is
/// `a.mantissa / 10^a.scale <= b.mantissa / 10^b.scale`; the order in which
/// decimal amounts compare.
pub open spec fn amount_le(a: Amount, b: Amount) -> bool {
    a.mantissa * pow10(b.scale as nat) <= b.mantissa * pow10(a.scale as nat)
}

/// Powers of ten are positive and multiply by adding exponents.
pub proof fn lemma_pow10(a: nat, b: nat)
    ensures
        pow10(a) > 0,
        pow10(a + b) == pow10(a) * pow10(b),
    decreases a,
{
    if a == 0 {
        assert(pow10(0) == 1);
        assert(a + b == b);
    } else {
        let a1 = (a - 1) as nat;
        lemma_pow10(a1, b);
        assert(a + b == (a1 + b) + 1);
        assert(pow10(a + b) == 10 * pow10(a1 + b));
        assert(pow10(a) == 10 * pow10(a1));
        let x = pow10(a1);
        let y = pow10(b);
        assert(10 * (x * y) == (10 * x) * y) by (nonlinear_arith);
    }
}

/// Powers of ten grow with the exponent.
pub proof fn lemma_pow10_monotone(a: nat, b: nat)
    requires
        a <= b,
    ensures
        pow10(a) <= pow10(b),
    decreases b,
{
    if a < b {
        lemma_pow10_monotone(a, (b - 1) as nat);
        lemma_pow10((b - 1) as nat, 0);
    }
}

/// Comparing amounts whose scales differ by `d`: with `b` the one with the
/// larger scale, it is comparing `a.mantissa * 10^d` with `b.mantissa`.
proof fn lemma_amount_le_shift(a: Amount, b: Amount, d: nat)
    requires
        b.scale == a.scale + d,
    ensures
        amount_le(a, b) == (a.mantissa * pow10(d) <= b.mantissa),
        amount_le(b, a) == (b.mantissa <= a.mantissa * pow10(d)),
{
    let p = pow10(a.scale as nat);
    let q = pow10(d);
    lemma_pow10(a.scale as nat, d);
    assert(pow10(b.scale as nat) == p * q);
    let x = a.mantissa as int;
    let y = b.mantissa as int;
    assert(x * (p * q) <= y * p <==> x * q <= y) by (nonlinear_arith)
        requires
            p > 0,
    ;
    assert(y * p <= x * (p * q) <==> y <= x * q) by (nonlinear_arith)
        requires
            p > 0,
    ;
}

/// `amount_le` orders amounts totally.
pub proof fn lemma_amount_le_total(a: Amount, b: Amount)
    ensures
        amount_le(a, b) || amount_le(b, a),
{
}

/// `amount_le` is transitive.
pub proof fn lemma_amount_le_transitive(a: Amount, b: Amount, c: Amount)
    requires
        amount_le(a, b),
        amount_le(b, c),
    ensures
        amount_le(a, c),
{
    let pa = pow10(a.scale as nat);
    let pb = pow10(b.scale as nat);
    let pc = pow10(c.scale as nat);
    lemma_pow10(a.scale as nat, 0);
    lemma_pow10(b.scale as nat, 0);
    lemma_pow10(c.scale as nat, 0);
    let x = a.mantissa as int;
    let y = b.mantissa as int;
    let z = c.mantissa as int;
    assert(x * pc <= z * pa) by (nonlinear_arith)
        requires
            x * pb <= y * pa,
            y * pc <= z * pb,
            pa > 0,
            pb > 0,
            pc > 0,
    ;
}

/// `10^n` as an `i128`, for `n <= 18`.
fn pow10_exec(n: u32) -> (r: i128)
    requires
        n <= 18,
    ensures
        r == pow10(n as nat),
        r <= 1_000_000_000_000_000_000,
{
    let mut p: i128 = 1;
    let mut k: u32 = 0;
    while k < n
        invariant
            k <= n <= 18,
            p == pow10(k as nat),
        decreases n - k,
    {
        proof {
            lemma_pow10_monotone((k + 1) as nat, 18);
            reveal_with_fuel(pow10, 19);
        }
        p = p * 10;
        k = k + 1;
    }
    proof {
        lemma_pow10_monotone(n as nat, 18);
        reveal_with_fuel(pow10, 19);
    }
    p
}

/// The sign of `x * 10^d - y`.
fn shifted_sign(x: i64, d: u32, y: i64) -> (r: i8)
    ensures
        (r == -1) == (x * pow10(d as nat) < y),
        (r == 0) == (x * pow10(d as nat) == y),
        (r == 1) == (x * pow10(d as nat) > y),
{
    if d <= 18 {
        let p = pow10_exec(d);
        proof {
            lemma_pow10(d as nat, 0);
            assert(-0x8000_0000_0000_0000 * p <= x * p <= 0x7fff_ffff_ffff_ffff * p)
                by (nonlinear_arith)
                requires
                    -0x8000_0000_0000_0000 <= x <= 0x7fff_ffff_ffff_ffff,
                    0 < p <= 1_000_000_000_000_000_000,
            ;
        }
        let shifted = (x as i128) * p;
        if shifted < y as i128 {
            -1
        } else if shifted == y as i128 {
            0
        } else {
            1
        }
    } else {
        let ghost p = pow10(d as nat);
        proof {
            lemma_pow10_monotone(19, d as nat);
            reveal_with_fuel(pow10, 20);
            assert(x >= 1 ==> x * p >= p) by (nonlinear_arith)
                requires
                    p > 0,
            ;
            assert(x <= -1 ==> x * p <= -p) by (nonlinear_arith)
                requires
                    p > 0,
            ;
        }
        if x > 0 {
            1
        } else if x < 0 {
            -1
        } else if 0 < y {
            -1
        } else if y == 0 {
            0
        } else {
            1
        }
    }
}

/// Whether `a <= b` as numbers, see `amount_le`.
pub fn amount_le_exec(a: &Amount, b: &Amount) -> (r: bool)
    ensures
        r == amount_le(*a, *b),
{
    if a.scale <= b.scale {
        let d = b.scale - a.scale;
        proof {
            lemma_amount_le_shift(*a, *b, d as nat);
        }
        shifted_sign(a.mantissa, d, b.mantissa) <= 0
    } else {
        let d = a.scale - b.scale;
        proof {
            lemma_amount_le_shift(*b, *a, d as nat);
        }
        shifted_sign(b.mantissa, d, a.mantissa) >= 0
    }
}


// ---------------------------------------------------------------------------
// The highest value
// ---------------------------------------------------------------------------

/// The value of each auction, in order.
pub open spec fn auction_values(auctions: Seq<Auction>) -> Seq<Amount> {
    auctions.map_values(|a: Auction| a.bidinfo.value)
}

/// The bid information that an asset carries itself, if any.
pub open spec fn own_bidinfo(a: Asset) -> Option<BidInfo> {
    match a {
        Asset::Other(o) => o.bidinfo,
        Asset::Property(p) => p.bidinfo,
        Asset::Vehicle(v) => v.bidinfo,
    }
}

/// The values of the assets that carry bid information, in order.
pub open spec fn asset_values(assets: Seq<Asset>) -> Seq<Amount>
    decreases assets.len(),
{
    if assets.len() == 0 {
        Seq::empty()
    } else {
        let rest = asset_values(assets.drop_last());
        match own_bidinfo(assets.last()) {
            Some(b) => rest.push(b.value),
            None => rest,
        }
    }
}

/// The largest of `vals` as `Iterator::max` picks it: the last of the
/// largest ones.
pub open spec fn last_max(vals: Seq<Amount>) -> Amount
    decreases vals.len(),
{
    if vals.len() <= 1 {
        vals[0]
    } else {
        let m = last_max(vals.drop_last());
        if amount_le(m, vals.last()) {
            vals.last()
        } else {
            m
        }
    }
}

/// The highest value of the catalog: the larger of the largest asset value
/// and the largest auction value, the auction's where they are equal (as
/// `std::cmp::max(assets, auctions)` picks).
pub open spec fn max_value(auctions: Seq<Auction>, assets: Seq<Asset>) -> Amount {
    let a = last_max(auction_values(auctions));
    let s = last_max(asset_values(assets));
    if amount_le(s, a) {
        a
    } else {
        s
    }
}

/// The largest value is one of the values and no value exceeds it.
pub proof fn lemma_last_max(vals: Seq<Amount>)
    requires
        vals.len() > 0,
    ensures
        vals.contains(last_max(vals)),
        forall|i: int| 0 <= i < vals.len() ==> amount_le(#[trigger] vals[i], last_max(vals)),
    decreases vals.len(),
{
    if vals.len() > 1 {
        let init = vals.drop_last();
        lemma_last_max(init);
        let m = last_max(init);
        lemma_amount_le_total(m, vals.last());
        let k = choose|k: int| 0 <= k < init.len() && init[k] == m;
        assert(vals[k] == m);
        assert forall|i: int| 0 <= i < vals.len() implies amount_le(
            #[trigger] vals[i],
            last_max(vals),
        ) by {
            if i < vals.len() - 1 {
                assert(vals[i] == init[i]);
                if amount_le(m, vals.last()) {
                    lemma_amount_le_transitive(vals[i], m, vals.last());
                }
            } else {
                lemma_amount_le_total(vals.last(), vals.last());
            }
        }
    } else {
        assert(vals[0] == last_max(vals));
        lemma_amount_le_total(vals[0], vals[0]);
    }
}

/// The highest value is the value of an auction or of an asset, and no
/// auction or asset is worth more.
pub proof fn lemma_max_value(auctions: Seq<Auction>, assets: Seq<Asset>)
    requires
        auctions.len() > 0,
        asset_values(assets).len() > 0,
    ensures
        auction_values(auctions).contains(max_value(auctions, assets)) || asset_values(
            assets,
        ).contains(max_value(auctions, assets)),
        forall|i: int|
            0 <= i < auctions.len() ==> amount_le(
                #[trigger] auctions[i].bidinfo.value,
                max_value(auctions, assets),
            ),
        forall|i: int|
            0 <= i < asset_values(assets).len() ==> amount_le(
                #[trigger] asset_values(assets)[i],
                max_value(auctions, assets),
            ),
{
    let av = auction_values(auctions);
    let sv = asset_values(assets);
    lemma_last_max(av);
    lemma_last_max(sv);
    let a = last_max(av);
    let s = last_max(sv);
    lemma_amount_le_total(s, a);
    assert forall|i: int| 0 <= i < auctions.len() implies amount_le(
        #[trigger] auctions[i].bidinfo.value,
        max_value(auctions, assets),
    ) by {
        assert(av[i] == auctions[i].bidinfo.value);
        if !amount_le(s, a) {
            lemma_amount_le_transitive(av[i], a, s);
        }
    }
    assert forall|i: int| 0 <= i < sv.len() implies amount_le(
        #[trigger] sv[i],
        max_value(auctions, assets),
    ) by {
        if amount_le(s, a) {
            lemma_amount_le_transitive(sv[i], s, a);
        }
    }
}

/// The largest auction value, see `last_max`.
fn largest_auction_value(auctions: &Vec<Auction>) -> (r: Amount)
    requires
        auctions@.len() > 0,
    ensures
        r == last_max(auction_values(auctions@)),
{
    let mut best = auctions[0].bidinfo.value;
    let mut i: usize = 1;
    assert(auction_values(auctions@).take(1) =~= seq![auctions@[0].bidinfo.value]);
    while i < auctions.len()
        invariant
            1 <= i <= auctions@.len(),
            best == last_max(auction_values(auctions@).take(i as int)),
        decreases auctions@.len() - i,
    {
        let v = auctions[i].bidinfo.value;
        let ghost vals = auction_values(auctions@);
        assert(vals.take(i + 1).drop_last() =~= vals.take(i as int));
        assert(vals.take(i + 1).last() == v);
        if amount_le_exec(&best, &v) {
            best = v;
        }
        i = i + 1;
    }
    assert(auction_values(auctions@).take(i as int) =~= auction_values(auctions@));
    best
}

/// The bid information that `a` carries itself, see `own_bidinfo`.
fn own_bidinfo_exec(a: &Asset) -> (r: Option<BidInfo>)
    ensures
        r == own_bidinfo(*a),
{
    match a {
        Asset::Other(o) => o.bidinfo,
        Asset::Property(p) => p.bidinfo,
        Asset::Vehicle(v) => v.bidinfo,
    }
}

/// The largest asset value, `None` where no asset carries bid information.
fn largest_asset_value(assets: &Vec<Asset>) -> (r: Option<Amount>)
    ensures
        asset_values(assets@).len() == 0 ==> r is None,
        asset_values(assets@).len() > 0 ==> r == Some(last_max(asset_values(assets@))),
{
    let mut best: Option<Amount> = None;
    let mut i: usize = 0;
    while i < assets.len()
        invariant
            i <= assets@.len(),
            asset_values(assets@.take(i as int)).len() == 0 ==> best is None,
            asset_values(assets@.take(i as int)).len() > 0 ==> best == Some(
                last_max(asset_values(assets@.take(i as int))),
            ),
        decreases assets@.len() - i,
    {
        let ghost prev = asset_values(assets@.take(i as int));
        assert(assets@.take(i + 1).drop_last() =~= assets@.take(i as int));
        assert(assets@.take(i + 1).last() == assets@[i as int]);
        match own_bidinfo_exec(&assets[i]) {
            Some(b) => {
                let v = b.value;
                assert(asset_values(assets@.take(i + 1)) == prev.push(v));
                assert(prev.push(v).drop_last() =~= prev);
                assert(prev.push(v).last() == v);
                match best {
                    None => {
                        best = Some(v);
                    },
                    Some(m) => {
                        if amount_le_exec(&m, &v) {
                            best = Some(v);
                        }
                    },
                }
            },
            None => {},
        }
        i = i + 1;
    }
    assert(assets@.take(i as int) =~= assets@);
    best
}

// ---------------------------------------------------------------------------
// Provinces and cities
// ---------------------------------------------------------------------------

/// Whether some property among `assets` lies in the province `p`.
pub open spec fn has_property_in(assets: Seq<Asset>, p: Province) -> bool {
    exists|i: int| 0 <= i < assets.len() && #[trigger] property_province_of(assets[i]) == Some(p)
}

/// The province of an asset that is a property.
pub open spec fn property_province_of(a: Asset) -> Option<Province> {
    match a {
        Asset::Property(p) => Some(p.province),
        _ => None,
    }
}

/// Whether `s` lists provinces in their declaration order (that of `Ord`),
/// each once.
pub open spec fn ascending_provinces(s: Seq<Province>) -> bool {
    forall|i: int, j: int| 0 <= i < j < s.len() ==> province_position(s[i]) < province_position(s[j])
}

/// Whether some property among `assets` lies in `p`.
fn has_property_in_exec(assets: &Vec<Asset>, p: Province) -> (r: bool)
    ensures
        r == has_property_in(assets@, p),
{
    let mut i: usize = 0;
    while i < assets.len()
        invariant
            i <= assets@.len(),
            forall|k: int| 0 <= k < i ==> property_province_of(#[trigger] assets@[k]) != Some(p),
        decreases assets@.len() - i,
    {
        if let Asset::Property(q) = &assets[i] {
            if q.province == p {
                assert(property_province_of(assets@[i as int]) == Some(p));
                return true;
            }
        }
        i = i + 1;
    }
    false
}

/// The provinces that hold a property among `assets`, in ascending order,
/// each once (the set of provinces that the front ends offer).
pub fn property_provinces(assets: &Vec<Asset>) -> (r: Vec<Province>)
    ensures
        ascending_provinces(r@),
        forall|p: Province| r@.contains(p) <==> has_property_in(assets@, p),
{
    let mut result: Vec<Province> = Vec::new();
    let mut k: u8 = 0;
    while k < PROVINCE_COUNT
        invariant
            k <= PROVINCE_COUNT,
            ascending_provinces(result@),
            forall|i: int| 0 <= i < result@.len() ==> province_position(#[trigger] result@[i]) < k,
            forall|p: Province|
                result@.contains(p) <==> (province_position(p) < k && has_property_in(assets@, p)),
        decreases PROVINCE_COUNT - k,
    {
        let p = Province::at_position(k);
        proof {
            lemma_province_position(p, k as nat);
        }
        if has_property_in_exec(assets, p) {
            let ghost before = result@;
            result.push(p);
            assert forall|q: Province| result@.contains(q) <==> (province_position(q) < k + 1
                && has_property_in(assets@, q)) by {
                lemma_province_position(q, k as nat);
                if province_position(q) == k {
                    assert(q == p);
                    assert(result@[before.len() as int] == p);
                }
                if result@.contains(q) && q != p {
                    let j = choose|j: int| 0 <= j < result@.len() && result@[j] == q;
                    assert(before[j] == q);
                }
                if before.contains(q) {
                    let j = choose|j: int| 0 <= j < before.len() && before[j] == q;
                    assert(result@[j] == q);
                }
            }
        } else {
            assert forall|q: Province| result@.contains(q) <==> (province_position(q) < k + 1
                && has_property_in(assets@, q)) by {
                lemma_province_position(q, k as nat);
                if province_position(q) == k {
                    assert(q == p);
                }
            }
        }
        k = k + 1;
    }
    proof {
        assert forall|p: Province| result@.contains(p) <==> has_property_in(assets@, p) by {
            lemma_province_position(p, 0);
        }
    }
    result
}

/// Whether the text `a` comes before `b` in the order of `str`: the first
/// differing character decides by its code, and a proper prefix comes
/// first.  (UTF-8 keeps the order of codes, so this is also the byte order
/// that `str` compares by.)
pub open spec fn text_lt(a: Seq<char>, b: Seq<char>) -> bool
    decreases a.len(),
{
    if a.len() == 0 {
        b.len() > 0
    } else if b.len() == 0 {
        false
    } else if a[0] != b[0] {
        (a[0] as int) < (b[0] as int)
    } else {
        text_lt(a.skip(1), b.skip(1))
    }
}

/// `text_lt` is irreflexive.
pub proof fn lemma_text_lt_irreflexive(a: Seq<char>)
    ensures
        !text_lt(a, a),
    decreases a.len(),
{
    if a.len() > 0 {
        lemma_text_lt_irreflexive(a.skip(1));
    }
}

/// Of two different texts, exactly one comes before the other.
pub proof fn lemma_text_lt_total(a: Seq<char>, b: Seq<char>)
    ensures
        a != b ==> text_lt(a, b) || text_lt(b, a),
        text_lt(a, b) ==> !text_lt(b, a),
    decreases a.len(),
{
    if a.len() > 0 && b.len() > 0 {
        lemma_text_lt_total(a.skip(1), b.skip(1));
        if a[0] == b[0] && a.skip(1) == b.skip(1) {
            assert(a =~= seq![a[0]] + a.skip(1));
            assert(b =~= seq![b[0]] + b.skip(1));
        }
    } else if a.len() == 0 && b.len() == 0 {
        assert(a =~= b);
    }
}

/// `text_lt` is transitive.
pub proof fn lemma_text_lt_transitive(a: Seq<char>, b: Seq<char>, c: Seq<char>)
    requires
        text_lt(a, b),
        text_lt(b, c),
    ensures
        text_lt(a, c),
    decreases a.len(),
{
    if a.len() > 0 && b.len() > 0 && c.len() > 0 && a[0] == b[0] && b[0] == c[0] {
        lemma_text_lt_transitive(a.skip(1), b.skip(1), c.skip(1));
    }
}

/// `text_lt` is a strict total order.
pub proof fn lemma_text_lt(a: Seq<char>, b: Seq<char>, c: Seq<char>)
    ensures
        !text_lt(a, a),
        a != b ==> text_lt(a, b) || text_lt(b, a),
        text_lt(a, b) ==> !text_lt(b, a),
        text_lt(a, b) && text_lt(b, c) ==> text_lt(a, c),
{
    lemma_text_lt_irreflexive(a);
    lemma_text_lt_total(a, b);
    if text_lt(a, b) && text_lt(b, c) {
        lemma_text_lt_transitive(a, b, c);
    }
}

/// Whether the text `a` comes before `b`, see `text_lt`.
pub fn text_less(a: &str, b: &str) -> (r: bool)
    ensures
        r == text_lt(a@, b@),
{
    let x = crate::text::chars_of(a);
    let y = crate::text::chars_of(b);
    let mut i: usize = 0;
    assert(x@.skip(0) =~= x@ && y@.skip(0) =~= y@);
    while i < x.len() && i < y.len() && x[i] == y[i]
        invariant
            i <= x@.len(),
            i <= y@.len(),
            text_lt(x@, y@) == text_lt(x@.skip(i as int), y@.skip(i as int)),
        decreases x@.len() - i,
    {
        assert(x@.skip(i as int).skip(1) =~= x@.skip(i + 1));
        assert(y@.skip(i as int).skip(1) =~= y@.skip(i + 1));
        i = i + 1;
    }
    if i == x.len() {
        i < y.len()
    } else if i == y.len() {
        false
    } else {
        x[i] < y[i]
    }
}

/// The order of (city, province) pairs: by city, then by province.
pub open spec fn place_lt(a: (Seq<char>, Province), b: (Seq<char>, Province)) -> bool {
    text_lt(a.0, b.0) || (a.0 == b.0 && province_position(a.1) < province_position(b.1))
}

/// A (city, province) pair seen through the view of the city.
pub open spec fn place(x: (String, Province)) -> (Seq<char>, Province) {
    (x.0@, x.1)
}

/// Whether `s` lists its places in ascending order, each once.
pub open spec fn ascending_places(s: Seq<(String, Province)>) -> bool {
    forall|i: int, j: int| 0 <= i < j < s.len() ==> place_lt(place(s[i]), place(s[j]))
}

/// Whether `s` holds the place `x`.
pub open spec fn holds_place(s: Seq<(String, Province)>, x: (Seq<char>, Province)) -> bool {
    exists|i: int| 0 <= i < s.len() && place(#[trigger] s[i]) == x
}

/// `place_lt` is a strict total order.
proof fn lemma_place_lt(a: (Seq<char>, Province), b: (Seq<char>, Province), c: (Seq<char>, Province))
    ensures
        !place_lt(a, a),
        a != b ==> place_lt(a, b) || place_lt(b, a),
        place_lt(a, b) && place_lt(b, c) ==> place_lt(a, c),
{
    lemma_text_lt(a.0, b.0, c.0);
    lemma_text_lt(b.0, a.0, c.0);
    lemma_text_lt(a.0, c.0, b.0);
    lemma_province_position(a.1, 0);
    lemma_province_position(b.1, 0);
    if a.0 == b.0 && province_position(a.1) == province_position(b.1) {
        assert(a.1 == b.1);
    }
}

/// Whether the place `x` comes before `(city, province)`.
fn comes_before(x: &(String, Province), city: &str, province: Province) -> (r: bool)
    ensures
        r == place_lt(place(*x), (city@, province)),
{
    text_less(x.0.as_str(), city) || (crate::text::str_eq(x.0.as_str(), city) && x.1.position()
        < province.position())
}

/// Adds the place `(city, province)` to the ascending list `v`, unless it
/// holds it already.
fn insert_place(v: &mut Vec<(String, Province)>, city: &str, province: Province)
    requires
        ascending_places(old(v)@),
    ensures
        ascending_places(final(v)@),
        forall|x: (Seq<char>, Province)|
            holds_place(final(v)@, x) <==> (holds_place(old(v)@, x) || x == (city@, province)),
{
    let ghost new = (city@, province);
    let mut i: usize = 0;
    while i < v.len()
        invariant
            i <= v@.len(),
            ascending_places(v@),
            v@ == old(v)@,
            new == (city@, province),
            forall|k: int| 0 <= k < i ==> place_lt(place(#[trigger] v@[k]), new),
        ensures
            i <= v@.len(),
            v@ == old(v)@,
            forall|k: int| 0 <= k < i ==> place_lt(place(#[trigger] v@[k]), new),
            i < v@.len() ==> !place_lt(place(v@[i as int]), new),
        decreases v@.len() - i,
    {
        if !comes_before(&v[i], city, province) {
            break;
        }
        i = i + 1;
    }
    if i < v.len() && crate::text::str_eq(v[i].0.as_str(), city) && v[i].1 == province {
        assert(place(v@[i as int]) == new);
        return;
    }
    let ghost before = v@;
    proof {
        if i < before.len() {
            lemma_place_lt(place(before[i as int]), new, new);
            assert(place_lt(new, place(before[i as int])));
        }
    }
    v.insert(i, (crate::text::owned(city), province));
    assert(place(v@[i as int]) == new);
    assert forall|a: int, b: int| 0 <= a < b < v@.len() implies place_lt(
        place(v@[a]),
        place(v@[b]),
    ) by {
        if b < i {
            assert(v@[a] == before[a] && v@[b] == before[b]);
        } else if b == i {
            assert(v@[a] == before[a]);
        } else if a == i {
            assert(v@[b] == before[b - 1]);
            if b - 1 > i {
                lemma_place_lt(new, place(before[i as int]), place(before[b - 1]));
            }
        } else if a < i {
            assert(v@[a] == before[a] && v@[b] == before[b - 1]);
            lemma_place_lt(place(before[a]), new, place(before[b - 1]));
            if b - 1 > i {
                lemma_place_lt(new, place(before[i as int]), place(before[b - 1]));
            }
            lemma_place_lt(place(before[a]), new, place(before[i as int]));
            if b - 1 >= i {
                lemma_place_lt(place(before[a]), place(before[i as int]), place(before[b - 1]));
            }
        } else {
            assert(v@[a] == before[a - 1] && v@[b] == before[b - 1]);
        }
    }
    assert forall|x: (Seq<char>, Province)| holds_place(v@, x) <==> (holds_place(before, x) || x
        == new) by {
        if holds_place(v@, x) {
            let k = choose|k: int| 0 <= k < v@.len() && place(#[trigger] v@[k]) == x;
            if k < i {
                assert(v@[k] == before[k]);
            } else if k > i {
                assert(v@[k] == before[k - 1]);
            }
        }
        if holds_place(before, x) {
            let k = choose|k: int| 0 <= k < before.len() && place(#[trigger] before[k]) == x;
            if k < i {
                assert(v@[k] == before[k]);
            } else {
                assert(v@[k + 1] == before[k]);
            }
        }
    }
}

/// The place (city and province) of an asset that is a property.
pub open spec fn property_place_of(a: Asset) -> Option<(Seq<char>, Province)> {
    match a {
        Asset::Property(p) => Some((p.city@, p.province)),
        _ => None,
    }
}

/// Whether some property among `assets` lies at the place `x`.
pub open spec fn has_property_place(assets: Seq<Asset>, x: (Seq<char>, Province)) -> bool {
    exists|i: int| 0 <= i < assets.len() && #[trigger] property_place_of(assets[i]) == Some(x)
}

/// The places (city and province) of the properties among `assets`, in
/// ascending order, each once.
pub fn property_places(assets: &Vec<Asset>) -> (r: Vec<(String, Province)>)
    ensures
        ascending_places(r@),
        forall|x: (Seq<char>, Province)| holds_place(r@, x) <==> has_property_place(assets@, x),
{
    let mut result: Vec<(String, Province)> = Vec::new();
    let mut i: usize = 0;
    while i < assets.len()
        invariant
            i <= assets@.len(),
            ascending_places(result@),
            forall|x: (Seq<char>, Province)|
                holds_place(result@, x) <==> has_property_place(assets@.take(i as int), x),
        decreases assets@.len() - i,
    {
        let ghost t = assets@.take(i as int);
        let ghost t1 = assets@.take(i + 1);
        assert forall|k: int| 0 <= k < i implies t1[k] == t[k] by {}
        assert(t1[i as int] == assets@[i as int]);
        if let Asset::Property(p) = &assets[i] {
            insert_place(&mut result, p.city.as_str(), p.province);
            assert forall|x: (Seq<char>, Province)| has_property_place(t1, x)
                implies holds_place(result@, x) by {
                {
                    let k = choose|k: int| 0 <= k < t1.len() && #[trigger] property_place_of(t1[k]) == Some(x);
                    if k < i {
                        assert(property_place_of(t[k]) == Some(x));
                    }
                }
            }
            assert forall|x: (Seq<char>, Province)| holds_place(result@, x)
                implies has_property_place(t1, x) by {
                if has_property_place(t, x) {
                    let k = choose|k: int| 0 <= k < t.len() && #[trigger] property_place_of(t[k]) == Some(x);
                    assert(property_place_of(t1[k]) == Some(x));
                }
                if x == (p.city@, p.province) {
                    assert(property_place_of(t1[i as int]) == Some(x));
                }
            }
        } else {
            assert forall|x: (Seq<char>, Province)| has_property_place(t1, x) <==> has_property_place(t, x) by {
                if has_property_place(t1, x) {
                    let k = choose|k: int| 0 <= k < t1.len() && #[trigger] property_place_of(t1[k]) == Some(x);
                    if k < i {
                        assert(property_place_of(t[k]) == Some(x));
                    }
                }
                if has_property_place(t, x) {
                    let k = choose|k: int| 0 <= k < t.len() && #[trigger] property_place_of(t[k]) == Some(x);
                    assert(property_place_of(t1[k]) == Some(x));
                }
            }
        }
        i = i + 1;
    }
    assert(assets@.take(i as int) =~= assets@);
    result
}

/// Whether `s` lists texts in ascending order, each once.
pub open spec fn ascending_texts(s: Seq<Seq<char>>) -> bool {
    forall|i: int, j: int| 0 <= i < j < s.len() ==> text_lt(s[i], s[j])
}

/// Whether some property among `assets` lies in the city `city`.
pub open spec fn has_property_city(assets: Seq<Asset>, city: Seq<char>) -> bool {
    exists|p: Province| has_property_place(assets, (city, p))
}

/// The cities of the properties among `assets`, in ascending order, each
/// once.
pub fn property_cities(assets: &Vec<Asset>) -> (r: Vec<String>)
    ensures
        ascending_texts(crate::parser::texts(r@)),
        forall|c: Seq<char>| crate::parser::texts(r@).contains(c) <==> has_property_city(assets@, c),
{
    let mut places: Vec<(String, Province)> = Vec::new();
    let mut i: usize = 0;
    while i < assets.len()
        invariant
            i <= assets@.len(),
            ascending_places(places@),
            forall|k: int| 0 <= k < places@.len() ==> (#[trigger] places@[k]).1 == Province::All,
            forall|c: Seq<char>|
                holds_place(places@, (c, Province::All)) <==> has_property_city(assets@.take(i as int), c),
        decreases assets@.len() - i,
    {
        let ghost t = assets@.take(i as int);
        let ghost t1 = assets@.take(i + 1);
        assert forall|k: int| 0 <= k < i implies t1[k] == t[k] by {}
        assert(t1[i as int] == assets@[i as int]);
        let ghost before = places@;
        if let Asset::Property(p) = &assets[i] {
            insert_place(&mut places, p.city.as_str(), Province::All);
            assert forall|k: int| 0 <= k < places@.len() implies (#[trigger] places@[k]).1 == Province::All by {
                assert(holds_place(places@, place(places@[k])));
                if place(places@[k]) != (p.city@, Province::All) {
                    assert(holds_place(before, place(places@[k])));
                    let j = choose|j: int| 0 <= j < before.len() && place(#[trigger] before[j]) == place(places@[k]);
                }
            }
        }
        assert forall|c: Seq<char>| holds_place(places@, (c, Province::All))
            <==> has_property_city(t1, c) by {
            if has_property_city(t1, c) {
                let q = choose|q: Province| has_property_place(t1, (c, q));
                let k = choose|k: int| 0 <= k < t1.len() && #[trigger] property_place_of(t1[k]) == Some((c, q));
                if k < i {
                    assert(property_place_of(t[k]) == Some((c, q)));
                    assert(has_property_place(t, (c, q)));
                }
            }
            if has_property_city(t, c) {
                let q = choose|q: Province| has_property_place(t, (c, q));
                let k = choose|k: int| 0 <= k < t.len() && #[trigger] property_place_of(t[k]) == Some((c, q));
                assert(property_place_of(t1[k]) == Some((c, q)));
                assert(has_property_place(t1, (c, q)));
            }
            if let Asset::Property(p) = assets@[i as int] {
                if c == p.city@ {
                    assert(property_place_of(t1[i as int]) == Some((c, p.province)));
                    assert(has_property_place(t1, (c, p.province)));
                }
            }
        }
        i = i + 1;
    }
    assert(assets@.take(i as int) =~= assets@);
    let mut result: Vec<String> = Vec::new();
    let mut j: usize = 0;
    while j < places.len()
        invariant
            j <= places@.len(),
            crate::parser::texts(result@) == places@.take(j as int).map_values(
                |x: (String, Province)| x.0@,
            ),
        decreases places@.len() - j,
    {
        let ghost before = result@;
        result.push(crate::text::owned(places[j].0.as_str()));
        assert(crate::parser::texts(result@) =~= crate::parser::texts(before).push(
            places@[j as int].0@,
        ));
        assert(places@.take(j + 1) =~= places@.take(j as int).push(places@[j as int]));
        assert(crate::parser::texts(result@) =~= places@.take(j + 1).map_values(
            |x: (String, Province)| x.0@,
        ));
        j = j + 1;
    }
    assert(places@.take(j as int) =~= places@);
    let ghost names = crate::parser::texts(result@);
    assert forall|a: int, b: int| 0 <= a < b < names.len() implies text_lt(names[a], names[b]) by {
        assert(place_lt(place(places@[a]), place(places@[b])));
        assert(places@[a].1 == Province::All && places@[b].1 == Province::All);
    }
    assert forall|c: Seq<char>| names.contains(c) <==> has_property_city(assets@, c) by {
        if names.contains(c) {
            let k = choose|k: int| 0 <= k < names.len() && names[k] == c;
            assert(place(places@[k]) == (c, Province::All));
        }
        if has_property_city(assets@, c) {
            assert(holds_place(places@, (c, Province::All)));
            let k = choose|k: int| 0 <= k < places@.len() && place(#[trigger] places@[k]) == (c, Province::All);
            assert(names[k] == c);
        }
    }
    result
}

/// Whether some asset of `assets` carries bid information of its own.
pub fn any_valued_asset(assets: &Vec<Asset>) -> (r: bool)
    ensures
        r == (asset_values(assets@).len() > 0),
{
    largest_asset_value(assets).is_some()
}

/// What the front ends keep of the whole catalog.
pub struct GlobalInfo {
    /// The highest value of an auction or an asset.
    pub max_auction_value: Amount,
    /// The provinces that hold properties, ascending.
    pub provinces: Vec<Province>,
    /// The cities that hold properties, ascending.
    pub cities: Vec<String>,
    /// The places (city and province) of the properties, ascending.
    pub cities_provinces: Vec<(String, Province)>,
}

/// The catalog's highest value and the provinces, cities and places of
/// its properties.
pub fn set_global_info(auctions: &Vec<Auction>, assets: &Vec<Asset>) -> (r: GlobalInfo)
    requires
        auctions@.len() > 0,
        asset_values(assets@).len() > 0,
    ensures
        r.max_auction_value == max_value(auctions@, assets@),
        ascending_provinces(r.provinces@),
        forall|p: Province| r.provinces@.contains(p) <==> has_property_in(assets@, p),
        ascending_texts(crate::parser::texts(r.cities@)),
        forall|c: Seq<char>|
            crate::parser::texts(r.cities@).contains(c) <==> has_property_city(assets@, c),
        ascending_places(r.cities_provinces@),
        forall|x: (Seq<char>, Province)|
            holds_place(r.cities_provinces@, x) <==> has_property_place(assets@, x),
{
    let max_auctions = largest_auction_value(auctions);
    let max_assets = match largest_asset_value(assets) {
        Some(v) => v,
        None => max_auctions,
    };
    let max_auction_value = if amount_le_exec(&max_assets, &max_auctions) {
        max_auctions
    } else {
        max_assets
    };
    GlobalInfo {
        max_auction_value,
        provinces: property_provinces(assets),
        cities: property_cities(assets),
        cities_provinces: property_places(assets),
    }
}

// ---------------------------------------------------------------------------
// Bid information of the assets
// ---------------------------------------------------------------------------

/// Whether some auction of `auctions` has the identifier `id`.
pub open spec fn has_auction(auctions: Seq<Auction>, id: Seq<char>) -> bool {
    exists|i: int| 0 <= i < auctions.len() && (#[trigger] auctions[i]).id@ == id
}

/// Whether no two auctions of `auctions` share an identifier, as in the map
/// from identifier to auction that the front ends load.
pub open spec fn distinct_ids(auctions: Seq<Auction>) -> bool {
    forall|i: int, j: int|
        0 <= i < j < auctions.len() ==> (#[trigger] auctions[i]).id@ != (#[trigger] auctions[j]).id@
}

/// The position of the first auction with identifier `id`, `None` where
/// there is none; where the identifiers are distinct, the one auction with
/// that identifier.
pub fn find_auction(auctions: &Vec<Auction>, id: &str) -> (r: Option<usize>)
    ensures
        r is Some == has_auction(auctions@, id@),
        distinct_ids(auctions@) ==> (r matches Some(i) ==> forall|k: int|
            0 <= k < auctions@.len() && (#[trigger] auctions@[k]).id@ == id@ ==> k == i),
        r matches Some(i) ==> i < auctions@.len() && auctions@[i as int].id@ == id@ && forall|
            k: int,
        |
            0 <= k < i ==> (#[trigger] auctions@[k]).id@ != id@,
{
    let mut i: usize = 0;
    while i < auctions.len()
        invariant
            i <= auctions@.len(),
            forall|k: int| 0 <= k < i ==> (#[trigger] auctions@[k]).id@ != id@,
        decreases auctions@.len() - i,
    {
        if str_eq(auctions[i].id.as_str(), id) {
            return Some(i);
        }
        i = i + 1;
    }
    None
}

/// The bid information shown for an asset: its own, or else that of its
/// auction (the first of `auctions` with the asset's auction identifier;
/// the only one where the identifiers are distinct).
pub fn get_bidinfo(bidinfo: &Option<BidInfo>, auctions: &Vec<Auction>, auction_id: &str) -> (r: BidInfo)
    requires
        bidinfo is Some || has_auction(auctions@, auction_id@),
    ensures
        bidinfo matches Some(b) ==> r == b,
        bidinfo is None && distinct_ids(auctions@) ==> forall|k: int|
            0 <= k < auctions@.len() && (#[trigger] auctions@[k]).id@ == auction_id@ ==> r
                == auctions@[k].bidinfo,
        bidinfo is None ==> exists|i: int|
            0 <= i < auctions@.len() && (#[trigger] auctions@[i]).id@ == auction_id@ && r
                == auctions@[i].bidinfo && forall|k: int|
                0 <= k < i ==> (#[trigger] auctions@[k]).id@ != auction_id@,
{
    match bidinfo {
        Some(b) => *b,
        None => {
            let i = find_auction(auctions, auction_id).unwrap();
            auctions[i].bidinfo
        },
    }
}

// ---------------------------------------------------------------------------
// Filters
// ---------------------------------------------------------------------------

/// The city option of the properties page that selects every city.
pub const ALL_CITIES_STR: &'static str = "Todas las ciudades";

/// The brand option of the vehicles page that selects every brand.
pub const ALL_BRAND_STR: &'static str = "Todas las marcas";

/// The model option of the vehicles page that selects every model.
pub const ALL_MODEL_STR: &'static str = "Todos los modelos";

/// The empty option of the properties route, which selects every city.
pub const BLANK_OPTION: &'static str = "";

/// Whether a property passes the province and city filters of the
/// properties page: any province where `All` is selected, any city where
/// `ALL_CITIES_STR` is.
pub fn property_filter(property: &Property, province: Province, city: &str) -> (r: bool)
    ensures
        r == ((province == Province::All || property.province == province) && (city@
            == ALL_CITIES_STR@ || property.city@ == city@)),
{
    (province == Province::All || property.province == province) && (str_eq(city, ALL_CITIES_STR)
        || str_eq(property.city.as_str(), city))
}

/// Whether an asset is listed on the properties route: a property in the
/// selected province (any where `All` is selected) and city (any where the
/// empty option is); never a vehicle or another asset.
pub fn filter_asset_type(asset: &Asset, province: Province, city: &str) -> (r: bool)
    ensures
        r == (asset matches Asset::Property(p) && (province == Province::All || province
            == p.province) && (city@ == BLANK_OPTION@ || city@ == p.city@)),
{
    match asset {
        Asset::Property(p) => (province == Province::All || province == p.province) && (str_eq(
            city,
            BLANK_OPTION,
        ) || str_eq(city, p.city.as_str())),
        Asset::Vehicle(_) => false,
        Asset::Other(_) => false,
    }
}

/// Whether a vehicle passes the brand, model and bid-step filters of the
/// vehicles page: any brand or model where the option for all is selected,
/// and, where only auctions without bid steps are asked for, a bid step
/// that is not positive.
pub fn vehicle_filter(
    vehicle: &Vehicle,
    bidinfo: &BidInfo,
    brand: &str,
    model: &str,
    without_bid_step: bool,
) -> (r: bool)
    ensures
        r == ((brand@ == ALL_BRAND_STR@ || vehicle.brand@ == brand@) && (model@ == ALL_MODEL_STR@
            || vehicle.model@ == model@) && (!without_bid_step || bidinfo.bid_step.mantissa <= 0)),
{
    (str_eq(brand, ALL_BRAND_STR) || str_eq(vehicle.brand.as_str(), brand)) && (str_eq(
        model,
        ALL_MODEL_STR,
    ) || str_eq(vehicle.model.as_str(), model)) && (!without_bid_step
        || bidinfo.bid_step.mantissa <= 0)
}

/// The options of a dependent selector: the option for all first, then,
/// in order, the second item of each pair whose first item is `selected`
/// (all of them where `selected` is the option for all).
pub open spec fn dependent_options(
    pairs: Seq<(Seq<char>, Seq<char>)>,
    selected: Seq<char>,
    all_first: Seq<char>,
    all_second: Seq<char>,
) -> Seq<Seq<char>>
    decreases pairs.len(),
{
    if pairs.len() == 0 {
        seq![all_second]
    } else {
        let rest = dependent_options(pairs.drop_last(), selected, all_first, all_second);
        if selected == all_first || selected == pairs.last().0 {
            rest.push(pairs.last().1)
        } else {
            rest
        }
    }
}

/// The places seen as pairs of province name and city.
pub open spec fn model_pairs(pairs: Seq<(String, String)>) -> Seq<(Seq<char>, Seq<char>)> {
    pairs.map_values(|x: (String, String)| (x.0@, x.1@))
}

/// The models offered for the selected brand: the option for all models,
/// then the model of each (brand, model) pair of that brand (of every pair
/// where all brands are selected).
pub fn model_options(brand_models: &Vec<(String, String)>, brand: &str) -> (r: Vec<String>)
    ensures
        crate::parser::texts(r@) == dependent_options(
            model_pairs(brand_models@),
            brand@,
            ALL_BRAND_STR@,
            ALL_MODEL_STR@,
        ),
{
    let mut result: Vec<String> = Vec::new();
    result.push(owned(ALL_MODEL_STR));
    let ghost pairs = model_pairs(brand_models@);
    let all = str_eq(brand, ALL_BRAND_STR);
    let mut i: usize = 0;
    assert(pairs.take(0) =~= Seq::<(Seq<char>, Seq<char>)>::empty());
    while i < brand_models.len()
        invariant
            i <= brand_models@.len(),
            pairs == model_pairs(brand_models@),
            all == (brand@ == ALL_BRAND_STR@),
            crate::parser::texts(result@) == dependent_options(
                pairs.take(i as int),
                brand@,
                ALL_BRAND_STR@,
                ALL_MODEL_STR@,
            ),
        decreases brand_models@.len() - i,
    {
        assert(pairs.take(i + 1).drop_last() =~= pairs.take(i as int));
        assert(pairs.take(i + 1).last() == (brand_models@[i as int].0@, brand_models@[i as int].1@));
        if all || str_eq(brand, brand_models[i].0.as_str()) {
            let ghost before = result@;
            result.push(owned(brand_models[i].1.as_str()));
            assert(crate::parser::texts(result@) =~= crate::parser::texts(before).push(
                brand_models@[i as int].1@,
            ));
        }
        i = i + 1;
    }
    assert(pairs.take(i as int) =~= pairs);
    result
}

/// The cities offered for the selected province: the option for all
/// cities, then the city of each place in that province (of every place
/// where all provinces are selected), in the order of `places`.
pub open spec fn city_options_of(places: Seq<(String, Province)>, province: Province) -> Seq<Seq<char>>
    decreases places.len(),
{
    if places.len() == 0 {
        seq![ALL_CITIES_STR@]
    } else {
        let rest = city_options_of(places.drop_last(), province);
        if province == Province::All || province == places.last().1 {
            rest.push(places.last().0@)
        } else {
            rest
        }
    }
}

/// The cities offered for the selected province, see `city_options_of`.
pub fn city_options(places: &Vec<(String, Province)>, province: Province) -> (r: Vec<String>)
    ensures
        crate::parser::texts(r@) == city_options_of(places@, province),
{
    let mut result: Vec<String> = Vec::new();
    result.push(owned(ALL_CITIES_STR));
    let mut i: usize = 0;
    assert(places@.take(0) =~= Seq::<(String, Province)>::empty());
    assert(crate::parser::texts(result@) =~= seq![ALL_CITIES_STR@]);
    while i < places.len()
        invariant
            i <= places@.len(),
            crate::parser::texts(result@) == city_options_of(places@.take(i as int), province),
        decreases places@.len() - i,
    {
        assert(places@.take(i + 1).drop_last() =~= places@.take(i as int));
        assert(places@.take(i + 1).last() == places@[i as int]);
        if province == Province::All || province == places[i].1 {
            let ghost before = result@;
            result.push(owned(places[i].0.as_str()));
            assert(crate::parser::texts(result@) =~= crate::parser::texts(before).push(
                places@[i as int].0@,
            ));
        }
        i = i + 1;
    }
    assert(places@.take(i as int) =~= places@);
    result
}

/// The option that stays selected after the options change: the selected
/// one where it is still offered, else the first option (the one for
/// all).
pub fn keep_selection<'a>(options: &'a Vec<String>, selected: &'a str) -> (r: &'a str)
    requires
        options@.len() > 0,
    ensures
        crate::parser::texts(options@).contains(selected@) ==> r@ == selected@,
        !crate::parser::texts(options@).contains(selected@) ==> r@ == options@[0]@,
{
    let mut i: usize = 0;
    while i < options.len()
        invariant
            i <= options@.len(),
            forall|k: int| 0 <= k < i ==> options@[k]@ != selected@,
        decreases options@.len() - i,
    {
        if str_eq(options[i].as_str(), selected) {
            assert(crate::parser::texts(options@)[i as int] == selected@);
            return selected;
        }
        i = i + 1;
    }
    assert(!crate::parser::texts(options@).contains(selected@));
    options[0].as_str()
}

// ---------------------------------------------------------------------------
// Sortings
// ---------------------------------------------------------------------------

/// How the properties table is sorted.
#[derive(Debug, Clone, Copy, PartialEq, Eq, Structural)]
pub enum PropertySorting {
    /// In the order given.
    Unsorted,
    /// By province, ascending.
    ByProvince,
    /// By province, descending.
    ByReverseProvince,
    /// By value, ascending.
    ByValue,
    /// By value, descending.
    ByReverseValue,
}

/// How the vehicles table is sorted.
#[derive(Debug, Clone, Copy, PartialEq, Eq, Structural)]
pub enum VehicleSorting {
    /// In the order given.
    Unsorted,
    /// By value, ascending.
    ByValue,
    /// By value, descending.
    ByReverseValue,
}

/// How the table of other assets is sorted.
#[derive(Debug, Clone, Copy, PartialEq, Eq, Structural)]
pub enum OtherAssetSorting {
    /// In the order given.
    Unsorted,
    /// By value, ascending.
    ByValue,
    /// By value, descending.
    ByReverseValue,
}

/// How two amounts compare as numbers.
pub open spec fn amount_order(a: Amount, b: Amount) -> Ordering {
    if amount_le(a, b) && amount_le(b, a) {
        Ordering::Equal
    } else if amount_le(a, b) {
        Ordering::Less
    } else {
        Ordering::Greater
    }
}

/// How two provinces compare in their declaration order.
pub open spec fn province_order(a: Province, b: Province) -> Ordering {
    if province_position(a) < province_position(b) {
        Ordering::Less
    } else if province_position(a) == province_position(b) {
        Ordering::Equal
    } else {
        Ordering::Greater
    }
}

/// How two amounts compare, see `amount_order`.
pub fn compare_amounts(a: &Amount, b: &Amount) -> (r: Ordering)
    ensures
        r == amount_order(*a, *b),
{
    let le = amount_le_exec(a, b);
    let ge = amount_le_exec(b, a);
    if le && ge {
        Ordering::Equal
    } else if le {
        Ordering::Less
    } else {
        Ordering::Greater
    }
}

/// How two provinces compare, see `province_order`.
pub fn compare_provinces(a: Province, b: Province) -> (r: Ordering)
    ensures
        r == province_order(a, b),
{
    let x = a.position();
    let y = b.position();
    if x < y {
        Ordering::Less
    } else if x == y {
        Ordering::Equal
    } else {
        Ordering::Greater
    }
}

/// The reverse of an order.
pub open spec fn reversed(o: Ordering) -> Ordering {
    match o {
        Ordering::Less => Ordering::Greater,
        Ordering::Equal => Ordering::Equal,
        Ordering::Greater => Ordering::Less,
    }
}

/// How two properties (each with the bid information shown for it) compare
/// under a sorting of the properties table.
pub fn compare_properties(
    sorting: PropertySorting,
    a: &Property,
    a_bidinfo: &BidInfo,
    b: &Property,
    b_bidinfo: &BidInfo,
) -> (r: Ordering)
    ensures
        r == match sorting {
            PropertySorting::Unsorted => Ordering::Equal,
            PropertySorting::ByProvince => province_order(a.province, b.province),
            PropertySorting::ByReverseProvince => province_order(b.province, a.province),
            PropertySorting::ByValue => amount_order(a_bidinfo.value, b_bidinfo.value),
            PropertySorting::ByReverseValue => amount_order(b_bidinfo.value, a_bidinfo.value),
        },
{
    match sorting {
        PropertySorting::Unsorted => Ordering::Equal,
        PropertySorting::ByProvince => compare_provinces(a.province, b.province),
        PropertySorting::ByReverseProvince => compare_provinces(b.province, a.province),
        PropertySorting::ByValue => compare_amounts(&a_bidinfo.value, &b_bidinfo.value),
        PropertySorting::ByReverseValue => compare_amounts(&b_bidinfo.value, &a_bidinfo.value),
    }
}

/// How two vehicles or other assets, by the bid information shown for
/// them, compare under a sorting by value.
pub fn compare_by_value(sorting: VehicleSorting, a: &BidInfo, b: &BidInfo) -> (r: Ordering)
    ensures
        r == match sorting {
            VehicleSorting::Unsorted => Ordering::Equal,
            VehicleSorting::ByValue => amount_order(a.value, b.value),
            VehicleSorting::ByReverseValue => amount_order(b.value, a.value),
        },
{
    match sorting {
        VehicleSorting::Unsorted => Ordering::Equal,
        VehicleSorting::ByValue => compare_amounts(&a.value, &b.value),
        VehicleSorting::ByReverseValue => compare_amounts(&b.value, &a.value),
    }
}

/// The sorting by value of the vehicles table that a sorting of the table
/// of other assets stands for.
pub fn other_asset_sorting(sorting: OtherAssetSorting) -> (r: VehicleSorting)
    ensures
        r == match sorting {
            OtherAssetSorting::Unsorted => VehicleSorting::Unsorted,
            OtherAssetSorting::ByValue => VehicleSorting::ByValue,
            OtherAssetSorting::ByReverseValue => VehicleSorting::ByReverseValue,
        },
{
    match sorting {
        OtherAssetSorting::Unsorted => VehicleSorting::Unsorted,
        OtherAssetSorting::ByValue => VehicleSorting::ByValue,
        OtherAssetSorting::ByReverseValue => VehicleSorting::ByReverseValue,
    }
}

/// Sorting by value in reverse is the reverse of sorting by value, and
/// sorting by province in reverse the reverse of sorting by province.
pub proof fn lemma_reverse_sortings(a: Amount, b: Amount, p: Province, q: Province)
    ensures
        amount_order(b, a) == reversed(amount_order(a, b)),
        province_order(q, p) == reversed(province_order(p, q)),
{
    lemma_amount_le_total(a, b);
}

// ---------------------------------------------------------------------------
// Sorting by the table headers
// ---------------------------------------------------------------------------

/// The arrow that a sortable column's header shows.
#[derive(Debug, Clone, Copy, PartialEq, Eq, Structural)]
pub enum SortingOrder {
    /// No arrow: the table is not sorted by this column.
    Unsorted,
    /// Arrow up: a click sorts by this column, ascending.
    Up,
    /// Arrow down: a click sorts by this column, descending.
    Down,
}

/// A sortable column of the properties table.
#[derive(Debug, Clone, Copy, PartialEq, Eq, Structural)]
pub enum PropertyColumn {
    /// The province column.
    Province,
    /// The value column.
    Value,
}

/// How the properties table is sorted, and the arrows of its headers.
#[derive(Debug, Clone, Copy, PartialEq, Eq, Structural)]
pub struct PropertySortState {
    /// The sorting of the rows.
    pub sorting: PropertySorting,
    /// The arrow of the province header.
    pub province_order: SortingOrder,
    /// The arrow of the value header.
    pub value_order: SortingOrder,
}

/// The sorting of the properties table after a click on `column`: the
/// other column's arrow is cleared; a column without arrow or with the
/// arrow up sorts ascending by it and shows the arrow down, one with the
/// arrow down sorts descending by it and shows the arrow up.
pub open spec fn property_sort_after_click(current: PropertySortState, column: PropertyColumn) -> PropertySortState {
    match column {
        PropertyColumn::Province => if current.province_order == SortingOrder::Down {
            PropertySortState {
                sorting: PropertySorting::ByReverseProvince,
                province_order: SortingOrder::Up,
                value_order: SortingOrder::Unsorted,
            }
        } else {
            PropertySortState {
                sorting: PropertySorting::ByProvince,
                province_order: SortingOrder::Down,
                value_order: SortingOrder::Unsorted,
            }
        },
        PropertyColumn::Value => if current.value_order == SortingOrder::Down {
            PropertySortState {
                sorting: PropertySorting::ByReverseValue,
                province_order: SortingOrder::Unsorted,
                value_order: SortingOrder::Up,
            }
        } else {
            PropertySortState {
                sorting: PropertySorting::ByValue,
                province_order: SortingOrder::Unsorted,
                value_order: SortingOrder::Down,
            }
        },
    }
}

/// Handles a click on the header of `column` of the properties table, see
/// `property_sort_after_click`.
pub fn next_property_sorting(current: PropertySortState, column: PropertyColumn) -> (r: PropertySortState)
    ensures
        r == property_sort_after_click(current, column),
{
    match column {
        PropertyColumn::Province => {
            if current.province_order == SortingOrder::Down {
                PropertySortState {
                    sorting: PropertySorting::ByReverseProvince,
                    province_order: SortingOrder::Up,
                    value_order: SortingOrder::Unsorted,
                }
            } else {
                PropertySortState {
                    sorting: PropertySorting::ByProvince,
                    province_order: SortingOrder::Down,
                    value_order: SortingOrder::Unsorted,
                }
            }
        },
        PropertyColumn::Value => {
            if current.value_order == SortingOrder::Down {
                PropertySortState {
                    sorting: PropertySorting::ByReverseValue,
                    province_order: SortingOrder::Unsorted,
                    value_order: SortingOrder::Up,
                }
            } else {
                PropertySortState {
                    sorting: PropertySorting::ByValue,
                    province_order: SortingOrder::Unsorted,
                    value_order: SortingOrder::Down,
                }
            }
        },
    }
}

/// The sorting of the vehicles table after a click on its value header,
/// whose arrow is `value_order`: without arrow or with the arrow up it sorts
/// ascending and shows the arrow down; with the arrow down it sorts
/// descending and shows the arrow up.
pub open spec fn vehicle_sort_after_click(value_order: SortingOrder) -> (VehicleSorting, SortingOrder) {
    if value_order == SortingOrder::Down {
        (VehicleSorting::ByReverseValue, SortingOrder::Up)
    } else {
        (VehicleSorting::ByValue, SortingOrder::Down)
    }
}

/// Handles a click on the value header of the vehicles table, see
/// `vehicle_sort_after_click`.
pub fn next_vehicle_sorting(value_order: SortingOrder) -> (r: (VehicleSorting, SortingOrder))
    ensures
        r == vehicle_sort_after_click(value_order),
{
    if value_order == SortingOrder::Down {
        (VehicleSorting::ByReverseValue, SortingOrder::Up)
    } else {
        (VehicleSorting::ByValue, SortingOrder::Down)
    }
}

/// The sorting of the table of other assets after a click on its value
/// header, the same as the vehicles table's.
pub open spec fn other_asset_sort_after_click(value_order: SortingOrder) -> (OtherAssetSorting, SortingOrder) {
    if value_order == SortingOrder::Down {
        (OtherAssetSorting::ByReverseValue, SortingOrder::Up)
    } else {
        (OtherAssetSorting::ByValue, SortingOrder::Down)
    }
}

/// Handles a click on the value header of the table of other assets, see
/// `other_asset_sort_after_click`.
pub fn next_other_asset_sorting(value_order: SortingOrder) -> (r: (OtherAssetSorting, SortingOrder))
    ensures
        r == other_asset_sort_after_click(value_order),
{
    if value_order == SortingOrder::Down {
        (OtherAssetSorting::ByReverseValue, SortingOrder::Up)
    } else {
        (OtherAssetSorting::ByValue, SortingOrder::Down)
    }
}

/// Clicking the same header again flips the sorting: the first click on a
/// column sorts ascending by it, a second descending, a third ascending
/// again; a click on a column always clears the other column's arrow.
pub proof fn lemma_header_clicks(current: PropertySortState, column: PropertyColumn)
    ensures
        ({
            let once = property_sort_after_click(current, column);
            let twice = property_sort_after_click(once, column);
            let thrice = property_sort_after_click(twice, column);
            &&& match column {
                PropertyColumn::Province => once.value_order == SortingOrder::Unsorted,
                PropertyColumn::Value => once.province_order == SortingOrder::Unsorted,
            }
            &&& (current == (PropertySortState {
                sorting: PropertySorting::Unsorted,
                province_order: SortingOrder::Unsorted,
                value_order: SortingOrder::Unsorted,
            }) ==> match column {
                PropertyColumn::Province => once.sorting == PropertySorting::ByProvince
                    && twice.sorting == PropertySorting::ByReverseProvince
                    && thrice.sorting == PropertySorting::ByProvince,
                PropertyColumn::Value => once.sorting == PropertySorting::ByValue
                    && twice.sorting == PropertySorting::ByReverseValue
                    && thrice.sorting == PropertySorting::ByValue,
            })
        }),
{
}

} // verus!
