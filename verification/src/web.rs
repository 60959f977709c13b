//! Logic of the web front end: routes, summaries and amounts as shown.

use vstd::prelude::*;
use num_format::{Buffer, Locale};
use substring::Substring;
use crate::text::{
    decimal, lemma_replace_char_absent, lemma_replace_char_concat, lemma_replace_char_itself,
    owned, replace_all,
};
use crate::types::Amount;

verus! {

// ---------------------------------------------------------------------------
// Outside calls
// ---------------------------------------------------------------------------

/// What `Substring::substring(s, start, end)` of the `substring` crate
/// returns: nothing where `end <= start`, otherwise the characters from
/// `start` to `end`, both cut at the end of `s`.
pub open spec fn substring_spec(s: Seq<char>, start: nat, end: nat) -> Seq<char> {
    if end <= start {
        Seq::empty()
    } else {
        let a = if start <= s.len() { start } else { s.len() };
        let b = if end <= s.len() { end } else { s.len() };
        s.subrange(a as int, b as int)
    }
}

/// Calls `Substring::substring` of the `substring` crate, which returns the
/// characters of `s` from `start` to `end` (see `substring_spec`).
#[verifier::external_body]
pub(crate) fn substring(s: &str, start: usize, end: usize) -> (r: &str)
    ensures
        r@ == substring_spec(s@, start as nat, end as nat),
{
    s.substring(start, end)
}

/// The digits `d` with a `.` between each group of three, counted from the
/// right.
pub open spec fn group_thousands(d: Seq<char>) -> Seq<char>
    decreases d.len(),
{
    if d.len() <= 3 {
        d
    } else {
        group_thousands(d.subrange(0, d.len() - 3)) + "."@ + d.subrange(d.len() - 3, d.len() as int)
    }
}

/// Dropping the separators of grouped digits gives the digits back: what
/// `format_spanish` writes, the amount reading of `get_decimal` (which
/// removes every `.`) reads back.
pub proof fn lemma_group_thousands_round_trip(d: Seq<char>)
    requires
        forall|i: int| 0 <= i < d.len() ==> d[i] != '.',
    ensures
        replace_all(group_thousands(d), "."@, ""@) == d,
    decreases d.len(),
{
    reveal_strlit(".");
    assert("."@ =~= seq!['.']);
    if d.len() <= 3 {
        lemma_replace_char_absent(d, '.', ""@);
    } else {
        let head = d.subrange(0, d.len() - 3);
        let tail = d.subrange(d.len() - 3, d.len() as int);
        lemma_group_thousands_round_trip(head);
        lemma_replace_char_concat(group_thousands(head) + "."@, tail, '.', ""@);
        lemma_replace_char_concat(group_thousands(head), "."@, '.', ""@);
        lemma_replace_char_itself('.', ""@);
        lemma_replace_char_absent(tail, '.', ""@);
        reveal_strlit("");
        assert(""@ =~= Seq::<char>::empty());
        assert(head + Seq::<char>::empty() + tail =~= d);
    }
}

/// Calls `num_format::Buffer::write_formatted` with `Locale::es`, whose
/// grouping is the standard one (groups of three digits) and whose
/// separator is `.`.
#[verifier::external_body]
pub(crate) fn format_spanish(n: u64) -> (r: String)
    ensures
        r@ == group_thousands(decimal(n as nat)),
{
    let mut buf = Buffer::default();
    buf.write_formatted(&n, &Locale::es);
    buf.as_str().to_string()
}

// ---------------------------------------------------------------------------
// Routes
// ---------------------------------------------------------------------------

/// The pages of the front end.
#[derive(Debug, Clone, Copy, PartialEq, Eq, Structural)]
pub enum Route {
    /// Properties table.
    Properties,
    /// Properties map.
    PropertiesMap,
    /// Vehicles table.
    Vehicles,
    /// Other assets table.
    OtherAssets,
    /// Statistics.
    Statistics,
    /// Home page.
    Home,
}

/// The fragment of each route's URL.
pub open spec fn route_url(r: Route) -> Seq<char> {
    match r {
        Route::Properties => "#/properties"@,
        Route::PropertiesMap => "#/properties-map"@,
        Route::Vehicles => "#/vehicles"@,
        Route::OtherAssets => "#/other-assets"@,
        Route::Statistics => "#/statistics"@,
        Route::Home => "#/"@,
    }
}

/// The route whose fragment is `hash`; `Home` for any other fragment.
pub open spec fn route_of_hash(hash: Seq<char>) -> Route {
    if hash == "#/properties"@ {
        Route::Properties
    } else if hash == "#/properties-map"@ {
        Route::PropertiesMap
    } else if hash == "#/vehicles"@ {
        Route::Vehicles
    } else if hash == "#/other-assets"@ {
        Route::OtherAssets
    } else if hash == "#/statistics"@ {
        Route::Statistics
    } else {
        Route::Home
    }
}

/// Every route is read back from the fragment of its URL.
pub proof fn lemma_route_round_trip(r: Route)
    ensures
        route_of_hash(route_url(r)) == r,
{
    reveal_strlit("#/properties");
    reveal_strlit("#/properties-map");
    reveal_strlit("#/vehicles");
    reveal_strlit("#/other-assets");
    reveal_strlit("#/statistics");
    reveal_strlit("#/");
    assert("#/properties"@.len() == 12);
    assert("#/properties-map"@.len() == 16);
    assert("#/vehicles"@.len() == 10);
    assert("#/other-assets"@.len() == 14);
    assert("#/statistics"@.len() == 12);
    assert("#/statistics"@[2] != "#/properties"@[2]);
    assert("#/"@.len() == 2);
}

impl Route {
    /// The route of a URL's fragment (`hash`, with its leading `#`).
    pub fn from_hash(hash: &str) -> (r: Self)
        ensures
            r == route_of_hash(hash@),
    {
        if crate::text::str_eq(hash, "#/properties") {
            Route::Properties
        } else if crate::text::str_eq(hash, "#/properties-map") {
            Route::PropertiesMap
        } else if crate::text::str_eq(hash, "#/vehicles") {
            Route::Vehicles
        } else if crate::text::str_eq(hash, "#/other-assets") {
            Route::OtherAssets
        } else if crate::text::str_eq(hash, "#/statistics") {
            Route::Statistics
        } else {
            Route::Home
        }
    }

    /// The fragment of the route's URL.
    pub fn to_url(self) -> (r: &'static str)
        ensures
            r@ == route_url(self),
    {
        match self {
            Route::Properties => "#/properties",
            Route::PropertiesMap => "#/properties-map",
            Route::Vehicles => "#/vehicles",
            Route::OtherAssets => "#/other-assets",
            Route::Statistics => "#/statistics",
            Route::Home => "#/",
        }
    }
}

/// The fragment part of a route: from its first `#` to the end, empty
/// where it has none.
pub open spec fn fragment(part: Seq<char>) -> Seq<char> {
    match crate::text::find(part, seq!['#']) {
        Some(i) => part.subrange(i, part.len() as int),
        None => Seq::empty(),
    }
}

/// The fragment of a route part, as fragment-only routing reads it: only
/// what follows (and includes) the first `#` counts.
pub fn route_fragment(part: &str) -> (r: String)
    ensures
        r@ == fragment(part@),
{
    let v = crate::text::chars_of(part);
    proof {
        crate::text::lemma_find_from(v@, seq!['#'], 0);
    }
    match crate::text::find_char_from(&v, '#', 0) {
        Some(i) => crate::text::string_of_range(&v, i, v.len()),
        None => String::new(),
    }
}

/// An address ending in a route's URL, with no `#` before it, routes to
/// that route: its fragment is the route's URL.
pub proof fn lemma_address_routes(prefix: Seq<char>, r: Route)
    requires
        forall|i: int| 0 <= i < prefix.len() ==> prefix[i] != '#',
    ensures
        fragment(prefix + route_url(r)) == route_url(r),
        route_of_hash(fragment(prefix + route_url(r))) == r,
{
    let u = route_url(r);
    let a = prefix + u;
    reveal_strlit("#/properties");
    reveal_strlit("#/properties-map");
    reveal_strlit("#/vehicles");
    reveal_strlit("#/other-assets");
    reveal_strlit("#/statistics");
    reveal_strlit("#/");
    assert(u.len() >= 2 && u[0] == '#');
    assert forall|k: int| 0 <= k < prefix.len() implies a[k] != '#' by {
        assert(a[k] == prefix[k]);
    }
    assert(a[prefix.len() as int] == '#');
    crate::text::lemma_find_char_at(a, '#', 0, prefix.len() as int);
    assert(a.subrange(prefix.len() as int, a.len() as int) =~= u);
    lemma_route_round_trip(r);
}

// ---------------------------------------------------------------------------
// Texts
// ---------------------------------------------------------------------------

/// Number of characters of a description shown in a table.
pub const DESCRIPTION_TEXT_LIMIT: usize = 150;

/// The first `DESCRIPTION_TEXT_LIMIT` characters of `text`, all of it if
/// shorter.
pub fn summarize(text: &str) -> (r: &str)
    ensures
        r@ == text@.subrange(
            0,
            if text@.len() < DESCRIPTION_TEXT_LIMIT {
                text@.len() as int
            } else {
                DESCRIPTION_TEXT_LIMIT as int
            },
        ),
{
    let count = text.unicode_len();
    let str_min = if count < DESCRIPTION_TEXT_LIMIT {
        count
    } else {
        DESCRIPTION_TEXT_LIMIT
    };
    let r = substring(text, 0, str_min);
    if str_min == 0 {
        assert(text@.subrange(0, 0) =~= Seq::<char>::empty());
    }
    r
}

/// The whole units of an amount with `scale` decimals and digits `m`,
/// for `m >= 0`: `m` divided by ten `scale` times.
pub open spec fn whole_units(m: nat, scale: nat) -> nat
    decreases scale,
{
    if scale == 0 {
        m
    } else {
        whole_units(m / 10, (scale - 1) as nat)
    }
}

/// The whole units of an amount as an unsigned number: its integer part,
/// 0 where that is negative.
pub open spec fn unsigned_whole_units(a: Amount) -> nat {
    if a.mantissa > 0 {
        whole_units(a.mantissa as nat, a.scale as nat)
    } else {
        0
    }
}

/// An amount as shown: its whole units grouped by thousands with `.`, a
/// `,` and the whole units of its fractional part, which are always `0`.
pub fn format_valuation(valuation: &Amount) -> (r: String)
    ensures
        r@ == group_thousands(decimal(unsigned_whole_units(*valuation))) + ","@ + decimal(0),
{
    let mut units: u64 = 0;
    if valuation.mantissa > 0 {
        units = valuation.mantissa as u64;
        let mut k: u32 = 0;
        while k < valuation.scale
            invariant
                valuation.mantissa > 0,
                k <= valuation.scale,
                whole_units(valuation.mantissa as nat, valuation.scale as nat) == whole_units(
                    units as nat,
                    (valuation.scale - k) as nat,
                ),
            decreases valuation.scale - k,
        {
            units = units / 10;
            k = k + 1;
        }
    }
    let mut out = format_spanish(units);
    out.append(",");
    let fraction = crate::text::decimal_text(0);
    out.append(fraction.as_str());
    out
}

} // verus!
