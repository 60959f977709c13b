//! The addresses of the geographic services that locate a property: the
//! OpenStreetMap search and the cadastre web services.

use vstd::prelude::*;
use crate::text::{chars_of, owned, string_of_range};

verus! {

/// OpenStreetMap's search service.
pub const NOMINATIN_OSM_URL: &'static str = "https://nominatim.openstreetmap.org/search.php";

/// The coordinate system of latitudes and longitudes.
pub const SRS_EPSG_4326: &'static str = "EPSG:4326";

/// The cadastre's service that gives the data of a reference.
pub const CATASTRO_DATA_QUERY_WITH_REFERENCE_URL: &'static str = "http://ovc.catastro.meh.es//ovcservweb/OVCSWLocalizacionRC/OVCCallejero.asmx/Consulta_DNPRC?Provincia=&Municipio=&RC=";

/// The cadastre's service that gives the coordinates of a reference, in
/// `EPSG:4326`.
pub const CATASTRO_COORDINATES_QUERY_WITH_REFERENCE_URL: &'static str = "http://ovc.catastro.meh.es//ovcservweb/OVCSWLocalizacionRC/OVCCoordenadas.asmx/Consulta_CPMRC?Provincia=&Municipio=&SRS=EPSG:4326&RC=";

/// Whether `c` is a blank: a space or a tab.
pub open spec fn is_blank(c: char) -> bool {
    c == ' ' || c == '\t'
}

/// The number of blanks that `s` starts with.
pub open spec fn leading_blanks(s: Seq<char>) -> nat
    decreases s.len(),
{
    if s.len() > 0 && is_blank(s[0]) {
        1 + leading_blanks(s.skip(1))
    } else {
        0
    }
}

/// `s` with every run of blanks made one space.
pub open spec fn collapse_blanks(s: Seq<char>) -> Seq<char>
    decreases s.len(),
{
    if s.len() == 0 {
        Seq::empty()
    } else if is_blank(s[0]) {
        proof {
            lemma_leading_blanks(s);
        }
        seq![' '] + collapse_blanks(s.skip(leading_blanks(s) as int))
    } else {
        seq![s[0]] + collapse_blanks(s.skip(1))
    }
}

/// The leading blanks are part of the text, and there is one where it
/// starts with a blank.
pub proof fn lemma_leading_blanks(s: Seq<char>)
    ensures
        leading_blanks(s) <= s.len(),
        s.len() > 0 && is_blank(s[0]) ==> leading_blanks(s) >= 1,
    decreases s.len(),
{
    if s.len() > 0 && is_blank(s[0]) {
        lemma_leading_blanks(s.skip(1));
    }
}

/// After the leading blanks comes the end or a character that is not one.
proof fn lemma_after_leading_blanks(s: Seq<char>)
    ensures
        leading_blanks(s) <= s.len(),
        leading_blanks(s) < s.len() ==> !is_blank(s[leading_blanks(s) as int]),
        forall|i: int| 0 <= i < leading_blanks(s) ==> is_blank(#[trigger] s[i]),
    decreases s.len(),
{
    if s.len() > 0 && is_blank(s[0]) {
        let t = s.skip(1);
        lemma_after_leading_blanks(t);
        assert forall|i: int| 0 <= i < leading_blanks(s) implies is_blank(#[trigger] s[i]) by {
            if i > 0 {
                assert(s[i] == t[i - 1]);
            }
        }
        if leading_blanks(s) < s.len() {
            assert(s[leading_blanks(s) as int] == t[leading_blanks(t) as int]);
        }
    }
}

/// Whether `t` has no tab and no two spaces in a row.
pub open spec fn tidy(t: Seq<char>) -> bool {
    forall|i: int|
        0 <= i < t.len() ==> #[trigger] t[i] != '\t' && (i + 1 < t.len() ==> !(t[i] == ' ' && t[i
            + 1] == ' '))
}

/// Collapsing keeps a first character that is not a blank.
proof fn lemma_collapse_first(s: Seq<char>)
    requires
        s.len() > 0,
        !is_blank(s[0]),
    ensures
        collapse_blanks(s).len() > 0,
        collapse_blanks(s)[0] == s[0],
{
}

/// The blanks of a collapsed text come one at a time, as spaces.
pub proof fn lemma_collapse_tidy(s: Seq<char>)
    ensures
        tidy(collapse_blanks(s)),
    decreases s.len(),
{
    if s.len() > 0 {
        if is_blank(s[0]) {
            lemma_leading_blanks(s);
            lemma_after_leading_blanks(s);
            let rest = s.skip(leading_blanks(s) as int);
            lemma_collapse_tidy(rest);
            let c = collapse_blanks(rest);
            if rest.len() > 0 {
                lemma_collapse_first(rest);
            }
            let r = seq![' '] + c;
            assert(collapse_blanks(s) == r);
            assert forall|i: int| 0 <= i < r.len() implies #[trigger] r[i] != '\t' && (i + 1
                < r.len() ==> !(r[i] == ' ' && r[i + 1] == ' ')) by {
                if i > 0 {
                    assert(r[i] == c[i - 1]);
                    if i + 1 < r.len() {
                        assert(r[i + 1] == c[i]);
                    }
                } else if r.len() > 1 {
                    assert(r[1] == c[0]);
                }
            }
        } else {
            let rest = s.skip(1);
            lemma_collapse_tidy(rest);
            let c = collapse_blanks(rest);
            let r = seq![s[0]] + c;
            assert(collapse_blanks(s) == r);
            assert forall|i: int| 0 <= i < r.len() implies #[trigger] r[i] != '\t' && (i + 1
                < r.len() ==> !(r[i] == ' ' && r[i + 1] == ' ')) by {
                if i > 0 {
                    assert(r[i] == c[i - 1]);
                    if i + 1 < r.len() {
                        assert(r[i + 1] == c[i]);
                    }
                }
            }
        }
    }
}

/// A tidy text collapses to itself.
pub proof fn lemma_tidy_collapses_to_itself(t: Seq<char>)
    requires
        tidy(t),
    ensures
        collapse_blanks(t) == t,
    decreases t.len(),
{
    if t.len() > 0 {
        let rest = t.skip(1);
        assert(tidy(rest)) by {
            assert forall|i: int| 0 <= i < rest.len() implies #[trigger] rest[i] != '\t' && (i + 1
                < rest.len() ==> !(rest[i] == ' ' && rest[i + 1] == ' ')) by {
                assert(rest[i] == t[i + 1]);
                if i + 1 < rest.len() {
                    assert(rest[i + 1] == t[i + 2]);
                }
            }
        }
        lemma_tidy_collapses_to_itself(rest);
        if is_blank(t[0]) {
            assert(t[0] == ' ');
            assert(leading_blanks(rest) == 0) by {
                if rest.len() > 0 {
                    assert(rest[0] == t[1]);
                }
            }
            assert(leading_blanks(t) == 1);
        }
        assert(seq![t[0]] + rest =~= t);
    }
}

/// Cleaning an address twice gives what cleaning it once gives: a cleaned
/// address has no tab and no two spaces in a row.
pub proof fn lemma_clean_address_idempotent(address: Seq<char>)
    ensures
        tidy(collapse_blanks(address)),
        collapse_blanks(collapse_blanks(address)) == collapse_blanks(address),
{
    lemma_collapse_tidy(address);
    lemma_tidy_collapses_to_itself(collapse_blanks(address));
}

/// Calls `regex::Regex::replace_all` with the pattern `[[:blank:]]+` and
/// the replacement ` `: the regex crate documents `[[:blank:]]` as `[\t ]`,
/// and with the greedy `+` every maximal run of blanks is one match, so
/// each run becomes one space.
#[verifier::external_body]
fn replace_blank_runs(address: &str) -> (r: String)
    ensures
        r@ == collapse_blanks(address@),
{
    let blanks = regex::Regex::new("[[:blank:]]+").unwrap();
    blanks.replace_all(address, " ").into_owned()
}

/// An address as the search service takes it: every run of blanks made
/// one space.
pub fn clean_address(address: &str) -> (r: String)
    ensures
        r@ == collapse_blanks(address@),
{
    replace_blank_runs(address)
}

/// The search for a street address.
pub open spec fn street_query(
    address: Seq<char>,
    city: Seq<char>,
    province: Seq<char>,
    country: Seq<char>,
    postal_code: Seq<char>,
) -> Seq<char> {
    NOMINATIN_OSM_URL@ + "?street="@ + collapse_blanks(address) + "&city="@ + city + "&state="@
        + province + "&country="@ + country + "&postalcode="@ + postal_code
        + "&countrycodes=es&format=jsonv2"@
}

/// The search for a city, where the street is not found.
pub open spec fn city_query(
    city: Seq<char>,
    province: Seq<char>,
    country: Seq<char>,
    postal_code: Seq<char>,
) -> Seq<char> {
    NOMINATIN_OSM_URL@ + "?city="@ + city + "&state="@ + province + "&country="@ + country
        + "&postalcode="@ + postal_code + "&countrycodes=es&format=jsonv2"@
}

/// The address of the search for a street address, see `street_query`.
pub fn nominatim_street_url(
    address: &str,
    city: &str,
    province: &str,
    country: &str,
    postal_code: &str,
) -> (r: String)
    ensures
        r@ == street_query(address@, city@, province@, country@, postal_code@),
{
    let cleaned = clean_address(address);
    let mut url = owned(NOMINATIN_OSM_URL);
    url.append("?street=");
    url.append(cleaned.as_str());
    url.append("&city=");
    url.append(city);
    url.append("&state=");
    url.append(province);
    url.append("&country=");
    url.append(country);
    url.append("&postalcode=");
    url.append(postal_code);
    url.append("&countrycodes=es&format=jsonv2");
    url
}

/// The address of the search for a city, see `city_query`.
pub fn nominatim_city_url(city: &str, province: &str, country: &str, postal_code: &str) -> (r:
    String)
    ensures
        r@ == city_query(city@, province@, country@, postal_code@),
{
    let mut url = owned(NOMINATIN_OSM_URL);
    url.append("?city=");
    url.append(city);
    url.append("&state=");
    url.append(province);
    url.append("&country=");
    url.append(country);
    url.append("&postalcode=");
    url.append(postal_code);
    url.append("&countrycodes=es&format=jsonv2");
    url
}

/// The address of the cadastre data of the reference `reference`.
pub fn catastro_data_url(reference: &str) -> (r: String)
    ensures
        r@ == CATASTRO_DATA_QUERY_WITH_REFERENCE_URL@ + reference@,
{
    let mut url = owned(CATASTRO_DATA_QUERY_WITH_REFERENCE_URL);
    url.append(reference);
    url
}

/// Whether the first fourteen characters of `reference` exist and are
/// ASCII, so that its first fourteen bytes are those characters.
pub open spec fn reference_head_ascii(reference: Seq<char>) -> bool {
    &&& reference.len() >= 14
    &&& forall|i: int| 0 <= i < 14 ==> (reference[i] as int) < 0x80
}

/// The address of the coordinates of the parcel of `reference`: its first
/// fourteen characters (the parcel) after the service's address.
pub fn catastro_coordinates_url(reference: &str) -> (r: String)
    requires
        reference_head_ascii(reference@),
    ensures
        r@ == CATASTRO_COORDINATES_QUERY_WITH_REFERENCE_URL@ + reference@.subrange(0, 14),
{
    let v = chars_of(reference);
    let parcel = string_of_range(&v, 0, 14);
    let mut url = owned(CATASTRO_COORDINATES_QUERY_WITH_REFERENCE_URL);
    url.append(parcel.as_str());
    url
}

} // verus!
