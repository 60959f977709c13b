//! Helpers on auction links and names.

use vstd::prelude::*;
use vstd::string::StrSliceExecFns;
use crate::parser::ParseError;
use crate::text::{
    chars_of, find, find_char_from, find_from, find_from_exec, lemma_find_char_at,
    lemma_find_from, lemma_find_from_at, occurs_at, strip_accents, strip_accents_exec,
    to_uppercase, uppercase, simple_case, simple_case_char, simple_upper, strip_accent,
};

verus! {

/// Text that precedes the lot number in a lot link.
pub const AUCTION_LOT_NUMBER_STR: &'static str = "idLote=";

/// Text that precedes the auction identifier in an auction link.
pub const AUCTION_ID_LINK_STR: &'static str = "?idSub=";

/// Whether `link` holds `tag` followed, somewhere after it, by a `&`.
pub open spec fn has_field(link: Seq<char>, tag: Seq<char>) -> bool {
    &&& find(link, tag) is Some
    &&& find_from(link, seq!['&'], find(link, tag)->0 + tag.len()) is Some
}

/// The value of the field `tag` in `link`: from the end of the first
/// occurrence of `tag` to the first `&` after it.
pub open spec fn field_value(link: Seq<char>, tag: Seq<char>) -> Seq<char> {
    let begin = find(link, tag)->0 + tag.len();
    link.subrange(begin, find_from(link, seq!['&'], begin)->0)
}

/// The link `<prefix><tag><value>&<rest>`.
pub open spec fn link_with_field(prefix: Seq<char>, tag: Seq<char>, value: Seq<char>, rest: Seq<char>) -> Seq<char> {
    prefix + tag + value + seq!['&'] + rest
}

/// A link that carries `value` in the field `tag` gives that value back:
/// in `<prefix><tag><value>&<rest>`, where `tag` first occurs at the end of
/// `<prefix><tag>` and `value` holds no `&`, the field is found and its
/// value is `value`.
pub proof fn lemma_field_round_trip(prefix: Seq<char>, tag: Seq<char>, value: Seq<char>, rest: Seq<char>)
    requires
        find(prefix + tag, tag) == Some(prefix.len() as int),
        forall|i: int| 0 <= i < value.len() ==> value[i] != '&',
    ensures
        has_field(link_with_field(prefix, tag, value, rest), tag),
        field_value(link_with_field(prefix, tag, value, rest), tag) == value,
{
    let link = link_with_field(prefix, tag, value, rest);
    let head = prefix + tag;
    let p = prefix.len() as int;
    let b = p + tag.len();
    lemma_find_from(head, tag, 0);
    assert(link.subrange(p, b) =~= tag);
    assert forall|k: int| 0 <= k < p implies !occurs_at(link, tag, k) by {
        if occurs_at(link, tag, k) {
            assert(link.subrange(k, k + tag.len()) =~= head.subrange(k, k + tag.len()));
            assert(occurs_at(head, tag, k));
        }
    }
    lemma_find_from_at(link, tag, 0, p);
    assert forall|k: int| b <= k < b + value.len() implies link[k] != '&' by {
        assert(link[k] == value[k - b]);
    }
    assert(link[b + value.len()] == '&');
    lemma_find_char_at(link, '&', b, b + value.len());
    assert(link.subrange(b, b + value.len()) =~= value);
}

/// Whether `link` holds the field `tag`, see `has_field`.
pub fn link_has_field(link: &str, tag: &str) -> (r: bool)
    ensures
        r == has_field(link@, tag@),
{
    let v = chars_of(link);
    let n = v.len();
    let t = chars_of(tag);
    proof {
        lemma_find_from(v@, t@, 0);
    }
    match find_from_exec(&v, &t, 0) {
        None => false,
        Some(i) => {
            assert(occurs_at(v@, t@, i as int));
            let begin = i + t.len();
            proof {
                lemma_find_from(v@, seq!['&'], begin as int);
            }
            find_char_from(&v, '&', begin).is_some()
        },
    }
}

/// The value of the field `tag` in `link`, see `field_value`.
pub fn extract_field_value_from_link<'l>(link: &'l str, tag: &str) -> (r: Result<&'l str, ParseError>)
    requires
        has_field(link@, tag@),
    ensures
        r matches Ok(v) && v@ == field_value(link@, tag@),
{
    let v = chars_of(link);
    let n = v.len();
    let t = chars_of(tag);
    proof {
        lemma_find_from(v@, t@, 0);
    }
    let id_begin = match find_from_exec(&v, &t, 0) {
        Some(i) => i + t.len(),
        None => 0,
    };
    proof {
        lemma_find_from(v@, seq!['&'], id_begin as int);
    }
    let id_end = match find_char_from(&v, '&', id_begin) {
        Some(e) => e,
        None => id_begin,
    };
    Ok(link.substring_char(id_begin, id_end))
}

/// Extract auction id from a `link`.
pub fn extract_auction_id_from_link(link: &str) -> (r: Result<&str, ParseError>)
    requires
        has_field(link@, AUCTION_ID_LINK_STR@),
    ensures
        r matches Ok(v) && v@ == field_value(link@, AUCTION_ID_LINK_STR@),
{
    extract_field_value_from_link(link, AUCTION_ID_LINK_STR)
}

/// Extract auction lot number from a `link`.
pub fn extract_auction_lot_number_from_link(link: &str) -> (r: Result<&str, ParseError>)
    requires
        has_field(link@, AUCTION_LOT_NUMBER_STR@),
    ensures
        r matches Ok(v) && v@ == field_value(link@, AUCTION_LOT_NUMBER_STR@),
{
    extract_field_value_from_link(link, AUCTION_LOT_NUMBER_STR)
}

/// The normal form of a `simple_case` text: its simple upper case without
/// acute accents on vowels.
pub open spec fn simple_normal(s: Seq<char>) -> Seq<char> {
    strip_accents(s.map_values(|c: char| simple_upper(c)))
}

/// Normalizing twice gives what normalizing once gives: the normal form of
/// a `simple_case` text is `simple_case` and is its own normal form.
pub proof fn lemma_normalize_idempotent(s: Seq<char>)
    requires
        simple_case(s),
    ensures
        simple_case(simple_normal(s)),
        simple_normal(simple_normal(s)) == simple_normal(s),
{
    let n = simple_normal(s);
    assert forall|i: int| 0 <= i < n.len() implies simple_case_char(#[trigger] n[i])
        && simple_upper(n[i]) == n[i] && strip_accent(n[i]) == n[i] by {
        assert(simple_case_char(s[i]));
    }
    assert(simple_normal(n) =~= n);
}

/// The normal form of a `simple_case` text keeps its length and holds no
/// lower-case ASCII letter and none of `Á`, `É`, `Í`, `Ó`, `Ú`; on an ASCII
/// text it is the ASCII upper case: `a`..`z` become `A`..`Z`, every other
/// character stays.
pub proof fn lemma_normal_form(s: Seq<char>)
    requires
        simple_case(s),
    ensures
        simple_normal(s).len() == s.len(),
        forall|i: int|
            0 <= i < s.len() ==> {
                let c = #[trigger] simple_normal(s)[i];
                &&& !('a' <= c && c <= 'z')
                &&& c != 'Á' && c != 'É' && c != 'Í' && c != 'Ó' && c != 'Ú'
            },
        (forall|i: int| 0 <= i < s.len() ==> (s[i] as int) < 0x80) ==> forall|i: int|
            0 <= i < s.len() ==> #[trigger] simple_normal(s)[i] == (if 'a' <= s[i] && s[i] <= 'z' {
                ((s[i] as int) - 32) as char
            } else {
                s[i]
            }),
{
    assert forall|i: int| 0 <= i < s.len() implies {
        let c = #[trigger] simple_normal(s)[i];
        &&& !('a' <= c && c <= 'z')
        &&& c != 'Á' && c != 'É' && c != 'Í' && c != 'Ó' && c != 'Ú'
    } by {
        assert(simple_case_char(s[i]));
    }
}

/// Normalize string: upper case, without acute accents on vowels.
pub fn normalize(s: &str) -> (r: String)
    ensures
        r@ == strip_accents(uppercase(s@)),
        simple_case(s@) ==> r@ == simple_normal(s@),
{
    let up = to_uppercase(s);
    let v = chars_of(up.as_str());
    let w = strip_accents_exec(&v);
    crate::text::string_of(&w)
}

} // verus!
