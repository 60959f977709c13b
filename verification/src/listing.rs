//! Logic of the auction listing front end: links to the BOE portal and
//! description summaries.

use vstd::prelude::*;
use crate::text::{lemma_find_from_at, occurs_at, owned};
use crate::util::{
    field_value, has_field, lemma_field_round_trip, link_with_field, AUCTION_ID_LINK_STR,
};
use crate::web::substring;

verus! {

/// Number of characters of a description shown in a listing.
pub const DESCRIPTION_TEXT_LIMIT: usize = 300;

/// Address of an auction's page on the BOE portal, without its identifier.
pub const SUBASTAS_BOE_URI: &'static str = "https://subastas.boe.es/detalleSubasta.php?idSub=";

/// The address of `SUBASTAS_BOE_URI` before its identifier field.
pub open spec fn boe_detail_page() -> Seq<char> {
    "https://subastas.boe.es/detalleSubasta.php"@
}

/// The BOE address of an auction gives its identifier back: in
/// `get_external_url(id)` followed by `&` and anything, where `id` holds no
/// `&`, the identifier field is found and its value is `id`.
pub proof fn lemma_external_url_id_round_trip(id: Seq<char>, rest: Seq<char>)
    requires
        forall|i: int| 0 <= i < id.len() ==> id[i] != '&',
    ensures
        has_field(SUBASTAS_BOE_URI@ + id + seq!['&'] + rest, AUCTION_ID_LINK_STR@),
        field_value(SUBASTAS_BOE_URI@ + id + seq!['&'] + rest, AUCTION_ID_LINK_STR@) == id,
{
    reveal_strlit("https://subastas.boe.es/detalleSubasta.php?idSub=");
    reveal_strlit("https://subastas.boe.es/detalleSubasta.php");
    reveal_strlit("?idSub=");
    let prefix = boe_detail_page();
    let tag = AUCTION_ID_LINK_STR@;
    let head = prefix + tag;
    assert(SUBASTAS_BOE_URI@ =~= head);
    assert(occurs_at(head, tag, prefix.len() as int)) by {
        assert(head.subrange(prefix.len() as int, head.len() as int) =~= tag);
    }
    assert forall|k: int| 0 <= k < prefix.len() implies !occurs_at(head, tag, k) by {
        if occurs_at(head, tag, k) {
            assert(head.subrange(k, k + tag.len())[0] == tag[0]);
            assert(head[k] == prefix[k]);
        }
    }
    lemma_find_from_at(head, tag, 0, prefix.len() as int);
    lemma_field_round_trip(prefix, tag, id, rest);
    assert(SUBASTAS_BOE_URI@ + id + seq!['&'] + rest =~= link_with_field(prefix, tag, id, rest));
}

/// Address of the BOE page of the auction `auction_id`.
pub fn get_external_url(auction_id: &str) -> (r: String)
    ensures
        r@ == SUBASTAS_BOE_URI@ + auction_id@,
{
    let mut url = owned(SUBASTAS_BOE_URI);
    url.append(auction_id);
    url
}

/// The summary of a description: its first `DESCRIPTION_TEXT_LIMIT`
/// characters, followed by `...` where it has at least that many.
pub open spec fn summary(text: Seq<char>) -> Seq<char> {
    if text.len() < DESCRIPTION_TEXT_LIMIT {
        text
    } else {
        text.subrange(0, DESCRIPTION_TEXT_LIMIT as int) + "..."@
    }
}

/// A summary is the description where it is shorter than the limit, and
/// otherwise its first `DESCRIPTION_TEXT_LIMIT` characters and `...`: it is
/// never longer than the limit and the three dots, and it starts with the
/// description's first characters.
pub proof fn lemma_summary_shape(text: Seq<char>)
    ensures
        summary(text).len() <= DESCRIPTION_TEXT_LIMIT + 3,
        text.len() < DESCRIPTION_TEXT_LIMIT ==> summary(text) == text,
        text.len() >= DESCRIPTION_TEXT_LIMIT ==> summary(text).subrange(
            0,
            DESCRIPTION_TEXT_LIMIT as int,
        ) == text.subrange(0, DESCRIPTION_TEXT_LIMIT as int),
{
    reveal_strlit("...");
    if text.len() >= DESCRIPTION_TEXT_LIMIT {
        assert(summary(text).subrange(0, DESCRIPTION_TEXT_LIMIT as int) =~= text.subrange(
            0,
            DESCRIPTION_TEXT_LIMIT as int,
        ));
        assert("..."@.len() == 3);
    }
}

/// The summary of `text`, see `summary`.
pub fn summarize(text: &str) -> (r: String)
    ensures
        r@ == summary(text@),
{
    let count = text.unicode_len();
    let str_min = if count < DESCRIPTION_TEXT_LIMIT {
        count
    } else {
        DESCRIPTION_TEXT_LIMIT
    };
    let mut new_text = owned(substring(text, 0, str_min));
    if str_min == 0 {
        assert(new_text@ =~= text@);
    } else if str_min < DESCRIPTION_TEXT_LIMIT {
        assert(text@.subrange(0, str_min as int) =~= text@);
    }
    if new_text.as_str().unicode_len() == DESCRIPTION_TEXT_LIMIT {
        new_text.append("...");
    }
    new_text
}

} // verus!
