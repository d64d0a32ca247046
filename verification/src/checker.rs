//! The decision whether a feed event calls for a mirrored purchase.

use vstd::prelude::*;
use crate::payload::{Payload, PayloadView};
use crate::text::lowercase;
use crate::watchlist::{law_keys_come_from_rows, row_names, targets_of, RecordView, Watchlist};

verus! {

/// A verdict with its texts as characters: whether the event matched, the
/// token that was traded, and the watchlist key that matched.
pub type Verdict = (bool, Option<Seq<char>>, Option<Seq<char>>);

/// The verdict "no match": no token and no key.
pub open spec fn no_match() -> Verdict {
    (false, None, None)
}

/// Whether `side` names a purchase.
pub open spec fn is_buy(side: Seq<char>) -> bool {
    side == "Buy"@
}

/// The watchlist key that an event matches, if any. Only a purchase
/// matches. The account's name is looked up first and its wallet address
/// second, each in lowercase; the name wins where both are keys.
pub open spec fn matched_key<N>(event: PayloadView<N>, keys: Set<Seq<char>>) -> Option<Seq<char>> {
    if !is_buy(event.side) {
        None
    } else if keys.contains(lowercase(event.name)) {
        Some(lowercase(event.name))
    } else if keys.contains(lowercase(event.proxy_wallet)) {
        Some(lowercase(event.proxy_wallet))
    } else {
        None
    }
}

/// The verdict on a message: on a matching event its token and the key that
/// matched; "no match" on any other event and on a message that did not
/// decode.
pub open spec fn verdict_on<N>(msg: Option<PayloadView<N>>, keys: Set<Seq<char>>) -> Verdict {
    match msg {
        None => no_match(),
        Some(event) => match matched_key(event, keys) {
            Some(key) => (true, Some(event.asset), Some(key)),
            None => no_match(),
        },
    }
}

/// The decoded message as a mathematical value.
pub open spec fn message_view<N>(msg: Option<Payload<N>>) -> Option<PayloadView<N>> {
    match msg {
        Some(event) => Some(event@),
        None => None,
    }
}

/// The characters of an optional text.
pub open spec fn text_view(text: Option<String>) -> Option<Seq<char>> {
    match text {
        Some(t) => Some(t@),
        None => None,
    }
}

/// The verdict that `check` returned, with its texts as characters.
pub open spec fn verdict_view(verdict: (bool, Option<String>, Option<String>)) -> Verdict {
    (verdict.0, text_view(verdict.1), text_view(verdict.2))
}

/// Decides whether a feed message calls for a mirrored purchase. `msg` is
/// the decoded event, or `None` where the message did not decode. Returns
/// whether it matched, the traded token, and the watchlist key that matched.
pub fn check<N, S>(msg: Option<Payload<N>>, against: &Watchlist<S>) -> (verdict: (
    bool,
    Option<String>,
    Option<String>,
))
    ensures
        verdict_view(verdict) == verdict_on(message_view(msg), against@.dom()),
{
    match msg {
        None => (false, None, None),
        Some(event) => {
            let address = event.proxy_wallet.as_str().to_lowercase();
            let username = event.name.as_str().to_lowercase();
            let buy = "Buy".to_owned();
            if !(event.side == buy) {
                return (false, None, None);
            }
            if against.contains_key(username.as_str()) {
                (true, Some(event.asset), Some(username))
            } else if against.contains_key(address.as_str()) {
                (true, Some(event.asset), Some(address))
            } else {
                (false, None, None)
            }
        },
    }
}

/// An event that is no purchase matches nothing, whoever made the trade
/// and whatever the watchlist holds.
pub proof fn law_only_purchases_match<N>(event: PayloadView<N>, keys: Set<Seq<char>>)
    requires
        !is_buy(event.side),
    ensures
        verdict_on(Some(event), keys) == no_match(),
{
}

/// A purchase by an account whose lowercase name is a key matches with that
/// key and the traded token, also where the lowercase wallet address is a
/// key too.
pub proof fn law_name_matches_first<N>(event: PayloadView<N>, keys: Set<Seq<char>>)
    requires
        is_buy(event.side),
        keys.contains(lowercase(event.name)),
    ensures
        verdict_on(Some(event), keys) == (
            true,
            Some(event.asset),
            Some(lowercase(event.name)),
        ),
{
}

/// A purchase by an account whose lowercase name is no key and whose
/// lowercase wallet address is one matches with the address key.
pub proof fn law_address_matches_second<N>(event: PayloadView<N>, keys: Set<Seq<char>>)
    requires
        is_buy(event.side),
        !keys.contains(lowercase(event.name)),
        keys.contains(lowercase(event.proxy_wallet)),
    ensures
        verdict_on(Some(event), keys) == (
            true,
            Some(event.asset),
            Some(lowercase(event.proxy_wallet)),
        ),
{
}

/// A message that did not decode is "no match", with no token and no key.
pub proof fn law_undecoded_message_matches_nothing<N>(keys: Set<Seq<char>>)
    ensures
        verdict_on(None::<PayloadView<N>>, keys) == no_match(),
{
}

/// The verdict is "no match" exactly when no key was matched; a match
/// names a key of the watchlist.
pub proof fn law_match_names_a_key<N>(msg: Option<PayloadView<N>>, keys: Set<Seq<char>>)
    ensures
        verdict_on(msg, keys).0 <==> verdict_on(msg, keys).1 is Some,
        verdict_on(msg, keys).0 <==> verdict_on(msg, keys).2 is Some,
        verdict_on(msg, keys).2 is Some ==> keys.contains(verdict_on(msg, keys).2.unwrap()),
{
}

/// Matching ignores case: two events that agree on side and token, and on
/// the lowercase forms of name and wallet address, get the same verdict.
pub proof fn law_matching_ignores_case<N>(
    a: PayloadView<N>,
    b: PayloadView<N>,
    keys: Set<Seq<char>>,
)
    requires
        a.side == b.side,
        a.asset == b.asset,
        lowercase(a.name) == lowercase(b.name),
        lowercase(a.proxy_wallet) == lowercase(b.proxy_wallet),
    ensures
        verdict_on(Some(a), keys) == verdict_on(Some(b), keys),
{
}

/// Loading and matching agree: a purchase by an account whose name has the
/// lowercase form of the username of a stored row matches under that key,
/// whatever the other rows hold.
pub proof fn law_watched_username_is_matched<N, S>(
    rows: Seq<RecordView<S>>,
    i: int,
    event: PayloadView<N>,
)
    requires
        0 <= i < rows.len(),
        rows[i].username.len() > 0,
        rows[i].size is Some,
        is_buy(event.side),
        lowercase(event.name) == lowercase(rows[i].username),
    ensures
        verdict_on(Some(event), targets_of(rows).dom()) == (
            true,
            Some(event.asset),
            Some(lowercase(rows[i].username)),
        ),
{
    law_keys_come_from_rows(rows);
    assert(row_names(rows, i, lowercase(rows[i].username)));
}

/// Loading and matching agree: a purchase by an account whose name is not on
/// the watchlist, and whose wallet address has the lowercase form of the
/// address of a stored row without a username, matches under that key.
pub proof fn law_watched_address_is_matched<N, S>(
    rows: Seq<RecordView<S>>,
    i: int,
    event: PayloadView<N>,
)
    requires
        0 <= i < rows.len(),
        rows[i].username.len() == 0,
        rows[i].address.len() > 0,
        rows[i].size is Some,
        is_buy(event.side),
        !targets_of(rows).contains_key(lowercase(event.name)),
        lowercase(event.proxy_wallet) == lowercase(rows[i].address),
    ensures
        verdict_on(Some(event), targets_of(rows).dom()) == (
            true,
            Some(event.asset),
            Some(lowercase(rows[i].address)),
        ),
{
    law_keys_come_from_rows(rows);
    assert(row_names(rows, i, lowercase(rows[i].address)));
}

} // verus!
