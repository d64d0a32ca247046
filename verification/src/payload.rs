//! One trade reported by the venue's activity feed.

use vstd::prelude::*;

verus! {

/// A trade event as the feed reports it. `N` is the number type of the
/// price and the size of the trade, which no decision here reads.
#[derive(Debug)]
pub struct Payload<N> {
    pub asset: String,
    pub bio: String,
    pub condition_id: String,
    pub event_slug: String,
    pub icon: String,
    pub name: String,
    pub outcome: String,
    pub outcome_index: u32,
    pub price: N,
    pub proxy_wallet: String,
    pub side: String,
    pub size: N,
    pub timestamp: u64,
    pub title: String,
    pub transaction_hash: String,
}

/// The mathematical value of a [`Payload`]: every text as its characters.
pub struct PayloadView<N> {
    pub asset: Seq<char>,
    pub bio: Seq<char>,
    pub condition_id: Seq<char>,
    pub event_slug: Seq<char>,
    pub icon: Seq<char>,
    pub name: Seq<char>,
    pub outcome: Seq<char>,
    pub outcome_index: u32,
    pub price: N,
    pub proxy_wallet: Seq<char>,
    pub side: Seq<char>,
    pub size: N,
    pub timestamp: u64,
    pub title: Seq<char>,
    pub transaction_hash: Seq<char>,
}

impl<N> View for Payload<N> {
    type V = PayloadView<N>;

    open spec fn view(&self) -> PayloadView<N> {
        PayloadView {
            asset: self.asset@,
            bio: self.bio@,
            condition_id: self.condition_id@,
            event_slug: self.event_slug@,
            icon: self.icon@,
            name: self.name@,
            outcome: self.outcome@,
            outcome_index: self.outcome_index,
            price: self.price,
            proxy_wallet: self.proxy_wallet@,
            side: self.side@,
            size: self.size,
            timestamp: self.timestamp,
            title: self.title@,
            transaction_hash: self.transaction_hash@,
        }
    }
}

impl<N> PayloadView<N> {
    /// Whether every text of the event is empty.
    pub open spec fn texts_empty(self) -> bool {
        &&& self.asset.len() == 0
        &&& self.bio.len() == 0
        &&& self.condition_id.len() == 0
        &&& self.event_slug.len() == 0
        &&& self.icon.len() == 0
        &&& self.name.len() == 0
        &&& self.outcome.len() == 0
        &&& self.proxy_wallet.len() == 0
        &&& self.side.len() == 0
        &&& self.title.len() == 0
        &&& self.transaction_hash.len() == 0
    }
}

impl<N: Default> Default for Payload<N> {
    /// The blank event: every text empty, outcome index 0, timestamp 1, and
    /// the price and the size whatever `N` takes for its default.
    fn default() -> (blank: Self)
        ensures
            blank@.texts_empty(),
            blank.outcome_index == 0,
            blank.timestamp == 1,
            call_ensures(N::default, (), blank.price),
            call_ensures(N::default, (), blank.size),
    {
        Payload {
            asset: String::new(),
            bio: String::new(),
            condition_id: String::new(),
            event_slug: String::new(),
            icon: String::new(),
            name: String::new(),
            outcome: String::new(),
            outcome_index: 0,
            price: N::default(),
            proxy_wallet: String::new(),
            side: String::new(),
            size: N::default(),
            timestamp: 1,
            title: String::new(),
            transaction_hash: String::new(),
        }
    }
}

} // verus!
