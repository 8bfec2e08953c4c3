//! The configuration of the feeds: for each exchange the instruments to
//! subscribe to, for spot and for perpetuals, and from it the connections
//! to start.

use crate::market_data::{Exchange, InstrumentType};
use crate::text::{text_eq, texts};
use vstd::prelude::*;

verus! {

/// The instruments configured, by the name of the exchange.
pub struct AppConfig {
    pub spot: Vec<(String, Vec<String>)>,
    pub perp: Vec<(String, Vec<String>)>,
}

/// One connection to start.
pub struct FeedPlan {
    pub exchange: Exchange,
    pub itype: InstrumentType,
    pub symbols: Vec<String>,
}

/// What a plan holds.
pub struct PlanModel {
    pub exchange: Exchange,
    pub itype: InstrumentType,
    pub symbols: Seq<Seq<char>>,
}

impl FeedPlan {
    /// What the plan holds.
    pub open spec fn view(&self) -> PlanModel {
        PlanModel { exchange: self.exchange, itype: self.itype, symbols: texts(self.symbols@) }
    }
}

/// What the plans hold.
pub open spec fn plan_models(plans: Seq<FeedPlan>) -> Seq<PlanModel> {
    Seq::new(plans.len(), |i: int| plans[i]@)
}

/// The instruments configured under a name: those of the last entry,
/// below `below`, of that very name.
pub open spec fn configured_for(
    entries: Seq<(String, Vec<String>)>,
    name: Seq<char>,
    below: int,
) -> Option<Seq<Seq<char>>>
    decreases below,
{
    if below <= 0 || below > entries.len() {
        None
    } else if entries[below - 1].0@ == name {
        Some(texts(entries[below - 1].1@))
    } else {
        configured_for(entries, name, below - 1)
    }
}

/// The exchanges that serve spot, in the order in which they are started.
pub open spec fn spot_exchanges() -> Seq<Exchange> {
    seq![Exchange::Binance, Exchange::Coinbase, Exchange::Mexc, Exchange::Bybit, Exchange::Kraken]
}

/// The exchanges that serve perpetuals, in the order in which they are
/// started.
pub open spec fn perp_exchanges() -> Seq<Exchange> {
    seq![Exchange::Binance, Exchange::Coinbase, Exchange::Mexc, Exchange::Bybit, Exchange::Lighter]
}

/// The connections to start for the exchanges given: one for each that has
/// instruments configured, in the order of the exchanges.
pub open spec fn planned(
    entries: Seq<(String, Vec<String>)>,
    exchanges: Seq<Exchange>,
    itype: InstrumentType,
) -> Seq<PlanModel>
    decreases exchanges.len(),
{
    if exchanges.len() == 0 {
        Seq::empty()
    } else {
        let before = planned(entries, exchanges.drop_last(), itype);
        match configured_for(entries, exchanges.last().name_of(), entries.len() as int) {
            Some(symbols) => before.push(PlanModel { exchange: exchanges.last(), itype, symbols }),
            None => before,
        }
    }
}

/// The instruments configured under a name.
pub fn symbols_for<'a>(entries: &'a Vec<(String, Vec<String>)>, name: &str) -> (symbols: Option<
    &'a Vec<String>,
>)
    ensures
        match symbols {
            Some(list) => configured_for(entries@, name@, entries.len() as int) == Some(
                texts(list@),
            ),
            None => configured_for(entries@, name@, entries.len() as int) is None,
        },
{
    let mut i: usize = entries.len();
    while i > 0
        invariant
            i <= entries.len(),
            configured_for(entries@, name@, entries.len() as int) == configured_for(
                entries@,
                name@,
                i as int,
            ),
        decreases i,
    {
        if text_eq(entries[i - 1].0.as_str(), name) {
            return Some(&entries[i - 1].1);
        }
        i -= 1;
    }
    None
}

/// A copy of a list of symbols.
fn copy_of(list: &Vec<String>) -> (copy: Vec<String>)
    ensures
        texts(copy@) == texts(list@),
{
    let mut copy: Vec<String> = Vec::new();
    let mut i: usize = 0;
    while i < list.len()
        invariant
            i <= list.len(),
            copy.len() == i,
            forall|k: int| 0 <= k < i ==> copy[k]@ == list[k]@,
        decreases list.len() - i,
    {
        copy.push(list[i].clone());
        i += 1;
    }
    assert(texts(copy@) =~= texts(list@));
    copy
}

/// The connections to start for the exchanges given.
fn plan(entries: &Vec<(String, Vec<String>)>, exchanges: &Vec<Exchange>, itype: InstrumentType) -> (plans:
    Vec<FeedPlan>)
    ensures
        plan_models(plans@) == planned(entries@, exchanges@, itype),
{
    let mut plans: Vec<FeedPlan> = Vec::new();
    let mut i: usize = 0;
    proof {
        assert(exchanges@.take(0) =~= Seq::empty());
        assert(plan_models(plans@) =~= Seq::empty());
    }
    while i < exchanges.len()
        invariant
            i <= exchanges.len(),
            plan_models(plans@) == planned(entries@, exchanges@.take(i as int), itype),
        decreases exchanges.len() - i,
    {
        proof {
            assert(exchanges@.take(i + 1).drop_last() =~= exchanges@.take(i as int));
            assert(exchanges@.take(i + 1).last() == exchanges@[i as int]);
        }
        let ghost before = plan_models(plans@);
        let exchange = exchanges[i];
        match symbols_for(entries, exchange.name()) {
            Some(symbols) => {
                let planned_feed = FeedPlan { exchange, itype, symbols: copy_of(symbols) };
                plans.push(planned_feed);
                proof {
                    assert(plan_models(plans@) =~= before.push(planned_feed@));
                }
            },
            None => {},
        }
        i += 1;
    }
    proof {
        assert(exchanges@.take(i as int) == exchanges@);
    }
    plans
}

impl AppConfig {
    /// The spot connections to start.
    pub fn spot_feeds(&self) -> (plans: Vec<FeedPlan>)
        ensures
            plan_models(plans@) == planned(self.spot@, spot_exchanges(), InstrumentType::Spot),
    {
        let mut exchanges: Vec<Exchange> = Vec::new();
        exchanges.push(Exchange::Binance);
        exchanges.push(Exchange::Coinbase);
        exchanges.push(Exchange::Mexc);
        exchanges.push(Exchange::Bybit);
        exchanges.push(Exchange::Kraken);
        assert(exchanges@ =~= spot_exchanges());
        plan(&self.spot, &exchanges, InstrumentType::Spot)
    }

    /// The perpetual connections to start.
    pub fn perp_feeds(&self) -> (plans: Vec<FeedPlan>)
        ensures
            plan_models(plans@) == planned(self.perp@, perp_exchanges(), InstrumentType::Perp),
    {
        let mut exchanges: Vec<Exchange> = Vec::new();
        exchanges.push(Exchange::Binance);
        exchanges.push(Exchange::Coinbase);
        exchanges.push(Exchange::Mexc);
        exchanges.push(Exchange::Bybit);
        exchanges.push(Exchange::Lighter);
        assert(exchanges@ =~= perp_exchanges());
        plan(&self.perp, &exchanges, InstrumentType::Perp)
    }
}

} // verus!
