//! Reads of a table by the native symbol of an instrument: the symbol is
//! resolved by the registry, and the table is read at the id it resolves to.

use crate::binary64::Binary64;
use crate::market_data::{read, InstrumentType, MarketData, MarketDataCollection};
use crate::symbol_registry::{resolve, RegistryModel, SymbolId, SymbolRegistry};
use crate::time::Timestamp;
use vstd::prelude::*;

verus! {

/// What a read by symbol gives: the quote of the id that the symbol resolves
/// to, if it resolves to one and that id has a quote.
pub open spec fn read_by_symbol(
    table: Map<SymbolId, MarketData>,
    registry: RegistryModel,
    symbol: Seq<char>,
    itype: InstrumentType,
) -> Option<MarketData> {
    match resolve(registry, symbol, itype) {
        Some(id) => read(table, id),
        None => None,
    }
}

/// The quote of an instrument, by its native symbol.
pub fn get_by_symbol<'a>(
    collection: &'a MarketDataCollection,
    registry: &SymbolRegistry,
    symbol: &str,
    itype: &InstrumentType,
) -> (r: Option<&'a MarketData>)
    ensures
        match r {
            Some(quote) => read_by_symbol(collection@, registry@, symbol@, *itype) == Some(*quote),
            None => read_by_symbol(collection@, registry@, symbol@, *itype) is None,
        },
{
    match registry.lookup(symbol, itype) {
        Some(id) => collection.get(id),
        None => None,
    }
}

/// The two terms of the mid-quote of an instrument, by its native symbol.
pub fn get_midquote_by_symbol(
    collection: &MarketDataCollection,
    registry: &SymbolRegistry,
    symbol: &str,
    itype: &InstrumentType,
) -> (r: Option<(Binary64, Binary64)>)
    ensures
        r == match read_by_symbol(collection@, registry@, symbol@, *itype) {
            Some(quote) => quote.sides(),
            None => None,
        },
{
    match registry.lookup(symbol, itype) {
        Some(id) => collection.get_midquote(id),
        None => None,
    }
}

/// The two terms of the mid-quote of an instrument and the time at which its
/// quote was received, by the instrument's native symbol.
pub fn get_midquote_w_timestamp_by_symbol(
    collection: &MarketDataCollection,
    registry: &SymbolRegistry,
    symbol: &str,
    itype: &InstrumentType,
) -> (r: Option<((Binary64, Binary64), Timestamp)>)
    ensures
        r == match read_by_symbol(collection@, registry@, symbol@, *itype) {
            Some(quote) => if quote.sides() is Some && quote.received_ts is Some {
                Some((quote.sides()->0, quote.received_ts->0))
            } else {
                None
            },
            None => None,
        },
{
    match registry.lookup(symbol, itype) {
        Some(id) => collection.get_midquote_w_timestamp(id),
        None => None,
    }
}

} // verus!
