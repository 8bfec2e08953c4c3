//! Binance writes a pair joined, without a separator: `BTCUSDT`.

use crate::mappers::bybit::{denormalize_joined, joined_native, joined_pair, parse_joined};
use crate::mappers::symbol_mapper::{normalized_name, MapperError, Pair, SymbolMapper};
use crate::market_data::InstrumentType;
use vstd::prelude::*;

verus! {

#[derive(Clone, Copy, Debug)]
pub struct BinanceMapper;

impl SymbolMapper for BinanceMapper {
    open spec fn parsed(&self, native: Seq<char>, itype: InstrumentType) -> Result<
        Pair,
        MapperError,
    > {
        joined_pair(native, itype)
    }

    open spec fn denormalized(&self, normalized: Seq<char>, itype: InstrumentType) -> Result<
        Seq<char>,
        MapperError,
    > {
        joined_native(normalized, itype)
    }

    open spec fn exchange_name(&self) -> Seq<char> {
        "binance"@
    }

    fn normalize(&self, native: &str, itype: InstrumentType) -> (r: Result<String, MapperError>) {
        match self.parse(native, itype) {
            Ok((base, quote)) => Ok(normalized_name(itype, base.as_str(), quote.as_str())),
            Err(error) => Err(error),
        }
    }

    fn denormalize(&self, normalized: &str, itype: InstrumentType) -> (r: Result<
        String,
        MapperError,
    >) {
        denormalize_joined(normalized, itype)
    }

    fn parse(&self, native: &str, itype: InstrumentType) -> (r: Result<
        (String, String),
        MapperError,
    >) {
        parse_joined(native, itype)
    }

    fn exchange(&self) -> (name: &str) {
        "binance"
    }
}

} // verus!
