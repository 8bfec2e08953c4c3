//! The interface of a symbol mapper, and what the mappers share.

use crate::market_data::InstrumentType;
use crate::text::{
    chars_of, concat3, ends_with, split, split_on, strip_suffix, texts, to_upper, uppercase,
};
use vstd::prelude::*;

verus! {

/// Why a symbol could not be mapped.
#[derive(Clone, Copy, Debug, PartialEq, Eq, Structural)]
pub enum MapperError {
    /// The symbol has not the parts that the mapping needs.
    InvalidSymbol,
    /// The mapper does not serve the instrument type.
    UnsupportedInstrument,
    /// No mapper is known for the exchange.
    UnsupportedExchange,
}

/// A base asset and a quote currency.
pub type Pair = (Seq<char>, Seq<char>);

/// The normalized symbol of a pair: `{TYPE}_{BASE}_{QUOTE}`.
pub open spec fn normalized_symbol(itype: InstrumentType, pair: Pair) -> Seq<char> {
    itype.tag() + "_"@ + pair.0 + "_"@ + pair.1
}

/// The normalized symbol of what a native symbol was parsed to.
pub open spec fn normalized_from(
    parsed: Result<Pair, MapperError>,
    itype: InstrumentType,
) -> Result<Seq<char>, MapperError> {
    match parsed {
        Ok(pair) => Ok(normalized_symbol(itype, pair)),
        Err(error) => Err(error),
    }
}

/// The pair that a normalized symbol names, for the way back to a native
/// symbol. Of three parts the first is the type tag; of any other number,
/// two at least, the first two parts are the pair.
pub open spec fn pair_of(normalized: Seq<char>) -> Option<Pair> {
    let parts = split_on(normalized, '_');
    if parts.len() < 2 {
        None
    } else if parts.len() == 3 {
        Some((parts[1], parts[2]))
    } else {
        Some((parts[0], parts[1]))
    }
}

/// The pair that a normalized symbol names, where it has exactly two parts,
/// or three of which the first is the type tag.
pub open spec fn strict_pair_of(normalized: Seq<char>) -> Option<Pair> {
    let parts = split_on(normalized, '_');
    if parts.len() == 3 {
        Some((parts[1], parts[2]))
    } else if parts.len() == 2 {
        Some((parts[0], parts[1]))
    } else {
        None
    }
}

/// The quote currencies that a joined symbol may end with, in the order in
/// which they are tried.
pub open spec fn known_quotes() -> Seq<Seq<char>> {
    seq!["USDT"@, "USDC"@, "BUSD"@, "USD"@, "BTC"@, "ETH"@, "BNB"@]
}

/// The text ends with the quote currency and something stands before it.
pub open spec fn splits_at_quote(text: Seq<char>, quote: Seq<char>) -> bool {
    ends_with(text, quote) && text.len() > quote.len()
}

/// The pair of a joined symbol, tried against the known quotes from the one
/// numbered `from` on: the first quote that the symbol ends with, after a
/// base that is not empty.
pub open spec fn pair_by_suffix_from(text: Seq<char>, from: nat) -> Option<Pair>
    decreases known_quotes().len() - from,
{
    if from >= known_quotes().len() {
        None
    } else {
        let quote = known_quotes()[from as int];
        if splits_at_quote(text, quote) {
            Some((text.subrange(0, text.len() - quote.len()), quote))
        } else {
            pair_by_suffix_from(text, from + 1)
        }
    }
}

/// The pair of a joined symbol such as `BTCUSDT`, read in upper case.
pub open spec fn pair_by_suffix(native: Seq<char>) -> Option<Pair> {
    pair_by_suffix_from(uppercase(native), 0)
}

/// The pair of a symbol whose base and quote a separator divides: the first
/// two parts.
pub open spec fn pair_by_separator(native: Seq<char>, sep: char) -> Option<Pair> {
    let parts = split_on(native, sep);
    if parts.len() < 2 {
        None
    } else {
        Some((parts[0], parts[1]))
    }
}

/// The texts of a result.
pub open spec fn text_of(result: Result<String, MapperError>) -> Result<Seq<char>, MapperError> {
    match result {
        Ok(text) => Ok(text@),
        Err(error) => Err(error),
    }
}

/// The texts of a pair, where there is one.
pub open spec fn pair_text_of(result: Result<(String, String), MapperError>) -> Result<
    Pair,
    MapperError,
> {
    match result {
        Ok(pair) => Ok((pair.0@, pair.1@)),
        Err(error) => Err(error),
    }
}

/// Converts between the native symbols of one exchange and normalized
/// symbols.
pub trait SymbolMapper {
    /// The base and the quote of a native symbol.
    spec fn parsed(&self, native: Seq<char>, itype: InstrumentType) -> Result<Pair, MapperError>;

    /// The native symbol of a normalized one.
    spec fn denormalized(&self, normalized: Seq<char>, itype: InstrumentType) -> Result<
        Seq<char>,
        MapperError,
    >;

    /// The name that the mapper gives for its exchange.
    spec fn exchange_name(&self) -> Seq<char>;

    /// The normalized symbol of a native one: its parsed pair behind the
    /// type tag.
    fn normalize(&self, native: &str, itype: InstrumentType) -> (r: Result<String, MapperError>)
        ensures
            text_of(r) == normalized_from(self.parsed(native@, itype), itype),
    ;

    /// The native symbol of a normalized one.
    fn denormalize(&self, normalized: &str, itype: InstrumentType) -> (r: Result<
        String,
        MapperError,
    >)
        ensures
            text_of(r) == self.denormalized(normalized@, itype),
    ;

    /// The base and the quote of a native symbol.
    fn parse(&self, native: &str, itype: InstrumentType) -> (r: Result<
        (String, String),
        MapperError,
    >)
        ensures
            pair_text_of(r) == self.parsed(native@, itype),
    ;

    /// The name that the mapper gives for its exchange.
    fn exchange(&self) -> (name: &str)
        ensures
            name@ == self.exchange_name(),
    ;
}

/// The normalized symbol of a pair.
pub fn normalized_name(itype: InstrumentType, base: &str, quote: &str) -> (name: String)
    ensures
        name@ == normalized_symbol(itype, (base@, quote@)),
{
    let mut name = concat3(itype.as_str(), "_", base);
    name.append("_");
    name.append(quote);
    name
}

/// The pair that a normalized symbol names, for the way back to a native
/// symbol.
pub fn split_pair(normalized: &str) -> (pair: Option<(String, String)>)
    ensures
        match pair {
            Some(found) => pair_of(normalized@) == Some((found.0@, found.1@)),
            None => pair_of(normalized@) is None,
        },
{
    let parts = split(normalized, '_');
    if parts.len() < 2 {
        None
    } else if parts.len() == 3 {
        Some((parts[1].clone(), parts[2].clone()))
    } else {
        Some((parts[0].clone(), parts[1].clone()))
    }
}

/// The base and the quote of a normalized symbol, which has two parts, or
/// three of which the first is the type tag.
pub fn parse_normalized(normalized: &str) -> (r: Result<(String, String), MapperError>)
    ensures
        match r {
            Ok(found) => strict_pair_of(normalized@) == Some((found.0@, found.1@)),
            Err(error) => strict_pair_of(normalized@) is None && error
                == MapperError::InvalidSymbol,
        },
{
    let parts = split(normalized, '_');
    if parts.len() == 3 {
        Ok((parts[1].clone(), parts[2].clone()))
    } else if parts.len() == 2 {
        Ok((parts[0].clone(), parts[1].clone()))
    } else {
        Err(MapperError::InvalidSymbol)
    }
}

/// The known quote numbered `k`.
fn known_quote(k: usize) -> (quote: &'static str)
    requires
        k < 7,
    ensures
        quote@ == known_quotes()[k as int],
{
    if k == 0 {
        "USDT"
    } else if k == 1 {
        "USDC"
    } else if k == 2 {
        "BUSD"
    } else if k == 3 {
        "USD"
    } else if k == 4 {
        "BTC"
    } else if k == 5 {
        "ETH"
    } else {
        "BNB"
    }
}

/// The pair of a joined symbol such as `BTCUSDT`, read in upper case.
pub fn parse_by_suffix(native: &str) -> (pair: Option<(String, String)>)
    ensures
        match pair {
            Some(found) => pair_by_suffix(native@) == Some((found.0@, found.1@)),
            None => pair_by_suffix(native@) is None,
        },
{
    let upper = to_upper(native);
    let mut k: usize = 0;
    while k < 7
        invariant
            k <= 7,
            upper@ == uppercase(native@),
            pair_by_suffix(native@) == pair_by_suffix_from(upper@, k as nat),
        decreases 7 - k,
    {
        let quote: &'static str = known_quote(k);
        match strip_suffix(upper.as_str(), quote) {
            Some(base) => {
                if base.as_str().unicode_len() > 0 {
                    return Some((base, String::from_str(quote)));
                }
            },
            None => {},
        }
        k += 1;
    }
    None
}

/// The pair of a symbol whose base and quote a separator divides.
pub fn parse_by_separator(native: &str, sep: char) -> (pair: Option<(String, String)>)
    ensures
        match pair {
            Some(found) => pair_by_separator(native@, sep) == Some((found.0@, found.1@)),
            None => pair_by_separator(native@, sep) is None,
        },
{
    let parts = split(native, sep);
    if parts.len() < 2 {
        None
    } else {
        Some((parts[0].clone(), parts[1].clone()))
    }
}

} // verus!
