//! The native symbols that a subscription names.

use crate::exchanges::connection::{feed_error, feed_error_of, FeedError};
use crate::mappers::symbol_mapper::SymbolMapper;
use crate::market_data::InstrumentType;
use crate::text::{concat2, str_texts, texts};
use vstd::prelude::*;

verus! {

/// The native symbols of the instruments, in their order. The first symbol
/// that the mapper cannot map fails the whole.
pub open spec fn natives<M: SymbolMapper>(
    mapper: M,
    symbols: Seq<Seq<char>>,
    itype: InstrumentType,
) -> Result<Seq<Seq<char>>, FeedError>
    decreases symbols.len(),
{
    if symbols.len() == 0 {
        Ok(Seq::empty())
    } else {
        match natives(mapper, symbols.drop_last(), itype) {
            Err(error) => Err(error),
            Ok(before) => match mapper.denormalized(symbols.last(), itype) {
                Err(error) => Err(feed_error(error)),
                Ok(native) => Ok(before.push(native)),
            },
        }
    }
}

/// Each text behind the prefix.
pub open spec fn prefixed(prefix: Seq<char>, list: Seq<Seq<char>>) -> Seq<Seq<char>> {
    Seq::new(list.len(), |i: int| prefix + list[i])
}

/// The texts of a list, where there is one.
pub open spec fn list_of(result: Result<Vec<String>, FeedError>) -> Result<
    Seq<Seq<char>>,
    FeedError,
> {
    match result {
        Ok(list) => Ok(texts(list@)),
        Err(error) => Err(error),
    }
}

/// Once a prefix of the symbols fails, every longer list of them fails with
/// the same error.
pub proof fn lemma_natives_fail<M: SymbolMapper>(
    mapper: M,
    symbols: Seq<Seq<char>>,
    failing: int,
    itype: InstrumentType,
)
    requires
        0 <= failing <= symbols.len(),
        natives(mapper, symbols.take(failing), itype) is Err,
    ensures
        natives(mapper, symbols, itype) == natives(mapper, symbols.take(failing), itype),
    decreases symbols.len() - failing,
{
    if failing < symbols.len() {
        assert(symbols.take(failing + 1).drop_last() =~= symbols.take(failing));
        lemma_natives_fail(mapper, symbols, failing + 1, itype);
    } else {
        assert(symbols.take(failing) == symbols);
    }
}

/// The native symbols of the instruments, which are given by their
/// normalized symbols.
pub fn native_symbols<M: SymbolMapper>(mapper: &M, symbols: &[&str], itype: InstrumentType) -> (r:
    Result<Vec<String>, FeedError>)
    ensures
        list_of(r) == natives(*mapper, str_texts(symbols@), itype),
{
    let ghost wanted = str_texts(symbols@);
    let mut list: Vec<String> = Vec::new();
    let mut i: usize = 0;
    proof {
        assert(wanted.take(0) =~= Seq::empty());
        assert(texts(list@) =~= Seq::empty());
    }
    while i < symbols.len()
        invariant
            i <= symbols.len(),
            wanted == str_texts(symbols@),
            natives(*mapper, wanted.take(i as int), itype) == Ok::<Seq<Seq<char>>, FeedError>(
                texts(list@),
            ),
        decreases symbols.len() - i,
    {
        proof {
            assert(wanted.take(i + 1).drop_last() =~= wanted.take(i as int));
            assert(wanted.take(i + 1).last() == symbols@[i as int]@);
        }
        let ghost before = texts(list@);
        match mapper.denormalize(symbols[i], itype) {
            Ok(native) => {
                list.push(native);
                proof {
                    assert(texts(list@) =~= before.push(native@));
                }
            },
            Err(error) => {
                proof {
                    lemma_natives_fail(*mapper, wanted, i + 1, itype);
                }
                return Err(feed_error_of(error));
            },
        }
        i += 1;
    }
    proof {
        assert(wanted.take(i as int) == wanted);
    }
    Ok(list)
}

/// Each text behind the prefix.
pub fn with_prefix(prefix: &str, list: &Vec<String>) -> (r: Vec<String>)
    ensures
        texts(r@) == prefixed(prefix@, texts(list@)),
{
    let mut r: Vec<String> = Vec::new();
    let mut i: usize = 0;
    while i < list.len()
        invariant
            i <= list.len(),
            r.len() == i,
            forall|k: int| 0 <= k < i ==> r[k]@ == prefix@ + list[k]@,
        decreases list.len() - i,
    {
        r.push(concat2(prefix, list[i].as_str()));
        i += 1;
    }
    proof {
        assert(texts(r@) =~= prefixed(prefix@, texts(list@)));
    }
    r
}

} // verus!
