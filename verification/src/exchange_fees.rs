//! The fees of an exchange, in basis points: a schedule for spot and one for
//! perpetuals, and the instruments that have a schedule of their own.

use crate::binary64::Binary64;
use crate::text::text_eq;
use vstd::prelude::*;

verus! {

/// The binary64 pattern of 0.
pub const BPS_0: Binary64 = 0x0000_0000_0000_0000;

/// The binary64 pattern of 2.
pub const BPS_2: Binary64 = 0x4000_0000_0000_0000;

/// The binary64 pattern of 5.
pub const BPS_5: Binary64 = 0x4014_0000_0000_0000;

/// The binary64 pattern of 5.5.
pub const BPS_5_5: Binary64 = 0x4016_0000_0000_0000;

/// The binary64 pattern of 10.
pub const BPS_10: Binary64 = 0x4024_0000_0000_0000;

/// The binary64 pattern of 25.
pub const BPS_25: Binary64 = 0x4039_0000_0000_0000;

/// The binary64 pattern of 40.
pub const BPS_40: Binary64 = 0x4044_0000_0000_0000;

/// The binary64 pattern of 60.
pub const BPS_60: Binary64 = 0x404e_0000_0000_0000;

/// What a taker and a maker pay, in basis points, as binary64 patterns.
#[derive(Clone, Copy, Debug, PartialEq, Eq, Structural)]
pub struct FeeSchedule {
    pub taker_fees_bps: Binary64,
    pub maker_fees_bps: Binary64,
}

impl FeeSchedule {
    pub fn new(taker_bps: Binary64, maker_bps: Binary64) -> (fees: FeeSchedule)
        ensures
            fees == (FeeSchedule { taker_fees_bps: taker_bps, maker_fees_bps: maker_bps }),
    {
        FeeSchedule { taker_fees_bps: taker_bps, maker_fees_bps: maker_bps }
    }
}

/// The schedules set for single instruments. A schedule set later for an
/// instrument replaces the one set before.
pub open spec fn overrides_of(entries: Seq<(String, FeeSchedule)>) -> Map<Seq<char>, FeeSchedule>
    decreases entries.len(),
{
    if entries.len() == 0 {
        Map::empty()
    } else {
        overrides_of(entries.drop_last()).insert(entries.last().0@, entries.last().1)
    }
}

/// The schedule that applies to an instrument: its own, if one was set, else
/// the default.
pub open spec fn fees_for(
    overrides: Map<Seq<char>, FeeSchedule>,
    default: FeeSchedule,
    symbol: Seq<char>,
) -> FeeSchedule {
    if overrides.contains_key(symbol) {
        overrides[symbol]
    } else {
        default
    }
}

/// The fees of one exchange.
pub struct ExchangeFees {
    spot_default: FeeSchedule,
    perp_default: FeeSchedule,
    spot_overrides: Vec<(String, FeeSchedule)>,
    perp_overrides: Vec<(String, FeeSchedule)>,
}

/// The schedule that applies to an instrument.
fn find<'a>(
    entries: &'a Vec<(String, FeeSchedule)>,
    default: &'a FeeSchedule,
    symbol: &str,
) -> (fees: &'a FeeSchedule)
    ensures
        *fees == fees_for(overrides_of(entries@), *default, symbol@),
{
    let mut i: usize = entries.len();
    proof {
        assert(entries@.take(i as int) == entries@);
    }
    while i > 0
        invariant
            i <= entries.len(),
            fees_for(overrides_of(entries@), *default, symbol@) == fees_for(
                overrides_of(entries@.take(i as int)),
                *default,
                symbol@,
            ),
        decreases i,
    {
        proof {
            assert(entries@.take(i as int).drop_last() =~= entries@.take(i - 1));
            assert(entries@.take(i as int).last() == entries@[i - 1]);
        }
        if text_eq(entries[i - 1].0.as_str(), symbol) {
            return &entries[i - 1].1;
        }
        i -= 1;
    }
    proof {
        assert(entries@.take(0) =~= Seq::empty());
    }
    default
}

impl ExchangeFees {
    /// The default schedule for spot.
    pub closed spec fn spot_default(&self) -> FeeSchedule {
        self.spot_default
    }

    /// The default schedule for perpetuals.
    pub closed spec fn perp_default(&self) -> FeeSchedule {
        self.perp_default
    }

    /// The schedules set for single spot instruments.
    pub closed spec fn spot_overrides(&self) -> Map<Seq<char>, FeeSchedule> {
        overrides_of(self.spot_overrides@)
    }

    /// The schedules set for single perpetuals.
    pub closed spec fn perp_overrides(&self) -> Map<Seq<char>, FeeSchedule> {
        overrides_of(self.perp_overrides@)
    }

    /// Fees with the two defaults and no schedule for a single instrument.
    pub fn new(spot_default: FeeSchedule, perp_default: FeeSchedule) -> (fees: ExchangeFees)
        ensures
            fees.spot_default() == spot_default,
            fees.perp_default() == perp_default,
            fees.spot_overrides() == Map::<Seq<char>, FeeSchedule>::empty(),
            fees.perp_overrides() == Map::<Seq<char>, FeeSchedule>::empty(),
    {
        ExchangeFees {
            spot_default,
            perp_default,
            spot_overrides: Vec::new(),
            perp_overrides: Vec::new(),
        }
    }

    /// The fees with a schedule of its own for one spot instrument.
    pub fn set_spot_override(self, symbol: &'static str, fees: FeeSchedule) -> (after: ExchangeFees)
        ensures
            after.spot_overrides() == self.spot_overrides().insert(symbol@, fees),
            after.perp_overrides() == self.perp_overrides(),
            after.spot_default() == self.spot_default(),
            after.perp_default() == self.perp_default(),
    {
        let mut after = self;
        let ghost before = after.spot_overrides@;
        let entry = (String::from_str(symbol), fees);
        after.spot_overrides.push(entry);
        proof {
            assert(after.spot_overrides@.drop_last() =~= before);
        }
        after
    }

    /// The fees with a schedule of its own for one perpetual.
    pub fn set_perp_override(self, symbol: &'static str, fees: FeeSchedule) -> (after: ExchangeFees)
        ensures
            after.perp_overrides() == self.perp_overrides().insert(symbol@, fees),
            after.spot_overrides() == self.spot_overrides(),
            after.spot_default() == self.spot_default(),
            after.perp_default() == self.perp_default(),
    {
        let mut after = self;
        let ghost before = after.perp_overrides@;
        let entry = (String::from_str(symbol), fees);
        after.perp_overrides.push(entry);
        proof {
            assert(after.perp_overrides@.drop_last() =~= before);
        }
        after
    }

    /// The schedule that applies to a spot instrument.
    pub fn get_spot_fees(&self, symbol: &str) -> (fees: &FeeSchedule)
        ensures
            *fees == fees_for(self.spot_overrides(), self.spot_default(), symbol@),
    {
        find(&self.spot_overrides, &self.spot_default, symbol)
    }

    /// The schedule that applies to a perpetual.
    pub fn get_perp_fees(&self, symbol: &str) -> (fees: &FeeSchedule)
        ensures
            *fees == fees_for(self.perp_overrides(), self.perp_default(), symbol@),
    {
        find(&self.perp_overrides, &self.perp_default, symbol)
    }
}

} // verus!
