//! The canonical instruments and the native spellings that name them.
//!
//! The registry is built once, from the configured base assets crossed with
//! the quote currencies and the two instrument types that are served. It is
//! read-only afterwards. Spellings are compared with their ASCII letters in
//! upper case.

use crate::market_data::InstrumentType;
use crate::text::{ascii_uppercase, concat2, concat3, texts, to_ascii_upper, uppercased};
use rustc_hash::{FxBuildHasher, FxHashMap};
use vstd::prelude::*;

verus! {

/// How many instruments the registry, and each table of quotes, can hold.
pub const MAX_SYMBOLS: usize = 1_000;

/// The canonical identifier of an instrument: below `MAX_SYMBOLS`.
pub type SymbolId = usize;

/// Registrations made for each base asset: three quote currencies, each as
/// spot and as perpetual.
pub const SYMBOLS_PER_BASE: usize = 6;

/// `rustc_hash::FxBuildHasher`, the hasher of the alias tables.
#[verifier::external_type_specification]
#[verifier::external_body]
pub struct ExFxBuildHasher(FxBuildHasher);

/// A table from spellings to ids.
pub type AliasTable = FxHashMap<String, SymbolId>;

/// The ids that spellings resolve to.
pub type Aliases = Map<Seq<char>, SymbolId>;

/// What an alias table holds: the id that each spelling resolves to.
pub uninterp spec fn alias_entries(table: AliasTable) -> Aliases;

/// `FxHashMap::default`: a table without an entry.
#[verifier::external_body]
fn alias_table() -> (table: AliasTable)
    ensures
        alias_entries(table) == Aliases::empty(),
{
    FxHashMap::default()
}

/// `HashMap::insert` on an alias table: the spelling resolves to `id` from
/// now on, whatever it resolved to before; every other spelling is as it was.
#[verifier::external_body]
fn alias_insert(table: &mut AliasTable, spelling: String, id: SymbolId)
    ensures
        alias_entries(*final(table)) == alias_entries(*old(table)).insert(spelling@, id),
{
    table.insert(spelling, id);
}

/// `HashMap::get` on an alias table: the id that the spelling resolves to,
/// if the table has that very spelling.
#[verifier::external_body]
fn alias_get(table: &AliasTable, spelling: &str) -> (id: Option<SymbolId>)
    ensures
        id == if alias_entries(*table).contains_key(spelling@) {
            Some(alias_entries(*table)[spelling@])
        } else {
            None::<SymbolId>
        },
{
    table.get(spelling).copied()
}

/// What a registry holds: the canonical symbol of each id, in the order of
/// the ids, and the spellings known for spot and for perpetual instruments.
pub struct RegistryModel {
    pub canonical: Seq<Seq<char>>,
    pub spot: Aliases,
    pub perp: Aliases,
}

/// The quote currencies, in the order in which they are registered.
pub open spec fn quote_currencies() -> Seq<Seq<char>> {
    seq!["USDT"@, "USDC"@, "USD"@]
}

/// The canonical symbol of an instrument: `{TYPE}-{BASE}-{QUOTE}`.
pub open spec fn canonical_symbol(
    instrument: InstrumentType,
    base: Seq<char>,
    quote: Seq<char>,
) -> Seq<char> {
    instrument.tag() + "-"@ + base + "-"@ + quote
}

/// The four spellings of a pair: joined, and separated by a dash, a slash
/// and an underscore.
pub open spec fn alias_spellings(base: Seq<char>, quote: Seq<char>) -> Seq<Seq<char>> {
    seq![base + quote, base + "-"@ + quote, base + "/"@ + quote, base + "_"@ + quote]
}

/// The aliases generated for an instrument: the four spellings for spot and
/// perpetual instruments, none for the other types.
pub open spec fn aliases_of(
    base: Seq<char>,
    quote: Seq<char>,
    instrument: InstrumentType,
) -> Seq<Seq<char>> {
    match instrument {
        InstrumentType::Spot | InstrumentType::Perp => alias_spellings(base, quote),
        _ => Seq::empty(),
    }
}

/// Every key that one registration writes: the canonical symbol, then the
/// aliases, each in upper case.
pub open spec fn registration_keys(
    instrument: InstrumentType,
    base: Seq<char>,
    quote: Seq<char>,
) -> Seq<Seq<char>> {
    uppercased(
        seq![canonical_symbol(instrument, base, quote)] + aliases_of(base, quote, instrument),
    )
}

/// The table after each of `keys` is made to resolve to `id`.
pub open spec fn with_keys(table: Aliases, keys: Seq<Seq<char>>, id: SymbolId) -> Aliases {
    Map::new(
        |key: Seq<char>| table.contains_key(key) || keys.contains(key),
        |key: Seq<char>|
            if keys.contains(key) {
                id
            } else {
                table[key]
            },
    )
}

/// The registry after one more instrument is registered: it gets the next
/// free id, and its keys resolve to that id in the table of its type.
pub open spec fn register_one(
    before: RegistryModel,
    instrument: InstrumentType,
    base: Seq<char>,
    quote: Seq<char>,
) -> RegistryModel {
    let id = before.canonical.len() as SymbolId;
    let keys = registration_keys(instrument, base, quote);
    RegistryModel {
        canonical: before.canonical.push(canonical_symbol(instrument, base, quote)),
        spot: if instrument is Spot {
            with_keys(before.spot, keys, id)
        } else {
            before.spot
        },
        perp: if instrument is Perp {
            with_keys(before.perp, keys, id)
        } else {
            before.perp
        },
    }
}

/// The type of the registration numbered `k`: spot and perpetual in turn.
pub open spec fn nth_type(k: nat) -> InstrumentType {
    if k % 2 == 0 {
        InstrumentType::Spot
    } else {
        InstrumentType::Perp
    }
}

/// The quote currency of the registration numbered `k`.
pub open spec fn nth_quote(k: nat) -> Seq<char> {
    quote_currencies()[((k % 6) / 2) as int]
}

/// The base asset of the registration numbered `k`.
pub open spec fn nth_base(bases: Seq<Seq<char>>, k: nat) -> Seq<char> {
    bases[(k / 6) as int]
}

/// The registry after the first `count` registrations. The bases are taken
/// in their order; for each base the quote currencies in theirs; for each
/// pair first spot, then perpetual.
pub open spec fn registered(bases: Seq<Seq<char>>, count: nat) -> RegistryModel
    decreases count,
{
    if count == 0 {
        RegistryModel { canonical: Seq::empty(), spot: Map::empty(), perp: Map::empty() }
    } else {
        let k = (count - 1) as nat;
        register_one(registered(bases, k), nth_type(k), nth_base(bases, k), nth_quote(k))
    }
}

/// The table that serves lookups in the context of `instrument`. Only spot
/// and perpetual instruments have one.
pub open spec fn table_of(model: RegistryModel, instrument: InstrumentType) -> Aliases {
    match instrument {
        InstrumentType::Spot => model.spot,
        InstrumentType::Perp => model.perp,
        _ => Map::empty(),
    }
}

/// What a lookup gives: the id that the spelling, in upper case, resolves to
/// in the table of the instrument type.
pub open spec fn resolve(
    model: RegistryModel,
    spelling: Seq<char>,
    instrument: InstrumentType,
) -> Option<SymbolId> {
    let table = table_of(model, instrument);
    let key = ascii_uppercase(spelling);
    if table.contains_key(key) {
        Some(table[key])
    } else {
        None
    }
}

/// Every id that a spelling resolves to has a canonical symbol, and no more
/// ids are in use than the capacity allows.
pub open spec fn model_wf(model: RegistryModel) -> bool {
    &&& model.canonical.len() <= MAX_SYMBOLS
    &&& forall|key: Seq<char>| #[trigger]
        model.spot.contains_key(key) ==> model.spot[key] < model.canonical.len()
    &&& forall|key: Seq<char>| #[trigger]
        model.perp.contains_key(key) ==> model.perp[key] < model.canonical.len()
}

/// The quote currency numbered `j`.
fn quote_currency(j: usize) -> (quote: &'static str)
    requires
        j < 3,
    ensures
        quote@ == quote_currencies()[j as int],
{
    if j == 0 {
        "USDT"
    } else if j == 1 {
        "USDC"
    } else {
        "USD"
    }
}

/// The aliases of an instrument.
pub fn generate_aliases(base: &str, quote: &str, instrument: &InstrumentType) -> (aliases: Vec<
    String,
>)
    ensures
        texts(aliases@) == aliases_of(base@, quote@, *instrument),
{
    let mut aliases: Vec<String> = Vec::new();
    match instrument {
        InstrumentType::Spot | InstrumentType::Perp => {
            aliases.push(concat2(base, quote));
            aliases.push(concat3(base, "-", quote));
            aliases.push(concat3(base, "/", quote));
            aliases.push(concat3(base, "_", quote));
        },
        _ => {},
    }
    assert(texts(aliases@) =~= aliases_of(base@, quote@, *instrument));
    aliases
}

/// Makes each of the spellings, in upper case, resolve to `id`.
fn insert_all(table: AliasTable, spellings: &Vec<String>, id: SymbolId) -> (after: AliasTable)
    ensures
        alias_entries(after) == with_keys(
            alias_entries(table),
            uppercased(texts(spellings@)),
            id,
        ),
{
    let mut table = table;
    let ghost before = alias_entries(table);
    let ghost keys = uppercased(texts(spellings@));
    let mut i: usize = 0;
    assert(alias_entries(table) =~= with_keys(before, keys.take(0), id));
    while i < spellings.len()
        invariant
            i <= spellings.len(),
            keys == uppercased(texts(spellings@)),
            alias_entries(table) == with_keys(before, keys.take(i as int), id),
        decreases spellings.len() - i,
    {
        let key = to_ascii_upper(spellings[i].as_str());
        alias_insert(&mut table, key, id);
        proof {
            let grown = keys.take(i + 1);
            assert(grown.last() == keys[i as int]);
            assert forall|k: Seq<char>| grown.contains(k) <==> (keys.take(i as int).contains(k)
                || k == keys[i as int]) by {
                if grown.contains(k) {
                    let at = choose|at: int| 0 <= at < grown.len() && grown[at] == k;
                    if at < i {
                        assert(keys.take(i as int)[at] == k);
                    }
                }
                if keys.take(i as int).contains(k) {
                    let at = choose|at: int|
                        0 <= at < keys.take(i as int).len() && keys.take(i as int)[at] == k;
                    assert(grown[at] == k);
                }
                if k == keys[i as int] {
                    assert(grown[i as int] == k);
                }
            }
            assert(alias_entries(table) =~= with_keys(before, grown, id));
        }
        i += 1;
    }
    assert(keys.take(i as int) == keys);
    table
}

/// The registry of canonical instruments and of the spellings that resolve
/// to them.
pub struct SymbolRegistry {
    to_symbol: Vec<String>,
    spot_to_id: AliasTable,
    perp_to_id: AliasTable,
}

impl SymbolRegistry {
    #[verifier::type_invariant]
    spec fn ids_are_registered(self) -> bool {
        model_wf(self@)
    }

    /// What the registry holds.
    pub closed spec fn view(&self) -> RegistryModel {
        RegistryModel {
            canonical: texts(self.to_symbol@),
            spot: alias_entries(self.spot_to_id),
            perp: alias_entries(self.perp_to_id),
        }
    }

    fn new() -> (registry: SymbolRegistry)
        ensures
            registry@ == registered(Seq::empty(), 0),
    {
        let registry = SymbolRegistry {
            to_symbol: Vec::new(),
            spot_to_id: alias_table(),
            perp_to_id: alias_table(),
        };
        assert(registry@.canonical =~= Seq::empty());
        registry
    }

    /// Gives `canonical` the next free id, or fails when the registry is
    /// full.
    fn register_symbol(self, canonical: &str) -> (r: Result<(SymbolRegistry, SymbolId), String>)
        ensures
            r is Ok <==> self@.canonical.len() < MAX_SYMBOLS,
            r matches Ok((after, id)) ==> id == self@.canonical.len() && after@ == (RegistryModel {
                canonical: self@.canonical.push(canonical@),
                ..self@
            }),
            r matches Err(message) ==> message@ == "Symbol registry full"@,
    {
        proof {
            use_type_invariant(&self);
        }
        let SymbolRegistry { mut to_symbol, spot_to_id, perp_to_id } = self;
        let count: usize = to_symbol.len();
        if count >= MAX_SYMBOLS {
            return Err(String::from_str("Symbol registry full"));
        }
        to_symbol.push(String::from_str(canonical));
        proof {
            assert(texts(to_symbol@) =~= self@.canonical.push(canonical@));
            assert forall|key: Seq<char>| #[trigger]
                alias_entries(spot_to_id).contains_key(key) implies alias_entries(spot_to_id)[key]
                < texts(to_symbol@).len() by {
                assert(self@.spot.contains_key(key));
            }
            assert forall|key: Seq<char>| #[trigger]
                alias_entries(perp_to_id).contains_key(key) implies alias_entries(perp_to_id)[key]
                < texts(to_symbol@).len() by {
                assert(self@.perp.contains_key(key));
            }
        }
        let after = SymbolRegistry { to_symbol, spot_to_id, perp_to_id };
        Ok((after, count))
    }

    /// Registers one instrument: its canonical symbol gets the next free
    /// id, and its keys resolve to that id from now on.
    fn register_instrument(self, instrument: InstrumentType, base: &str, quote: &str) -> (r: Result<
        SymbolRegistry,
        String,
    >)
        ensures
            r is Ok <==> self@.canonical.len() < MAX_SYMBOLS,
            r matches Ok(after) ==> after@ == register_one(self@, instrument, base@, quote@),
            r matches Err(message) ==> message@ == "Symbol registry full"@,
    {
        let mut canonical = concat3(instrument.as_str(), "-", base);
        canonical.append("-");
        canonical.append(quote);
        let (registry, id) = match self.register_symbol(canonical.as_str()) {
            Ok(pair) => pair,
            Err(message) => {
                return Err(message);
            },
        };
        proof {
            use_type_invariant(&registry);
        }
        let mut spellings: Vec<String> = Vec::new();
        spellings.push(canonical);
        let mut aliases = generate_aliases(base, quote, &instrument);
        let ghost alias_texts = texts(aliases@);
        spellings.append(&mut aliases);
        proof {
            assert(texts(spellings@) =~= seq![canonical_symbol(instrument, base@, quote@)]
                + alias_texts);
        }
        let ghost model = registry@;
        let SymbolRegistry { to_symbol, spot_to_id, perp_to_id } = registry;
        let after = match instrument {
            InstrumentType::Spot => {
                let spot_to_id = insert_all(spot_to_id, &spellings, id);
                proof {
                    assert forall|key: Seq<char>| #[trigger]
                        alias_entries(spot_to_id).contains_key(key) implies alias_entries(
                        spot_to_id,
                    )[key] < texts(to_symbol@).len() by {
                        if !uppercased(texts(spellings@)).contains(key) {
                            assert(model.spot.contains_key(key));
                        }
                    }
                    assert forall|key: Seq<char>| #[trigger]
                        alias_entries(perp_to_id).contains_key(key) implies alias_entries(
                        perp_to_id,
                    )[key] < texts(to_symbol@).len() by {
                        assert(model.perp.contains_key(key));
                    }
                }
                SymbolRegistry { to_symbol, spot_to_id, perp_to_id }
            },
            InstrumentType::Perp => {
                let perp_to_id = insert_all(perp_to_id, &spellings, id);
                proof {
                    assert forall|key: Seq<char>| #[trigger]
                        alias_entries(perp_to_id).contains_key(key) implies alias_entries(
                        perp_to_id,
                    )[key] < texts(to_symbol@).len() by {
                        if !uppercased(texts(spellings@)).contains(key) {
                            assert(model.perp.contains_key(key));
                        }
                    }
                    assert forall|key: Seq<char>| #[trigger]
                        alias_entries(spot_to_id).contains_key(key) implies alias_entries(
                        spot_to_id,
                    )[key] < texts(to_symbol@).len() by {
                        assert(model.spot.contains_key(key));
                    }
                }
                SymbolRegistry { to_symbol, spot_to_id, perp_to_id }
            },
            _ => {
                proof {
                    assert forall|key: Seq<char>| #[trigger]
                        alias_entries(perp_to_id).contains_key(key) implies alias_entries(
                        perp_to_id,
                    )[key] < texts(to_symbol@).len() by {
                        assert(model.perp.contains_key(key));
                    }
                    assert forall|key: Seq<char>| #[trigger]
                        alias_entries(spot_to_id).contains_key(key) implies alias_entries(
                        spot_to_id,
                    )[key] < texts(to_symbol@).len() by {
                        assert(model.spot.contains_key(key));
                    }
                }
                SymbolRegistry { to_symbol, spot_to_id, perp_to_id }
            },
        };
        Ok(after)
    }

    /// Builds the registry for the configured base assets. Each base is
    /// crossed with the quote currencies and with spot and perpetual; the
    /// registrations are made in that order and get the ids from zero up.
    /// It fails when there are more instruments than ids.
    pub fn from_config(base_assets: &Vec<String>) -> (r: Result<SymbolRegistry, String>)
        ensures
            r is Ok <==> SYMBOLS_PER_BASE * base_assets.len() <= MAX_SYMBOLS,
            r matches Ok(registry) ==> registry@ == registered(
                texts(base_assets@),
                (SYMBOLS_PER_BASE * base_assets.len()) as nat,
            ),
            r matches Ok(registry) ==> model_wf(registry@),
            r matches Err(message) ==> message@ == "Symbol registry full"@,
    {
        let ghost bases = texts(base_assets@);
        let mut registry = SymbolRegistry::new();
        let mut i: usize = 0;
        while i < base_assets.len()
            invariant
                i <= base_assets.len(),
                bases == texts(base_assets@),
                SYMBOLS_PER_BASE * i <= MAX_SYMBOLS,
                registry@ == registered(bases, (SYMBOLS_PER_BASE * i) as nat),
                registry@.canonical.len() == SYMBOLS_PER_BASE * i,
            decreases base_assets.len() - i,
        {
            let base: &str = base_assets[i].as_str();
            let mut j: usize = 0;
            while j < 3
                invariant
                    i < base_assets.len(),
                    j <= 3,
                    bases == texts(base_assets@),
                    base@ == bases[i as int],
                    SYMBOLS_PER_BASE * i <= MAX_SYMBOLS,
                    registry@ == registered(bases, (SYMBOLS_PER_BASE * i + 2 * j) as nat),
                    registry@.canonical.len() == SYMBOLS_PER_BASE * i + 2 * j,
                    registry@.canonical.len() <= MAX_SYMBOLS,
                ensures
                    j == 3,
                decreases 3 - j,
            {
                let quote: &'static str = quote_currency(j);
                let ghost k: nat = (SYMBOLS_PER_BASE * i + 2 * j) as nat;
                proof {
                    assert(k / 6 == i && (k % 6) / 2 == j && k % 2 == 0) by (nonlinear_arith)
                        requires
                            k == 6 * i + 2 * j,
                            j < 3,
                    ;
                    assert((k + 1) / 6 == i && ((k + 1) % 6) / 2 == j && (k + 1) % 2 == 1)
                        by (nonlinear_arith)
                        requires
                            k == 6 * i + 2 * j,
                            j < 3,
                    ;
                }
                registry = match registry.register_instrument(InstrumentType::Spot, base, quote) {
                    Ok(after) => after,
                    Err(message) => {
                        return Err(message);
                    },
                };
                assert(registry@ == registered(bases, k + 1));
                registry = match registry.register_instrument(InstrumentType::Perp, base, quote) {
                    Ok(after) => after,
                    Err(message) => {
                        return Err(message);
                    },
                };
                assert(registry@ == registered(bases, k + 2));
                j += 1;
            }
            i += 1;
        }
        proof {
            use_type_invariant(&registry);
        }
        Ok(registry)
    }

    /// The id that a native spelling resolves to in the context of an
    /// instrument type. The spelling is compared in upper case. A spelling
    /// that is not known gives `None`: the caller passes such an update by.
    pub fn lookup(&self, symbol: &str, itype: &InstrumentType) -> (id: Option<SymbolId>)
        ensures
            id == resolve(self@, symbol@, *itype),
            id matches Some(found) ==> found < self@.canonical.len() && found < MAX_SYMBOLS,
    {
        proof {
            use_type_invariant(self);
        }
        let key = to_ascii_upper(symbol);
        match itype {
            InstrumentType::Spot => alias_get(&self.spot_to_id, key.as_str()),
            InstrumentType::Perp => alias_get(&self.perp_to_id, key.as_str()),
            _ => None,
        }
    }

    /// The canonical symbol of an id, or `None` for an id that is not in
    /// use.
    pub fn get_symbol(&self, id: SymbolId) -> (symbol: Option<&str>)
        ensures
            match symbol {
                Some(text) => id < self@.canonical.len() && text@ == self@.canonical[id as int],
                None => id >= self@.canonical.len(),
            },
    {
        if id < self.to_symbol.len() {
            Some(self.to_symbol[id].as_str())
        } else {
            None
        }
    }
}

/// The keys that the registration numbered `k` writes.
pub open spec fn nth_keys(bases: Seq<Seq<char>>, k: nat) -> Seq<Seq<char>> {
    registration_keys(nth_type(k), nth_base(bases, k), nth_quote(k))
}

/// The four spellings of the registration numbered `k`.
pub open spec fn nth_spellings(bases: Seq<Seq<char>>, k: nat) -> Seq<Seq<char>> {
    alias_spellings(nth_base(bases, k), nth_quote(k))
}

/// No registration of the same type that follows the one numbered `k`, up to
/// `count`, writes one of its four spellings. It fails where a later base
/// asset, joined to a quote currency, spells what an earlier one does with a
/// separator: `X-` after `X`; and for every registration of a base that is
/// configured again later.
pub open spec fn spellings_kept(bases: Seq<Seq<char>>, k: nat, count: nat) -> bool {
    forall|later: nat, i: int|
        k < later < count && nth_type(later) == nth_type(k) && 0 <= i < 4 ==> !(
        #[trigger] nth_keys(bases, later).contains(ascii_uppercase(#[trigger] nth_spellings(bases, k)[i])))
}

/// The first `count` registrations use the ids below `count`.
pub proof fn lemma_registered_count(bases: Seq<Seq<char>>, count: nat)
    ensures
        registered(bases, count).canonical.len() == count,
    decreases count,
{
    if count > 0 {
        lemma_registered_count(bases, (count - 1) as nat);
    }
}

/// After `count` registrations, each of the four spellings of the one
/// numbered `k` resolves to `k`, and `k` has that registration's canonical
/// symbol, provided that no later registration wrote over the spelling.
proof fn lemma_spelling_kept(bases: Seq<Seq<char>>, k: nat, count: nat, i: int)
    requires
        k < count,
        0 <= i < 4,
        spellings_kept(bases, k, count),
    ensures
        resolve(registered(bases, count), nth_spellings(bases, k)[i], nth_type(k)) == Some(
            k as SymbolId,
        ),
        registered(bases, count).canonical.len() == count,
        registered(bases, count).canonical[k as int] == canonical_symbol(
            nth_type(k),
            nth_base(bases, k),
            nth_quote(k),
        ),
    decreases count,
{
    let spelling = nth_spellings(bases, k)[i];
    let key = ascii_uppercase(spelling);
    let last = (count - 1) as nat;
    let before = registered(bases, last);
    lemma_registered_count(bases, last);
    lemma_registered_count(bases, count);
    if last == k {
        let written = seq![canonical_symbol(nth_type(k), nth_base(bases, k), nth_quote(k))]
            + nth_spellings(bases, k);
        assert(written[i + 1] == spelling);
        assert(nth_keys(bases, k)[i + 1] == key);
        assert(nth_keys(bases, k).contains(key));
    } else {
        assert(spellings_kept(bases, k, last)) by {
            assert forall|later: nat, j: int|
                k < later < last && nth_type(later) == nth_type(k) && 0 <= j < 4 implies !(
            #[trigger] nth_keys(bases, later).contains(
                ascii_uppercase(#[trigger] nth_spellings(bases, k)[j]),
            )) by {}
        }
        lemma_spelling_kept(bases, k, last, i);
        if nth_type(last) == nth_type(k) {
            assert(!nth_keys(bases, last).contains(ascii_uppercase(nth_spellings(bases, k)[i])));
        }
    }
}

/// Every spelling of a registered instrument resolves to one id, and that id
/// has the instrument's canonical symbol. Of the registrations made for
/// `bases`, take the one numbered `k`: its base asset, its quote currency and
/// its type. Each of the four spellings of that pair, looked up in the
/// context of that type, resolves to the id `k`, whose canonical symbol is
/// `{TYPE}-{BASE}-{QUOTE}`. This holds of every registration whose spellings
/// no later one wrote over.
pub proof fn lemma_aliases_resolve(bases: Seq<Seq<char>>, k: nat, i: int)
    requires
        SYMBOLS_PER_BASE * bases.len() <= MAX_SYMBOLS,
        k < SYMBOLS_PER_BASE * bases.len(),
        0 <= i < 4,
        spellings_kept(bases, k, (SYMBOLS_PER_BASE * bases.len()) as nat),
    ensures
        ({
            let model = registered(bases, (SYMBOLS_PER_BASE * bases.len()) as nat);
            &&& resolve(model, nth_spellings(bases, k)[i], nth_type(k)) == Some(k as SymbolId)
            &&& k < model.canonical.len()
            &&& model.canonical[k as int] == canonical_symbol(
                nth_type(k),
                nth_base(bases, k),
                nth_quote(k),
            )
        }),
{
    lemma_spelling_kept(bases, k, (SYMBOLS_PER_BASE * bases.len()) as nat, i);
}

} // verus!
