//! What holds of a registry that was built from base assets as they are
//! commonly written: every spelling of every instrument resolves to that
//! instrument.

use crate::market_data::InstrumentType;
use crate::symbol_registry::{
    alias_spellings, canonical_symbol, lemma_aliases_resolve, nth_base, nth_keys, nth_quote,
    nth_spellings, nth_type, quote_currencies, registered, resolve, spellings_kept, SymbolId,
    MAX_SYMBOLS, SYMBOLS_PER_BASE,
};
use crate::text::{ascii_upper_char, ascii_uppercase};
use vstd::prelude::*;

verus! {

/// A character that divides base and quote in a spelling.
pub open spec fn is_separator(c: char) -> bool {
    c == '-' || c == '/' || c == '_'
}

/// A text of at least one character, none of them a separator.
pub open spec fn plain(text: Seq<char>) -> bool {
    text.len() > 0 && forall|i: int| 0 <= i < text.len() ==> !is_separator(#[trigger] text[i])
}

/// Every base asset is plain, and no two of them are the same once their
/// ASCII letters are in upper case.
pub open spec fn plain_and_distinct(bases: Seq<Seq<char>>) -> bool {
    &&& forall|i: int| 0 <= i < bases.len() ==> plain(#[trigger] bases[i])
    &&& forall|i: int, j: int|
        0 <= i < j < bases.len() ==> ascii_uppercase(#[trigger] bases[i]) != ascii_uppercase(
            #[trigger] bases[j],
        )
}

/// One of the quote currencies.
pub open spec fn is_quote(quote: Seq<char>) -> bool {
    quote == "USDT"@ || quote == "USDC"@ || quote == "USD"@
}

/// Nothing, or one separator.
pub open spec fn is_gap(gap: Seq<char>) -> bool {
    gap.len() == 0 || (gap.len() == 1 && is_separator(gap[0]))
}

/// The upper case of two texts joined is the two upper cases joined.
proof fn lemma_fold_joins(a: Seq<char>, b: Seq<char>)
    ensures
        ascii_uppercase(a + b) == ascii_uppercase(a) + ascii_uppercase(b),
{
    assert(ascii_uppercase(a + b) =~= ascii_uppercase(a) + ascii_uppercase(b));
}

/// Upper case keeps a plain text plain, and a gap as it is.
proof fn lemma_fold_keeps(text: Seq<char>)
    ensures
        plain(text) ==> plain(ascii_uppercase(text)),
        is_gap(text) ==> ascii_uppercase(text) == text,
        ascii_uppercase(text).len() == text.len(),
{
    if plain(text) {
        assert forall|i: int| 0 <= i < text.len() implies !is_separator(
            #[trigger] ascii_uppercase(text)[i],
        ) by {
            assert(!is_separator(text[i]));
        }
    }
    if is_gap(text) {
        assert(ascii_uppercase(text) =~= text);
    }
}

/// The quote currencies are written in upper case, none is empty, and each
/// ends with a letter of its own.
proof fn lemma_quotes(a: Seq<char>, b: Seq<char>)
    requires
        is_quote(a),
        is_quote(b),
    ensures
        ascii_uppercase(a) == a,
        a.len() > 0,
        a.last() == b.last() ==> a == b,
{
    reveal_strlit("USDT");
    reveal_strlit("USDC");
    reveal_strlit("USD");
    assert(ascii_uppercase(a) =~= a);
}

/// The quote currency of every registration is one of the three, and two
/// registrations of one base and one type that differ have different ones.
proof fn lemma_nth_quote(k: nat, later: nat)
    ensures
        is_quote(nth_quote(k)),
        k / 6 == later / 6 && k % 2 == later % 2 && k != later ==> nth_quote(k) != nth_quote(
            later,
        ),
{
    reveal_strlit("USDT");
    reveal_strlit("USDC");
    reveal_strlit("USD");
    let quotes = quote_currencies();
    assert(quotes[0] == "USDT"@ && quotes[1] == "USDC"@ && quotes[2] == "USD"@);
    assert("USDT"@.last() == 'T' && "USDC"@.last() == 'C' && "USD"@.last() == 'D');
    if k / 6 == later / 6 && k % 2 == later % 2 && k != later {
        assert((k % 6) / 2 != (later % 6) / 2);
    }
}

/// Texts that end with quote currencies are the same only where the quote
/// currencies are, and what stands before them.
proof fn lemma_quote_cancels(a: Seq<char>, quote_a: Seq<char>, b: Seq<char>, quote_b: Seq<char>)
    requires
        is_quote(quote_a),
        is_quote(quote_b),
        a + quote_a == b + quote_b,
    ensures
        quote_a == quote_b,
        a == b,
{
    lemma_quotes(quote_a, quote_b);
    lemma_quotes(quote_b, quote_a);
    assert((a + quote_a).last() == quote_a.last());
    assert((b + quote_b).last() == quote_b.last());
    assert((a + quote_a).len() == a.len() + quote_a.len());
    assert((b + quote_b).len() == b.len() + quote_b.len());
    assert(a =~= (a + quote_a).subrange(0, a.len() as int));
    assert(b =~= (b + quote_b).subrange(0, b.len() as int));
}

/// Plain texts, each with a gap behind it, are the same only where the texts
/// are and the gaps are.
proof fn lemma_gap_cancels(a: Seq<char>, gap_a: Seq<char>, b: Seq<char>, gap_b: Seq<char>)
    requires
        plain(a),
        plain(b),
        is_gap(gap_a),
        is_gap(gap_b),
        a + gap_a == b + gap_b,
    ensures
        a == b,
        gap_a == gap_b,
{
    assert((a + gap_a).len() == a.len() + gap_a.len());
    assert((b + gap_b).len() == b.len() + gap_b.len());
    if gap_a.len() == gap_b.len() {
        assert(a =~= (a + gap_a).subrange(0, a.len() as int));
        assert(b =~= (b + gap_b).subrange(0, b.len() as int));
        assert(gap_a =~= (a + gap_a).subrange(a.len() as int, (a + gap_a).len() as int));
        assert(gap_b =~= (b + gap_b).subrange(b.len() as int, (b + gap_b).len() as int));
    } else if gap_a.len() < gap_b.len() {
        assert((a + gap_a).last() == a.last());
        assert((b + gap_b).last() == gap_b[0]);
        assert(is_separator(a[a.len() - 1]));
    } else {
        assert((b + gap_b).last() == b.last());
        assert((a + gap_a).last() == gap_a[0]);
        assert(is_separator(b[b.len() - 1]));
    }
}

/// A plain text with a gap behind it is never a tag, a dash, a text and a
/// dash.
proof fn lemma_canonical_differs(a: Seq<char>, gap: Seq<char>, tag: Seq<char>, b: Seq<char>)
    requires
        plain(a),
        is_gap(gap),
    ensures
        a + gap != tag + seq!['-'] + b + seq!['-'],
{
    let other = tag + seq!['-'] + b + seq!['-'];
    if a + gap == other {
        assert((a + gap).len() == a.len() + gap.len());
        assert(other.len() == tag.len() + b.len() + 2);
        assert(other.last() == '-');
        assert(other[tag.len() as int] == '-');
        if gap.len() == 0 {
            assert((a + gap).last() == a.last());
            assert(is_separator(a[a.len() - 1]));
        } else {
            assert((a + gap)[tag.len() as int] == a[tag.len() as int]);
            assert(is_separator(a[tag.len() as int]));
        }
    }
}

/// The gap of the spelling numbered `i`.
pub open spec fn gap_of(i: int) -> Seq<char> {
    if i == 0 {
        Seq::empty()
    } else if i == 1 {
        seq!['-']
    } else if i == 2 {
        seq!['/']
    } else {
        seq!['_']
    }
}

/// The spelling numbered `i` is the base, the gap numbered `i` and the
/// quote; in upper case, the upper case of the base, the gap and the quote.
proof fn lemma_spelling_shape(base: Seq<char>, quote: Seq<char>, i: int)
    requires
        0 <= i < 4,
        is_quote(quote),
    ensures
        is_gap(gap_of(i)),
        alias_spellings(base, quote)[i] == base + gap_of(i) + quote,
        ascii_uppercase(alias_spellings(base, quote)[i]) == ascii_uppercase(base) + gap_of(i)
            + quote,
{
    reveal_strlit("-");
    reveal_strlit("/");
    reveal_strlit("_");
    assert("-"@ =~= seq!['-']);
    assert("/"@ =~= seq!['/']);
    assert("_"@ =~= seq!['_']);
    assert(base + quote =~= base + gap_of(0) + quote);
    lemma_fold_joins(base + gap_of(i), quote);
    lemma_fold_joins(base, gap_of(i));
    lemma_fold_keeps(gap_of(i));
    lemma_quotes(quote, quote);
}

/// The canonical symbol in upper case is the upper case of the tag, a dash,
/// the upper case of the base, a dash and the quote.
proof fn lemma_canonical_shape(instrument: InstrumentType, base: Seq<char>, quote: Seq<char>)
    requires
        is_quote(quote),
    ensures
        ascii_uppercase(canonical_symbol(instrument, base, quote)) == ascii_uppercase(
            instrument.tag(),
        ) + seq!['-'] + ascii_uppercase(base) + seq!['-'] + quote,
{
    reveal_strlit("-");
    assert("-"@ =~= seq!['-']);
    let dash = seq!['-'];
    let tag = instrument.tag();
    lemma_fold_joins(tag + dash + base + dash, quote);
    lemma_fold_joins(tag + dash + base, dash);
    lemma_fold_joins(tag + dash, base);
    lemma_fold_joins(tag, dash);
    lemma_fold_keeps(dash);
    lemma_quotes(quote, quote);
}

/// Where the base assets are plain and distinct, no registration writes a
/// spelling of an earlier one of the same type.
pub proof fn lemma_plain_bases_keep_spellings(bases: Seq<Seq<char>>, k: nat)
    requires
        plain_and_distinct(bases),
        k < SYMBOLS_PER_BASE * bases.len(),
    ensures
        spellings_kept(bases, k, (SYMBOLS_PER_BASE * bases.len()) as nat),
{
    let count = (SYMBOLS_PER_BASE * bases.len()) as nat;
    assert forall|later: nat, i: int|
        k < later < count && nth_type(later) == nth_type(k) && 0 <= i < 4 implies !(
    #[trigger] nth_keys(bases, later).contains(
        ascii_uppercase(#[trigger] nth_spellings(bases, k)[i]),
    )) by {
        let base = nth_base(bases, k);
        let quote = nth_quote(k);
        let other_base = nth_base(bases, later);
        let other_quote = nth_quote(later);
        let spelling = ascii_uppercase(nth_spellings(bases, k)[i]);
        let keys = nth_keys(bases, later);
        lemma_nth_quote(k, later);
        lemma_nth_quote(later, k);
        assert(plain(bases[(k / 6) as int]));
        assert(plain(bases[(later / 6) as int]));
        lemma_fold_keeps(base);
        lemma_fold_keeps(other_base);
        lemma_spelling_shape(base, quote, i);
        assert(nth_type(later) is Spot || nth_type(later) is Perp);
        assert(keys.len() == 5);
        assert forall|j: int| 0 <= j < 5 implies keys[j] != spelling by {
            if keys[j] == spelling {
                if j == 0 {
                    lemma_canonical_shape(nth_type(later), other_base, other_quote);
                    let prefix = ascii_uppercase(nth_type(later).tag()) + seq!['-']
                        + ascii_uppercase(other_base) + seq!['-'];
                    lemma_quote_cancels(
                        ascii_uppercase(base) + gap_of(i),
                        quote,
                        prefix,
                        other_quote,
                    );
                    lemma_canonical_differs(
                        ascii_uppercase(base),
                        gap_of(i),
                        ascii_uppercase(nth_type(later).tag()),
                        ascii_uppercase(other_base),
                    );
                } else {
                    lemma_spelling_shape(other_base, other_quote, j - 1);
                    assert(keys[j] == ascii_uppercase(
                        alias_spellings(other_base, other_quote)[j - 1],
                    ));
                    lemma_quote_cancels(
                        ascii_uppercase(base) + gap_of(i),
                        quote,
                        ascii_uppercase(other_base) + gap_of(j - 1),
                        other_quote,
                    );
                    lemma_gap_cancels(
                        ascii_uppercase(base),
                        gap_of(i),
                        ascii_uppercase(other_base),
                        gap_of(j - 1),
                    );
                    if k / 6 != later / 6 {
                        assert(ascii_uppercase(bases[(k / 6) as int]) != ascii_uppercase(
                            bases[(later / 6) as int],
                        ));
                    }
                }
            }
        }
        if keys.contains(spelling) {
            let j = choose|j: int| 0 <= j < keys.len() && keys[j] == spelling;
            assert(keys[j] != spelling);
        }
    }
}

/// In a registry built from base assets that are plain and distinct, every
/// spelling of every registered instrument resolves to one id, and that id
/// has the instrument's canonical symbol. Take the registration numbered
/// `k`: its base asset, its quote currency and its type. Each of the four
/// spellings of that pair, looked up in the context of that type, resolves to
/// the id `k`, whose canonical symbol is `{TYPE}-{BASE}-{QUOTE}`.
pub proof fn lemma_plain_bases_resolve(bases: Seq<Seq<char>>, k: nat, i: int)
    requires
        SYMBOLS_PER_BASE * bases.len() <= MAX_SYMBOLS,
        k < SYMBOLS_PER_BASE * bases.len(),
        0 <= i < 4,
        plain_and_distinct(bases),
    ensures
        ({
            let model = registered(bases, (SYMBOLS_PER_BASE * bases.len()) as nat);
            &&& resolve(model, nth_spellings(bases, k)[i], nth_type(k)) == Some(k as SymbolId)
            &&& k < model.canonical.len()
            &&& model.canonical[k as int] == canonical_symbol(
                nth_type(k),
                nth_base(bases, k),
                nth_quote(k),
            )
        }),
{
    lemma_plain_bases_keep_spellings(bases, k);
    lemma_aliases_resolve(bases, k, i);
}

} // verus!
