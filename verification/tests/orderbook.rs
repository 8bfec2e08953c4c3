use crypto_feeds::binary64::{is_at_least, is_less_than, is_nan, is_zero, order_rank};
use crypto_feeds::orderbook::OrderBook;
use ordered_float::OrderedFloat;

fn level(price: f64, size: f64) -> (Option<u64>, u64) {
    (Some(price.to_bits()), size.to_bits())
}

fn shown(best: Option<(u64, u64)>) -> Option<(f64, f64)> {
    best.map(|(price, size)| (f64::from_bits(price), f64::from_bits(size)))
}

#[test]
fn best_levels_of_a_small_book() {
    let mut book = OrderBook::new();
    book.update_bids(vec![level(100.0, 1.0), level(101.0, 2.0)]);
    book.update_asks(vec![level(102.0, 1.5)]);
    assert_eq!(shown(book.best_bid()), Some((101.0, 2.0)));
    assert_eq!(shown(book.best_ask()), Some((102.0, 1.5)));
}

#[test]
fn an_empty_book_has_no_best_level() {
    let book = OrderBook::new();
    assert_eq!(book.best_bid(), None);
    assert_eq!(book.best_ask(), None);
}

#[test]
fn the_same_update_twice_is_the_update_once() {
    let mut once = OrderBook::new();
    once.update_bids(vec![level(100.0, 1.0), level(99.5, 3.0)]);
    once.update_asks(vec![level(100.5, 2.0)]);
    let mut twice = OrderBook::new();
    twice.update_bids(vec![level(100.0, 1.0), level(99.5, 3.0)]);
    twice.update_bids(vec![level(100.0, 1.0), level(99.5, 3.0)]);
    twice.update_asks(vec![level(100.5, 2.0), level(100.5, 2.0)]);
    assert_eq!(once.best_bid(), twice.best_bid());
    assert_eq!(once.best_ask(), twice.best_ask());
    assert_eq!(shown(twice.best_bid()), Some((100.0, 1.0)));
}

#[test]
fn a_size_of_zero_removes_the_level() {
    let mut book = OrderBook::new();
    book.update_bids(vec![level(100.0, 1.0), level(101.0, 2.0)]);
    book.update_bids(vec![level(101.0, 0.0)]);
    assert_eq!(shown(book.best_bid()), Some((100.0, 1.0)));
    book.update_bids(vec![level(100.0, -0.0)]);
    assert_eq!(book.best_bid(), None);
    book.update_asks(vec![level(5.0, 0.0)]);
    assert_eq!(book.best_ask(), None);
    book.update_asks(vec![level(5.0, 1.0), level(4.0, 1.0), level(4.0, 0.0)]);
    assert_eq!(shown(book.best_ask()), Some((5.0, 1.0)));
}

#[test]
fn an_update_writes_over_the_size() {
    let mut book = OrderBook::new();
    book.update_asks(vec![level(10.0, 1.0)]);
    book.update_asks(vec![level(10.0, 7.0)]);
    assert_eq!(shown(book.best_ask()), Some((10.0, 7.0)));
}

#[test]
fn a_level_without_a_price_is_passed_by() {
    let mut book = OrderBook::new();
    book.update_bids(vec![(None, 1.0f64.to_bits()), level(3.0, 1.0), (None, 0.0f64.to_bits())]);
    assert_eq!(shown(book.best_bid()), Some((3.0, 1.0)));
}

#[test]
fn bids_and_asks_are_kept_apart() {
    let mut book = OrderBook::new();
    book.update_bids(vec![level(1.0, 1.0)]);
    assert_eq!(book.best_ask(), None);
    book.update_asks(vec![level(2.0, 1.0)]);
    book.update_bids(vec![level(2.0, 0.0)]);
    assert_eq!(shown(book.best_ask()), Some((2.0, 1.0)));
}

#[test]
fn negative_prices_and_infinities_are_ordered() {
    let mut book = OrderBook::new();
    book.update_bids(vec![
        level(-1.0, 1.0),
        level(-2.0, 1.0),
        level(f64::NEG_INFINITY, 1.0),
        level(-0.5, 2.0),
    ]);
    assert_eq!(shown(book.best_bid()), Some((-0.5, 2.0)));
    book.update_asks(vec![level(f64::INFINITY, 1.0), level(-3.0, 4.0), level(1e-300, 1.0)]);
    assert_eq!(shown(book.best_ask()), Some((-3.0, 4.0)));
}

#[test]
fn the_two_zeros_are_one_level_and_keep_the_first_price() {
    let mut book = OrderBook::new();
    book.update_bids(vec![level(-0.0, 1.0)]);
    book.update_bids(vec![level(0.0, 2.0)]);
    let (price, size) = book.best_bid().unwrap();
    assert_eq!(price, (-0.0f64).to_bits());
    assert_eq!(size, 2.0f64.to_bits());
}

#[test]
fn a_price_that_is_no_number_ranks_above_all() {
    let mut book = OrderBook::new();
    book.update_bids(vec![level(f64::INFINITY, 1.0), level(f64::NAN, 2.0)]);
    let (price, size) = book.best_bid().unwrap();
    assert!(f64::from_bits(price).is_nan());
    assert_eq!(size, 2.0f64.to_bits());
    book.update_bids(vec![level(f64::NAN, f64::NAN)]);
    let (_, size) = book.best_bid().unwrap();
    assert!(f64::from_bits(size).is_nan());
}

#[test]
fn the_rank_orders_as_the_numbers_do() {
    let values = [
        f64::NEG_INFINITY,
        f64::MIN,
        -1.0e10,
        -2.5,
        -1.0,
        -f64::MIN_POSITIVE,
        -5e-324,
        -0.0,
        0.0,
        5e-324,
        f64::MIN_POSITIVE,
        0.1,
        1.0,
        1.5,
        100.0,
        101.0,
        f64::MAX,
        f64::INFINITY,
        f64::NAN,
        -f64::NAN,
        f64::from_bits(0x7ff0_0000_0000_0001),
        f64::from_bits(0xfff8_0000_0000_0001),
    ];
    for a in values {
        for b in values {
            let by_rank = order_rank(a.to_bits()).cmp(&order_rank(b.to_bits()));
            assert_eq!(by_rank, OrderedFloat(a).cmp(&OrderedFloat(b)), "{} {}", a, b);
            assert_eq!(is_at_least(a.to_bits(), b.to_bits()), a >= b, "{} {}", a, b);
            assert_eq!(is_less_than(a.to_bits(), b.to_bits()), a < b, "{} {}", a, b);
        }
        assert_eq!(is_nan(a.to_bits()), a.is_nan());
        assert_eq!(is_zero(a.to_bits()), a == 0.0);
    }
}
