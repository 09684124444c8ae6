//! Market-data intake: decimal price parsing and assembly of candles
//! and tickers from a venue's wire fields.
//!
//! A field the system cannot parse surfaces as a Parse error; it is
//! never coerced to a default that could pass downstream risk checks.

use vstd::prelude::*;
use vstd::string::StringSliceAdditionalSpecFns;
use vstd::utf8::encode_utf8;

use crate::fixed::{AMOUNT_MAX, SCALE};
use crate::models::{Candle, Symbol, Ticker};

verus! {

/// Failures of market-data retrieval and parsing.
#[derive(Debug, PartialEq)]
pub enum MarketError {
    Http(String),
    Parse(String),
    UnsupportedExchange(String),
}

/// ASCII digit, as a byte.
pub open spec fn is_ascii_digit(b: u8) -> bool {
    48 <= b <= 57
}

/// Every byte of `s` is an ASCII digit.
pub open spec fn all_digits(s: Seq<u8>) -> bool {
    forall|i: int| 0 <= i < s.len() ==> is_ascii_digit(#[trigger] s[i])
}

/// Numeric value of a digit run, most significant digit first.
pub open spec fn digits_val(s: Seq<u8>) -> int
    decreases s.len(),
{
    if s.len() == 0 {
        0
    } else {
        digits_val(s.drop_last()) * 10 + (s.last() - 48)
    }
}

pub open spec fn pow10(n: nat) -> int
    decreases n,
{
    if n == 0 {
        1
    } else {
        10 * pow10((n - 1) as nat)
    }
}

/// Index of the first `.` in `s`, or `s.len()` when there is none.
pub open spec fn dot_index(s: Seq<u8>) -> int
    decreases s.len(),
{
    if s.len() == 0 {
        0
    } else if s[0] == 46 {
        0
    } else {
        1 + dot_index(s.drop_first())
    }
}

/// Integer-part digits of a price literal.
pub open spec fn int_part(s: Seq<u8>) -> Seq<u8> {
    s.take(dot_index(s))
}

/// Fraction-part digits of a price literal; empty when there is no dot.
pub open spec fn frac_part(s: Seq<u8>) -> Seq<u8> {
    if dot_index(s) == s.len() {
        Seq::empty()
    } else {
        s.skip(dot_index(s) + 1)
    }
}

/// Whether the bytes form a price literal: a nonempty digit run,
/// optionally followed by `.` and another nonempty digit run.
pub open spec fn is_price_lit(s: Seq<u8>) -> bool {
    let j = dot_index(s);
    &&& j >= 1
    &&& all_digits(int_part(s))
    &&& (j == s.len() || (j < s.len() - 1 && all_digits(frac_part(s))))
}

/// Ticks contributed by the fraction digits: the first six digits,
/// padded with zeros to six places; further digits are truncated.
pub open spec fn frac_ticks(f: Seq<u8>) -> int {
    if f.len() >= 6 {
        digits_val(f.take(6))
    } else {
        digits_val(f) * pow10((6 - f.len()) as nat)
    }
}

/// Value of a price literal in ticks.
pub open spec fn price_ticks(s: Seq<u8>) -> int {
    digits_val(int_part(s)) * SCALE + frac_ticks(frac_part(s))
}

/// Whether `s` parses as a representable price.
pub open spec fn spec_price_ok(s: Seq<u8>) -> bool {
    is_price_lit(s) && price_ticks(s) <= AMOUNT_MAX
}

proof fn lemma_dot_index_at(s: Seq<u8>, i: int)
    requires
        0 <= i <= s.len(),
        forall|k: int| 0 <= k < i ==> s[k] != 46,
        i < s.len() ==> s[i] == 46,
    ensures
        dot_index(s) == i,
    decreases i,
{
    if i == 0 {
    } else {
        assert(s[0] != 46);
        lemma_dot_index_at(s.drop_first(), i - 1);
    }
}

proof fn lemma_digits_val_nonneg(s: Seq<u8>)
    requires
        all_digits(s),
    ensures
        digits_val(s) >= 0,
    decreases s.len(),
{
    if s.len() > 0 {
        assert(all_digits(s.drop_last()));
        lemma_digits_val_nonneg(s.drop_last());
    }
}

proof fn lemma_digits_val_bound(s: Seq<u8>)
    requires
        all_digits(s),
    ensures
        0 <= digits_val(s) < pow10(s.len()),
    decreases s.len(),
{
    if s.len() > 0 {
        assert(all_digits(s.drop_last()));
        lemma_digits_val_bound(s.drop_last());
        assert(pow10(s.len()) == 10 * pow10((s.len() - 1) as nat));
    }
}

proof fn lemma_pow10_le_6(n: nat)
    requires
        n <= 6,
    ensures
        1 <= pow10(n) <= 1_000_000,
{
    reveal_with_fuel(pow10, 8);
    if n == 0 {
    } else if n == 1 {
    } else if n == 2 {
    } else if n == 3 {
    } else if n == 4 {
    } else if n == 5 {
    } else {
        assert(n == 6);
    }
}

proof fn lemma_pow10_split_6(a: nat)
    requires
        a <= 6,
    ensures
        pow10(a) * pow10((6 - a) as nat) == 1_000_000,
{
    reveal_with_fuel(pow10, 8);
    assert(pow10(0) == 1 && pow10(1) == 10 && pow10(2) == 100 && pow10(3) == 1_000 && pow10(4)
        == 10_000 && pow10(5) == 100_000 && pow10(6) == 1_000_000);
    if a == 0 {
        assert(pow10(a) == 1 && (6 - a) as nat == 6);
    } else if a == 1 {
        assert(pow10(a) == 10 && (6 - a) as nat == 5);
    } else if a == 2 {
        assert(pow10(a) == 100 && (6 - a) as nat == 4);
    } else if a == 3 {
        assert(pow10(a) == 1_000 && (6 - a) as nat == 3);
    } else if a == 4 {
        assert(pow10(a) == 10_000 && (6 - a) as nat == 2);
    } else if a == 5 {
        assert(pow10(a) == 100_000 && (6 - a) as nat == 1);
    } else {
        assert(pow10(a) == 1_000_000 && (6 - a) as nat == 0);
    }
}

proof fn lemma_frac_ticks_range(f: Seq<u8>)
    requires
        all_digits(f),
    ensures
        0 <= frac_ticks(f) < SCALE as int,
{
    if f.len() >= 6 {
        assert(all_digits(f.take(6)));
        lemma_digits_val_bound(f.take(6));
        lemma_pow10_le_6(6);
    } else {
        lemma_digits_val_bound(f);
        lemma_pow10_le_6((6 - f.len()) as nat);
        lemma_pow10_split_6(f.len());
        assert(0 <= digits_val(f) * pow10((6 - f.len()) as nat) < pow10(f.len()) * pow10(
            (6 - f.len()) as nat,
        )) by (nonlinear_arith)
            requires
                0 <= digits_val(f) < pow10(f.len()),
                pow10((6 - f.len()) as nat) >= 1,
        ;
    }
}

/// Ten to the `e`, executable for the fraction padding.
fn pow10_u64(e: usize) -> (r: u64)
    requires
        e <= 6,
    ensures
        r == pow10(e as nat),
{
    proof {
        reveal_with_fuel(pow10, 8);
    }
    if e == 0 {
        1
    } else if e == 1 {
        10
    } else if e == 2 {
        100
    } else if e == 3 {
        1_000
    } else if e == 4 {
        10_000
    } else if e == 5 {
        100_000
    } else {
        1_000_000
    }
}

/// Parses a decimal price literal such as `50123.50` into ticks.
/// Returns a Parse error for anything that is not a price literal and
/// for values above `AMOUNT_MAX`; no input is coerced to a default.
pub fn parse_price(s: &str) -> (r: Result<u64, MarketError>)
    ensures
        r is Ok <==> spec_price_ok(s.spec_bytes()),
        r matches Ok(v) ==> v == price_ticks(s.spec_bytes()),
        !is_price_lit(s.spec_bytes()) ==> (r matches Err(MarketError::Parse(m)) && m@
            == "invalid price"@),
        is_price_lit(s.spec_bytes()) && price_ticks(s.spec_bytes()) > AMOUNT_MAX ==> (r
            matches Err(MarketError::Parse(m)) && m@ == "price out of range"@),
{
    let b: &[u8] = s.as_bytes();
    let n: usize = b.len();
    let ghost sb = s.spec_bytes();
    // Locate the first dot, if any.
    let mut i: usize = 0;
    while i < n && b[i] != 46u8
        invariant
            i <= n,
            n == sb.len(),
            b@ == sb,
            sb == s.spec_bytes(),
            forall|k: int| 0 <= k < i ==> sb[k] != 46,
        decreases n - i,
    {
        i = i + 1;
    }
    let dot: usize = i;
    proof {
        lemma_dot_index_at(sb, dot as int);
    }
    if dot == 0 {
        return Err(MarketError::Parse("invalid price".to_owned()));
    }
    if dot < n && dot + 1 == n {
        return Err(MarketError::Parse("invalid price".to_owned()));
    }
    // Integer part: validate digits and accumulate, watching the cap.
    let int_cap: u64 = AMOUNT_MAX / SCALE;
    let mut acc: u64 = 0;
    let mut over: bool = false;
    let mut k: usize = 0;
    while k < dot
        invariant
            k <= dot <= n,
            n == sb.len(),
            b@ == sb,
            sb == s.spec_bytes(),
            dot_index(sb) == dot,
            int_cap == AMOUNT_MAX / SCALE,
            forall|t: int| 0 <= t < k ==> is_ascii_digit(#[trigger] sb[t]),
            !over ==> acc == digits_val(sb.take(k as int)) && acc <= int_cap,
            over ==> digits_val(sb.take(k as int)) > int_cap,
        decreases dot - k,
    {
        let c: u8 = b[k];
        if c < 48u8 || c > 57u8 {
            proof {
                assert(int_part(sb) =~= sb.take(dot as int));
                assert(!is_ascii_digit(int_part(sb)[k as int]));
            }
            return Err(MarketError::Parse("invalid price".to_owned()));
        }
        proof {
            assert(sb.take(k + 1).drop_last() =~= sb.take(k as int));
            assert(sb.take(k + 1).last() == sb[k as int]);
            if over {
                lemma_digits_val_nonneg(sb.take(k as int));
            }
        }
        if !over {
            acc = acc * 10 + ((c - 48u8) as u64);
            if acc > int_cap {
                over = true;
            }
        }
        k = k + 1;
    }
    proof {
        assert(sb.take(dot as int) =~= int_part(sb));
    }
    // Fraction part: validate digits and take the first six.
    let mut facc: u64 = 0;
    let mut taken: usize = 0;
    if dot < n {
        let mut j: usize = dot + 1;
        while j < n
            invariant
                dot + 1 <= j <= n,
                n == sb.len(),
                b@ == sb,
                sb == s.spec_bytes(),
                dot_index(sb) == dot,
                dot < n,
                taken == if j - dot - 1 <= 6 {
                    j - dot - 1
                } else {
                    6
                },
                forall|t: int| dot < t < j ==> is_ascii_digit(#[trigger] sb[t]),
                facc == digits_val(sb.skip(dot + 1).take(taken as int)),
                facc < 1_000_000,
                facc == digits_val(frac_part(sb).take(taken as int)),
            decreases n - j,
        {
            let c: u8 = b[j];
            if c < 48u8 || c > 57u8 {
                proof {
                    assert(frac_part(sb)[j - dot - 1] == sb[j as int]);
                    assert(!all_digits(frac_part(sb)));
                }
                return Err(MarketError::Parse("invalid price".to_owned()));
            }
            if taken < 6 {
                proof {
                    let fp = sb.skip(dot + 1);
                    assert(fp.take(taken + 1).drop_last() =~= fp.take(taken as int));
                    assert(fp.take(taken + 1).last() == fp[taken as int]);
                    assert(fp[taken as int] == sb[j as int]);
                    assert(all_digits(fp.take(taken + 1)));
                    lemma_digits_val_bound(fp.take(taken + 1));
                    lemma_pow10_le_6((taken + 1) as nat);
                }
                facc = facc * 10 + ((c - 48u8) as u64);
                taken = taken + 1;
            }
            j = j + 1;
        }
    }
    proof {
        if dot < n {
            assert(all_digits(frac_part(sb)));
        } else {
            assert(frac_part(sb) =~= Seq::<u8>::empty());
            assert(frac_part(sb).take(0) =~= frac_part(sb));
        }
        assert(is_price_lit(sb));
    }
    // Pad the fraction to six places and assemble the value.
    let frac_len: usize = if dot < n {
        n - dot - 1
    } else {
        0
    };
    proof {
        assert(frac_part(sb).len() == frac_len);
        if dot == n {
            assert(frac_part(sb).take(0) =~= frac_part(sb));
        }
        assert(frac_part(sb).take(taken as int) =~= if frac_len >= 6 {
            frac_part(sb).take(6)
        } else {
            frac_part(sb)
        });
        lemma_frac_ticks_range(frac_part(sb));
    }
    let ticks_frac: u64 = if frac_len >= 6 {
        facc
    } else {
        let mult: u64 = pow10_u64(6 - frac_len);
        proof {
            assert(facc * mult == frac_ticks(frac_part(sb)));
        }
        facc * mult
    };
    proof {
        assert(ticks_frac == frac_ticks(frac_part(sb)));
        assert(int_part(sb) =~= sb.take(dot as int));
    }
    if over {
        proof {
            assert(digits_val(int_part(sb)) * (SCALE as int) >= (int_cap as int + 1) * (
            SCALE as int)) by (nonlinear_arith)
                requires
                    digits_val(int_part(sb)) >= int_cap as int + 1,
                    SCALE as int >= 1,
            ;
        }
        return Err(MarketError::Parse("price out of range".to_owned()));
    }
    proof {
        assert(acc * (SCALE as int) <= int_cap as int * (SCALE as int)) by (nonlinear_arith)
            requires
                0 <= acc <= int_cap as int,
                SCALE as int >= 0,
        ;
    }
    let value: u128 = (acc as u128) * (SCALE as u128) + (ticks_frac as u128);
    if value > AMOUNT_MAX as u128 {
        return Err(MarketError::Parse("price out of range".to_owned()));
    }
    Ok(value as u64)
}

/// Builds a ticker from a venue's decimal price and volume fields; a
/// field that does not parse surfaces as a Parse error.
pub fn ticker_from_fields(symbol: String, last_price: &str, volume: &str, timestamp: i64) -> (r:
    Result<Ticker, MarketError>)
    ensures
        r is Ok <==> spec_price_ok(last_price.spec_bytes()) && spec_price_ok(volume.spec_bytes()),
        r matches Ok(t) ==> t.symbol@ == symbol@ && t.price == price_ticks(last_price.spec_bytes())
            && t.volume == price_ticks(volume.spec_bytes()) && t.timestamp == timestamp,
        r is Err ==> (r matches Err(MarketError::Parse(_))),
{
    let price: u64 = match parse_price(last_price) {
        Ok(v) => v,
        Err(e) => {
            return Err(e);
        },
    };
    let vol: u64 = match parse_price(volume) {
        Ok(v) => v,
        Err(e) => {
            return Err(e);
        },
    };
    Ok(Ticker { symbol, price, volume: vol, timestamp })
}

/// Builds a candle from a venue's decimal kline fields; a field that
/// does not parse surfaces as a Parse error.
pub fn candle_from_fields(
    symbol: Symbol,
    open: &str,
    high: &str,
    low: &str,
    close: &str,
    volume: &str,
    timestamp: i64,
) -> (r: Result<Candle, MarketError>)
    ensures
        r is Ok <==> spec_price_ok(open.spec_bytes()) && spec_price_ok(high.spec_bytes())
            && spec_price_ok(low.spec_bytes()) && spec_price_ok(close.spec_bytes())
            && spec_price_ok(volume.spec_bytes()),
        r matches Ok(c) ==> c.symbol == symbol && c.open == price_ticks(open.spec_bytes())
            && c.high == price_ticks(high.spec_bytes()) && c.low == price_ticks(low.spec_bytes())
            && c.close == price_ticks(close.spec_bytes()) && c.volume == price_ticks(
            volume.spec_bytes(),
        ) && c.timestamp == timestamp,
        r is Err ==> (r matches Err(MarketError::Parse(_))),
{
    let open_t: u64 = match parse_price(open) {
        Ok(v) => v,
        Err(e) => {
            return Err(e);
        },
    };
    let high_t: u64 = match parse_price(high) {
        Ok(v) => v,
        Err(e) => {
            return Err(e);
        },
    };
    let low_t: u64 = match parse_price(low) {
        Ok(v) => v,
        Err(e) => {
            return Err(e);
        },
    };
    let close_t: u64 = match parse_price(close) {
        Ok(v) => v,
        Err(e) => {
            return Err(e);
        },
    };
    let volume_t: u64 = match parse_price(volume) {
        Ok(v) => v,
        Err(e) => {
            return Err(e);
        },
    };
    Ok(
        Candle {
            symbol,
            open: open_t,
            high: high_t,
            low: low_t,
            close: close_t,
            volume: volume_t,
            timestamp,
        },
    )
}

/// Which of the registered market-data providers serves a request:
/// the first one; with none registered the symbol's exchange is
/// unsupported.
pub fn select_provider(provider_count: usize, symbol: &Symbol) -> (r: Result<
    usize,
    MarketError,
>)
    ensures
        provider_count > 0 ==> (r matches Ok(k) && k == 0),
        provider_count == 0 ==> (r matches Err(MarketError::UnsupportedExchange(m)) && m@
            == symbol.exchange@),
{
    if provider_count > 0 {
        Ok(0)
    } else {
        Err(MarketError::UnsupportedExchange(symbol.exchange.clone()))
    }
}

/// Adds `symbol` to a subscription list unless an equal entry is
/// already present.
pub fn add_subscription(symbols: &mut Vec<String>, symbol: &str)
    ensures
        (exists|i: int|
            0 <= i < old(symbols)@.len() && (#[trigger] old(symbols)@[i])@ == symbol@)
            ==> final(symbols)@ == old(symbols)@,
        !(exists|i: int|
            0 <= i < old(symbols)@.len() && (#[trigger] old(symbols)@[i])@ == symbol@) ==> {
            &&& final(symbols)@.len() == old(symbols)@.len() + 1
            &&& forall|k: int|
                0 <= k < old(symbols)@.len() ==> final(symbols)@[k] == old(symbols)@[k]
            &&& final(symbols)@.last()@ == symbol@
        },
{
    let owned: String = symbol.to_owned();
    let mut i: usize = 0;
    while i < symbols.len()
        invariant
            i <= symbols@.len(),
            *symbols == *old(symbols),
            owned@ == symbol@,
            forall|k: int| 0 <= k < i ==> (#[trigger] symbols@[k])@ != symbol@,
        decreases symbols@.len() - i,
    {
        if symbols[i].eq(&owned) {
            proof {
                assert(old(symbols)@[i as int]@ == symbol@);
            }
            return ;
        }
        i = i + 1;
    }
    symbols.push(owned);
}

/// Ticker event of the venue's websocket stream, with its decimal
/// fields still unparsed.
#[derive(Debug)]
pub struct BinanceTicker {
    pub symbol: String,
    pub price: String,
    pub quantity: String,
    pub event_time: i64,
}

impl BinanceTicker {
    /// Price of the event in ticks; a malformed decimal surfaces as a
    /// Parse error.
    pub fn price_ticks(&self) -> (r: Result<u64, MarketError>)
        ensures
            r is Ok <==> spec_price_ok(encode_utf8(self.price@)),
            r matches Ok(v) ==> v == price_ticks(encode_utf8(self.price@)),
            r is Err ==> (r matches Err(MarketError::Parse(_))),
    {
        parse_price(self.price.as_str())
    }
}

/// One message of the venue's websocket stream.
#[derive(Debug)]
pub enum BinanceMessage {
    Ticker(BinanceTicker),
    Unknown,
}

} // verus!
