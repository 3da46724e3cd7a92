use vstd::prelude::*;
use crate::constants::{
    MAX_CONFIDENCE_DEVIATION_BPS, MAX_ORACLE_STALENESS_SLOTS, MAX_SANE_PRICE, MIN_SANE_PRICE,
    MOCK_SOL_PRICE,
};
use crate::errors::CreditError;
use crate::types::{Address, Clock};

verus! {

/// Text form of the program that owns the trusted price accounts.
pub const PYTH_PROGRAM_ID: &'static str = "gSbePebfvPy7tRqimPoVecS2UsBvYv46ynrzWocc92s";

/// The 32 bytes that the base58 text form `s` of an address stands for.
pub uninterp spec fn address_of_text(s: Seq<char>) -> Seq<u8>;

/// Relies on `Pubkey::from_str` (anchor_lang's re-export of solana-program):
/// it base58-decodes `s` and fails unless that gives exactly 32 bytes; the
/// result depends on `s` alone.
#[verifier::external_body]
fn parse_address(s: &str) -> (r: Option<Address>)
    ensures
        r matches Some(a) ==> a@ == address_of_text(s@),
{
    match <anchor_lang::prelude::Pubkey as std::str::FromStr>::from_str(s) {
        Ok(key) => Some(Address::new(key.to_bytes())),
        Err(_) => None,
    }
}

/// The identity that trusted price accounts are owned by, decoded from
/// `PYTH_PROGRAM_ID`; `InvalidOracle` if the text does not decode.
pub fn pyth_program_id() -> (r: Result<Address, CreditError>)
    ensures
        r matches Ok(a) ==> a@ == address_of_text(PYTH_PROGRAM_ID@),
{
    match parse_address(PYTH_PROGRAM_ID) {
        Some(a) => Ok(a),
        None => Err(CreditError::InvalidOracle),
    }
}

/// Status code of a feed whose price is currently being published.
pub const PRICE_STATUS_TRADING: u32 = 1;

/// Byte offset of the price exponent in a price account.
pub const EXPO_OFFSET: usize = 20;

/// Byte offset of the aggregate price.
pub const PRICE_OFFSET: usize = 208;

/// Byte offset of the aggregate confidence interval.
pub const CONF_OFFSET: usize = 216;

/// Byte offset of the aggregate status.
pub const STATUS_OFFSET: usize = 224;

/// Byte offset of the ledger height at which the aggregate was published.
pub const PUBLISH_SLOT_OFFSET: usize = 232;

/// Smallest price account that holds every field read here.
pub const PRICE_ACCOUNT_MIN_LEN: usize = 240;

/// Decimals of a normalized price.
pub const PRICE_DECIMALS: i64 = 6;

/// A raw oracle reading, before any validation.
#[derive(Clone, Copy, Debug)]
pub struct PriceFeed {
    /// Identity that owns (issued) the feed account.
    pub owner: Address,
    pub status: u32,
    /// Price in units of `10^expo`.
    pub price: i64,
    /// Confidence interval, in the same units as `price`.
    pub conf: u64,
    pub expo: i32,
    /// Ledger height at which the price was published.
    pub publish_slot: u64,
}

/// How an operation obtains the collateral price.
#[derive(Clone, Copy, Debug, PartialEq, Eq, Structural)]
pub enum PriceSource {
    /// Only a validated feed price is accepted.
    TrustedFeed,
    /// A validated feed price, or the fixed fallback price when the feed fails.
    FallbackConstant,
}

/// Everything an operation needs to price collateral.
#[derive(Clone, Copy, Debug)]
pub struct PriceOracle {
    pub source: PriceSource,
    /// Identity that a feed must be owned by.
    pub trusted_owner: Address,
    /// The feed as read from its account, or why it could not be read.
    pub feed: Result<PriceFeed, CreditError>,
}

/// `10^n`.
pub open spec fn pow10(n: nat) -> int
    decreases n,
{
    if n == 0 {
        1
    } else {
        10 * pow10((n - 1) as nat)
    }
}

/// Little-endian unsigned integer of `n` bytes of `data` starting at `off`.
pub open spec fn le_uint(data: Seq<u8>, off: int, n: nat) -> int
    decreases n,
{
    if n == 0 {
        0
    } else {
        data[off] as int + 256 * le_uint(data, off + 1, (n - 1) as nat)
    }
}

/// Two's-complement reading of an unsigned value of `bits` bits.
pub open spec fn signed_of(u: int, bits: nat) -> int {
    if u < vstd::arithmetic::power2::pow2((bits - 1) as nat) {
        u
    } else {
        u - vstd::arithmetic::power2::pow2(bits)
    }
}

/// The feed that the bytes of a price account describe, when long enough.
pub open spec fn parse_spec(owner: Address, data: Seq<u8>) -> Result<PriceFeed, CreditError> {
    if data.len() < PRICE_ACCOUNT_MIN_LEN {
        Err(CreditError::InvalidOracle)
    } else {
        Ok(
            PriceFeed {
                owner,
                status: le_uint(data, STATUS_OFFSET as int, 4) as u32,
                price: signed_of(le_uint(data, PRICE_OFFSET as int, 8), 64) as i64,
                conf: le_uint(data, CONF_OFFSET as int, 8) as u64,
                expo: signed_of(le_uint(data, EXPO_OFFSET as int, 4), 32) as i32,
                publish_slot: le_uint(data, PUBLISH_SLOT_OFFSET as int, 8) as u64,
            },
        )
    }
}

/// Decimal shift that brings a price of exponent `expo` to six decimals.
pub open spec fn adjustment(expo: i32) -> int {
    PRICE_DECIMALS + expo
}

/// A positive price of exponent `expo`, brought to six decimals.
pub open spec fn normalize_spec(price: int, expo: i32) -> Result<i64, CreditError> {
    let adj = adjustment(expo);
    if adj >= 0 {
        if adj > 18 || price * pow10(adj as nat) > i64::MAX {
            Err(CreditError::MathOverflow)
        } else {
            Ok((price * pow10(adj as nat)) as i64)
        }
    } else {
        if -adj > 18 {
            Err(CreditError::MathOverflow)
        } else {
            Ok((price / pow10((-adj) as nat)) as i64)
        }
    }
}

/// The validated six-decimal price of `feed`, or the first check it fails:
/// wrong owner, not trading, stale, non-positive, too wide a confidence
/// interval, exponent or price overflow, implausible price.
pub open spec fn validated_price(
    feed: PriceFeed,
    trusted_owner: Address,
    clock: Clock,
    max_staleness: u64,
) -> Result<u64, CreditError> {
    if feed.owner@ != trusted_owner@ {
        Err(CreditError::InvalidOracle)
    } else if feed.status != PRICE_STATUS_TRADING {
        Err(CreditError::StaleOracle)
    } else if clock.slot > feed.publish_slot + max_staleness {
        Err(CreditError::StaleOracle)
    } else if feed.price <= 0 {
        Err(CreditError::InvalidOracle)
    } else if feed.conf * 10_000 > feed.price * MAX_CONFIDENCE_DEVIATION_BPS {
        Err(CreditError::OracleConfidenceTooWide)
    } else {
        match normalize_spec(feed.price as int, feed.expo) {
            Err(e) => Err(e),
            Ok(p) => if MIN_SANE_PRICE < p < MAX_SANE_PRICE {
                Ok(p as u64)
            } else {
                Err(CreditError::InvalidOracle)
            },
        }
    }
}

/// The validated feed price, or the fallback price when validation fails.
pub open spec fn fallback_price(feed: PriceFeed, trusted_owner: Address, clock: Clock) -> u64 {
    match validated_price(feed, trusted_owner, clock, MAX_ORACLE_STALENESS_SLOTS) {
        Ok(p) => p,
        Err(_) => MOCK_SOL_PRICE,
    }
}

impl PriceOracle {
    /// The price an operation sees at `clock`.
    pub open spec fn price_spec(&self, clock: Clock) -> Result<u64, CreditError> {
        match self.feed {
            Ok(feed) => match self.source {
                PriceSource::TrustedFeed => validated_price(
                    feed,
                    self.trusted_owner,
                    clock,
                    MAX_ORACLE_STALENESS_SLOTS,
                ),
                PriceSource::FallbackConstant => Ok(fallback_price(feed, self.trusted_owner, clock)),
            },
            Err(e) => match self.source {
                PriceSource::TrustedFeed => Err(e),
                PriceSource::FallbackConstant => Ok(MOCK_SOL_PRICE),
            },
        }
    }

    /// Reads the feed from the bytes of a price account owned by `owner`.
    pub fn from_account(source: PriceSource, trusted_owner: Address, owner: Address, data: &[u8]) -> (r:
        PriceOracle)
        ensures
            r == (PriceOracle { source, trusted_owner, feed: parse_spec(owner, data@) }),
    {
        PriceOracle { source, trusted_owner, feed: PriceFeed::parse(owner, data) }
    }

    /// Prices collateral at `clock` as `source` directs.
    pub fn price(&self, clock: &Clock) -> (r: Result<u64, CreditError>)
        ensures
            r == self.price_spec(*clock),
            r matches Ok(p) ==> p > 0,
    {
        match &self.feed {
            Ok(feed) => match self.source {
                PriceSource::TrustedFeed => get_pyth_price(
                    feed,
                    &self.trusted_owner,
                    clock,
                    MAX_ORACLE_STALENESS_SLOTS,
                ),
                PriceSource::FallbackConstant => get_price_with_fallback(
                    feed,
                    &self.trusted_owner,
                    clock,
                ),
            },
            Err(e) => match self.source {
                PriceSource::TrustedFeed => Err(*e),
                PriceSource::FallbackConstant => get_mock_sol_price(),
            },
        }
    }
}

fn read_u32_le(data: &[u8], off: usize) -> (r: u64)
    requires
        off + 4 <= data@.len(),
    ensures
        r == le_uint(data@, off as int, 4),
        r < 0x1_0000_0000,
{
    proof {
        reveal_with_fuel(le_uint, 5);
    }
    let b0 = data[off] as u64;
    let b1 = data[off + 1] as u64;
    let b2 = data[off + 2] as u64;
    let b3 = data[off + 3] as u64;
    b0 + 256 * (b1 + 256 * (b2 + 256 * b3))
}

fn read_u64_le(data: &[u8], off: usize) -> (r: u64)
    requires
        off + 8 <= data@.len(),
    ensures
        r == le_uint(data@, off as int, 8),
{
    proof {
        reveal_with_fuel(le_uint, 9);
    }
    let b0 = data[off] as u64;
    let b1 = data[off + 1] as u64;
    let b2 = data[off + 2] as u64;
    let b3 = data[off + 3] as u64;
    let b4 = data[off + 4] as u64;
    let b5 = data[off + 5] as u64;
    let b6 = data[off + 6] as u64;
    let b7 = data[off + 7] as u64;
    b0 + 256 * (b1 + 256 * (b2 + 256 * (b3 + 256 * (b4 + 256 * (b5 + 256 * (b6 + 256 * b7))))))
}

impl PriceFeed {
    /// Reads a feed from the bytes of a price account owned by `owner`:
    /// exponent at byte 20; price, confidence, status and publish slot of the
    /// aggregate at bytes 208, 216, 224 and 232, all little-endian. Fails with
    /// `InvalidOracle` when the account is too short.
    pub fn parse(owner: Address, data: &[u8]) -> (r: Result<PriceFeed, CreditError>)
        ensures
            r == parse_spec(owner, data@),
    {
        if data.len() < PRICE_ACCOUNT_MIN_LEN {
            return Err(CreditError::InvalidOracle);
        }
        let status = read_u32_le(data, STATUS_OFFSET);
        let price_bits = read_u64_le(data, PRICE_OFFSET);
        let conf = read_u64_le(data, CONF_OFFSET);
        let expo_bits = read_u32_le(data, EXPO_OFFSET);
        let publish_slot = read_u64_le(data, PUBLISH_SLOT_OFFSET);
        proof {
            vstd::arithmetic::power2::lemma2_to64();
            vstd::arithmetic::power2::lemma2_to64_rest();
        }
        let price: i64 = if price_bits < 0x8000_0000_0000_0000 {
            price_bits as i64
        } else {
            ((price_bits - 0x8000_0000_0000_0000) as i64) - i64::MAX - 1
        };
        let expo: i32 = if expo_bits < 0x8000_0000 {
            expo_bits as i32
        } else {
            (expo_bits as i64 - 0x1_0000_0000) as i32
        };
        Ok(PriceFeed { owner, status: status as u32, price, conf, expo, publish_slot })
    }
}

/// `10^n` for `n <= 18`.
fn pow10_exec(n: u32) -> (r: i64)
    requires
        n <= 18,
    ensures
        r == pow10(n as nat),
{
    let mut r: i64 = 1;
    let mut k: u32 = 0;
    proof {
        reveal_with_fuel(pow10, 19);
        assert(pow10(18) == 1_000_000_000_000_000_000);
    }
    while k < n
        invariant
            k <= n <= 18,
            r == pow10(k as nat),
            r <= 1_000_000_000_000_000_000,
            pow10(k as nat) * pow10((18 - k) as nat) == 1_000_000_000_000_000_000,
        decreases n - k,
    {
        proof {
            assert(pow10((18 - k) as nat) == 10 * pow10((18 - k - 1) as nat));
            assert(pow10((k + 1) as nat) == 10 * pow10(k as nat));
            assert(pow10((k + 1) as nat) * pow10((18 - k - 1) as nat) == 1_000_000_000_000_000_000)
                by (nonlinear_arith)
                requires
                    pow10((18 - k) as nat) == 10 * pow10((18 - k - 1) as nat),
                    pow10((k + 1) as nat) == 10 * pow10(k as nat),
                    pow10(k as nat) * pow10((18 - k) as nat) == 1_000_000_000_000_000_000,
            ;
            lemma_pow10_pos((18 - k - 1) as nat);
            lemma_pow10_pos((k + 1) as nat);
            assert(pow10((k + 1) as nat) <= 1_000_000_000_000_000_000) by (nonlinear_arith)
                requires
                    pow10((k + 1) as nat) * pow10((18 - k - 1) as nat) == 1_000_000_000_000_000_000,
                    pow10((18 - k - 1) as nat) >= 1,
                    pow10((k + 1) as nat) >= 0,
            ;
            lemma_pow10_pos((k + 1) as nat);
        }
        r = r * 10;
        k = k + 1;
    }
    r
}

proof fn lemma_pow10_pos(n: nat)
    ensures
        pow10(n) >= 1,
    decreases n,
{
    if n > 0 {
        lemma_pow10_pos((n - 1) as nat);
    }
}

/// Brings a positive price of exponent `expo` to six decimals: multiplies when
/// scaling up, divides (rounding down) when scaling down. A shift of more than
/// 18 decimals, or a product beyond 64 bits, fails with `MathOverflow`.
pub fn normalize_price(price: i64, expo: i32) -> (r: Result<i64, CreditError>)
    requires
        price > 0,
    ensures
        r == normalize_spec(price as int, expo),
{
    let adj: i64 = PRICE_DECIMALS + expo as i64;
    if adj >= 0 {
        if adj > 18 {
            return Err(CreditError::MathOverflow);
        }
        let factor = pow10_exec(adj as u32);
        proof {
            lemma_pow10_pos(adj as nat);
            assert(price * factor > 0) by (nonlinear_arith) requires price > 0, factor > 0;
        }
        match price.checked_mul(factor) {
            Some(p) => Ok(p),
            None => Err(CreditError::MathOverflow),
        }
    } else {
        if -adj > 18 {
            return Err(CreditError::MathOverflow);
        }
        let factor = pow10_exec((-adj) as u32);
        proof {
            lemma_pow10_pos((-adj) as nat);
        }
        Ok(price / factor)
    }
}

/// Validates a feed and returns its price with six decimals: the feed must be
/// owned by `trusted_owner`, trading, published at most `max_staleness` slots
/// before `clock`, priced positively with a confidence interval of at most
/// 2% of the price, and give a plausible SOL price (between $10 and $10,000,
/// exclusive) once normalized.
pub fn get_pyth_price(
    feed: &PriceFeed,
    trusted_owner: &Address,
    clock: &Clock,
    max_staleness: u64,
) -> (r: Result<u64, CreditError>)
    ensures
        r == validated_price(*feed, *trusted_owner, *clock, max_staleness),
        r matches Ok(p) ==> MIN_SANE_PRICE < p < MAX_SANE_PRICE,
{
    if feed.owner != *trusted_owner {
        return Err(CreditError::InvalidOracle);
    }
    if feed.status != PRICE_STATUS_TRADING {
        return Err(CreditError::StaleOracle);
    }
    if clock.slot > feed.publish_slot && clock.slot - feed.publish_slot > max_staleness {
        return Err(CreditError::StaleOracle);
    }
    if feed.price <= 0 {
        return Err(CreditError::InvalidOracle);
    }
    if feed.conf as u128 * 10_000 > feed.price as u128 * MAX_CONFIDENCE_DEVIATION_BPS as u128 {
        return Err(CreditError::OracleConfidenceTooWide);
    }
    let p = match normalize_price(feed.price, feed.expo) {
        Ok(p) => p,
        Err(e) => {
            return Err(e);
        },
    };
    if MIN_SANE_PRICE < p && p < MAX_SANE_PRICE {
        Ok(p as u64)
    } else {
        Err(CreditError::InvalidOracle)
    }
}

/// The fixed price used when the feed cannot be read: $100 with six decimals.
pub fn get_mock_sol_price() -> (r: Result<u64, CreditError>)
    ensures
        r == Ok::<u64, CreditError>(MOCK_SOL_PRICE),
{
    Ok(MOCK_SOL_PRICE)
}

/// The validated feed price, or the fixed fallback price when any check fails.
pub fn get_price_with_fallback(feed: &PriceFeed, trusted_owner: &Address, clock: &Clock) -> (r: Result<
    u64,
    CreditError,
>)
    ensures
        r == Ok::<u64, CreditError>(fallback_price(*feed, *trusted_owner, *clock)),
        r matches Ok(p) ==> p > 0,
{
    match get_pyth_price(feed, trusted_owner, clock, MAX_ORACLE_STALENESS_SLOTS) {
        Ok(p) => Ok(p),
        Err(_) => get_mock_sol_price(),
    }
}

} // verus!
