//! Enumerated request parameters: closed sets of caller-selectable options,
//! each rendered to one fixed literal wire token.

use vstd::prelude::*;

verus! {

/// Sort order for the coin market listing.
#[derive(Clone, Copy, Debug, PartialEq, Eq, Structural)]
pub enum MarketsOrder {
    MarketCapDesc,
    MarketCapAsc,
    GeckoDesc,
    GeckoAsc,
    VolumeDesc,
    VolumeAsc,
    IdDesc,
    IdAsc,
}

pub open spec fn markets_order_token(o: MarketsOrder) -> Seq<char> {
    match o {
        MarketsOrder::MarketCapDesc => "market_cap_desc"@,
        MarketsOrder::MarketCapAsc => "market_cap_asc"@,
        MarketsOrder::GeckoDesc => "gecko_desc"@,
        MarketsOrder::GeckoAsc => "gecko_asc"@,
        MarketsOrder::VolumeDesc => "volume_desc"@,
        MarketsOrder::VolumeAsc => "volume_asc"@,
        MarketsOrder::IdDesc => "id_desc"@,
        MarketsOrder::IdAsc => "id_asc"@,
    }
}

impl MarketsOrder {
    pub fn token(&self) -> (r: &'static str)
        ensures
            r@ == markets_order_token(*self),
    {
        match self {
            MarketsOrder::MarketCapDesc => "market_cap_desc",
            MarketsOrder::MarketCapAsc => "market_cap_asc",
            MarketsOrder::GeckoDesc => "gecko_desc",
            MarketsOrder::GeckoAsc => "gecko_asc",
            MarketsOrder::VolumeDesc => "volume_desc",
            MarketsOrder::VolumeAsc => "volume_asc",
            MarketsOrder::IdDesc => "id_desc",
            MarketsOrder::IdAsc => "id_asc",
        }
    }
}

/// A price-change window the market listing can report.
#[derive(Clone, Copy, Debug, PartialEq, Eq, Structural)]
pub enum PriceChangePercentage {
    OneHour,
    TwentyFourHours,
    SevenDays,
    FourteenDays,
    ThirtyDays,
    TwoHundredDays,
    OneYear,
}

pub open spec fn price_change_percentage_token(p: PriceChangePercentage) -> Seq<char> {
    match p {
        PriceChangePercentage::OneHour => "1h"@,
        PriceChangePercentage::TwentyFourHours => "24h"@,
        PriceChangePercentage::SevenDays => "7d"@,
        PriceChangePercentage::FourteenDays => "14d"@,
        PriceChangePercentage::ThirtyDays => "30d"@,
        PriceChangePercentage::TwoHundredDays => "200d"@,
        PriceChangePercentage::OneYear => "1y"@,
    }
}

impl PriceChangePercentage {
    pub fn token(&self) -> (r: &'static str)
        ensures
            r@ == price_change_percentage_token(*self),
    {
        match self {
            PriceChangePercentage::OneHour => "1h",
            PriceChangePercentage::TwentyFourHours => "24h",
            PriceChangePercentage::SevenDays => "7d",
            PriceChangePercentage::FourteenDays => "14d",
            PriceChangePercentage::ThirtyDays => "30d",
            PriceChangePercentage::TwoHundredDays => "200d",
            PriceChangePercentage::OneYear => "1y",
        }
    }
}

/// The tokens of a list of price-change windows, in order.
pub open spec fn price_change_tokens_of(s: Seq<PriceChangePercentage>) -> Seq<Seq<char>> {
    s.map_values(|p: PriceChangePercentage| price_change_percentage_token(p))
}

/// Renders each price-change window of a list to its token, keeping the
/// order.
pub fn price_change_tokens(values: &Vec<PriceChangePercentage>) -> (r: Vec<String>)
    ensures
        crate::query::str_views(r@) == price_change_tokens_of(values@),
{
    let ghost tokens = values@.map_values(
        |p: PriceChangePercentage| price_change_percentage_token(p),
    );
    let mut r: Vec<String> = Vec::new();
    let mut i: usize = 0;
    while i < values.len()
        invariant
            i <= values.len(),
            tokens == values@.map_values(
                |p: PriceChangePercentage| price_change_percentage_token(p),
            ),
            r@.len() == i as int,
            forall|j: int| 0 <= j < i as int ==> (#[trigger] r@[j])@ == tokens[j],
        decreases values.len() - i,
    {
        r.push(values[i].token().to_owned());
        i = i + 1;
    }
    proof {
        assert(r@.map_values(|s: String| s@) =~= tokens);
    }
    r
}

/// Sort order for ticker listings.
#[derive(Clone, Copy, Debug, PartialEq, Eq, Structural)]
pub enum TickersOrder {
    TrustScoreAsc,
    TrustScoreDesc,
    VolumeDesc,
}

pub open spec fn tickers_order_token(o: TickersOrder) -> Seq<char> {
    match o {
        TickersOrder::TrustScoreAsc => "trust_score_asc"@,
        TickersOrder::TrustScoreDesc => "trust_score_desc"@,
        TickersOrder::VolumeDesc => "volume_desc"@,
    }
}

impl TickersOrder {
    pub fn token(&self) -> (r: &'static str)
        ensures
            r@ == tickers_order_token(*self),
    {
        match self {
            TickersOrder::TrustScoreAsc => "trust_score_asc",
            TickersOrder::TrustScoreDesc => "trust_score_desc",
            TickersOrder::VolumeDesc => "volume_desc",
        }
    }
}

/// The day counts the candlestick endpoint accepts.
#[derive(Clone, Copy, Debug, PartialEq, Eq, Structural)]
pub enum OhlcDays {
    OneDay,
    SevenDays,
    FourteenDays,
    ThirtyDays,
    NinetyDays,
    OneHundredEightyDays,
    ThreeHundredSixtyFiveDays,
}

pub open spec fn ohlc_days_token(d: OhlcDays) -> Seq<char> {
    match d {
        OhlcDays::OneDay => "1"@,
        OhlcDays::SevenDays => "7"@,
        OhlcDays::FourteenDays => "14"@,
        OhlcDays::ThirtyDays => "30"@,
        OhlcDays::NinetyDays => "90"@,
        OhlcDays::OneHundredEightyDays => "180"@,
        OhlcDays::ThreeHundredSixtyFiveDays => "365"@,
    }
}

impl OhlcDays {
    pub fn token(&self) -> (r: &'static str)
        ensures
            r@ == ohlc_days_token(*self),
    {
        match self {
            OhlcDays::OneDay => "1",
            OhlcDays::SevenDays => "7",
            OhlcDays::FourteenDays => "14",
            OhlcDays::ThirtyDays => "30",
            OhlcDays::NinetyDays => "90",
            OhlcDays::OneHundredEightyDays => "180",
            OhlcDays::ThreeHundredSixtyFiveDays => "365",
        }
    }
}

/// Whether derivative listings include expired tickers.
#[derive(Clone, Copy, Debug, PartialEq, Eq, Structural)]
pub enum DerivativesIncludeTickers {
    All,
    Unexpired,
}

/// The wire token for a ticker-inclusion choice; an absent choice defaults
/// to `unexpired`.
pub open spec fn include_tickers_token(o: Option<DerivativesIncludeTickers>) -> Seq<char> {
    match o {
        Some(DerivativesIncludeTickers::All) => "all"@,
        Some(DerivativesIncludeTickers::Unexpired) => "unexpired"@,
        None => "unexpired"@,
    }
}

/// Renders an optional ticker-inclusion choice, defaulting to `unexpired`.
pub fn include_tickers_str(o: Option<DerivativesIncludeTickers>) -> (r: &'static str)
    ensures
        r@ == include_tickers_token(o),
{
    match o {
        Some(DerivativesIncludeTickers::All) => "all",
        Some(DerivativesIncludeTickers::Unexpired) => "unexpired",
        None => "unexpired",
    }
}

/// Sort order for the derivative exchange listing.
#[derive(Clone, Copy, Debug, PartialEq, Eq, Structural)]
pub enum DerivativeExchangeOrder {
    NameAsc,
    NameDesc,
    OpenInterestBtcAsc,
    OpenInterestBtcDesc,
    TradeVolume24hBtcAsc,
    TradeVolume24hBtcDesc,
}

pub open spec fn derivative_exchange_order_token(o: DerivativeExchangeOrder) -> Seq<char> {
    match o {
        DerivativeExchangeOrder::NameAsc => "name_asc"@,
        DerivativeExchangeOrder::NameDesc => "name_desc"@,
        DerivativeExchangeOrder::OpenInterestBtcAsc => "open_interest_btc_asc"@,
        DerivativeExchangeOrder::OpenInterestBtcDesc => "open_interest_btc_desc"@,
        DerivativeExchangeOrder::TradeVolume24hBtcAsc => "trade_volume_24h_btc_asc"@,
        DerivativeExchangeOrder::TradeVolume24hBtcDesc => "trade_volume_24h_btc_desc"@,
    }
}

impl DerivativeExchangeOrder {
    pub fn token(&self) -> (r: &'static str)
        ensures
            r@ == derivative_exchange_order_token(*self),
    {
        match self {
            DerivativeExchangeOrder::NameAsc => "name_asc",
            DerivativeExchangeOrder::NameDesc => "name_desc",
            DerivativeExchangeOrder::OpenInterestBtcAsc => "open_interest_btc_asc",
            DerivativeExchangeOrder::OpenInterestBtcDesc => "open_interest_btc_desc",
            DerivativeExchangeOrder::TradeVolume24hBtcAsc => "trade_volume_24h_btc_asc",
            DerivativeExchangeOrder::TradeVolume24hBtcDesc => "trade_volume_24h_btc_desc",
        }
    }
}

/// The coins whose public-company treasury holdings can be queried.
#[derive(Clone, Copy, Debug, PartialEq, Eq, Structural)]
pub enum CompaniesCoinId {
    Bitcoin,
    Ethereum,
}

pub open spec fn companies_path(c: CompaniesCoinId) -> Seq<char> {
    match c {
        CompaniesCoinId::Bitcoin => "/companies/public_treasury/bitcoin"@,
        CompaniesCoinId::Ethereum => "/companies/public_treasury/ethereum"@,
    }
}

impl CompaniesCoinId {
    pub fn path(&self) -> (r: &'static str)
        ensures
            r@ == companies_path(*self),
    {
        match self {
            CompaniesCoinId::Bitcoin => "/companies/public_treasury/bitcoin",
            CompaniesCoinId::Ethereum => "/companies/public_treasury/ethereum",
        }
    }
}

/// Rendering a parameter variant to its wire token is a pure mapping with
/// no hidden state: equal variants always yield the same token, on every
/// call and in any call order.
pub proof fn lemma_tokens_stable()
    ensures
        forall|a: MarketsOrder, b: MarketsOrder|
            a == b ==> markets_order_token(a) == markets_order_token(b),
        forall|a: PriceChangePercentage, b: PriceChangePercentage|
            a == b ==> price_change_percentage_token(a) == price_change_percentage_token(b),
        forall|a: TickersOrder, b: TickersOrder|
            a == b ==> tickers_order_token(a) == tickers_order_token(b),
        forall|a: OhlcDays, b: OhlcDays| a == b ==> ohlc_days_token(a) == ohlc_days_token(b),
        forall|a: Option<DerivativesIncludeTickers>, b: Option<DerivativesIncludeTickers>|
            a == b ==> include_tickers_token(a) == include_tickers_token(b),
        forall|a: DerivativeExchangeOrder, b: DerivativeExchangeOrder|
            a == b ==> derivative_exchange_order_token(a) == derivative_exchange_order_token(b),
        forall|a: CompaniesCoinId, b: CompaniesCoinId|
            a == b ==> companies_path(a) == companies_path(b),
{
}
proof fn lemma_markets_order_tokens_injective(a: MarketsOrder, b: MarketsOrder)
    requires
        markets_order_token(a) == markets_order_token(b),
    ensures
        a == b,
{
    reveal_strlit("market_cap_desc");
    reveal_strlit("market_cap_asc");
    reveal_strlit("gecko_desc");
    reveal_strlit("gecko_asc");
    reveal_strlit("volume_desc");
    reveal_strlit("volume_asc");
    reveal_strlit("id_desc");
    reveal_strlit("id_asc");
    assert("market_cap_desc"@.len() == 15);
    assert("market_cap_asc"@.len() == 14);
    assert("gecko_desc"@.len() == 10);
    assert("gecko_asc"@.len() == 9);
    assert("volume_desc"@.len() == 11);
    assert("volume_asc"@.len() == 10);
    assert("id_desc"@.len() == 7);
    assert("id_asc"@.len() == 6);
    assert("gecko_desc"@[0] != "volume_asc"@[0]);
    match a {
        MarketsOrder::MarketCapDesc => assert(markets_order_token(a) == "market_cap_desc"@),
        MarketsOrder::MarketCapAsc => assert(markets_order_token(a) == "market_cap_asc"@),
        MarketsOrder::GeckoDesc => assert(markets_order_token(a) == "gecko_desc"@),
        MarketsOrder::GeckoAsc => assert(markets_order_token(a) == "gecko_asc"@),
        MarketsOrder::VolumeDesc => assert(markets_order_token(a) == "volume_desc"@),
        MarketsOrder::VolumeAsc => assert(markets_order_token(a) == "volume_asc"@),
        MarketsOrder::IdDesc => assert(markets_order_token(a) == "id_desc"@),
        MarketsOrder::IdAsc => assert(markets_order_token(a) == "id_asc"@),
    }
    match b {
        MarketsOrder::MarketCapDesc => assert(markets_order_token(b) == "market_cap_desc"@),
        MarketsOrder::MarketCapAsc => assert(markets_order_token(b) == "market_cap_asc"@),
        MarketsOrder::GeckoDesc => assert(markets_order_token(b) == "gecko_desc"@),
        MarketsOrder::GeckoAsc => assert(markets_order_token(b) == "gecko_asc"@),
        MarketsOrder::VolumeDesc => assert(markets_order_token(b) == "volume_desc"@),
        MarketsOrder::VolumeAsc => assert(markets_order_token(b) == "volume_asc"@),
        MarketsOrder::IdDesc => assert(markets_order_token(b) == "id_desc"@),
        MarketsOrder::IdAsc => assert(markets_order_token(b) == "id_asc"@),
    }
}

proof fn lemma_price_change_percentage_tokens_injective(a: PriceChangePercentage, b: PriceChangePercentage)
    requires
        price_change_percentage_token(a) == price_change_percentage_token(b),
    ensures
        a == b,
{
    reveal_strlit("1h");
    reveal_strlit("24h");
    reveal_strlit("7d");
    reveal_strlit("14d");
    reveal_strlit("30d");
    reveal_strlit("200d");
    reveal_strlit("1y");
    assert("1h"@.len() == 2);
    assert("24h"@.len() == 3);
    assert("7d"@.len() == 2);
    assert("14d"@.len() == 3);
    assert("30d"@.len() == 3);
    assert("200d"@.len() == 4);
    assert("1y"@.len() == 2);
    assert("1h"@[0] != "7d"@[0]);
    assert("1h"@[1] != "1y"@[1]);
    assert("24h"@[0] != "14d"@[0]);
    assert("24h"@[0] != "30d"@[0]);
    assert("7d"@[0] != "1y"@[0]);
    assert("14d"@[0] != "30d"@[0]);
    match a {
        PriceChangePercentage::OneHour => assert(price_change_percentage_token(a) == "1h"@),
        PriceChangePercentage::TwentyFourHours => assert(price_change_percentage_token(a) == "24h"@),
        PriceChangePercentage::SevenDays => assert(price_change_percentage_token(a) == "7d"@),
        PriceChangePercentage::FourteenDays => assert(price_change_percentage_token(a) == "14d"@),
        PriceChangePercentage::ThirtyDays => assert(price_change_percentage_token(a) == "30d"@),
        PriceChangePercentage::TwoHundredDays => assert(price_change_percentage_token(a) == "200d"@),
        PriceChangePercentage::OneYear => assert(price_change_percentage_token(a) == "1y"@),
    }
    match b {
        PriceChangePercentage::OneHour => assert(price_change_percentage_token(b) == "1h"@),
        PriceChangePercentage::TwentyFourHours => assert(price_change_percentage_token(b) == "24h"@),
        PriceChangePercentage::SevenDays => assert(price_change_percentage_token(b) == "7d"@),
        PriceChangePercentage::FourteenDays => assert(price_change_percentage_token(b) == "14d"@),
        PriceChangePercentage::ThirtyDays => assert(price_change_percentage_token(b) == "30d"@),
        PriceChangePercentage::TwoHundredDays => assert(price_change_percentage_token(b) == "200d"@),
        PriceChangePercentage::OneYear => assert(price_change_percentage_token(b) == "1y"@),
    }
}

proof fn lemma_tickers_order_tokens_injective(a: TickersOrder, b: TickersOrder)
    requires
        tickers_order_token(a) == tickers_order_token(b),
    ensures
        a == b,
{
    reveal_strlit("trust_score_asc");
    reveal_strlit("trust_score_desc");
    reveal_strlit("volume_desc");
    assert("trust_score_asc"@.len() == 15);
    assert("trust_score_desc"@.len() == 16);
    assert("volume_desc"@.len() == 11);
    match a {
        TickersOrder::TrustScoreAsc => assert(tickers_order_token(a) == "trust_score_asc"@),
        TickersOrder::TrustScoreDesc => assert(tickers_order_token(a) == "trust_score_desc"@),
        TickersOrder::VolumeDesc => assert(tickers_order_token(a) == "volume_desc"@),
    }
    match b {
        TickersOrder::TrustScoreAsc => assert(tickers_order_token(b) == "trust_score_asc"@),
        TickersOrder::TrustScoreDesc => assert(tickers_order_token(b) == "trust_score_desc"@),
        TickersOrder::VolumeDesc => assert(tickers_order_token(b) == "volume_desc"@),
    }
}

proof fn lemma_ohlc_days_tokens_injective(a: OhlcDays, b: OhlcDays)
    requires
        ohlc_days_token(a) == ohlc_days_token(b),
    ensures
        a == b,
{
    reveal_strlit("1");
    reveal_strlit("7");
    reveal_strlit("14");
    reveal_strlit("30");
    reveal_strlit("90");
    reveal_strlit("180");
    reveal_strlit("365");
    assert("1"@.len() == 1);
    assert("7"@.len() == 1);
    assert("14"@.len() == 2);
    assert("30"@.len() == 2);
    assert("90"@.len() == 2);
    assert("180"@.len() == 3);
    assert("365"@.len() == 3);
    assert("1"@[0] != "7"@[0]);
    assert("14"@[0] != "30"@[0]);
    assert("14"@[0] != "90"@[0]);
    assert("30"@[0] != "90"@[0]);
    assert("180"@[0] != "365"@[0]);
    match a {
        OhlcDays::OneDay => assert(ohlc_days_token(a) == "1"@),
        OhlcDays::SevenDays => assert(ohlc_days_token(a) == "7"@),
        OhlcDays::FourteenDays => assert(ohlc_days_token(a) == "14"@),
        OhlcDays::ThirtyDays => assert(ohlc_days_token(a) == "30"@),
        OhlcDays::NinetyDays => assert(ohlc_days_token(a) == "90"@),
        OhlcDays::OneHundredEightyDays => assert(ohlc_days_token(a) == "180"@),
        OhlcDays::ThreeHundredSixtyFiveDays => assert(ohlc_days_token(a) == "365"@),
    }
    match b {
        OhlcDays::OneDay => assert(ohlc_days_token(b) == "1"@),
        OhlcDays::SevenDays => assert(ohlc_days_token(b) == "7"@),
        OhlcDays::FourteenDays => assert(ohlc_days_token(b) == "14"@),
        OhlcDays::ThirtyDays => assert(ohlc_days_token(b) == "30"@),
        OhlcDays::NinetyDays => assert(ohlc_days_token(b) == "90"@),
        OhlcDays::OneHundredEightyDays => assert(ohlc_days_token(b) == "180"@),
        OhlcDays::ThreeHundredSixtyFiveDays => assert(ohlc_days_token(b) == "365"@),
    }
}

proof fn lemma_derivative_exchange_order_tokens_injective(a: DerivativeExchangeOrder, b: DerivativeExchangeOrder)
    requires
        derivative_exchange_order_token(a) == derivative_exchange_order_token(b),
    ensures
        a == b,
{
    reveal_strlit("name_asc");
    reveal_strlit("name_desc");
    reveal_strlit("open_interest_btc_asc");
    reveal_strlit("open_interest_btc_desc");
    reveal_strlit("trade_volume_24h_btc_asc");
    reveal_strlit("trade_volume_24h_btc_desc");
    assert("name_asc"@.len() == 8);
    assert("name_desc"@.len() == 9);
    assert("open_interest_btc_asc"@.len() == 21);
    assert("open_interest_btc_desc"@.len() == 22);
    assert("trade_volume_24h_btc_asc"@.len() == 24);
    assert("trade_volume_24h_btc_desc"@.len() == 25);
    match a {
        DerivativeExchangeOrder::NameAsc => assert(derivative_exchange_order_token(a) == "name_asc"@),
        DerivativeExchangeOrder::NameDesc => assert(derivative_exchange_order_token(a) == "name_desc"@),
        DerivativeExchangeOrder::OpenInterestBtcAsc => assert(derivative_exchange_order_token(a) == "open_interest_btc_asc"@),
        DerivativeExchangeOrder::OpenInterestBtcDesc => assert(derivative_exchange_order_token(a) == "open_interest_btc_desc"@),
        DerivativeExchangeOrder::TradeVolume24hBtcAsc => assert(derivative_exchange_order_token(a) == "trade_volume_24h_btc_asc"@),
        DerivativeExchangeOrder::TradeVolume24hBtcDesc => assert(derivative_exchange_order_token(a) == "trade_volume_24h_btc_desc"@),
    }
    match b {
        DerivativeExchangeOrder::NameAsc => assert(derivative_exchange_order_token(b) == "name_asc"@),
        DerivativeExchangeOrder::NameDesc => assert(derivative_exchange_order_token(b) == "name_desc"@),
        DerivativeExchangeOrder::OpenInterestBtcAsc => assert(derivative_exchange_order_token(b) == "open_interest_btc_asc"@),
        DerivativeExchangeOrder::OpenInterestBtcDesc => assert(derivative_exchange_order_token(b) == "open_interest_btc_desc"@),
        DerivativeExchangeOrder::TradeVolume24hBtcAsc => assert(derivative_exchange_order_token(b) == "trade_volume_24h_btc_asc"@),
        DerivativeExchangeOrder::TradeVolume24hBtcDesc => assert(derivative_exchange_order_token(b) == "trade_volume_24h_btc_desc"@),
    }
}

proof fn lemma_companies_coin_id_tokens_injective(a: CompaniesCoinId, b: CompaniesCoinId)
    requires
        companies_path(a) == companies_path(b),
    ensures
        a == b,
{
    reveal_strlit("/companies/public_treasury/bitcoin");
    reveal_strlit("/companies/public_treasury/ethereum");
    assert("/companies/public_treasury/bitcoin"@.len() == 34);
    assert("/companies/public_treasury/ethereum"@.len() == 35);
    match a {
        CompaniesCoinId::Bitcoin => assert(companies_path(a) == "/companies/public_treasury/bitcoin"@),
        CompaniesCoinId::Ethereum => assert(companies_path(a) == "/companies/public_treasury/ethereum"@),
    }
    match b {
        CompaniesCoinId::Bitcoin => assert(companies_path(b) == "/companies/public_treasury/bitcoin"@),
        CompaniesCoinId::Ethereum => assert(companies_path(b) == "/companies/public_treasury/ethereum"@),
    }
}

/// Each enumerated parameter maps its variants to pairwise distinct
/// tokens, so a token identifies the variant it came from. The one
/// deliberate exception: an absent ticker-inclusion choice shares the
/// token of the explicit `unexpired` choice, which is its default.
pub proof fn lemma_tokens_injective()
    ensures
        forall|a: MarketsOrder, b: MarketsOrder|
            #[trigger] markets_order_token(a) == #[trigger] markets_order_token(b) ==> a == b,
        forall|a: PriceChangePercentage, b: PriceChangePercentage|
            #[trigger] price_change_percentage_token(a) == #[trigger] price_change_percentage_token(
                b,
            ) ==> a == b,
        forall|a: TickersOrder, b: TickersOrder|
            #[trigger] tickers_order_token(a) == #[trigger] tickers_order_token(b) ==> a == b,
        forall|a: OhlcDays, b: OhlcDays|
            #[trigger] ohlc_days_token(a) == #[trigger] ohlc_days_token(b) ==> a == b,
        include_tickers_token(Some(DerivativesIncludeTickers::All)) != include_tickers_token(
            Some(DerivativesIncludeTickers::Unexpired),
        ),
        include_tickers_token(None) == include_tickers_token(
            Some(DerivativesIncludeTickers::Unexpired),
        ),
        forall|a: DerivativeExchangeOrder, b: DerivativeExchangeOrder|
            #[trigger] derivative_exchange_order_token(a)
                == #[trigger] derivative_exchange_order_token(b) ==> a == b,
        forall|a: CompaniesCoinId, b: CompaniesCoinId|
            #[trigger] companies_path(a) == #[trigger] companies_path(b) ==> a == b,
{
    assert forall|a: MarketsOrder, b: MarketsOrder|
        #[trigger] markets_order_token(a) == #[trigger] markets_order_token(b) implies a == b by {
        lemma_markets_order_tokens_injective(a, b);
    }
    assert forall|a: PriceChangePercentage, b: PriceChangePercentage|
        #[trigger] price_change_percentage_token(a) == #[trigger] price_change_percentage_token(b)
        implies a == b by {
        lemma_price_change_percentage_tokens_injective(a, b);
    }
    assert forall|a: TickersOrder, b: TickersOrder|
        #[trigger] tickers_order_token(a) == #[trigger] tickers_order_token(b) implies a == b by {
        lemma_tickers_order_tokens_injective(a, b);
    }
    assert forall|a: OhlcDays, b: OhlcDays|
        #[trigger] ohlc_days_token(a) == #[trigger] ohlc_days_token(b) implies a == b by {
        lemma_ohlc_days_tokens_injective(a, b);
    }
    assert(include_tickers_token(Some(DerivativesIncludeTickers::All)) != include_tickers_token(
        Some(DerivativesIncludeTickers::Unexpired),
    )) by {
        reveal_strlit("all");
        reveal_strlit("unexpired");
        assert("all"@.len() == 3);
        assert("unexpired"@.len() == 9);
    }
    assert forall|a: DerivativeExchangeOrder, b: DerivativeExchangeOrder|
        #[trigger] derivative_exchange_order_token(a) == #[trigger] derivative_exchange_order_token(
        b,
    ) implies a == b by {
        lemma_derivative_exchange_order_tokens_injective(a, b);
    }
    assert forall|a: CompaniesCoinId, b: CompaniesCoinId|
        #[trigger] companies_path(a) == #[trigger] companies_path(b) implies a == b by {
        lemma_companies_coin_id_tokens_injective(a, b);
    }
}

} // verus!
