use coingecko::dates::{Date, DateTime};
use coingecko::CoinGeckoClient;
use coingecko::params::{
    CompaniesCoinId, DerivativeExchangeOrder, DerivativesIncludeTickers, MarketsOrder, OhlcDays,
    PriceChangePercentage, TickersOrder,
};

fn client() -> CoinGeckoClient {
    CoinGeckoClient::new(String::from("https://h"))
}

fn date(y: u16, m: u8, d: u8) -> Date {
    Date::from_ymd(y, m, d).unwrap()
}

fn datetime(y: u16, mo: u8, d: u8, h: u8, mi: u8, s: u8) -> DateTime {
    DateTime::new(date(y, mo, d), h, mi, s).unwrap()
}

#[test]
fn get_url_key_and_query() {
    let c = CoinGeckoClient::new_with_key(String::from("https://h"), String::from("abc"));
    assert_eq!(
        c.get_url("/x", Some("?a=1")),
        "https://h/x?a=1&x_cg_pro_api_key=abc"
    );
}

#[test]
fn get_url_key_no_query() {
    let c = CoinGeckoClient::new_with_key(String::from("https://h"), String::from("abc"));
    assert_eq!(c.get_url("/x", None), "https://h/x?x_cg_pro_api_key=abc");
}

#[test]
fn get_url_no_key_query_unchanged() {
    let c = client();
    assert_eq!(c.get_url("/x", Some("?a=1")), "https://h/x?a=1");
}

#[test]
fn get_url_no_key_no_query() {
    let c = client();
    assert_eq!(c.get_url("/x", None), "https://h/x");
}

#[test]
fn ping_url_with_key() {
    let c = CoinGeckoClient::new_with_key(String::from("https://h"), String::from("abc"));
    assert_eq!(c.ping_url(), "https://h/ping?x_cg_pro_api_key=abc");
}

#[test]
fn price_url_end_to_end() {
    let c = client();
    let ids = vec![String::from("bitcoin")];
    let vs = vec![String::from("usd")];
    assert_eq!(
        c.price_url(&ids, &vs, true, false, false, false),
        "https://h/simple/price?ids=bitcoin&vs_currencies=usd&include_market_cap=true&include_24hr_vol=false&include_24hr_change=false&include_last_updated_at=false"
    );
}

#[test]
fn price_url_joins_lists_with_encoded_comma() {
    let c = client();
    let ids = vec![String::from("bitcoin"), String::from("ethereum")];
    let vs = vec![String::from("usd"), String::from("eur")];
    let url = c.price_url(&ids, &vs, true, true, true, true);
    assert_eq!(
        url,
        "https://h/simple/price?ids=bitcoin%2Cethereum&vs_currencies=usd%2Ceur&include_market_cap=true&include_24hr_vol=true&include_24hr_change=true&include_last_updated_at=true"
    );
    assert!(!url.contains(','));
}

#[test]
fn token_price_url_shape() {
    let c = client();
    let addrs = vec![String::from("0x1f9840a85d5af5bf1d1762f925bdaddc4201f984")];
    let vs = vec![String::from("usd")];
    assert_eq!(
        c.token_price_url("ethereum", &addrs, &vs, true, true, true, true),
        "https://h/simple/token_price/ethereum?contract_addresses=0x1f9840a85d5af5bf1d1762f925bdaddc4201f984&vs_currencies=usd&include_market_cap=true&include_24hr_vol=true&include_24hr_change=true&include_last_updated_at=true"
    );
}

#[test]
fn supported_vs_currencies_url_shape() {
    assert_eq!(
        client().supported_vs_currencies_url(),
        "https://h/simple/supported_vs_currencies"
    );
}

#[test]
fn coins_list_url_shape() {
    assert_eq!(
        client().coins_list_url(true),
        "https://h/coins/list?include_platform=true"
    );
}

#[test]
fn coins_markets_url_with_category() {
    let c = client();
    let ids = vec![String::from("bitcoin")];
    let pcp = vec![
        PriceChangePercentage::OneHour,
        PriceChangePercentage::OneYear,
    ];
    assert_eq!(
        c.coins_markets_url("usd", &ids, Some("layer-1"), MarketsOrder::GeckoDesc, 10, 1, false, &pcp),
        "https://h/coins/markets?vs_currency=usd&ids=bitcoin&category=layer-1&order=gecko_desc&per_page=10&page=1&sparkline=false&price_change_percentage=1h%2C1y"
    );
}

#[test]
fn coins_markets_url_omits_absent_category() {
    let c = client();
    let ids = vec![String::from("bitcoin")];
    let pcp = vec![PriceChangePercentage::TwentyFourHours];
    let url = c.coins_markets_url(
        "usd",
        &ids,
        None,
        MarketsOrder::MarketCapDesc,
        1,
        0,
        true,
        &pcp,
    );
    assert_eq!(
        url,
        "https://h/coins/markets?vs_currency=usd&ids=bitcoin&order=market_cap_desc&per_page=1&page=0&sparkline=true&price_change_percentage=24h"
    );
    assert!(!url.contains("category"));
}

#[test]
fn coin_url_shape() {
    assert_eq!(
        client().coin_url("bitcoin", true, true, true, true, true, false),
        "https://h/coins/bitcoin?localization=true&tickers=true&market_data=true&community_data=true&developer_data=true&sparkline=false"
    );
}

#[test]
fn coin_tickers_url_with_exchanges() {
    let c = client();
    let exchanges = vec![String::from("binance"), String::from("gdax")];
    assert_eq!(
        c.coin_tickers_url("bitcoin", Some(&exchanges), true, 1, TickersOrder::VolumeDesc, true),
        "https://h/coins/bitcoin/tickers?exchange_ids=binance%2Cgdax&include_exchange_logo=true&page=1&order=volume_desc&depth=true"
    );
}

#[test]
fn coin_tickers_url_omits_absent_exchanges() {
    let c = client();
    let url = c.coin_tickers_url("bitcoin", None, true, 1, TickersOrder::TrustScoreDesc, false);
    assert_eq!(
        url,
        "https://h/coins/bitcoin/tickers?include_exchange_logo=true&page=1&order=trust_score_desc&depth=false"
    );
    assert!(!url.contains("exchange_ids"));
}

#[test]
fn coin_history_url_encodes_date_day_first() {
    let c = client();
    assert_eq!(
        c.coin_history_url("bitcoin", date(2017, 12, 30), true),
        "https://h/coins/bitcoin/history?date=30-12-2017&localization=true"
    );
}

#[test]
fn coin_history_url_pads_date() {
    let c = client();
    assert_eq!(
        c.coin_history_url("bitcoin", date(980, 1, 5), false),
        "https://h/coins/bitcoin/history?date=05-01-0980&localization=false"
    );
}

#[test]
fn coin_market_chart_url_interval_flag() {
    let c = client();
    assert_eq!(
        c.coin_market_chart_url("bitcoin", "usd", 1, true),
        "https://h/coins/bitcoin/market_chart?vs_currency=usd&days=1"
    );
    assert_eq!(
        c.coin_market_chart_url("bitcoin", "usd", 1, false),
        "https://h/coins/bitcoin/market_chart?vs_currency=usd&days=1&interval=daily"
    );
}

#[test]
fn coin_market_chart_range_url_epoch_seconds() {
    let c = client();
    let from = datetime(2014, 2, 16, 19, 0, 32);
    let to = datetime(2015, 1, 30, 0, 20, 32);
    assert_eq!(
        c.coin_market_chart_range_url("bitcoin", "usd", from, to),
        "https://h/coins/bitcoin/market_chart/range?vs_currency=usd&from=1392577232&to=1422577232"
    );
}

#[test]
fn coin_ohlc_url_seven_days() {
    let c = client();
    assert_eq!(
        c.coin_ohlc_url("bitcoin", "usd", OhlcDays::SevenDays),
        "https://h/coins/bitcoin/ohlc?vs_currency=usd&days=7"
    );
}

#[test]
fn contract_url_shape() {
    assert_eq!(
        client().contract_url("ethereum", "0xabc"),
        "https://h/coins/ethereum/contract/0xabc"
    );
}

#[test]
fn contract_market_chart_url_shape() {
    assert_eq!(
        client().contract_market_chart_url("ethereum", "0xabc", "usd", 7),
        "https://h/coins/ethereum/contract/0xabc/market_chart/?vs_currency=usd&days=7"
    );
}

#[test]
fn contract_market_chart_range_url_shape() {
    let c = client();
    let from = datetime(1970, 1, 1, 0, 0, 0);
    let to = datetime(1970, 1, 2, 0, 0, 0);
    assert_eq!(
        c.contract_market_chart_range_url("ethereum", "0xabc", "usd", from, to),
        "https://h/coins/ethereum/contract/0xabc/market_chart/range?vs_currency=usd&from=0&to=86400"
    );
}

#[test]
fn asset_platforms_url_shape() {
    assert_eq!(client().asset_platforms_url(), "https://h/asset_platforms");
}

#[test]
fn categories_urls_shape() {
    assert_eq!(
        client().categories_list_url(),
        "https://h/coins/categories/list"
    );
    assert_eq!(client().categories_url(), "https://h/coins/categories");
}

#[test]
fn exchanges_url_shape() {
    assert_eq!(
        client().exchanges_url(10, 1),
        "https://h/exchanges?per_page=10&page=1"
    );
}

#[test]
fn exchanges_list_url_shape() {
    assert_eq!(client().exchanges_list_url(), "https://h/exchanges/list");
}

#[test]
fn exchange_url_shape() {
    assert_eq!(client().exchange_url("binance"), "https://h/exchanges/binance");
}

#[test]
fn exchange_tickers_url_with_coins() {
    let c = client();
    let coins = vec![String::from("btc")];
    assert_eq!(
        c.exchange_tickers_url("binance", Some(&coins), true, 1, TickersOrder::TrustScoreAsc, true),
        "https://h/exchanges/binance/tickers?coin_ids=btc&include_exchange_logo=true&page=1&order=trust_score_asc&depth=true"
    );
}

#[test]
fn exchange_tickers_url_omits_absent_coins() {
    let c = client();
    let url = c.exchange_tickers_url("binance", None, false, 2, TickersOrder::VolumeDesc, false);
    assert_eq!(
        url,
        "https://h/exchanges/binance/tickers?include_exchange_logo=false&page=2&order=volume_desc&depth=false"
    );
    assert!(!url.contains("coin_ids"));
}

#[test]
fn exchange_status_updates_url_shape() {
    assert_eq!(
        client().exchange_status_updates_url("binance", 10, 1),
        "https://h/exchanges/binance/status_updates?per_page=10&page=1"
    );
}

#[test]
fn exchange_volume_chart_url_shape() {
    assert_eq!(
        client().exchange_volume_chart_url("binance", 1),
        "https://h/exchanges/binance/volume_chart?days=1"
    );
}

#[test]
fn finance_urls_shape() {
    assert_eq!(
        client().finance_platforms_url(10, 1),
        "https://h/finance_platforms?per_page=10&page=1"
    );
    assert_eq!(
        client().finance_products_url(10, 1),
        "https://h/finance_products?per_page=10&page=1"
    );
}

#[test]
fn indexes_urls_shape() {
    assert_eq!(
        client().indexes_url(10, 1),
        "https://h/indexes?per_page=10&page=1"
    );
    assert_eq!(
        client().indexes_market_id_url("binance_futures", "BTC"),
        "https://h/indexes/binance_futures/BTC"
    );
    assert_eq!(client().indexes_list_url(), "https://h/indexes/list");
}

#[test]
fn derivatives_url_inclusion_modes() {
    let c = client();
    assert_eq!(
        c.derivatives_url(Some(DerivativesIncludeTickers::All)),
        "https://h/derivatives?include_tickers=all"
    );
    assert_eq!(
        c.derivatives_url(Some(DerivativesIncludeTickers::Unexpired)),
        "https://h/derivatives?include_tickers=unexpired"
    );
    assert_eq!(
        c.derivatives_url(None),
        "https://h/derivatives?include_tickers=unexpired"
    );
}

#[test]
fn derivative_exchanges_url_shape() {
    assert_eq!(
        client().derivative_exchanges_url(DerivativeExchangeOrder::NameAsc, 10, 1),
        "https://h/derivatives/exchanges?order=name_asc&per_page=10&page=1"
    );
}

#[test]
fn derivatives_exchange_url_defaults_to_unexpired() {
    assert_eq!(
        client().derivatives_exchange_url("bitmex", None),
        "https://h/derivatives/exchanges/bitmex?include_tickers=unexpired"
    );
}

#[test]
fn derivative_exchanges_list_url_shape() {
    assert_eq!(
        client().derivative_exchanges_list_url(),
        "https://h/derivatives/exchanges/list"
    );
}

#[test]
fn status_updates_url_with_filters() {
    assert_eq!(
        client().status_updates_url(Some("general"), Some("coin"), 10, 1),
        "https://h/status_updates?category=general&project_type=coin&10&1"
    );
}

#[test]
fn status_updates_url_omits_absent_filters() {
    let url = client().status_updates_url(None, None, 10, 1);
    assert_eq!(url, "https://h/status_updates?10&1");
    assert!(!url.contains("category"));
    assert!(!url.contains("project_type"));
}

#[test]
fn events_url_with_filters() {
    let c = client();
    assert_eq!(
        c.events_url(Some("HK"), Some("Event"), 1, true, date(2021, 10, 7), date(2022, 10, 7)),
        "https://h/events?country_code=HK&type=Event&page=1&upcoming_events_only=true&from_date=2021-10-07&to_date=2022-10-07"
    );
}

#[test]
fn events_url_omits_absent_filters() {
    let c = client();
    let url = c.events_url(None, None, 1, false, date(2021, 1, 1), date(2021, 12, 31));
    assert_eq!(
        url,
        "https://h/events?&page=1&upcoming_events_only=false&from_date=2021-01-01&to_date=2021-12-31"
    );
    assert!(!url.contains("country_code"));
    assert!(!url.contains("type="));
}

#[test]
fn event_countries_and_types_hit_distinct_endpoints() {
    let c = client();
    assert_eq!(c.event_countries_url(), "https://h/events/countries");
    assert_eq!(c.event_types_url(), "https://h/events/types");
    assert_ne!(c.event_countries_url(), c.event_types_url());
}

#[test]
fn misc_urls_shape() {
    assert_eq!(client().exchange_rates_url(), "https://h/exchange_rates");
    assert_eq!(client().trending_url(), "https://h/search/trending");
    assert_eq!(client().global_url(), "https://h/global");
    assert_eq!(
        client().global_defi_url(),
        "https://h/global/decentralized_finance_defi"
    );
}

#[test]
fn companies_url_per_coin() {
    assert_eq!(
        client().companies_url(CompaniesCoinId::Bitcoin),
        "https://h/companies/public_treasury/bitcoin"
    );
    assert_eq!(
        client().companies_url(CompaniesCoinId::Ethereum),
        "https://h/companies/public_treasury/ethereum"
    );
}
