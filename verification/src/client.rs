//! The client: an immutable host and optional API key, a URL builder that
//! injects the key parameter, and one request-URL constructor per endpoint
//! of the remote API, each verified against an exact statement of the
//! query string it produces.

use vstd::prelude::*;

use crate::dates::{dmy_token, epoch_seconds, ymd_token, Date, DateTime};
use crate::params::{
    companies_path, derivative_exchange_order_token, include_tickers_str, include_tickers_token,
    markets_order_token, ohlc_days_token, price_change_tokens, price_change_tokens_of,
    CompaniesCoinId, DerivativeExchangeOrder, DerivativesIncludeTickers, MarketsOrder, OhlcDays,
    PriceChangePercentage,
};
use crate::query::{
    bool_str, bool_token, dec_int, fmt_i64, join_with, opt_fragment, opt_str_view, sep_join,
    str_views,
};

verus! {

/// The abstract value of a client: its host and optional key, as
/// character sequences.
pub struct ClientView {
    pub host: Seq<char>,
    pub api_key: Option<Seq<char>>,
}

/// A client for the remote market-data API: a base host URL plus an
/// optional API key, immutable after construction.
pub struct CoinGeckoClient {
    host: String,
    api_key: Option<String>,
}

impl View for CoinGeckoClient {
    type V = ClientView;

    closed spec fn view(&self) -> ClientView {
        ClientView {
            host: self.host@,
            api_key: match self.api_key {
                Some(k) => Some(k@),
                None => None,
            },
        }
    }
}

/// The URL for a request: host, then endpoint path, then the query
/// segment. A configured API key is carried as the `x_cg_pro_api_key`
/// query parameter: appended with `&` to a present query string, forming
/// the whole query string with `?` otherwise.
pub open spec fn url_of(c: ClientView, endpoint: Seq<char>, params: Option<Seq<char>>) -> Seq<
    char,
> {
    match (params, c.api_key) {
        (Some(p), Some(k)) => c.host + endpoint + p + "&x_cg_pro_api_key="@ + k,
        (Some(p), None) => c.host + endpoint + p,
        (None, Some(k)) => c.host + endpoint + "?x_cg_pro_api_key="@ + k,
        (None, None) => c.host + endpoint,
    }
}

/// The URL builder's four cases: with a key and a query string the key
/// parameter is appended exactly once with `&`; with a key and no query
/// string it forms the whole query segment with `?`; without a key the
/// query segment is the input unchanged, or empty.
pub proof fn lemma_url_builder_cases(c: ClientView, endpoint: Seq<char>, params: Option<Seq<char>>)
    ensures
        (params is Some && c.api_key is Some) ==> url_of(c, endpoint, params) == c.host + endpoint
            + params->Some_0 + "&x_cg_pro_api_key="@ + c.api_key->Some_0,
        (params is Some && c.api_key is None) ==> url_of(c, endpoint, params) == c.host + endpoint
            + params->Some_0,
        (params is None && c.api_key is Some) ==> url_of(c, endpoint, params) == c.host + endpoint
            + "?x_cg_pro_api_key="@ + c.api_key->Some_0,
        (params is None && c.api_key is None) ==> url_of(c, endpoint, params) == c.host + endpoint,
{
}

impl Default for CoinGeckoClient {
    /// A client for the public production host, without an API key.
    fn default() -> (c: Self)
        ensures
            c@.host == "https://api.coingecko.com/api/v3"@,
            c@.api_key is None,
    {
        CoinGeckoClient::new("https://api.coingecko.com/api/v3".to_owned())
    }
}

impl CoinGeckoClient {
    /// A client with a custom host URL and no API key.
    pub fn new(host: String) -> (c: CoinGeckoClient)
        ensures
            c@.host == host@,
            c@.api_key is None,
    {
        CoinGeckoClient { host, api_key: None }
    }

    /// A client with a custom host URL and an API key.
    pub fn new_with_key(host: String, api_key: String) -> (c: CoinGeckoClient)
        ensures
            c@.host == host@,
            c@.api_key == Some(api_key@),
    {
        CoinGeckoClient { host, api_key: Some(api_key) }
    }

    /// The URL for the given endpoint and optional query string. The
    /// endpoint must start with `/` and a query string with `?`; the
    /// pieces are combined as `url_of` states, with the API key appended
    /// when one is configured.
    pub fn get_url(&self, endpoint: &str, params: Option<&str>) -> (r: String)
        ensures
            r@ == url_of(self@, endpoint@, opt_str_view(params)),
    {
        let mut url = self.host.clone();
        url.append(endpoint);
        match params {
            Some(p) => {
                url.append(p);
                match &self.api_key {
                    Some(k) => {
                        url.append("&x_cg_pro_api_key=");
                        url.append(k.as_str());
                    },
                    None => {},
                }
            },
            None => {
                match &self.api_key {
                    Some(k) => {
                        url.append("?x_cg_pro_api_key=");
                        url.append(k.as_str());
                    },
                    None => {},
                }
            },
        }
        url
    }

    /// The URL that checks API server status.
    pub fn ping_url(&self) -> (r: String)
        ensures
            r@ == url_of(self@, "/ping"@, None),
    {
        self.get_url("/ping", None)
    }

    /// The URL for current prices of the given coins in the given
    /// currencies, with the four optional data flags.
    pub fn price_url(
        &self,
        ids: &Vec<String>,
        vs_currencies: &Vec<String>,
        include_market_cap: bool,
        include_24hr_vol: bool,
        include_24hr_change: bool,
        include_last_updated_at: bool,
    ) -> (r: String)
        ensures
            r@ == url_of(
                self@,
                "/simple/price"@,
                Some(
                    "?ids="@ + sep_join(str_views(ids@), "%2C"@) + "&vs_currencies="@ + sep_join(
                        str_views(vs_currencies@),
                        "%2C"@,
                    ) + "&include_market_cap="@ + bool_token(include_market_cap)
                        + "&include_24hr_vol="@ + bool_token(include_24hr_vol)
                        + "&include_24hr_change="@ + bool_token(include_24hr_change)
                        + "&include_last_updated_at="@ + bool_token(include_last_updated_at),
                ),
            ),
    {
        let mut q = "?ids=".to_owned();
        q.append(join_with(ids, "%2C").as_str());
        q.append("&vs_currencies=");
        q.append(join_with(vs_currencies, "%2C").as_str());
        q.append("&include_market_cap=");
        q.append(bool_str(include_market_cap));
        q.append("&include_24hr_vol=");
        q.append(bool_str(include_24hr_vol));
        q.append("&include_24hr_change=");
        q.append(bool_str(include_24hr_change));
        q.append("&include_last_updated_at=");
        q.append(bool_str(include_last_updated_at));
        self.get_url("/simple/price", Some(q.as_str()))
    }

    /// The URL for current token prices by contract address on the given
    /// platform, with the four optional data flags.
    pub fn token_price_url(
        &self,
        id: &str,
        contract_addresses: &Vec<String>,
        vs_currencies: &Vec<String>,
        include_market_cap: bool,
        include_24hr_vol: bool,
        include_24hr_change: bool,
        include_last_updated_at: bool,
    ) -> (r: String)
        ensures
            r@ == url_of(
                self@,
                "/simple/token_price/"@ + id@,
                Some(
                    "?contract_addresses="@ + sep_join(str_views(contract_addresses@), "%2C"@)
                        + "&vs_currencies="@ + sep_join(str_views(vs_currencies@), "%2C"@)
                        + "&include_market_cap="@ + bool_token(include_market_cap)
                        + "&include_24hr_vol="@ + bool_token(include_24hr_vol)
                        + "&include_24hr_change="@ + bool_token(include_24hr_change)
                        + "&include_last_updated_at="@ + bool_token(include_last_updated_at),
                ),
            ),
    {
        let mut ep = "/simple/token_price/".to_owned();
        ep.append(id);
        let mut q = "?contract_addresses=".to_owned();
        q.append(join_with(contract_addresses, "%2C").as_str());
        q.append("&vs_currencies=");
        q.append(join_with(vs_currencies, "%2C").as_str());
        q.append("&include_market_cap=");
        q.append(bool_str(include_market_cap));
        q.append("&include_24hr_vol=");
        q.append(bool_str(include_24hr_vol));
        q.append("&include_24hr_change=");
        q.append(bool_str(include_24hr_change));
        q.append("&include_last_updated_at=");
        q.append(bool_str(include_last_updated_at));
        self.get_url(ep.as_str(), Some(q.as_str()))
    }

    /// The URL that lists the supported quote currencies.
    pub fn supported_vs_currencies_url(&self) -> (r: String)
        ensures
            r@ == url_of(self@, "/simple/supported_vs_currencies"@, None),
    {
        self.get_url("/simple/supported_vs_currencies", None)
    }

    /// The URL that lists all supported coins.
    pub fn coins_list_url(&self, include_platform: bool) -> (r: String)
        ensures
            r@ == url_of(
                self@,
                "/coins/list"@,
                Some("?include_platform="@ + bool_token(include_platform)),
            ),
    {
        let mut q = "?include_platform=".to_owned();
        q.append(bool_str(include_platform));
        self.get_url("/coins/list", Some(q.as_str()))
    }

    /// The URL for the market listing: price, market cap and volume for
    /// the given coins in one quote currency, sorted, paginated, with the
    /// chosen price-change windows; the category filter appears only when
    /// present.
    pub fn coins_markets_url(
        &self,
        vs_currency: &str,
        ids: &Vec<String>,
        category: Option<&str>,
        order: MarketsOrder,
        per_page: i64,
        page: i64,
        sparkline: bool,
        price_change_percentage: &Vec<PriceChangePercentage>,
    ) -> (r: String)
        ensures
            r@ == url_of(
                self@,
                "/coins/markets"@,
                Some(
                    "?vs_currency="@ + vs_currency@ + "&ids="@ + sep_join(
                        str_views(ids@),
                        "%2C"@,
                    ) + opt_fragment("&category="@, opt_str_view(category)) + "&order="@
                        + markets_order_token(order) + "&per_page="@ + dec_int(per_page as int)
                        + "&page="@ + dec_int(page as int) + "&sparkline="@ + bool_token(sparkline)
                        + "&price_change_percentage="@ + sep_join(
                        price_change_tokens_of(price_change_percentage@),
                        "%2C"@,
                    ),
                ),
            ),
    {
        let mut q = "?vs_currency=".to_owned();
        q.append(vs_currency);
        q.append("&ids=");
        q.append(join_with(ids, "%2C").as_str());
        let ghost q0 = q@;
        match category {
            Some(c) => {
                q.append("&category=");
                q.append(c);
            },
            None => {},
        }
        proof {
            assert(q@ =~= q0 + opt_fragment("&category="@, opt_str_view(category)));
        }
        q.append("&order=");
        q.append(order.token());
        q.append("&per_page=");
        q.append(fmt_i64(per_page).as_str());
        q.append("&page=");
        q.append(fmt_i64(page).as_str());
        q.append("&sparkline=");
        q.append(bool_str(sparkline));
        q.append("&price_change_percentage=");
        q.append(join_with(&price_change_tokens(price_change_percentage), "%2C").as_str());
        self.get_url("/coins/markets", Some(q.as_str()))
    }

    /// The URL for the full current data of one coin, with the six
    /// optional section flags.
    pub fn coin_url(
        &self,
        id: &str,
        localization: bool,
        tickers: bool,
        market_data: bool,
        community_data: bool,
        developer_data: bool,
        sparkline: bool,
    ) -> (r: String)
        ensures
            r@ == url_of(
                self@,
                "/coins/"@ + id@,
                Some(
                    "?localization="@ + bool_token(localization) + "&tickers="@ + bool_token(
                        tickers,
                    ) + "&market_data="@ + bool_token(market_data) + "&community_data="@
                        + bool_token(community_data) + "&developer_data="@ + bool_token(
                        developer_data,
                    ) + "&sparkline="@ + bool_token(sparkline),
                ),
            ),
    {
        let mut ep = "/coins/".to_owned();
        ep.append(id);
        let mut q = "?localization=".to_owned();
        q.append(bool_str(localization));
        q.append("&tickers=");
        q.append(bool_str(tickers));
        q.append("&market_data=");
        q.append(bool_str(market_data));
        q.append("&community_data=");
        q.append(bool_str(community_data));
        q.append("&developer_data=");
        q.append(bool_str(developer_data));
        q.append("&sparkline=");
        q.append(bool_str(sparkline));
        self.get_url(ep.as_str(), Some(q.as_str()))
    }

    /// The URL for the paginated tickers of one coin; the exchange filter
    /// appears, first, only when present.
    pub fn coin_tickers_url(
        &self,
        id: &str,
        exchange_ids: Option<&Vec<String>>,
        include_exchange_logo: bool,
        page: i64,
        order: crate::params::TickersOrder,
        depth: bool,
    ) -> (r: String)
        ensures
            exchange_ids is Some ==> r@ == url_of(
                self@,
                "/coins/"@ + id@ + "/tickers"@,
                Some(
                    "?exchange_ids="@ + sep_join(str_views(exchange_ids->Some_0@), "%2C"@)
                        + "&include_exchange_logo="@ + bool_token(include_exchange_logo)
                        + "&page="@ + dec_int(page as int) + "&order="@
                        + crate::params::tickers_order_token(order) + "&depth="@ + bool_token(
                        depth,
                    ),
                ),
            ),
            exchange_ids is None ==> r@ == url_of(
                self@,
                "/coins/"@ + id@ + "/tickers"@,
                Some(
                    "?include_exchange_logo="@ + bool_token(include_exchange_logo) + "&page="@
                        + dec_int(page as int) + "&order="@ + crate::params::tickers_order_token(
                        order,
                    ) + "&depth="@ + bool_token(depth),
                ),
            ),
    {
        let mut ep = "/coins/".to_owned();
        ep.append(id);
        ep.append("/tickers");
        let mut q = match exchange_ids {
            Some(e_ids) => {
                let mut q = "?exchange_ids=".to_owned();
                q.append(join_with(e_ids, "%2C").as_str());
                q.append("&include_exchange_logo=");
                q
            },
            None => "?include_exchange_logo=".to_owned(),
        };
        q.append(bool_str(include_exchange_logo));
        q.append("&page=");
        q.append(fmt_i64(page).as_str());
        q.append("&order=");
        q.append(order.token());
        q.append("&depth=");
        q.append(bool_str(depth));
        self.get_url(ep.as_str(), Some(q.as_str()))
    }

    /// The URL for one coin's data at a given date; the date is encoded
    /// as `DD-MM-YYYY`.
    pub fn coin_history_url(&self, id: &str, date: Date, localization: bool) -> (r: String)
        requires
            date.wf(),
        ensures
            r@ == url_of(
                self@,
                "/coins/"@ + id@ + "/history"@,
                Some("?date="@ + dmy_token(date) + "&localization="@ + bool_token(localization)),
            ),
    {
        let mut ep = "/coins/".to_owned();
        ep.append(id);
        ep.append("/history");
        let mut q = "?date=".to_owned();
        q.append(date.format_dmy().as_str());
        q.append("&localization=");
        q.append(bool_str(localization));
        self.get_url(ep.as_str(), Some(q.as_str()))
    }

    /// The URL for one coin's market chart over the given number of days.
    pub fn coin_market_chart_url(
        &self,
        id: &str,
        vs_currency: &str,
        days: i64,
        use_daily_interval: bool,
    ) -> (r: String)
        ensures
            use_daily_interval ==> r@ == url_of(
                self@,
                "/coins/"@ + id@ + "/market_chart"@,
                Some("?vs_currency="@ + vs_currency@ + "&days="@ + dec_int(days as int)),
            ),
            !use_daily_interval ==> r@ == url_of(
                self@,
                "/coins/"@ + id@ + "/market_chart"@,
                Some(
                    "?vs_currency="@ + vs_currency@ + "&days="@ + dec_int(days as int)
                        + "&interval=daily"@,
                ),
            ),
    {
        let mut ep = "/coins/".to_owned();
        ep.append(id);
        ep.append("/market_chart");
        let mut q = "?vs_currency=".to_owned();
        q.append(vs_currency);
        q.append("&days=");
        q.append(fmt_i64(days).as_str());
        if !use_daily_interval {
            q.append("&interval=daily");
        }
        self.get_url(ep.as_str(), Some(q.as_str()))
    }

    /// The URL for one coin's market chart between two moments, encoded
    /// as epoch seconds.
    pub fn coin_market_chart_range_url(
        &self,
        id: &str,
        vs_currency: &str,
        from: DateTime,
        to: DateTime,
    ) -> (r: String)
        requires
            from.wf(),
            to.wf(),
        ensures
            r@ == url_of(
                self@,
                "/coins/"@ + id@ + "/market_chart/range"@,
                Some(
                    "?vs_currency="@ + vs_currency@ + "&from="@ + dec_int(epoch_seconds(from))
                        + "&to="@ + dec_int(epoch_seconds(to)),
                ),
            ),
    {
        let mut ep = "/coins/".to_owned();
        ep.append(id);
        ep.append("/market_chart/range");
        let mut q = "?vs_currency=".to_owned();
        q.append(vs_currency);
        q.append("&from=");
        q.append(fmt_i64(from.unix_timestamp()).as_str());
        q.append("&to=");
        q.append(fmt_i64(to.unix_timestamp()).as_str());
        self.get_url(ep.as_str(), Some(q.as_str()))
    }

    /// The URL for one coin's candlestick data over an allowed day count.
    pub fn coin_ohlc_url(&self, id: &str, vs_currency: &str, days: OhlcDays) -> (r: String)
        ensures
            r@ == url_of(
                self@,
                "/coins/"@ + id@ + "/ohlc"@,
                Some("?vs_currency="@ + vs_currency@ + "&days="@ + ohlc_days_token(days)),
            ),
    {
        let mut ep = "/coins/".to_owned();
        ep.append(id);
        ep.append("/ohlc");
        let mut q = "?vs_currency=".to_owned();
        q.append(vs_currency);
        q.append("&days=");
        q.append(days.token());
        self.get_url(ep.as_str(), Some(q.as_str()))
    }

    /// The URL for the coin behind a contract address on a platform.
    pub fn contract_url(&self, id: &str, contract_address: &str) -> (r: String)
        ensures
            r@ == url_of(self@, "/coins/"@ + id@ + "/contract/"@ + contract_address@, None),
    {
        let mut ep = "/coins/".to_owned();
        ep.append(id);
        ep.append("/contract/");
        ep.append(contract_address);
        self.get_url(ep.as_str(), None)
    }

    /// The URL for the market chart of the token behind a contract
    /// address, over the given number of days.
    pub fn contract_market_chart_url(
        &self,
        id: &str,
        contract_address: &str,
        vs_currency: &str,
        days: i64,
    ) -> (r: String)
        ensures
            r@ == url_of(
                self@,
                "/coins/"@ + id@ + "/contract/"@ + contract_address@ + "/market_chart/"@,
                Some("?vs_currency="@ + vs_currency@ + "&days="@ + dec_int(days as int)),
            ),
    {
        let mut ep = "/coins/".to_owned();
        ep.append(id);
        ep.append("/contract/");
        ep.append(contract_address);
        ep.append("/market_chart/");
        let mut q = "?vs_currency=".to_owned();
        q.append(vs_currency);
        q.append("&days=");
        q.append(fmt_i64(days).as_str());
        self.get_url(ep.as_str(), Some(q.as_str()))
    }

    /// The URL for the market chart of the token behind a contract
    /// address between two moments, encoded as epoch seconds.
    pub fn contract_market_chart_range_url(
        &self,
        id: &str,
        contract_address: &str,
        vs_currency: &str,
        from: DateTime,
        to: DateTime,
    ) -> (r: String)
        requires
            from.wf(),
            to.wf(),
        ensures
            r@ == url_of(
                self@,
                "/coins/"@ + id@ + "/contract/"@ + contract_address@ + "/market_chart/range"@,
                Some(
                    "?vs_currency="@ + vs_currency@ + "&from="@ + dec_int(epoch_seconds(from))
                        + "&to="@ + dec_int(epoch_seconds(to)),
                ),
            ),
    {
        let mut ep = "/coins/".to_owned();
        ep.append(id);
        ep.append("/contract/");
        ep.append(contract_address);
        ep.append("/market_chart/range");
        let mut q = "?vs_currency=".to_owned();
        q.append(vs_currency);
        q.append("&from=");
        q.append(fmt_i64(from.unix_timestamp()).as_str());
        q.append("&to=");
        q.append(fmt_i64(to.unix_timestamp()).as_str());
        self.get_url(ep.as_str(), Some(q.as_str()))
    }

    /// The URL that lists all asset platforms.
    pub fn asset_platforms_url(&self) -> (r: String)
        ensures
            r@ == url_of(self@, "/asset_platforms"@, None),
    {
        self.get_url("/asset_platforms", None)
    }

    /// The URL that lists all coin categories.
    pub fn categories_list_url(&self) -> (r: String)
        ensures
            r@ == url_of(self@, "/coins/categories/list"@, None),
    {
        self.get_url("/coins/categories/list", None)
    }

    /// The URL that lists all coin categories with market data.
    pub fn categories_url(&self) -> (r: String)
        ensures
            r@ == url_of(self@, "/coins/categories"@, None),
    {
        self.get_url("/coins/categories", None)
    }

    /// The URL for the paginated exchange listing.
    pub fn exchanges_url(&self, per_page: i64, page: i64) -> (r: String)
        ensures
            r@ == url_of(
                self@,
                "/exchanges"@,
                Some("?per_page="@ + dec_int(per_page as int) + "&page="@ + dec_int(page as int)),
            ),
    {
        let mut q = "?per_page=".to_owned();
        q.append(fmt_i64(per_page).as_str());
        q.append("&page=");
        q.append(fmt_i64(page).as_str());
        self.get_url("/exchanges", Some(q.as_str()))
    }

    /// The URL that lists all supported exchange ids and names.
    pub fn exchanges_list_url(&self) -> (r: String)
        ensures
            r@ == url_of(self@, "/exchanges/list"@, None),
    {
        self.get_url("/exchanges/list", None)
    }

    /// The URL for one exchange's volume and top tickers.
    pub fn exchange_url(&self, id: &str) -> (r: String)
        ensures
            r@ == url_of(self@, "/exchanges/"@ + id@, None),
    {
        let mut ep = "/exchanges/".to_owned();
        ep.append(id);
        self.get_url(ep.as_str(), None)
    }

    /// The URL for one exchange's paginated tickers; the coin filter
    /// appears, first, only when present.
    pub fn exchange_tickers_url(
        &self,
        id: &str,
        coin_ids: Option<&Vec<String>>,
        include_exchange_logo: bool,
        page: i64,
        order: crate::params::TickersOrder,
        depth: bool,
    ) -> (r: String)
        ensures
            coin_ids is Some ==> r@ == url_of(
                self@,
                "/exchanges/"@ + id@ + "/tickers"@,
                Some(
                    "?coin_ids="@ + sep_join(str_views(coin_ids->Some_0@), "%2C"@)
                        + "&include_exchange_logo="@ + bool_token(include_exchange_logo)
                        + "&page="@ + dec_int(page as int) + "&order="@
                        + crate::params::tickers_order_token(order) + "&depth="@ + bool_token(
                        depth,
                    ),
                ),
            ),
            coin_ids is None ==> r@ == url_of(
                self@,
                "/exchanges/"@ + id@ + "/tickers"@,
                Some(
                    "?include_exchange_logo="@ + bool_token(include_exchange_logo) + "&page="@
                        + dec_int(page as int) + "&order="@ + crate::params::tickers_order_token(
                        order,
                    ) + "&depth="@ + bool_token(depth),
                ),
            ),
    {
        let mut ep = "/exchanges/".to_owned();
        ep.append(id);
        ep.append("/tickers");
        let mut q = match coin_ids {
            Some(c_ids) => {
                let mut q = "?coin_ids=".to_owned();
                q.append(join_with(c_ids, "%2C").as_str());
                q.append("&include_exchange_logo=");
                q
            },
            None => "?include_exchange_logo=".to_owned(),
        };
        q.append(bool_str(include_exchange_logo));
        q.append("&page=");
        q.append(fmt_i64(page).as_str());
        q.append("&order=");
        q.append(order.token());
        q.append("&depth=");
        q.append(bool_str(depth));
        self.get_url(ep.as_str(), Some(q.as_str()))
    }

    /// The URL for one exchange's paginated status updates.
    pub fn exchange_status_updates_url(&self, id: &str, per_page: i64, page: i64) -> (r: String)
        ensures
            r@ == url_of(
                self@,
                "/exchanges/"@ + id@ + "/status_updates"@,
                Some("?per_page="@ + dec_int(per_page as int) + "&page="@ + dec_int(page as int)),
            ),
    {
        let mut ep = "/exchanges/".to_owned();
        ep.append(id);
        ep.append("/status_updates");
        let mut q = "?per_page=".to_owned();
        q.append(fmt_i64(per_page).as_str());
        q.append("&page=");
        q.append(fmt_i64(page).as_str());
        self.get_url(ep.as_str(), Some(q.as_str()))
    }

    /// The URL for one exchange's volume chart over the given number of
    /// days.
    pub fn exchange_volume_chart_url(&self, id: &str, days: i64) -> (r: String)
        ensures
            r@ == url_of(
                self@,
                "/exchanges/"@ + id@ + "/volume_chart"@,
                Some("?days="@ + dec_int(days as int)),
            ),
    {
        let mut ep = "/exchanges/".to_owned();
        ep.append(id);
        ep.append("/volume_chart");
        let mut q = "?days=".to_owned();
        q.append(fmt_i64(days).as_str());
        self.get_url(ep.as_str(), Some(q.as_str()))
    }

    /// The URL for the paginated finance platform listing.
    pub fn finance_platforms_url(&self, per_page: i64, page: i64) -> (r: String)
        ensures
            r@ == url_of(
                self@,
                "/finance_platforms"@,
                Some("?per_page="@ + dec_int(per_page as int) + "&page="@ + dec_int(page as int)),
            ),
    {
        let mut q = "?per_page=".to_owned();
        q.append(fmt_i64(per_page).as_str());
        q.append("&page=");
        q.append(fmt_i64(page).as_str());
        self.get_url("/finance_platforms", Some(q.as_str()))
    }

    /// The URL for the paginated finance product listing.
    pub fn finance_products_url(&self, per_page: i64, page: i64) -> (r: String)
        ensures
            r@ == url_of(
                self@,
                "/finance_products"@,
                Some("?per_page="@ + dec_int(per_page as int) + "&page="@ + dec_int(page as int)),
            ),
    {
        let mut q = "?per_page=".to_owned();
        q.append(fmt_i64(per_page).as_str());
        q.append("&page=");
        q.append(fmt_i64(page).as_str());
        self.get_url("/finance_products", Some(q.as_str()))
    }

    /// The URL for the paginated market index listing.
    pub fn indexes_url(&self, per_page: i64, page: i64) -> (r: String)
        ensures
            r@ == url_of(
                self@,
                "/indexes"@,
                Some("?per_page="@ + dec_int(per_page as int) + "&page="@ + dec_int(page as int)),
            ),
    {
        let mut q = "?per_page=".to_owned();
        q.append(fmt_i64(per_page).as_str());
        q.append("&page=");
        q.append(fmt_i64(page).as_str());
        self.get_url("/indexes", Some(q.as_str()))
    }

    /// The URL for one market index by market id and index id.
    pub fn indexes_market_id_url(&self, market_id: &str, id: &str) -> (r: String)
        ensures
            r@ == url_of(self@, "/indexes/"@ + market_id@ + "/"@ + id@, None),
    {
        let mut ep = "/indexes/".to_owned();
        ep.append(market_id);
        ep.append("/");
        ep.append(id);
        self.get_url(ep.as_str(), None)
    }

    /// The URL that lists market index ids and names.
    pub fn indexes_list_url(&self) -> (r: String)
        ensures
            r@ == url_of(self@, "/indexes/list"@, None),
    {
        self.get_url("/indexes/list", None)
    }

    /// The URL for the derivative ticker listing; an absent
    /// ticker-inclusion choice defaults to `unexpired`.
    pub fn derivatives_url(&self, include_tickers: Option<DerivativesIncludeTickers>) -> (r:
        String)
        ensures
            r@ == url_of(
                self@,
                "/derivatives"@,
                Some("?include_tickers="@ + include_tickers_token(include_tickers)),
            ),
    {
        let mut q = "?include_tickers=".to_owned();
        q.append(include_tickers_str(include_tickers));
        self.get_url("/derivatives", Some(q.as_str()))
    }

    /// The URL for the sorted, paginated derivative exchange listing.
    pub fn derivative_exchanges_url(
        &self,
        order: DerivativeExchangeOrder,
        per_page: i64,
        page: i64,
    ) -> (r: String)
        ensures
            r@ == url_of(
                self@,
                "/derivatives/exchanges"@,
                Some(
                    "?order="@ + derivative_exchange_order_token(order) + "&per_page="@ + dec_int(
                        per_page as int,
                    ) + "&page="@ + dec_int(page as int),
                ),
            ),
    {
        let mut q = "?order=".to_owned();
        q.append(order.token());
        q.append("&per_page=");
        q.append(fmt_i64(per_page).as_str());
        q.append("&page=");
        q.append(fmt_i64(page).as_str());
        self.get_url("/derivatives/exchanges", Some(q.as_str()))
    }

    /// The URL for one derivative exchange; an absent ticker-inclusion
    /// choice defaults to `unexpired`.
    pub fn derivatives_exchange_url(
        &self,
        id: &str,
        include_tickers: Option<DerivativesIncludeTickers>,
    ) -> (r: String)
        ensures
            r@ == url_of(
                self@,
                "/derivatives/exchanges/"@ + id@,
                Some("?include_tickers="@ + include_tickers_token(include_tickers)),
            ),
    {
        let mut ep = "/derivatives/exchanges/".to_owned();
        ep.append(id);
        let mut q = "?include_tickers=".to_owned();
        q.append(include_tickers_str(include_tickers));
        self.get_url(ep.as_str(), Some(q.as_str()))
    }

    /// The URL that lists derivative exchange names and identifiers.
    pub fn derivative_exchanges_list_url(&self) -> (r: String)
        ensures
            r@ == url_of(self@, "/derivatives/exchanges/list"@, None),
    {
        self.get_url("/derivatives/exchanges/list", None)
    }

    /// The URL for the paginated status-update listing; the category and
    /// project-type filters appear only when present, and the page sizes
    /// are carried as bare values.
    pub fn status_updates_url(
        &self,
        category: Option<&str>,
        project_type: Option<&str>,
        per_page: i64,
        page: i64,
    ) -> (r: String)
        ensures
            r@ == url_of(
                self@,
                "/status_updates"@,
                Some(
                    "?"@ + sep_join(
                        status_update_parts(
                            opt_str_view(category),
                            opt_str_view(project_type),
                            per_page as int,
                            page as int,
                        ),
                        "&"@,
                    ),
                ),
            ),
    {
        let mut parts: Vec<String> = Vec::new();
        match category {
            Some(c) => {
                let mut s = "category=".to_owned();
                s.append(c);
                parts.push(s);
            },
            None => {},
        }
        match project_type {
            Some(t) => {
                let mut s = "project_type=".to_owned();
                s.append(t);
                parts.push(s);
            },
            None => {},
        }
        parts.push(fmt_i64(per_page));
        parts.push(fmt_i64(page));
        proof {
            assert(str_views(parts@) =~= status_update_parts(
                opt_str_view(category),
                opt_str_view(project_type),
                per_page as int,
                page as int,
            ));
        }
        let mut q = "?".to_owned();
        q.append(join_with(&parts, "&").as_str());
        self.get_url("/status_updates", Some(q.as_str()))
    }

    /// The URL for the paginated event listing over a date range; the
    /// country and type filters appear only when present, and the range
    /// bounds are encoded as `YYYY-MM-DD`.
    pub fn events_url(
        &self,
        country_code: Option<&str>,
        event_type: Option<&str>,
        page: i64,
        upcoming_events_only: bool,
        from_date: Date,
        to_date: Date,
    ) -> (r: String)
        requires
            from_date.wf(),
            to_date.wf(),
        ensures
            r@ == url_of(
                self@,
                "/events"@,
                Some(
                    "?"@ + sep_join(
                        event_filter_parts(opt_str_view(country_code), opt_str_view(event_type)),
                        "&"@,
                    ) + "&page="@ + dec_int(page as int) + "&upcoming_events_only="@ + bool_token(
                        upcoming_events_only,
                    ) + "&from_date="@ + ymd_token(from_date) + "&to_date="@ + ymd_token(to_date),
                ),
            ),
    {
        let mut parts: Vec<String> = Vec::new();
        match country_code {
            Some(c) => {
                let mut s = "country_code=".to_owned();
                s.append(c);
                parts.push(s);
            },
            None => {},
        }
        match event_type {
            Some(t) => {
                let mut s = "type=".to_owned();
                s.append(t);
                parts.push(s);
            },
            None => {},
        }
        proof {
            assert(str_views(parts@) =~= event_filter_parts(
                opt_str_view(country_code),
                opt_str_view(event_type),
            ));
        }
        let mut q = "?".to_owned();
        q.append(join_with(&parts, "&").as_str());
        q.append("&page=");
        q.append(fmt_i64(page).as_str());
        q.append("&upcoming_events_only=");
        q.append(bool_str(upcoming_events_only));
        q.append("&from_date=");
        q.append(from_date.format_ymd().as_str());
        q.append("&to_date=");
        q.append(to_date.format_ymd().as_str());
        self.get_url("/events", Some(q.as_str()))
    }

    /// The URL that lists event countries.
    pub fn event_countries_url(&self) -> (r: String)
        ensures
            r@ == url_of(self@, "/events/countries"@, None),
    {
        self.get_url("/events/countries", None)
    }

    /// The URL that lists event types.
    pub fn event_types_url(&self) -> (r: String)
        ensures
            r@ == url_of(self@, "/events/types"@, None),
    {
        self.get_url("/events/types", None)
    }

    /// The URL for BTC-to-currency exchange rates.
    pub fn exchange_rates_url(&self) -> (r: String)
        ensures
            r@ == url_of(self@, "/exchange_rates"@, None),
    {
        self.get_url("/exchange_rates", None)
    }

    /// The URL for the trending-coin listing.
    pub fn trending_url(&self) -> (r: String)
        ensures
            r@ == url_of(self@, "/search/trending"@, None),
    {
        self.get_url("/search/trending", None)
    }

    /// The URL for global market data.
    pub fn global_url(&self) -> (r: String)
        ensures
            r@ == url_of(self@, "/global"@, None),
    {
        self.get_url("/global", None)
    }

    /// The URL for global decentralized-finance data.
    pub fn global_defi_url(&self) -> (r: String)
        ensures
            r@ == url_of(self@, "/global/decentralized_finance_defi"@, None),
    {
        self.get_url("/global/decentralized_finance_defi", None)
    }

    /// The URL for public-company treasury holdings of the given coin.
    pub fn companies_url(&self, coin_id: CompaniesCoinId) -> (r: String)
        ensures
            r@ == url_of(self@, companies_path(coin_id), None),
    {
        self.get_url(coin_id.path(), None)
    }
}

/// The query-string pieces of the status-update listing, in order: the
/// two filters when present, then the two page sizes as bare values.
pub open spec fn status_update_parts(
    category: Option<Seq<char>>,
    project_type: Option<Seq<char>>,
    per_page: int,
    page: int,
) -> Seq<Seq<char>> {
    (match category {
        Some(c) => seq!["category="@ + c],
        None => Seq::empty(),
    }) + (match project_type {
        Some(t) => seq!["project_type="@ + t],
        None => Seq::empty(),
    }) + seq![dec_int(per_page), dec_int(page)]
}

/// The leading filter pieces of the event listing: the country and type
/// filters, each present only when given.
pub open spec fn event_filter_parts(
    country_code: Option<Seq<char>>,
    event_type: Option<Seq<char>>,
) -> Seq<Seq<char>> {
    (match country_code {
        Some(c) => seq!["country_code="@ + c],
        None => Seq::empty(),
    }) + (match event_type {
        Some(t) => seq!["type="@ + t],
        None => Seq::empty(),
    })
}

} // verus!
