//! The URLs and header values of the requests the studies make: the
//! Supabase REST API that stores results, and the market-data APIs
//! (Financial Modeling Prep, Alpha Vantage, Finnhub).
use vstd::prelude::*;
use crate::text::{signed_decimal, signed_decimal_string};

verus! {

/// `Prefer` header of inserts that return the stored rows.
pub const PREFER_REPRESENTATION: &'static str = "return=representation";

/// `Prefer` header of upserts that merge duplicates.
pub const PREFER_MERGE_DUPLICATES: &'static str = "return=representation,resolution=merge-duplicates";

/// The chat-completions endpoint of the OpenAI API.
pub const CHAT_COMPLETIONS_URL: &'static str = "https://api.openai.com/v1/chat/completions";

/// `base/rest/v1/table`.
pub open spec fn table_url(base: Seq<char>, table: Seq<char>) -> Seq<char> {
    base + "/rest/v1/"@ + table
}

/// The REST URL of a Supabase table.
pub fn supabase_table_url(base: &str, table: &str) -> (url: String)
    ensures
        url@ == table_url(base@, table@),
{
    let mut url = String::from_str(base);
    url.append("/rest/v1/");
    url.append(table);
    url
}

/// The URL of a query on a table, with its filter as the query string when
/// there is one.
pub fn supabase_query_url(base: &str, table: &str, filter: Option<&str>) -> (url: String)
    ensures
        url@ == match filter {
            Some(f) => table_url(base@, table@) + "?"@ + f@,
            None => table_url(base@, table@),
        },
{
    let mut url = supabase_table_url(base, table);
    if let Some(f) = filter {
        url.append("?");
        url.append(f);
    }
    url
}

/// The URL of an update or delete on the rows of a table that the filter
/// selects.
pub fn supabase_filtered_url(base: &str, table: &str, filter: &str) -> (url: String)
    ensures
        url@ == table_url(base@, table@) + "?"@ + filter@,
{
    supabase_query_url(base, table, Some(filter))
}

/// The URL of a Supabase remote procedure.
pub fn supabase_rpc_url(base: &str, function: &str) -> (url: String)
    ensures
        url@ == base@ + "/rest/v1/rpc/"@ + function@,
{
    let mut url = String::from_str(base);
    url.append("/rest/v1/rpc/");
    url.append(function);
    url
}

/// The `Authorization` header value for an API key.
pub fn bearer_token(api_key: &str) -> (header: String)
    ensures
        header@ == "Bearer "@ + api_key@,
{
    let mut header = String::from_str("Bearer ");
    header.append(api_key);
    header
}

/// The latest timing record of a symbol, from the `timing` view.
pub fn latest_timing_url(base: &str, symbol: &str) -> (url: String)
    ensures
        url@ == table_url(base@, "timing"@) + "?symbol=eq."@ + symbol@ + "&select=*"@,
{
    let mut url = supabase_table_url(base, "timing");
    url.append("?symbol=eq.");
    url.append(symbol);
    url.append("&select=*");
    url
}

/// The latest sentiment record of a symbol, from the `sentiment` view.
pub fn latest_sentiment_url(base: &str, symbol: &str) -> (url: String)
    ensures
        url@ == table_url(base@, "sentiment"@) + "?symbol=eq."@ + symbol@,
{
    let mut url = supabase_table_url(base, "sentiment");
    url.append("?symbol=eq.");
    url.append(symbol);
    url
}

/// All latest sentiment records, from the `sentiment` view.
pub fn all_latest_sentiment_url(base: &str) -> (url: String)
    ensures
        url@ == table_url(base@, "sentiment"@) + "?select=*"@,
{
    let mut url = supabase_table_url(base, "sentiment");
    url.append("?select=*");
    url
}

/// The one-row query that tests the connection to the sentiment view.
pub fn sentiment_probe_url(base: &str) -> (url: String)
    ensures
        url@ == table_url(base@, "sentiment"@) + "?limit=1"@,
{
    let mut url = supabase_table_url(base, "sentiment");
    url.append("?limit=1");
    url
}

/// The latest market regime record, from the `market_regime` view.
pub fn latest_market_regime_url(base: &str) -> (url: String)
    ensures
        url@ == table_url(base@, "market_regime"@) + "?select=*&limit=1"@,
{
    let mut url = supabase_table_url(base, "market_regime");
    url.append("?select=*&limit=1");
    url
}

/// The fundamentals record with the given id.
pub fn fundamentals_id_url(base: &str, id: i64) -> (url: String)
    ensures
        url@ == table_url(base@, "fundamentals"@) + "?id=eq."@ + signed_decimal(id as int),
{
    let mut url = supabase_table_url(base, "fundamentals");
    url.append("?id=eq.");
    let digits = signed_decimal_string(id);
    url.append(digits.as_str());
    url
}

/// The per-symbol endpoints of Financial Modeling Prep that the studies use.
#[derive(PartialEq, Eq, Structural, Clone, Copy, Debug)]
pub enum FmpEndpoint {
    Profile,
    Ratios,
    HistoricalPriceFull,
    AnalystEstimates,
    EarningsSurprises,
    IncomeStatement,
    Quote,
    AnalystStockRecommendations,
}

impl FmpEndpoint {
    pub open spec fn path(self) -> Seq<char> {
        match self {
            FmpEndpoint::Profile => "profile"@,
            FmpEndpoint::Ratios => "ratios"@,
            FmpEndpoint::HistoricalPriceFull => "historical-price-full"@,
            FmpEndpoint::AnalystEstimates => "analyst-estimates"@,
            FmpEndpoint::EarningsSurprises => "earnings-surprises"@,
            FmpEndpoint::IncomeStatement => "income-statement"@,
            FmpEndpoint::Quote => "quote"@,
            FmpEndpoint::AnalystStockRecommendations => "analyst-stock-recommendations"@,
        }
    }

    /// The endpoint's path segment.
    pub fn path_str(&self) -> (p: &'static str)
        ensures
            p@ == self.path(),
    {
        match self {
            FmpEndpoint::Profile => "profile",
            FmpEndpoint::Ratios => "ratios",
            FmpEndpoint::HistoricalPriceFull => "historical-price-full",
            FmpEndpoint::AnalystEstimates => "analyst-estimates",
            FmpEndpoint::EarningsSurprises => "earnings-surprises",
            FmpEndpoint::IncomeStatement => "income-statement",
            FmpEndpoint::Quote => "quote",
            FmpEndpoint::AnalystStockRecommendations => "analyst-stock-recommendations",
        }
    }
}

pub open spec fn fmp_base() -> Seq<char> {
    "https://financialmodelingprep.com/api/v3/"@
}

/// `https://financialmodelingprep.com/api/v3/{endpoint}/{symbol}?apikey={key}`.
pub fn fmp_symbol_url(endpoint: FmpEndpoint, symbol: &str, api_key: &str) -> (url: String)
    ensures
        url@ == fmp_base() + endpoint.path() + "/"@ + symbol@ + "?apikey="@ + api_key@,
{
    let mut url = String::from_str("https://financialmodelingprep.com/api/v3/");
    url.append(endpoint.path_str());
    url.append("/");
    url.append(symbol);
    url.append("?apikey=");
    url.append(api_key);
    url
}

/// The S&P 500 constituents list.
pub fn fmp_sp500_url(api_key: &str) -> (url: String)
    ensures
        url@ == fmp_base() + "sp500_constituent?apikey="@ + api_key@,
{
    let mut url = String::from_str("https://financialmodelingprep.com/api/v3/");
    url.append("sp500_constituent?apikey=");
    url.append(api_key);
    url
}

/// The 14-day RSI of a symbol.
pub fn fmp_rsi_url(symbol: &str, api_key: &str) -> (url: String)
    ensures
        url@ == fmp_base() + "technical-indicator/"@ + symbol@ + "?period=14&type=rsi&apikey="@
            + api_key@,
{
    let mut url = String::from_str("https://financialmodelingprep.com/api/v3/");
    url.append("technical-indicator/");
    url.append(symbol);
    url.append("?period=14&type=rsi&apikey=");
    url.append(api_key);
    url
}

/// The last 250 days of prices that the market regime analysis reads.
pub fn fmp_regime_history_url(symbol: &str, api_key: &str) -> (url: String)
    ensures
        url@ == fmp_base() + FmpEndpoint::HistoricalPriceFull.path() + "/"@ + symbol@ + "?apikey="@
            + api_key@ + "&limit=250"@,
{
    let mut url = fmp_symbol_url(FmpEndpoint::HistoricalPriceFull, symbol, api_key);
    url.append("&limit=250");
    url
}

/// The Alpha Vantage functions that the studies use.
#[derive(PartialEq, Eq, Structural, Clone, Copy, Debug)]
pub enum AlphaVantageFunction {
    TimeSeriesDaily,
    EarningsEstimates,
    Earnings,
    IncomeStatement,
}

impl AlphaVantageFunction {
    pub open spec fn name(self) -> Seq<char> {
        match self {
            AlphaVantageFunction::TimeSeriesDaily => "TIME_SERIES_DAILY"@,
            AlphaVantageFunction::EarningsEstimates => "EARNINGS_ESTIMATES"@,
            AlphaVantageFunction::Earnings => "EARNINGS"@,
            AlphaVantageFunction::IncomeStatement => "INCOME_STATEMENT"@,
        }
    }

    /// The function's name in the query string.
    pub fn name_str(&self) -> (n: &'static str)
        ensures
            n@ == self.name(),
    {
        match self {
            AlphaVantageFunction::TimeSeriesDaily => "TIME_SERIES_DAILY",
            AlphaVantageFunction::EarningsEstimates => "EARNINGS_ESTIMATES",
            AlphaVantageFunction::Earnings => "EARNINGS",
            AlphaVantageFunction::IncomeStatement => "INCOME_STATEMENT",
        }
    }
}

/// `https://www.alphavantage.co/query?function={f}&symbol={s}&apikey={k}`,
/// asking for the full output of the daily time series.
pub fn alpha_vantage_url(function: AlphaVantageFunction, symbol: &str, api_key: &str) -> (url:
    String)
    ensures
        url@ == "https://www.alphavantage.co/query?function="@ + function.name() + "&symbol="@
            + symbol@ + "&apikey="@ + api_key@ + if function == AlphaVantageFunction::TimeSeriesDaily {
            "&outputsize=full"@
        } else {
            Seq::<char>::empty()
        },
{
    let mut url = String::from_str("https://www.alphavantage.co/query?function=");
    url.append(function.name_str());
    url.append("&symbol=");
    url.append(symbol);
    url.append("&apikey=");
    url.append(api_key);
    if function == AlphaVantageFunction::TimeSeriesDaily {
        url.append("&outputsize=full");
    } else {
        assert(url@ =~= url@ + Seq::<char>::empty());
    }
    url
}

/// Finnhub's revenue estimates of a symbol.
pub fn finnhub_revenue_estimates_url(symbol: &str, token: &str) -> (url: String)
    ensures
        url@ == "https://finnhub.io/api/v1/company-revenue-estimates?symbol="@ + symbol@ + "&token="@
            + token@,
{
    let mut url = String::from_str("https://finnhub.io/api/v1/company-revenue-estimates?symbol=");
    url.append(symbol);
    url.append("&token=");
    url.append(token);
    url
}

/// Finnhub's company news of a symbol between two dates (`YYYY-MM-DD`).
pub fn finnhub_company_news_url(symbol: &str, from: &str, to: &str, token: &str) -> (url: String)
    ensures
        url@ == "https://finnhub.io/api/v1/company-news?symbol="@ + symbol@ + "&from="@ + from@
            + "&to="@ + to@ + "&token="@ + token@,
{
    let mut url = String::from_str("https://finnhub.io/api/v1/company-news?symbol=");
    url.append(symbol);
    url.append("&from=");
    url.append(from);
    url.append("&to=");
    url.append(to);
    url.append("&token=");
    url.append(token);
    url
}

} // verus!
