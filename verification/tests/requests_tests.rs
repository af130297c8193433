use buenotea::endpoints::{
    all_latest_sentiment_url, alpha_vantage_url, bearer_token, finnhub_company_news_url,
    finnhub_revenue_estimates_url, fmp_regime_history_url, fmp_rsi_url, fmp_sp500_url, fmp_symbol_url,
    fundamentals_id_url, latest_market_regime_url, latest_sentiment_url, latest_timing_url,
    sentiment_probe_url, supabase_filtered_url, supabase_query_url, supabase_rpc_url, supabase_table_url,
    AlphaVantageFunction, FmpEndpoint, PREFER_MERGE_DUPLICATES, PREFER_REPRESENTATION,
};
use buenotea::fetcher::{listed_positions, symbol_batches};

const BASE: &str = "https://db.example.co";

#[test]
fn supabase_urls() {
    assert_eq!(supabase_table_url(BASE, "timing_history"), "https://db.example.co/rest/v1/timing_history");
    assert_eq!(supabase_query_url(BASE, "fundamentals", None), "https://db.example.co/rest/v1/fundamentals");
    assert_eq!(
        supabase_query_url(BASE, "fundamentals", Some("symbol=eq.AAPL")),
        "https://db.example.co/rest/v1/fundamentals?symbol=eq.AAPL"
    );
    assert_eq!(supabase_filtered_url(BASE, "timing", "id=eq.3"), "https://db.example.co/rest/v1/timing?id=eq.3");
    assert_eq!(
        supabase_rpc_url(BASE, "get_timing_history"),
        "https://db.example.co/rest/v1/rpc/get_timing_history"
    );
    assert_eq!(bearer_token("k"), "Bearer k");
    assert_eq!(PREFER_REPRESENTATION, "return=representation");
    assert_eq!(PREFER_MERGE_DUPLICATES, "return=representation,resolution=merge-duplicates");
}

#[test]
fn view_urls() {
    assert_eq!(latest_timing_url(BASE, "AAPL"), "https://db.example.co/rest/v1/timing?symbol=eq.AAPL&select=*");
    assert_eq!(latest_sentiment_url(BASE, "MSFT"), "https://db.example.co/rest/v1/sentiment?symbol=eq.MSFT");
    assert_eq!(all_latest_sentiment_url(BASE), "https://db.example.co/rest/v1/sentiment?select=*");
    assert_eq!(sentiment_probe_url(BASE), "https://db.example.co/rest/v1/sentiment?limit=1");
    assert_eq!(latest_market_regime_url(BASE), "https://db.example.co/rest/v1/market_regime?select=*&limit=1");
    assert_eq!(fundamentals_id_url(BASE, 42), "https://db.example.co/rest/v1/fundamentals?id=eq.42");
    assert_eq!(fundamentals_id_url(BASE, -7), "https://db.example.co/rest/v1/fundamentals?id=eq.-7");
    assert_eq!(
        fundamentals_id_url(BASE, i64::MIN),
        "https://db.example.co/rest/v1/fundamentals?id=eq.-9223372036854775808"
    );
}

#[test]
fn market_data_urls() {
    assert_eq!(
        fmp_symbol_url(FmpEndpoint::HistoricalPriceFull, "AAPL", "KEY"),
        "https://financialmodelingprep.com/api/v3/historical-price-full/AAPL?apikey=KEY"
    );
    assert_eq!(
        fmp_symbol_url(FmpEndpoint::AnalystStockRecommendations, "IBM", "K"),
        "https://financialmodelingprep.com/api/v3/analyst-stock-recommendations/IBM?apikey=K"
    );
    assert_eq!(fmp_sp500_url("K"), "https://financialmodelingprep.com/api/v3/sp500_constituent?apikey=K");
    assert_eq!(
        fmp_rsi_url("AAPL", "K"),
        "https://financialmodelingprep.com/api/v3/technical-indicator/AAPL?period=14&type=rsi&apikey=K"
    );
    assert_eq!(
        fmp_regime_history_url("SPY", "K"),
        "https://financialmodelingprep.com/api/v3/historical-price-full/SPY?apikey=K&limit=250"
    );
    assert_eq!(
        alpha_vantage_url(AlphaVantageFunction::TimeSeriesDaily, "AAPL", "K"),
        "https://www.alphavantage.co/query?function=TIME_SERIES_DAILY&symbol=AAPL&apikey=K&outputsize=full"
    );
    assert_eq!(
        alpha_vantage_url(AlphaVantageFunction::EarningsEstimates, "AAPL", "K"),
        "https://www.alphavantage.co/query?function=EARNINGS_ESTIMATES&symbol=AAPL&apikey=K"
    );
    assert_eq!(
        finnhub_revenue_estimates_url("AAPL", "T"),
        "https://finnhub.io/api/v1/company-revenue-estimates?symbol=AAPL&token=T"
    );
    assert_eq!(
        finnhub_company_news_url("AAPL", "2024-01-01", "2024-01-08", "T"),
        "https://finnhub.io/api/v1/company-news?symbol=AAPL&from=2024-01-01&to=2024-01-08&token=T"
    );
}

#[test]
fn batches_of_five() {
    assert_eq!(symbol_batches(0), vec![]);
    assert_eq!(symbol_batches(3), vec![(0, 3)]);
    assert_eq!(symbol_batches(5), vec![(0, 5)]);
    assert_eq!(symbol_batches(12), vec![(0, 5), (5, 10), (10, 12)]);
    for n in 0..40usize {
        let b = symbol_batches(n);
        let mut next = 0;
        for (s, e) in &b {
            assert_eq!(*s, next);
            assert!(e > s && e - s <= 5);
            next = *e;
        }
        assert_eq!(next, n);
    }
}

#[test]
fn listed_positions_skip_empty_symbols() {
    let symbols: Vec<String> = vec!["AAPL".into(), "".into(), "MSFT".into(), "".into()];
    assert_eq!(listed_positions(&symbols), vec![0, 2]);
    assert_eq!(listed_positions(&vec![]), Vec::<usize>::new());
}
