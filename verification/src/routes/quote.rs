use vstd::prelude::*;
use vstd::string::StringExecFns;
use crate::request::Method;
use crate::request::Request;

verus! {

/// One instrument's entry in the answer to a chart query.
#[derive(Debug, Clone, PartialEq, Eq)]
pub struct Quote {
    ticker_id: usize,
    timezone: String,
    pre_close: String,
}

impl Quote {
    /// The instrument's number.
    pub closed spec fn spec_ticker_id(&self) -> usize {
        self.ticker_id
    }

    /// The time zone of the instrument's exchange.
    pub closed spec fn spec_timezone(&self) -> Seq<char> {
        self.timezone@
    }

    /// The previous closing price, as the remote side writes it.
    pub closed spec fn spec_pre_close(&self) -> Seq<char> {
        self.pre_close@
    }

    /// A quote with the given fields.
    pub fn new(ticker_id: usize, timezone: String, pre_close: String) -> (quote: Quote)
        ensures
            quote.spec_ticker_id() == ticker_id,
            quote.spec_timezone() == timezone@,
            quote.spec_pre_close() == pre_close@,
    {
        Quote { ticker_id, timezone, pre_close }
    }

    /// The instrument's number.
    #[verifier::when_used_as_spec(spec_ticker_id)]
    pub fn ticker_id(&self) -> (id: usize)
        ensures
            id == self.spec_ticker_id(),
    {
        self.ticker_id
    }

    /// The time zone of the instrument's exchange.
    pub fn timezone(&self) -> (zone: &str)
        ensures
            zone@ == self.spec_timezone(),
    {
        self.timezone.as_str()
    }

    /// The previous closing price, as the remote side writes it.
    pub fn pre_close(&self) -> (price: &str)
        ensures
            price@ == self.spec_pre_close(),
    {
        self.pre_close.as_str()
    }
}

/// The address of the chart query for the given instruments and period.
pub open spec fn chart_quote_target(ticker_ids: Seq<char>, period: Seq<char>) -> Seq<char> {
    "https://quotes-gw.webullfintech.com/api/quote/charts/query?tickerIds="@ + ticker_ids
        + "&period="@ + period
}

/// The request that asks for the chart quotes of the given instruments
/// over the given period.
pub fn chart_quote_request(ticker_ids: &str, period: &str) -> (request: Request)
    ensures
        request.spec_method() == Method::Get,
        request.spec_url() == chart_quote_target(ticker_ids@, period@),
        request.spec_version() is None,
        request.spec_query() is None,
{
    let mut url = String::from_str(
        "https://quotes-gw.webullfintech.com/api/quote/charts/query?tickerIds=",
    );
    url.append(ticker_ids);
    url.append("&period=");
    url.append(period);
    Request::new(Method::Get, url)
}

} // verus!
