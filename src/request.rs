use vstd::prelude::*;

verus! {

/// The bound in seconds on one exchange with the service, connection and
/// response together.
pub const REQUEST_TIMEOUT_SECS: u64 = 30;

/// The forecast endpoint of the public Open-Meteo service.
pub open spec fn open_meteo_forecast() -> Seq<char> {
    "https://api.open-meteo.com/v1/forecast"@
}

/// The query string after the coordinates: current temperature at two metres,
/// in Celsius, with the time zone resolved by the service.
pub open spec fn fixed_parameters() -> Seq<char> {
    "&current=temperature_2m&temperature_unit=celsius&timezone=auto"@
}

/// The URL of the request for a coordinate pair, given as decimal text.
pub open spec fn request_url(base: Seq<char>, latitude: Seq<char>, longitude: Seq<char>) -> Seq<
    char,
> {
    base + "?latitude="@ + latitude + "&longitude="@ + longitude + fixed_parameters()
}

/// A coordinate pair in decimal degrees, each written as decimal text. The
/// values are sent as they stand: the service decides whether they are valid.
pub struct WeatherQuery {
    pub latitude: String,
    pub longitude: String,
}

impl WeatherQuery {
    pub fn new(latitude: String, longitude: String) -> (r: WeatherQuery)
        ensures
            r.latitude@ == latitude@,
            r.longitude@ == longitude@,
    {
        WeatherQuery { latitude, longitude }
    }
}

/// The address of the forecast service, kept apart so that another one (a
/// local stand-in) can take its place.
pub struct Endpoint {
    pub base_url: String,
}

/// What to send: one GET of `url`, bounded by `timeout_secs`.
pub struct RequestPlan {
    pub url: String,
    pub timeout_secs: u64,
}

impl Endpoint {
    /// The public Open-Meteo forecast endpoint.
    pub fn open_meteo() -> (r: Endpoint)
        ensures
            r.base_url@ == open_meteo_forecast(),
    {
        Endpoint { base_url: String::from_str("https://api.open-meteo.com/v1/forecast") }
    }

    pub fn new(base_url: String) -> (r: Endpoint)
        ensures
            r.base_url@ == base_url@,
    {
        Endpoint { base_url }
    }

    /// The URL that asks this endpoint for the current temperature at `query`.
    pub fn forecast_url(&self, query: &WeatherQuery) -> (r: String)
        ensures
            r@ == request_url(self.base_url@, query.latitude@, query.longitude@),
    {
        let mut url = self.base_url.clone();
        url.append("?latitude=");
        url.append(query.latitude.as_str());
        url.append("&longitude=");
        url.append(query.longitude.as_str());
        url.append("&current=temperature_2m&temperature_unit=celsius&timezone=auto");
        assert(url@ =~= request_url(self.base_url@, query.latitude@, query.longitude@));
        url
    }

    /// The one request to send for `query`.
    pub fn plan(&self, query: &WeatherQuery) -> (r: RequestPlan)
        ensures
            r.url@ == request_url(self.base_url@, query.latitude@, query.longitude@),
            r.timeout_secs == REQUEST_TIMEOUT_SECS,
    {
        RequestPlan { url: self.forecast_url(query), timeout_secs: REQUEST_TIMEOUT_SECS }
    }
}

} // verus!
