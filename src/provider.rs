use vstd::prelude::*;

use crate::arguments::{Provider, WeatherError, WeatherProvider};
use crate::json::{
    decimal, decimal_of, first_of, integer, integer_of, member_at, member_in, member_of, opt_view,
    text, text_of, Json,
};

verus! {

/// Weather conditions at an address. Every field is optional: a service fills
/// in what it knows.
#[derive(Debug)]
pub struct WeatherInfo {
    /// Textual weather description.
    pub description: Option<String>,
    /// Temperature in Celsius, as the decimal text of the reported number.
    pub temperature: Option<String>,
    /// Humidity in percent.
    pub humidity: Option<i64>,
    /// Pressure in Pascal.
    pub pressure: Option<i64>,
}

/// The concatenation of `parts`, in order, with no separator.
pub open spec fn concat_all(parts: Seq<Seq<char>>) -> Seq<char>
    decreases parts.len(),
{
    if parts.len() == 0 {
        Seq::empty()
    } else {
        concat_all(parts.drop_last()) + parts.last()
    }
}

/// The values of a sequence of strings.
pub open spec fn strings_view(v: Seq<String>) -> Seq<Seq<char>> {
    Seq::new(v.len(), |i: int| v[i]@)
}

/// The label of one entry of a weather list: its `main` text, or nothing.
pub open spec fn label_of(item: Json) -> Seq<char> {
    match text_of(member_of(item, "main"@)) {
        Some(t) => t,
        None => Seq::empty(),
    }
}

/// The labels of the entries of a weather list, in order.
pub open spec fn labels_of(items: Seq<Json>) -> Seq<Seq<char>> {
    Seq::new(items.len(), |i: int| label_of(items[i]))
}

/// The member `key` of the `main` member of an answer.
pub open spec fn main_member(data: Json, key: Seq<char>) -> Option<Json> {
    member_in(member_of(data, "main"@), key)
}

/// The key of the first location of a search answer, if it has one.
pub open spec fn first_location_key(data: Json) -> Option<Seq<char>> {
    text_of(member_in(first_of(data), "Key"@))
}

/// The metric temperature of a reported condition.
pub open spec fn metric_temperature(condition: Json) -> Option<Json> {
    member_in(member_in(member_of(condition, "Temperature"@), "Metric"@), "Value"@)
}

/// The endpoint that answers current conditions in one step.
pub open spec fn open_weather_url() -> Seq<char> {
    "https://api.openweathermap.org/data/2.5/weather"@
}

/// The endpoint that resolves an address to a location key.
pub open spec fn accu_location_url() -> Seq<char> {
    "http://dataservice.accuweather.com/locations/v1/cities/search"@
}

/// The endpoint that answers current conditions for a location key.
pub open spec fn accu_conditions_url() -> Seq<char> {
    "http://dataservice.accuweather.com/currentconditions/v1"@
}

/// Succeeds exactly on the HTTP status that means success.
pub fn check_status(status: u16) -> (r: Result<(), WeatherError>)
    ensures
        status == 200 <==> r is Ok,
        r is Err ==> r == Err::<(), WeatherError>(WeatherError::RequestStatus(status)),
{
    if status == 200 {
        Ok(())
    } else {
        Err(WeatherError::RequestStatus(status))
    }
}

/// The one-step weather service.
pub struct OpenWeather {
    api_key: String,
}

impl OpenWeather {
    /// The credential the requests carry.
    pub closed spec fn key(&self) -> Seq<char> {
        self.api_key@
    }

    pub fn new(api_key: String) -> (r: OpenWeather)
        ensures
            r.key() == api_key@,
    {
        Self { api_key }
    }

    /// The request for the current conditions at `address`.
    pub fn weather_url(&self, address: &str) -> (r: String)
        ensures
            r@ == open_weather_url() + "?units=metric&q="@ + address@ + "&appid="@ + self.key(),
    {
        proof {
            reveal_strlit("https://api.openweathermap.org/data/2.5/weather");
            reveal_strlit("?units=metric&q=");
            reveal_strlit("&appid=");
        }
        let mut url = String::from_str("https://api.openweathermap.org/data/2.5/weather");
        url.append("?units=metric&q=");
        url.append(address);
        url.append("&appid=");
        url.append(self.api_key.as_str());
        url
    }

    /// The weather info of one answer: the concatenated labels when the
    /// answer lists any, and the measurements it carries.
    pub fn compose(
        labels: Option<Vec<String>>,
        temperature: Option<String>,
        humidity: Option<i64>,
        pressure: Option<i64>,
    ) -> (r: WeatherInfo)
        ensures
            match labels {
                Some(v) if v@.len() > 0 => r.description matches Some(d) && d@ == concat_all(
                    strings_view(v@),
                ),
                _ => r.description is None,
            },
            r.temperature == temperature,
            r.humidity == humidity,
            r.pressure == pressure,
    {
        let description = match labels {
            Some(v) => {
                if v.len() == 0 {
                    None
                } else {
                    let mut d = String::new();
                    let mut i: usize = 0;
                    while i < v.len()
                        invariant
                            i <= v@.len(),
                            d@ == concat_all(strings_view(v@).subrange(0, i as int)),
                        decreases v@.len() - i,
                    {
                        proof {
                            let s = strings_view(v@);
                            assert(s.subrange(0, i + 1).drop_last() =~= s.subrange(0, i as int));
                        }
                        d.append(v[i].as_str());
                        i = i + 1;
                    }
                    assert(strings_view(v@).subrange(0, i as int) =~= strings_view(v@));
                    Some(d)
                }
            },
            None => None,
        };
        WeatherInfo { description, temperature, humidity, pressure }
    }

    /// The weather info of an answer body: the labels of its `weather`
    /// list, concatenated, and the temperature, humidity and pressure of its
    /// `main` member.
    pub fn read_answer(data: &Json) -> (r: WeatherInfo)
        ensures
            match member_of(*data, "weather"@) {
                Some(Json::Array(items)) if items@.len() > 0 => r.description matches Some(d) && d@
                    == concat_all(labels_of(items@)),
                _ => r.description is None,
            },
            opt_view(r.temperature) == decimal_of(main_member(*data, "temp"@)),
            r.humidity == integer_of(main_member(*data, "humidity"@)),
            r.pressure == integer_of(main_member(*data, "pressure"@)),
    {
        let labels = match data.member("weather") {
            Some(Json::Array(items)) => {
                let mut out: Vec<String> = Vec::new();
                let mut i: usize = 0;
                while i < items.len()
                    invariant
                        i <= items@.len(),
                        out@.len() == i,
                        forall|j: int| 0 <= j < i ==> #[trigger] out@[j]@ == label_of(items@[j]),
                    decreases items@.len() - i,
                {
                    let label = match text(items[i].member("main")) {
                        Some(t) => t,
                        None => String::new(),
                    };
                    out.push(label);
                    i = i + 1;
                }
                assert(strings_view(out@) =~= labels_of(items@));
                Some(out)
            },
            _ => None,
        };
        let main = data.member("main");
        let temperature = decimal(member_at(main, "temp"));
        let humidity = integer(member_at(main, "humidity"));
        let pressure = integer(member_at(main, "pressure"));
        OpenWeather::compose(labels, temperature, humidity, pressure)
    }
}

/// The two-step weather service: an address is first resolved to a location
/// key, then the conditions of that key are asked for.
pub struct AccuWeather {
    api_key: String,
}

impl AccuWeather {
    /// The credential the requests carry.
    pub closed spec fn key(&self) -> Seq<char> {
        self.api_key@
    }

    pub fn new(api_key: String) -> (r: AccuWeather)
        ensures
            r.key() == api_key@,
    {
        Self { api_key }
    }

    /// The request that resolves `address` to a location key.
    pub fn location_url(&self, address: &str) -> (r: String)
        ensures
            r@ == accu_location_url() + "?apikey="@ + self.key() + "&q="@ + address@,
    {
        proof {
            reveal_strlit("http://dataservice.accuweather.com/locations/v1/cities/search");
            reveal_strlit("?apikey=");
            reveal_strlit("&q=");
        }
        let mut url = String::from_str(
            "http://dataservice.accuweather.com/locations/v1/cities/search",
        );
        url.append("?apikey=");
        url.append(self.api_key.as_str());
        url.append("&q=");
        url.append(address);
        url
    }

    /// The request for the current conditions at `location_key`.
    pub fn conditions_url(&self, location_key: &str) -> (r: String)
        ensures
            r@ == accu_conditions_url() + "/"@ + location_key@ + "?apikey="@ + self.key(),
    {
        proof {
            reveal_strlit("http://dataservice.accuweather.com/currentconditions/v1");
            reveal_strlit("/");
            reveal_strlit("?apikey=");
        }
        let mut url = String::from_str("http://dataservice.accuweather.com/currentconditions/v1");
        url.append("/");
        url.append(location_key);
        url.append("?apikey=");
        url.append(self.api_key.as_str());
        url
    }

    /// The second request, given the answer of the location search: the
    /// conditions of the first location found. Without one the lookup fails
    /// and no second request is made.
    pub fn after_search(&self, data: &Json) -> (r: Result<String, WeatherError>)
        ensures
            first_location_key(*data) is Some <==> r is Ok,
            first_location_key(*data) matches Some(k) ==> (r matches Ok(u) && u@
                == accu_conditions_url() + "/"@ + k + "?apikey="@ + self.key()),
            first_location_key(*data) is None ==> (r matches Err(WeatherError::Lookup(m)) && m@
                == "Unknown location"@),
    {
        match text(member_at(data.first(), "Key")) {
            Some(k) => Ok(self.conditions_url(k.as_str())),
            None => {
                proof {
                    reveal_strlit("Unknown location");
                }
                Err(WeatherError::Lookup(String::from_str("Unknown location")))
            },
        }
    }

    /// The weather info of the first reported condition, if there is one:
    /// its text and temperature; this service reports no humidity or
    /// pressure.
    pub fn read_condition(
        found: bool,
        text: Option<String>,
        temperature: Option<String>,
    ) -> (r: Result<WeatherInfo, WeatherError>)
        ensures
            found <==> r is Ok,
            r matches Ok(info) ==> info.description == text && info.temperature == temperature
                && info.humidity is None && info.pressure is None,
            !found ==> (r matches Err(WeatherError::Lookup(m)) && m@
                == "No weather condition received"@),
    {
        if found {
            Ok(WeatherInfo { description: text, temperature, humidity: None, pressure: None })
        } else {
            proof {
                reveal_strlit("No weather condition received");
            }
            Err(WeatherError::Lookup(String::from_str("No weather condition received")))
        }
    }

    /// The weather info of a conditions answer: the text and metric
    /// temperature of its first condition; without one the lookup fails.
    pub fn read_conditions(data: &Json) -> (r: Result<WeatherInfo, WeatherError>)
        ensures
            first_of(*data) is Some <==> r is Ok,
            first_of(*data) matches Some(c) ==> (r matches Ok(info) && opt_view(info.description)
                == text_of(member_of(c, "WeatherText"@)) && opt_view(info.temperature)
                == decimal_of(metric_temperature(c)) && info.humidity is None
                && info.pressure is None),
            first_of(*data) is None ==> (r matches Err(WeatherError::Lookup(m)) && m@
                == "No weather condition received"@),
    {
        let condition = data.first();
        let description = text(member_at(condition, "WeatherText"));
        let temperature = decimal(
            member_at(member_at(member_at(condition, "Temperature"), "Metric"), "Value"),
        );
        AccuWeather::read_condition(condition.is_some(), description, temperature)
    }
}

/// A client for the weather service that a record names.
pub enum WeatherClient {
    Open(OpenWeather),
    Accu(AccuWeather),
}

impl WeatherClient {
    /// The service this client talks to.
    pub open spec fn kind(&self) -> Provider {
        match self {
            WeatherClient::Open(_) => Provider::OpenWeather,
            WeatherClient::Accu(_) => Provider::AccuWeather,
        }
    }

    /// The credential this client's requests carry.
    pub open spec fn key(&self) -> Seq<char> {
        match self {
            WeatherClient::Open(c) => c.key(),
            WeatherClient::Accu(c) => c.key(),
        }
    }

    /// The first request of a lookup at `address`.
    pub fn first_url(&self, address: &str) -> (r: String)
        ensures
            match self {
                WeatherClient::Open(c) => r@ == open_weather_url() + "?units=metric&q="@ + address@
                    + "&appid="@ + c.key(),
                WeatherClient::Accu(c) => r@ == accu_location_url() + "?apikey="@ + c.key()
                    + "&q="@ + address@,
            },
    {
        match self {
            WeatherClient::Open(c) => c.weather_url(address),
            WeatherClient::Accu(c) => c.location_url(address),
        }
    }
}

/// Makes the client for a stored record.
pub trait ProviderFactory {
    fn make_provider(&self, config: &WeatherProvider) -> (r: WeatherClient)
        ensures
            r.kind() == config.provider,
            r.key() == config.api_key@,
    ;
}

/// The factory of clients for the real services.
pub struct ProductionProviderFactory;

impl ProviderFactory for ProductionProviderFactory {
    fn make_provider(&self, config: &WeatherProvider) -> (r: WeatherClient) {
        match config.provider {
            Provider::OpenWeather => WeatherClient::Open(OpenWeather::new(config.api_key.clone())),
            Provider::AccuWeather => WeatherClient::Accu(AccuWeather::new(config.api_key.clone())),
        }
    }
}

} // verus!
