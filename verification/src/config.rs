//! Where the services are reached: their addresses, as configured or by
//! default.
use crate::text::{
    begins_with, decimal_text, decimal_text_of, occurs_at, replace_all, replaced, trim_leading,
    without_leading,
};
use vstd::prelude::*;
use vstd::string::*;

verus! {

/// `base` with `path` behind it.
fn join(base: &str, path: &str) -> (r: String)
    ensures
        r@ == base@ + path@,
{
    let mut out = base.to_owned();
    out.append(path);
    out
}

/// The addresses of the spending service.
#[derive(Debug)]
pub struct SpendingAPI {
    pub spending_total_url: String,
    pub spending_reset_url: String,
    pub spending_add_url: String,
    pub budget_set_url: String,
}

impl SpendingAPI {
    /// The addresses of a spending service at `base`.
    pub open spec fn at(base: Seq<char>, api: SpendingAPI) -> bool {
        &&& api.spending_add_url@ == base + "/spent"@
        &&& api.spending_total_url@ == base + "/spent"@
        &&& api.spending_reset_url@ == base + "/reset"@
        &&& api.budget_set_url@ == base + "/budget"@
    }

    /// The addresses of the spending service at `base`.
    pub fn new(base: &str) -> (r: Self)
        ensures
            Self::at(base@, r),
    {
        SpendingAPI {
            spending_add_url: join(base, "/spent"),
            spending_total_url: join(base, "/spent"),
            spending_reset_url: join(base, "/reset"),
            budget_set_url: join(base, "/budget"),
        }
    }

    /// The addresses of the spending service at the configured base, or on
    /// this machine where none is configured.
    pub fn from_setting(base: Option<String>) -> (r: Self)
        ensures
            Self::at(
                match base {
                    Some(b) => b@,
                    None => "http://localhost:8001"@,
                },
                r,
            ),
    {
        match base {
            Some(b) => Self::new(b.as_str()),
            None => Self::new("http://localhost:8001"),
        }
    }
}

impl Default for SpendingAPI {
    fn default() -> (r: Self)
        ensures
            SpendingAPI::at("http://localhost:8001"@, r),
    {
        SpendingAPI::new("http://localhost:8001")
    }
}

/// The address of the train schedule service.
#[derive(Debug)]
pub struct MetroScheduleAPI {
    pub url: String,
}

impl MetroScheduleAPI {
    /// The configured address, or that on this machine where none is
    /// configured.
    pub fn from_setting(url: Option<String>) -> (r: Self)
        ensures
            r.url@ == (match url {
                Some(u) => u@,
                None => "http://localhost:8000/next-arrival"@,
            }),
    {
        match url {
            Some(u) => MetroScheduleAPI { url: u },
            None => MetroScheduleAPI { url: "http://localhost:8000/next-arrival".to_owned() },
        }
    }
}

impl Default for MetroScheduleAPI {
    fn default() -> (r: Self)
        ensures
            r.url@ == "http://localhost:8000/next-arrival"@,
    {
        MetroScheduleAPI::from_setting(None)
    }
}

/// The address of the sensor board.
#[derive(Debug)]
pub struct EnviroApi {
    pub url: String,
}

impl EnviroApi {
    /// The configured address, or none.
    pub fn from_setting(url: Option<String>) -> (r: Self)
        ensures
            r.url@ == (match url {
                Some(u) => u@,
                None => Seq::<char>::empty(),
            }),
    {
        match url {
            Some(u) => EnviroApi { url: u },
            None => EnviroApi { url: String::new() },
        }
    }
}

/// The addresses of the notification service.
#[derive(Debug)]
pub struct NotificationService {
    pub url: String,
    pub unread_url: String,
}

impl Default for NotificationService {
    fn default() -> (r: Self)
        ensures
            r.url@ == "http://localhost:8002"@ + "/notifications"@,
            r.unread_url@ == "http://localhost:8002"@ + "/unread"@,
    {
        NotificationService {
            url: join("http://localhost:8002", "/notifications"),
            unread_url: join("http://localhost:8002", "/unread"),
        }
    }
}

/// The weather service: the units asked for, the key and the address.
#[derive(Debug)]
pub struct OpenWeatherApi {
    pub units: String,
    pub app_id: String,
    pub url: String,
}

impl OpenWeatherApi {
    /// The weather service in imperial units, with the key `app_id`.
    pub fn new(app_id: String) -> (r: Self)
        ensures
            r.units@ == "imperial"@,
            r.app_id@ == app_id@,
            r.url@ == "https://api.openweathermap.org/data/2.5/weather"@,
    {
        OpenWeatherApi {
            units: "imperial".to_owned(),
            app_id,
            url: "https://api.openweathermap.org/data/2.5/weather".to_owned(),
        }
    }
}

/// The news service: whose news is asked for, the key, the address, and
/// how many articles make a page.
#[derive(Debug)]
pub struct NewsAPI {
    pub sources: Vec<String>,
    pub api_key: String,
    pub url: String,
    pub page_size: u8,
}

/// The name of the news source at place `i`.
pub open spec fn news_source(i: int) -> Seq<char> {
    if i == 0 {
        "abc-news"@
    } else if i == 1 {
        "al-jazeera-english"@
    } else if i == 2 {
        "ars-technica"@
    } else if i == 3 {
        "associated-press"@
    } else if i == 4 {
        "axios"@
    } else if i == 5 {
        "cnn"@
    } else if i == 6 {
        "medical-news-today"@
    } else if i == 7 {
        "nbc-news"@
    } else if i == 8 {
        "newsweek"@
    } else if i == 9 {
        "politico"@
    } else if i == 10 {
        "recode"@
    } else if i == 11 {
        "reuters"@
    } else if i == 12 {
        "techcrunch"@
    } else if i == 13 {
        "vice-news"@
    } else {
        "wired"@
    }
}

/// The views of texts.
pub open spec fn names_of(texts: Seq<String>) -> Seq<Seq<char>> {
    Seq::new(texts.len(), |i: int| texts[i]@)
}

/// The texts of `parts` with `sep` between them.
pub open spec fn joined(parts: Seq<Seq<char>>, sep: Seq<char>) -> Seq<char>
    decreases parts.len(),
{
    if parts.len() == 0 {
        Seq::empty()
    } else if parts.len() == 1 {
        parts[0]
    } else {
        joined(parts.drop_last(), sep) + sep + parts.last()
    }
}

impl NewsAPI {
    /// The news service with its fifteen sources, five articles to a page,
    /// and the key `api_key`.
    pub fn new(api_key: String) -> (r: Self)
        ensures
            r.sources@.len() == 15,
            forall|i: int| 0 <= i < 15 ==> (#[trigger] r.sources@[i])@ == news_source(i),
            r.api_key@ == api_key@,
            r.url@ == "https://newsapi.org/v2/top-headlines"@,
            r.page_size == 5,
    {
        let mut sources: Vec<String> = Vec::new();
        sources.push("abc-news".to_owned());
        sources.push("al-jazeera-english".to_owned());
        sources.push("ars-technica".to_owned());
        sources.push("associated-press".to_owned());
        sources.push("axios".to_owned());
        sources.push("cnn".to_owned());
        sources.push("medical-news-today".to_owned());
        sources.push("nbc-news".to_owned());
        sources.push("newsweek".to_owned());
        sources.push("politico".to_owned());
        sources.push("recode".to_owned());
        sources.push("reuters".to_owned());
        sources.push("techcrunch".to_owned());
        sources.push("vice-news".to_owned());
        sources.push("wired".to_owned());
        NewsAPI {
            sources,
            api_key,
            url: "https://newsapi.org/v2/top-headlines".to_owned(),
            page_size: 5,
        }
    }

    /// The address of a page of headlines.
    pub open spec fn endpoint_text(self) -> Seq<char> {
        self.url@ + "?sources="@ + joined(names_of(self.sources@), ","@) + "&pageSize="@
            + decimal_text_of(self.page_size as nat) + "&apiKey="@ + self.api_key@
    }

    /// The address of a page of headlines: the sources with commas between
    /// them, the size of the page and the key.
    pub fn endpoint(&self) -> (r: String)
        ensures
            r@ == self.endpoint_text(),
    {
        let mut list = String::new();
        let mut i: usize = 0;
        let ghost names = names_of(self.sources@);
        assert(names.take(0) =~= Seq::<Seq<char>>::empty());
        while i < self.sources.len()
            invariant
                i <= self.sources.len(),
                names == names_of(self.sources@),
                list@ == joined(names.take(i as int), ","@),
            decreases self.sources.len() - i,
        {
            let ghost before = list@;
            if i > 0 {
                list.append(",");
            }
            list.append(self.sources[i].as_str());
            proof {
                let next = names.take(i + 1);
                assert(next.drop_last() =~= names.take(i as int));
                assert(next.last() == self.sources@[i as int]@);
                if i == 0 {
                    assert(list@ =~= next[0]);
                } else {
                    assert(list@ =~= before + ","@ + next.last());
                }
            }
            i += 1;
        }
        assert(names.take(self.sources.len() as int) =~= names);
        let mut out = self.url.clone();
        out.append("?sources=");
        out.append(list.as_str());
        out.append("&pageSize=");
        out.append(decimal_text(self.page_size as u64).as_str());
        out.append("&apiKey=");
        out.append(self.api_key.as_str());
        out
    }
}

/// The name of the file that a request's path asks for: the path without
/// the slashes at its head and, where `dist/` then leads, without any
/// `dist/`.
pub open spec fn asset_name(path: Seq<char>) -> Seq<char> {
    let trimmed = without_leading(path, '/');
    if occurs_at(trimmed, "dist/"@, 0) {
        replaced(trimmed, "dist/"@, ""@)
    } else {
        trimmed
    }
}

/// The name of the file that a request's path asks for.
pub fn static_handler(path: &str) -> (r: String)
    ensures
        r@ == asset_name(path@),
{
    let trimmed = trim_leading(path, '/');
    if begins_with(trimmed.as_str(), "dist/") {
        replace_all(trimmed.as_str(), "dist/", "")
    } else {
        trimmed
    }
}

} // verus!
