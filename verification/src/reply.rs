//! Texts that the chat bot sends: notices, help, headlines, and the words
//! for a wind direction and a time of day.
use crate::text::{decimal_text, decimal_text_of};
use vstd::prelude::*;
use vstd::string::*;

verus! {

/// The line that tells a reader of waiting notifications.
pub open spec fn notice() -> Seq<char> {
    "\n\n\u{2709}\u{fe0f} Notifications available"@
}

/// `text`, and under it the notice where notifications wait.
pub fn send_with_notification(text: String, has_notifications: bool) -> (r: String)
    ensures
        r@ == (if has_notifications {
            text@ + notice()
        } else {
            text@
        }),
{
    if has_notifications {
        let mut out = text;
        out.append("\n\n\u{2709}\u{fe0f} Notifications available");
        out
    } else {
        text
    }
}

/// How to ask for the thermostat.
pub fn help_thermostat() -> (r: &'static str)
    ensures
        r@ == "Thermostat data from a Pimoroni Enviro+:\nJust say 'Thermostat'"@,
{
    "Thermostat data from a Pimoroni Enviro+:\nJust say 'Thermostat'"
}

/// How to ask for the weather.
pub fn help_weather() -> (r: &'static str)
    ensures
        r@ == "Send location to receive weather information.\n    Powered by Dark Sky\n    https://darksky.net/poweredby/"@,
{
    "Send location to receive weather information.\n    Powered by Dark Sky\n    https://darksky.net/poweredby/"
}

/// The point of the compass from which a wind of `deg` degrees blows: one
/// of sixteen, each about twenty-two and a half degrees wide, with north
/// from 349 degrees to 11 and for every number outside the circle.
pub open spec fn compass_point(deg: int) -> Seq<char> {
    if deg < 12 || deg >= 349 {
        "N"@
    } else if deg < 34 {
        "NNE"@
    } else if deg < 57 {
        "NE"@
    } else if deg < 79 {
        "ENE"@
    } else if deg < 102 {
        "E"@
    } else if deg < 124 {
        "ESE"@
    } else if deg < 147 {
        "SE"@
    } else if deg < 169 {
        "SSE"@
    } else if deg < 192 {
        "S"@
    } else if deg < 214 {
        "SSW"@
    } else if deg < 237 {
        "SW"@
    } else if deg < 259 {
        "WSW"@
    } else if deg < 282 {
        "W"@
    } else if deg < 304 {
        "WNW"@
    } else if deg < 327 {
        "NW"@
    } else {
        "NNW"@
    }
}

/// The point of the compass from which a wind of `deg` degrees blows.
pub fn wind_direction(deg: i32) -> (r: &'static str)
    ensures
        r@ == compass_point(deg as int),
{
    if deg < 12 || deg >= 349 {
        "N"
    } else if deg < 34 {
        "NNE"
    } else if deg < 57 {
        "NE"
    } else if deg < 79 {
        "ENE"
    } else if deg < 102 {
        "E"
    } else if deg < 124 {
        "ESE"
    } else if deg < 147 {
        "SE"
    } else if deg < 169 {
        "SSE"
    } else if deg < 192 {
        "S"
    } else if deg < 214 {
        "SSW"
    } else if deg < 237 {
        "SW"
    } else if deg < 259 {
        "WSW"
    } else if deg < 282 {
        "W"
    } else if deg < 304 {
        "WNW"
    } else if deg < 327 {
        "NW"
    } else {
        "NNW"
    }
}

/// Where an article comes from.
#[derive(Debug)]
pub struct Source {
    pub id: String,
    pub name: String,
}

/// An article of the news.
#[derive(Debug)]
pub struct Article {
    pub source: Source,
    pub author: Option<String>,
    pub title: String,
    pub description: String,
    pub url: String,
    pub url_to_image: String,
    pub published_at: String,
    pub content: Option<String>,
}

/// What the news service answers.
#[derive(Debug)]
pub struct NewsAPIResponse {
    pub status: String,
    pub total_results: i32,
    pub articles: Vec<Article>,
}

/// An article as shown to a reader: its title, what it is about and where
/// it can be read, and an empty line.
pub open spec fn headline(article: Article) -> Seq<char> {
    "Title: "@ + article.title@ + "\n"@ + article.description@ + "\n"@ + article.url@ + "\n\n"@
}

/// The articles as shown to a reader, one after the other.
pub open spec fn headlines(articles: Seq<Article>) -> Seq<char>
    decreases articles.len(),
{
    if articles.len() == 0 {
        Seq::empty()
    } else {
        headlines(articles.drop_last()) + headline(articles.last())
    }
}

impl NewsAPIResponse {
    /// The articles as shown to a reader.
    pub fn to_string(&self) -> (r: String)
        ensures
            r@ == headlines(self.articles@),
    {
        let mut out = String::new();
        let mut i: usize = 0;
        assert(self.articles@.take(0) =~= Seq::<Article>::empty());
        while i < self.articles.len()
            invariant
                i <= self.articles.len(),
                out@ == headlines(self.articles@.take(i as int)),
            decreases self.articles.len() - i,
        {
            let ghost before = out@;
            let article = &self.articles[i];
            out.append("Title: ");
            out.append(article.title.as_str());
            out.append("\n");
            out.append(article.description.as_str());
            out.append("\n");
            out.append(article.url.as_str());
            out.append("\n\n");
            proof {
                let next = self.articles@.take(i + 1);
                assert(next.drop_last() =~= self.articles@.take(i as int));
                assert(next.last() == self.articles@[i as int]);
                assert(out@ =~= before + headline(*article));
            }
            i += 1;
        }
        assert(self.articles@.take(self.articles.len() as int) =~= self.articles@);
        out
    }
}

/// The line above a list of weather alerts: how many there are.
pub open spec fn alerts_heading_text(n: nat) -> Seq<char> {
    decimal_text_of(n) + (if n > 1 {
        " Alerts:\n"@
    } else {
        " Alert:\n"@
    })
}

/// The line above a list of `n` weather alerts.
pub fn alerts_heading(n: u64) -> (r: String)
    ensures
        r@ == alerts_heading_text(n as nat),
{
    let mut out = decimal_text(n);
    if n > 1 {
        out.append(" Alerts:\n");
    } else {
        out.append(" Alert:\n");
    }
    out
}

/// A time by the clock of twelve hours: the hour's remainder by twelve, a
/// colon, and the minute in two digits.
pub open spec fn clock_text_of(hour: nat, minute: nat) -> Seq<char> {
    decimal_text_of(hour % 12) + (if minute < 10 {
        ":0"@
    } else {
        ":"@
    }) + decimal_text_of(minute)
}

/// Writes a time by the clock of twelve hours.
pub fn clock_text(hour: u32, minute: u32) -> (r: String)
    ensures
        r@ == clock_text_of(hour as nat, minute as nat),
{
    let mut out = decimal_text((hour % 12) as u64);
    if minute < 10 {
        out.append(":0");
    } else {
        out.append(":");
    }
    out.append(decimal_text(minute as u64).as_str());
    out
}

} // verus!
