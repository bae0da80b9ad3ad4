use telegram_chatbot::config::{
    static_handler, EnviroApi, MetroScheduleAPI, NewsAPI, NotificationService, OpenWeatherApi,
    SpendingAPI,
};
use telegram_chatbot::reply::{
    alerts_heading, clock_text, help_thermostat, help_weather, send_with_notification,
    wind_direction, Article, NewsAPIResponse, Source,
};

#[test]
fn the_notice_is_added_where_notifications_wait() {
    assert_eq!(
        send_with_notification("hello".to_string(), true),
        "hello\n\n✉️ Notifications available"
    );
    assert_eq!(send_with_notification("hello".to_string(), false), "hello");
    assert_eq!(
        send_with_notification(String::new(), true),
        format!("{}\n\n✉️ Notifications available", "")
    );
}

#[test]
fn help_texts() {
    assert_eq!(
        help_thermostat(),
        "Thermostat data from a Pimoroni Enviro+:\nJust say 'Thermostat'"
    );
    assert_eq!(
        help_weather(),
        r#"Send location to receive weather information.
    Powered by Dark Sky
    https://darksky.net/poweredby/"#
    );
}

// The wind's direction, range by range.
fn direction_by_hand(deg: i32) -> &'static str {
    match deg {
        x if !(12..349).contains(&x) => "N",
        x if (12..34).contains(&x) => "NNE",
        x if (34..57).contains(&x) => "NE",
        x if (57..79).contains(&x) => "ENE",
        x if (79..102).contains(&x) => "E",
        x if (102..124).contains(&x) => "ESE",
        x if (124..147).contains(&x) => "SE",
        x if (147..169).contains(&x) => "SSE",
        x if (169..192).contains(&x) => "S",
        x if (192..214).contains(&x) => "SSW",
        x if (214..237).contains(&x) => "SW",
        x if (237..259).contains(&x) => "WSW",
        x if (259..282).contains(&x) => "W",
        x if (282..304).contains(&x) => "WNW",
        x if (304..327).contains(&x) => "NW",
        x if (327..349).contains(&x) => "NNW",
        _ => "?!",
    }
}

#[test]
fn the_wind_has_a_direction_at_every_degree() {
    for deg in -720..=720 {
        assert_eq!(wind_direction(deg), direction_by_hand(deg), "{}", deg);
        assert_ne!(wind_direction(deg), "?!");
    }
    for deg in [i32::MIN, i32::MAX] {
        assert_eq!(wind_direction(deg), "N");
    }
    assert_eq!(wind_direction(0), "N");
    assert_eq!(wind_direction(11), "N");
    assert_eq!(wind_direction(12), "NNE");
    assert_eq!(wind_direction(90), "E");
    assert_eq!(wind_direction(180), "S");
    assert_eq!(wind_direction(270), "W");
    assert_eq!(wind_direction(348), "NNW");
    assert_eq!(wind_direction(349), "N");
    assert_eq!(wind_direction(360), "N");
}

fn article(title: &str, description: &str, url: &str) -> Article {
    Article {
        source: Source {
            id: "id".into(),
            name: "name".into(),
        },
        author: None,
        title: title.into(),
        description: description.into(),
        url: url.into(),
        url_to_image: "image".into(),
        published_at: "2022-10-30T05:07:30Z".into(),
        content: Some("content".into()),
    }
}

#[test]
fn headlines_as_shown() {
    let news = NewsAPIResponse {
        status: "ok".into(),
        total_results: 2,
        articles: vec![article("T1", "D1", "U1"), article("T2", "D2", "U2")],
    };
    assert_eq!(news.to_string(), "Title: T1\nD1\nU1\n\nTitle: T2\nD2\nU2\n\n");
    let none = NewsAPIResponse {
        status: "ok".into(),
        total_results: 0,
        articles: Vec::new(),
    };
    assert_eq!(none.to_string(), "");
}

#[test]
fn alerts_are_counted() {
    assert_eq!(alerts_heading(0), "0 Alert:\n");
    assert_eq!(alerts_heading(1), "1 Alert:\n");
    assert_eq!(alerts_heading(2), "2 Alerts:\n");
    assert_eq!(alerts_heading(12), "12 Alerts:\n");
}

#[test]
fn the_clock_of_twelve_hours() {
    assert_eq!(clock_text(6, 5), "6:05");
    assert_eq!(clock_text(6, 10), "6:10");
    assert_eq!(clock_text(18, 59), "6:59");
    assert_eq!(clock_text(12, 0), "0:00");
    assert_eq!(clock_text(0, 9), "0:09");
    for hour in 0..24u32 {
        for minute in 0..60u32 {
            let by_hand = if minute < 10 {
                format!("{}:0{}", hour % 12, minute)
            } else {
                format!("{}:{}", hour % 12, minute)
            };
            assert_eq!(clock_text(hour, minute), by_hand);
        }
    }
}

#[test]
fn where_the_spending_service_is() {
    let api = SpendingAPI::default();
    assert_eq!(api.spending_add_url, "http://localhost:8001/spent");
    assert_eq!(api.spending_total_url, "http://localhost:8001/spent");
    assert_eq!(api.spending_reset_url, "http://localhost:8001/reset");
    assert_eq!(api.budget_set_url, "http://localhost:8001/budget");
    let api = SpendingAPI::from_setting(Some("https://example.org/s".to_string()));
    assert_eq!(api.spending_add_url, "https://example.org/s/spent");
    assert_eq!(api.spending_total_url, "https://example.org/s/spent");
    assert_eq!(api.spending_reset_url, "https://example.org/s/reset");
    assert_eq!(api.budget_set_url, "https://example.org/s/budget");
    let api = SpendingAPI::from_setting(None);
    assert_eq!(api.budget_set_url, "http://localhost:8001/budget");
    assert_eq!(SpendingAPI::new("x").spending_reset_url, "x/reset");
}

#[test]
fn where_the_other_services_are() {
    assert_eq!(MetroScheduleAPI::default().url, "http://localhost:8000/next-arrival");
    assert_eq!(MetroScheduleAPI::from_setting(None).url, "http://localhost:8000/next-arrival");
    assert_eq!(MetroScheduleAPI::from_setting(Some("m".to_string())).url, "m");
    assert_eq!(EnviroApi::from_setting(Some("e".to_string())).url, "e");
    assert_eq!(EnviroApi::from_setting(None).url, "");
    let n = NotificationService::default();
    assert_eq!(n.url, "http://localhost:8002/notifications");
    assert_eq!(n.unread_url, "http://localhost:8002/unread");
    let w = OpenWeatherApi::new("key".to_string());
    assert_eq!(w.units, "imperial");
    assert_eq!(w.app_id, "key");
    assert_eq!(w.url, "https://api.openweathermap.org/data/2.5/weather");
}

#[test]
fn where_the_news_is() {
    let news = NewsAPI::new("secret".to_string());
    assert_eq!(
        news.sources,
        [
            "abc-news",
            "al-jazeera-english",
            "ars-technica",
            "associated-press",
            "axios",
            "cnn",
            "medical-news-today",
            "nbc-news",
            "newsweek",
            "politico",
            "recode",
            "reuters",
            "techcrunch",
            "vice-news",
            "wired"
        ]
    );
    assert_eq!(news.page_size, 5);
    assert_eq!(news.url, "https://newsapi.org/v2/top-headlines");
    let by_hand = format!(
        "{url}?sources={sources}&pageSize={page_size}&apiKey={api_key}",
        url = news.url,
        sources = news.sources.to_vec().join(","),
        page_size = news.page_size,
        api_key = news.api_key
    );
    assert_eq!(news.endpoint(), by_hand);
    let other = NewsAPI {
        sources: Vec::new(),
        api_key: "k".into(),
        url: "u".into(),
        page_size: 255,
    };
    assert_eq!(other.endpoint(), "u?sources=&pageSize=255&apiKey=k");
    let one = NewsAPI {
        sources: vec!["cnn".to_string()],
        api_key: "k".into(),
        url: "u".into(),
        page_size: 0,
    };
    assert_eq!(one.endpoint(), "u?sources=cnn&pageSize=0&apiKey=k");
}

#[test]
fn the_file_that_a_path_asks_for() {
    assert_eq!(static_handler("/index.html"), "index.html");
    assert_eq!(static_handler("/dist/app.js"), "app.js");
    assert_eq!(static_handler("///dist/dist/app.js"), "app.js");
    assert_eq!(static_handler("/assets/dist/app.js"), "assets/dist/app.js");
    assert_eq!(static_handler("dist/a/dist/b"), "a/b");
    assert_eq!(static_handler(""), "");
    assert_eq!(static_handler("/"), "");
    for path in ["/index.html", "/dist/app.js", "//dist/x/dist/y", "/x/dist/", "dist", "/dist"] {
        let mut by_hand = path.trim_start_matches('/').to_string();
        if by_hand.starts_with("dist/") {
            by_hand = by_hand.replace("dist/", "");
        }
        assert_eq!(static_handler(path), by_hand);
    }
}
