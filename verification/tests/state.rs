use chrono::{Datelike, NaiveDate, Utc};
use std::path::PathBuf;
use xesite::patrons::{advance, begin, Action, Answer};
use xesite::post::Post;
use xesite::sitemap::SitemapError;
use xesite::state::{init, Config, Person, State};

fn day(year: i32, month: u32, day: u32) -> i32 {
    NaiveDate::from_ymd_opt(year, month, day).unwrap().num_days_from_ce()
}

fn post(date: i32, link: &str) -> Post {
    Post {
        title: format!("About {}", link),
        date,
        link: link.to_string(),
        body: format!("<p>{}</p>", link),
    }
}

fn config() -> Config {
    Config {
        signalboost: vec![Person {
            name: "Ada".to_string(),
            tags: vec!["rust".to_string(), "verification".to_string()],
            git_link: "https://example.org/ada".to_string(),
            twitter: "https://example.org/@ada".to_string(),
        }],
        resume_fname: PathBuf::from("./static/resume/resume.md"),
        mi_token: "token".to_string(),
    }
}

fn made<P>(result: Result<State<P>, SitemapError>) -> State<P> {
    match result {
        Ok(state) => state,
        Err(_) => panic!("no state"),
    }
}

#[test]
fn state_for_one_item_that_is_out() {
    let blog = vec![post(day(2024, 1, 10), "a")];
    let state: State<u8> = made(init(
        config(),
        "<h1>Resume</h1>".to_string(),
        blog,
        vec![],
        vec![],
        day(2024, 1, 15),
    ));
    assert_eq!(state.everything, vec![post(day(2024, 1, 10), "a")]);
    assert_eq!(state.jf.items.len(), 1);
    assert_eq!(state.jf.items[0].id, "https://xeiaso.net/a");
    let sitemap = String::from_utf8(state.sitemap).unwrap();
    assert_eq!(sitemap.matches("<url>").count(), 6);
    assert!(sitemap.contains("<loc>https://xeiaso.net/a</loc>"));
    assert_eq!(state.blog, vec![post(day(2024, 1, 10), "a")]);
    assert!(state.gallery.is_empty());
    assert!(state.talks.is_empty());
    assert_eq!(state.resume, "<h1>Resume</h1>");
    assert_eq!(state.cfg.mi_token, "token");
    assert_eq!(state.cfg.resume_fname, PathBuf::from("./static/resume/resume.md"));
    assert_eq!(state.signalboost.len(), 1);
    assert_eq!(state.signalboost[0].name, "Ada");
    assert_eq!(state.signalboost[0].tags, vec!["rust", "verification"]);
    assert_eq!(state.signalboost[0].git_link, "https://example.org/ada");
    assert_eq!(state.signalboost[0].twitter, "https://example.org/@ada");
    assert_eq!(state.cfg.signalboost.len(), 1);
    assert_eq!(state.patrons, None);
}

#[test]
fn state_for_one_item_that_is_dated_ahead() {
    let blog = vec![post(day(2099, 1, 1), "future")];
    let state: State<u8> =
        made(init(config(), String::new(), blog, vec![], vec![], day(2024, 1, 15)));
    assert!(state.everything.is_empty());
    assert!(state.jf.items.is_empty());
    let sitemap = String::from_utf8(state.sitemap).unwrap();
    assert!(sitemap.contains("<loc>https://xeiaso.net/future</loc>"));
    assert_eq!(sitemap.matches("<url>").count(), 6);
    assert_eq!(state.blog.len(), 1);
}

#[test]
fn state_is_whole_without_a_credential() {
    let (stage, _) = begin::<Vec<String>>();
    let (_, action) = advance::<Vec<String>>(stage, Answer::Credential { present: false });
    let patrons = match action {
        Action::Finish(patrons) => patrons,
        _ => panic!("the fetch goes on"),
    };
    assert_eq!(patrons, None);
    let state = made(init(
        config(),
        String::new(),
        vec![post(day(2024, 1, 10), "a")],
        vec![post(day(2024, 1, 11), "g")],
        vec![],
        day(2024, 1, 15),
    ))
    .enrich(patrons);
    assert_eq!(state.patrons, None);
    assert_eq!(state.everything.len(), 2);
    assert_eq!(state.jf.items.len(), 2);
    assert_eq!(String::from_utf8(state.sitemap).unwrap().matches("<url>").count(), 7);
}

#[test]
fn state_takes_the_patrons_and_keeps_the_rest() {
    let state: State<Vec<String>> = made(init(
        config(),
        "resume".to_string(),
        vec![post(day(2024, 1, 10), "a")],
        vec![],
        vec![post(day(2024, 1, 9), "t")],
        day(2024, 1, 15),
    ));
    let sitemap = state.sitemap.clone();
    let enriched = state.enrich(Some(vec!["patron".to_string()]));
    assert_eq!(enriched.patrons, Some(vec!["patron".to_string()]));
    assert_eq!(enriched.sitemap, sitemap);
    assert_eq!(enriched.resume, "resume");
    assert_eq!(enriched.everything, vec![post(day(2024, 1, 10), "a"), post(day(2024, 1, 9), "t")]);
    assert_eq!(enriched.jf.items.len(), 2);
    assert_eq!(enriched.jf.items[1].id, "https://xeiaso.net/t");
}

#[test]
fn state_for_the_day_of_the_clock_shows_what_is_out_now() {
    let now = Utc::now().date_naive().num_days_from_ce();
    let blog = vec![post(now - 2, "past"), post(now + 2, "ahead")];
    let state: State<u8> = made(init(config(), String::new(), blog, vec![], vec![], now));
    assert_eq!(state.everything, vec![post(now - 2, "past")]);
    assert_eq!(state.jf.items.len(), 1);
    assert_eq!(String::from_utf8(state.sitemap).unwrap().matches("<url>").count(), 7);
}
