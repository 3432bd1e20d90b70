use chrono::{Datelike, NaiveDate};
use jsonfeed::{Author, Content};
use xesite::feed::{build_feed, entry_for, site_head, ICON};
use xesite::post::Post;

fn day(year: i32, month: u32, day: u32) -> i32 {
    NaiveDate::from_ymd_opt(year, month, day).unwrap().num_days_from_ce()
}

fn post(date: i32, link: &str) -> Post {
    Post {
        title: format!("About {}", link),
        date,
        link: link.to_string(),
        body: format!("<p>{}</p>", link),
    }
}

#[test]
fn head_of_the_site_is_fixed() {
    let head = site_head();
    assert_eq!(head.title, "Xe's Blog");
    assert_eq!(head.description, "My blog posts and rants about various technology things.");
    assert_eq!(head.author.name, "Xe");
    assert_eq!(head.author.url, "https://xeiaso.net");
    assert_eq!(head.author.avatar, "https://xeiaso.net/static/img/avatar.png");
    assert_eq!(head.feed_url, "https://xeiaso.net/blog.json");
    assert_eq!(
        head.user_comment,
        "This is a JSON feed of my blogposts. For more information read: https://jsonfeed.org/version/1"
    );
    assert_eq!(head.home_page_url, "https://xeiaso.net");
    assert_eq!(head.icon, ICON);
    assert_eq!(head.favicon, ICON);
}

#[test]
fn entry_stands_for_its_post() {
    let entry = entry_for(&post(day(2024, 1, 10), "blog/a"));
    assert_eq!(entry.id, "https://xeiaso.net/blog/a");
    assert_eq!(entry.url, "https://xeiaso.net/blog/a");
    assert_eq!(entry.title, "About blog/a");
    assert_eq!(entry.content_html, "<p>blog/a</p>");
    assert_eq!(entry.date_published, Some("2024-01-10T00:00:00+00:00".to_string()));
}

#[test]
fn entry_of_a_day_beyond_the_calendar_has_no_date() {
    assert_eq!(entry_for(&post(i32::MAX, "far")).date_published, None);
    assert_eq!(entry_for(&post(i32::MIN, "far")).date_published, None);
    assert_eq!(
        entry_for(&post(1, "first")).date_published,
        Some("0001-01-01T00:00:00+00:00".to_string())
    );
}

#[test]
fn entry_at_the_ends_of_the_calendar_has_a_date() {
    let last = entry_for(&post(NaiveDate::MAX.num_days_from_ce(), "last")).date_published;
    assert_eq!(last, Some("+262142-12-31T00:00:00+00:00".to_string()));
    let first = entry_for(&post(NaiveDate::MIN.num_days_from_ce(), "first")).date_published;
    assert_eq!(first, Some("-262143-01-01T00:00:00+00:00".to_string()));
    assert_eq!(entry_for(&post(NaiveDate::MAX.num_days_from_ce() + 1, "past")).date_published, None);
    assert_eq!(entry_for(&post(NaiveDate::MIN.num_days_from_ce() - 1, "past")).date_published, None);
    assert_eq!(
        entry_for(&post(day(9999, 12, 31) + 1, "five")).date_published,
        Some("+10000-01-01T00:00:00+00:00".to_string())
    );
}

#[test]
fn feed_of_an_empty_digest_has_the_head_and_no_item() {
    let feed = build_feed(&vec![]);
    assert_eq!(feed.version, "https://jsonfeed.org/version/1");
    assert_eq!(feed.title, "Xe's Blog");
    assert_eq!(
        feed.description,
        Some("My blog posts and rants about various technology things.".to_string())
    );
    assert_eq!(
        feed.author,
        Some(Author::new().name("Xe").url("https://xeiaso.net").avatar(ICON))
    );
    assert_eq!(feed.feed_url, Some("https://xeiaso.net/blog.json".to_string()));
    assert_eq!(
        feed.user_comment,
        Some(
            "This is a JSON feed of my blogposts. For more information read: https://jsonfeed.org/version/1"
                .to_string()
        )
    );
    assert_eq!(feed.home_page_url, Some("https://xeiaso.net".to_string()));
    assert_eq!(feed.icon, Some(ICON.to_string()));
    assert_eq!(feed.favicon, Some(ICON.to_string()));
    assert_eq!(feed.next_url, None);
    assert_eq!(feed.expired, None);
    assert!(feed.items.is_empty());
}

#[test]
fn feed_has_one_entry_for_each_item_in_order() {
    let digest = vec![
        post(day(2024, 1, 12), "talks/t"),
        post(day(2024, 1, 10), "blog/b"),
        post(day(2024, 1, 10), "gallery/g"),
    ];
    let feed = build_feed(&digest);
    assert_eq!(feed.items.len(), digest.len());
    for i in 0..digest.len() {
        let item = &feed.items[i];
        assert_eq!(item.id, digest[i].address());
        assert_eq!(item.url, Some(digest[i].address()));
        assert_eq!(item.title, Some(digest[i].title.clone()));
        assert_eq!(item.content, Content::Html(digest[i].body.clone()));
        assert_eq!(item.external_url, None);
        assert_eq!(item.summary, None);
        assert_eq!(item.author, None);
        assert_eq!(item.tags, None);
    }
    assert_eq!(feed.items[0].date_published, Some("2024-01-12T00:00:00+00:00".to_string()));
    assert_eq!(feed.items[1].date_published, Some("2024-01-10T00:00:00+00:00".to_string()));
    assert_eq!(feed.title, "Xe's Blog");
}

#[test]
fn feed_is_written_as_json() {
    let feed = build_feed(&vec![post(day(2024, 1, 10), "a")]);
    let json = jsonfeed::to_string(&feed).unwrap();
    assert!(json.contains("\"title\":\"Xe's Blog\""));
    assert!(json.contains("\"id\":\"https://xeiaso.net/a\""));
    assert!(json.contains("\"content_html\":\"<p>a</p>\""));
    assert!(json.contains("\"date_published\":\"2024-01-10T00:00:00+00:00\""));
}
