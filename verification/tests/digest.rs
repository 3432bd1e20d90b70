use chrono::{Datelike, NaiveDate};
use xesite::digest::{merge, DIGEST_LIMIT};
use xesite::post::Post;

fn day(year: i32, month: u32, day: u32) -> i32 {
    NaiveDate::from_ymd_opt(year, month, day).unwrap().num_days_from_ce()
}

fn post(date: i32, link: &str) -> Post {
    Post {
        title: format!("About {}", link),
        date,
        link: link.to_string(),
        body: format!("<p>{}</p>", link),
    }
}

fn links(posts: &Vec<Post>) -> Vec<String> {
    let mut out = Vec::new();
    for post in posts {
        out.push(post.link.clone());
    }
    out
}

#[test]
fn digest_of_nothing_is_empty() {
    let digest = merge(&vec![], &vec![], &vec![], day(2024, 1, 15));
    assert!(digest.is_empty());
}

#[test]
fn digest_holds_the_one_item_that_is_out() {
    let blog = vec![post(day(2024, 1, 10), "a")];
    let digest = merge(&blog, &vec![], &vec![], day(2024, 1, 15));
    assert_eq!(digest, vec![post(day(2024, 1, 10), "a")]);
}

#[test]
fn digest_leaves_out_what_is_dated_ahead() {
    let blog = vec![post(day(2099, 1, 1), "future")];
    let digest = merge(&blog, &vec![], &vec![], day(2024, 1, 15));
    assert!(digest.is_empty());
}

#[test]
fn digest_takes_the_item_of_the_day_itself() {
    let today = day(2024, 1, 15);
    let talks = vec![post(today, "today"), post(today + 1, "tomorrow"), post(today - 1, "yesterday")];
    let digest = merge(&vec![], &vec![], &talks, today);
    assert_eq!(links(&digest), vec!["today", "yesterday"]);
}

#[test]
fn digest_is_newest_first_across_collections() {
    let blog = vec![post(day(2024, 1, 1), "b1"), post(day(2024, 1, 9), "b2")];
    let gallery = vec![post(day(2024, 1, 5), "g1")];
    let talks = vec![post(day(2023, 12, 31), "t1"), post(day(2024, 1, 12), "t2")];
    let digest = merge(&blog, &gallery, &talks, day(2024, 1, 15));
    assert_eq!(links(&digest), vec!["t2", "b2", "g1", "b1", "t1"]);
}

#[test]
fn digest_stops_at_the_limit_and_keeps_the_newest() {
    let mut blog = Vec::new();
    for n in 1..=9 {
        blog.push(post(day(2024, 1, n), &format!("day-{}", n)));
    }
    let digest = merge(&blog, &vec![], &vec![], day(2024, 1, 8));
    assert_eq!(DIGEST_LIMIT, 5);
    assert_eq!(digest.len(), 5);
    assert_eq!(links(&digest), vec!["day-8", "day-7", "day-6", "day-5", "day-4"]);
}

#[test]
fn digest_turns_items_of_one_date_round() {
    let same = day(2024, 1, 10);
    let blog = vec![post(same, "first"), post(same, "second")];
    let gallery = vec![post(same, "third")];
    let talks = vec![post(day(2024, 1, 11), "newer"), post(same, "fourth")];
    let digest = merge(&blog, &gallery, &talks, day(2024, 1, 15));
    assert_eq!(links(&digest), vec!["newer", "fourth", "third", "second", "first"]);
}

#[test]
fn digest_never_rises_and_never_runs_ahead() {
    let today = day(2024, 6, 1);
    let mut blog = Vec::new();
    let mut gallery = Vec::new();
    let mut talks = Vec::new();
    for n in 0..40 {
        let date = today - 20 + (n * 7) % 41;
        match n % 3 {
            0 => blog.push(post(date, &format!("b{}", n))),
            1 => gallery.push(post(date, &format!("g{}", n))),
            _ => talks.push(post(date, &format!("t{}", n))),
        }
    }
    let digest = merge(&blog, &gallery, &talks, today);
    assert!(digest.len() <= 5);
    for i in 0..digest.len() {
        assert!(digest[i].date <= today);
        if i + 1 < digest.len() {
            assert!(digest[i].date >= digest[i + 1].date);
        }
    }
}

#[test]
fn digest_is_the_same_when_made_again() {
    let blog = vec![post(day(2024, 1, 3), "x"), post(day(2024, 1, 3), "y")];
    let gallery = vec![post(day(2024, 1, 2), "z")];
    let talks = vec![post(day(2024, 2, 1), "ahead")];
    let today = day(2024, 1, 15);
    let first = merge(&blog, &gallery, &talks, today);
    let second = merge(&blog, &gallery, &talks, today);
    assert_eq!(first, second);
    assert_eq!(links(&first), vec!["y", "x", "z"]);
}

#[test]
fn digest_copies_and_leaves_the_collections_alone() {
    let blog = vec![post(day(2024, 1, 3), "x")];
    let digest = merge(&blog, &vec![], &vec![], day(2024, 1, 15));
    assert_eq!(blog, vec![post(day(2024, 1, 3), "x")]);
    assert_eq!(digest[0].title, "About x");
    assert_eq!(digest[0].body, "<p>x</p>");
}

#[test]
fn address_is_origin_then_link() {
    assert_eq!(post(1, "blog/hello").address(), "https://xeiaso.net/blog/hello");
    assert_eq!(post(1, "").address(), "https://xeiaso.net/");
    assert_eq!(post(1, "a").clone(), post(1, "a"));
}
