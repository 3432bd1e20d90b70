//! The state of the site: what was loaded, and what is made of it for the
//! day.

use crate::digest::{digest_of, lemma_digest_bounded_and_descending, merge, DIGEST_LIMIT};
use crate::feed::{
    build_feed, entries_of, feed_head, feed_items, lemma_feed_follows_digest, site_head_view,
};
use crate::post::{address_of, texts, views, Post};
use crate::sitemap::{
    build_sitemap, lemma_sitemap_lists_everything, sitemap_locations, static_locations,
    static_routes, written_from, SitemapError,
};
use ::jsonfeed::Feed;
use std::path::PathBuf;
use vstd::prelude::*;

verus! {

/// `std::path::PathBuf`. A path is kept and handed on; nothing is known of
/// what it holds.
#[verifier::external_type_specification]
#[verifier::external_body]
pub struct ExPathBuf(PathBuf);

/// Someone whose search for work the site passes on.
pub struct Person {
    pub name: String,
    pub tags: Vec<String>,
    pub git_link: String,
    pub twitter: String,
}

/// What a `Person` holds, as mathematical values.
pub struct PersonView {
    pub name: Seq<char>,
    pub tags: Seq<Seq<char>>,
    pub git_link: Seq<char>,
    pub twitter: Seq<char>,
}

impl View for Person {
    type V = PersonView;

    open spec fn view(&self) -> PersonView {
        PersonView {
            name: self.name@,
            tags: texts(self.tags@),
            git_link: self.git_link@,
            twitter: self.twitter@,
        }
    }
}

/// The views of `people`, one by one.
pub open spec fn people(people: Seq<Person>) -> Seq<PersonView> {
    people.map_values(|person: Person| person@)
}

impl Clone for Person {
    fn clone(&self) -> (copy: Person)
        ensures
            copy@ == self@,
    {
        let mut tags: Vec<String> = Vec::new();
        let mut i: usize = 0;
        while i < self.tags.len()
            invariant
                i <= self.tags.len(),
                tags@ == self.tags@.take(i as int),
            decreases self.tags.len() - i,
        {
            tags.push(self.tags[i].clone());
            i += 1;
        }
        proof {
            assert(self.tags@.take(i as int) =~= self.tags@);
        }
        Person {
            name: self.name.clone(),
            tags,
            git_link: self.git_link.clone(),
            twitter: self.twitter.clone(),
        }
    }
}

/// What the site is set up with.
pub struct Config {
    pub signalboost: Vec<Person>,
    pub resume_fname: PathBuf,
    pub mi_token: String,
}

/// The state of the site. `P` is what the patron service tells of the
/// patrons; it is kept as it came.
pub struct State<P> {
    pub cfg: Config,
    pub signalboost: Vec<Person>,
    pub resume: String,
    pub blog: Vec<Post>,
    pub gallery: Vec<Post>,
    pub talks: Vec<Post>,
    pub everything: Vec<Post>,
    pub jf: Feed,
    pub sitemap: Vec<u8>,
    pub patrons: Option<P>,
}

/// What the sitemap of the site lists for three collections.
pub open spec fn site_locations(blog: Seq<Post>, gallery: Seq<Post>, talks: Seq<Post>) -> Seq<
    Seq<char>,
> {
    sitemap_locations(static_locations(), views(blog), views(gallery), views(talks))
}

/// Whether `state` is the state that is made of these parts on the day
/// `today`: it keeps the configuration, the people it names, the resume and
/// the three collections; `everything` is the digest of the collections on
/// that day; the feed is the site's feed for that digest; the sitemap is the
/// document that lists the static routes and every item of the collections;
/// and there are no patrons yet.
pub open spec fn made_of<P>(
    state: State<P>,
    cfg: Config,
    resume: String,
    blog: Seq<Post>,
    gallery: Seq<Post>,
    talks: Seq<Post>,
    today: int,
) -> bool {
    &&& state.cfg == cfg
    &&& people(state.signalboost@) == people(cfg.signalboost@)
    &&& state.resume == resume
    &&& state.blog@ == blog
    &&& state.gallery@ == gallery
    &&& state.talks@ == talks
    &&& views(state.everything@) == digest_of(views(blog), views(gallery), views(talks), today)
    &&& feed_head(state.jf) == site_head_view()
    &&& feed_items(state.jf) == entries_of(views(state.everything@))
    &&& written_from(Ok(state.sitemap), site_locations(blog, gallery, talks))
    &&& state.patrons is None
}

/// In a state that is made of its parts, the digest holds no more than
/// [`DIGEST_LIMIT`] items, the feed has one entry for each item of the digest,
/// in its order and under its address, and the sitemap lists the five static
/// routes and every item of the three collections, whatever is out.
pub proof fn lemma_state_holds_together<P>(
    state: State<P>,
    cfg: Config,
    resume: String,
    blog: Seq<Post>,
    gallery: Seq<Post>,
    talks: Seq<Post>,
    today: int,
)
    requires
        made_of(state, cfg, resume, blog, gallery, talks, today),
    ensures
        state.everything.len() <= DIGEST_LIMIT,
        feed_items(state.jf).len() == state.everything.len(),
        forall|i: int|
            0 <= i < state.everything.len() ==> (#[trigger] feed_items(state.jf)[i]).id
                == address_of(state.everything[i].link@),
        site_locations(blog, gallery, talks).len() == 5 + blog.len() + gallery.len()
            + talks.len(),
{
    lemma_digest_bounded_and_descending(views(blog), views(gallery), views(talks), today);
    lemma_feed_follows_digest(views(state.everything@));
    lemma_sitemap_lists_everything(
        static_locations(),
        views(blog),
        views(gallery),
        views(talks),
    );
    assert(views(state.everything@).len() == state.everything.len());
    assert forall|i: int| 0 <= i < state.everything.len() implies (#[trigger] feed_items(
        state.jf,
    )[i]).id == address_of(state.everything[i].link@) by {
        assert(views(state.everything@)[i] == state.everything[i]@);
    }
}

/// A copy of `people`.
fn copy_of(people_in: &Vec<Person>) -> (copy: Vec<Person>)
    ensures
        people(copy@) == people(people_in@),
{
    let mut copy: Vec<Person> = Vec::new();
    let mut i: usize = 0;
    while i < people_in.len()
        invariant
            i <= people_in.len(),
            people(copy@) == people(people_in@.take(i as int)),
        decreases people_in.len() - i,
    {
        let person = people_in[i].clone();
        proof {
            assert(people(people_in@.take(i as int + 1)) =~= people(
                people_in@.take(i as int),
            ).push(people_in[i as int]@));
        }
        copy.push(person);
        i += 1;
    }
    copy
}

/// Makes the state of the site for the day `today` from what was loaded: the
/// digest of the three collections, the feed for that digest, and the sitemap
/// of the static routes and of all items. Where the sitemap cannot be
/// written, its error comes back and no state.
pub fn init<P>(
    cfg: Config,
    resume: String,
    blog: Vec<Post>,
    gallery: Vec<Post>,
    talks: Vec<Post>,
    today: i32,
) -> (made: Result<State<P>, SitemapError>)
    ensures
        match made {
            Ok(state) => made_of(state, cfg, resume, blog@, gallery@, talks@, today as int),
            Err(error) => written_from(Err(error), site_locations(blog@, gallery@, talks@)),
        },
{
    let signalboost = copy_of(&cfg.signalboost);
    let everything = merge(&blog, &gallery, &talks, today);
    let jf = build_feed(&everything);
    let statics = static_routes();
    match build_sitemap(&statics, &blog, &gallery, &talks) {
        Ok(sitemap) => Ok(
            State {
                cfg,
                signalboost,
                resume,
                blog,
                gallery,
                talks,
                everything,
                jf,
                sitemap,
                patrons: None,
            },
        ),
        Err(error) => Err(error),
    }
}

impl<P> State<P> {
    /// Puts what the fetch of the patrons ended with into the state. The rest
    /// of the state stays as it is.
    pub fn enrich(self, patrons: Option<P>) -> (enriched: State<P>)
        ensures
            enriched == (State { patrons, ..self }),
    {
        State { patrons, ..self }
    }
}

} // verus!
