//! The digest: the newest items of all collections that are out today.
//!
//! The model is built in the order in which the digest is made: the
//! collections are joined, put in ascending order of date by a stable sort,
//! turned round, cut down to what is out today, and cut off after
//! [`DIGEST_LIMIT`] items.

use crate::post::{views, Post, PostView};
use vstd::prelude::*;

verus! {

/// The most items a digest holds.
pub const DIGEST_LIMIT: usize = 5;

/// `sorted` with `item` put in behind the last item that is not dated later
/// than `item`.
pub open spec fn insert_by_date(sorted: Seq<PostView>, item: PostView) -> Seq<PostView>
    decreases sorted.len(),
{
    if sorted.len() > 0 && sorted.last().date > item.date {
        insert_by_date(sorted.drop_last(), item).push(sorted.last())
    } else {
        sorted.push(item)
    }
}

/// `posts` in ascending order of date. Items of one date keep the order they
/// have in `posts`.
pub open spec fn oldest_first(posts: Seq<PostView>) -> Seq<PostView>
    decreases posts.len(),
{
    if posts.len() == 0 {
        posts
    } else {
        insert_by_date(oldest_first(posts.drop_last()), posts.last())
    }
}

/// `posts` in descending order of date. Items of one date come in the reverse
/// of the order they have in `posts`.
pub open spec fn newest_first(posts: Seq<PostView>) -> Seq<PostView> {
    oldest_first(posts).reverse()
}

/// Whether an item is out on the day `today`: its date is that day or earlier.
pub open spec fn is_out(today: int) -> spec_fn(PostView) -> bool {
    |post: PostView| post.date <= today
}

/// Whether an item is dated `date`.
pub open spec fn is_dated(date: int) -> spec_fn(PostView) -> bool {
    |post: PostView| post.date == date
}

/// The items of `posts` that are out on the day `today`, in their order.
pub open spec fn published(posts: Seq<PostView>, today: int) -> Seq<PostView> {
    posts.filter(is_out(today))
}

/// The first `limit` items of `posts`, or all of them where there are fewer.
pub open spec fn first_items(posts: Seq<PostView>, limit: int) -> Seq<PostView> {
    if posts.len() <= limit {
        posts
    } else {
        posts.take(limit)
    }
}

/// The digest of three collections on the day `today`.
pub open spec fn digest_of(
    blog: Seq<PostView>,
    gallery: Seq<PostView>,
    talks: Seq<PostView>,
    today: int,
) -> Seq<PostView> {
    first_items(published(newest_first(blog + gallery + talks), today), DIGEST_LIMIT as int)
}

/// Whether the dates of `posts` never fall from one item to the next.
pub open spec fn ascending(posts: Seq<PostView>) -> bool {
    forall|i: int, j: int| 0 <= i <= j < posts.len() ==> posts[i].date <= posts[j].date
}

/// Whether the dates of `posts` never rise from one item to the next.
pub open spec fn descending(posts: Seq<PostView>) -> bool {
    forall|i: int, j: int| 0 <= i <= j < posts.len() ==> posts[i].date >= posts[j].date
}

/// Putting an item in by date is putting it in at the place `at`, where every
/// item from `at` on is dated later and the item before `at` is not.
proof fn lemma_insert_by_date_at(sorted: Seq<PostView>, item: PostView, at: int)
    requires
        0 <= at <= sorted.len(),
        forall|j: int| at <= j < sorted.len() ==> sorted[j].date > item.date,
        at > 0 ==> sorted[at - 1].date <= item.date,
    ensures
        insert_by_date(sorted, item) == sorted.insert(at, item),
    decreases sorted.len() - at,
{
    if at == sorted.len() {
        assert(sorted.insert(at, item) =~= sorted.push(item));
    } else {
        lemma_insert_by_date_at(sorted.drop_last(), item, at);
        assert(sorted.insert(at, item) =~= sorted.drop_last().insert(at, item).push(
            sorted.last(),
        ));
    }
}

/// Putting an item in by date adds that item and nothing else, and keeps an
/// ascending sequence ascending.
pub proof fn lemma_insert_by_date(sorted: Seq<PostView>, item: PostView)
    ensures
        insert_by_date(sorted, item).len() == sorted.len() + 1,
        insert_by_date(sorted, item).to_multiset() == sorted.to_multiset().insert(item),
        ascending(sorted) ==> ascending(insert_by_date(sorted, item)),
    decreases sorted.len(),
{
    broadcast use vstd::seq_lib::group_to_multiset_ensures;

    let placed = insert_by_date(sorted, item);
    if sorted.len() > 0 && sorted.last().date > item.date {
        let front = sorted.drop_last();
        let back = sorted.last();
        let inner = insert_by_date(front, item);
        lemma_insert_by_date(front, item);
        assert(sorted =~= front.push(back));
        assert(placed.to_multiset() =~= sorted.to_multiset().insert(item));
        if ascending(sorted) {
            assert(ascending(front)) by {
                assert forall|i: int, j: int| 0 <= i <= j < front.len() implies front[i].date
                    <= front[j].date by {
                    assert(front[i] == sorted[i] && front[j] == sorted[j]);
                }
            }
            assert forall|i: int, j: int| 0 <= i <= j < placed.len() implies placed[i].date
                <= placed[j].date by {
                if j < inner.len() {
                    assert(placed[i] == inner[i] && placed[j] == inner[j]);
                } else if i < inner.len() {
                    assert(placed[i] == inner[i]);
                    assert(inner.contains(inner[i]));
                    assert(inner.to_multiset().count(inner[i]) > 0);
                    if inner[i] != item {
                        assert(front.to_multiset().count(inner[i]) > 0);
                        assert(front.contains(inner[i]));
                        let k = choose|k: int| 0 <= k < front.len() && front[k] == inner[i];
                        assert(sorted[k] == inner[i]);
                    }
                }
            }
        }
    } else {
        if ascending(sorted) {
            assert forall|i: int, j: int| 0 <= i <= j < placed.len() implies placed[i].date
                <= placed[j].date by {
                if j < sorted.len() {
                    assert(placed[i] == sorted[i] && placed[j] == sorted[j]);
                } else if i < sorted.len() {
                    assert(placed[i] == sorted[i]);
                    assert(sorted[i].date <= sorted.last().date);
                }
            }
        }
    }
}

/// Sorting oldest first gives the same items, in ascending order of date.
pub proof fn lemma_oldest_first(posts: Seq<PostView>)
    ensures
        oldest_first(posts).len() == posts.len(),
        oldest_first(posts).to_multiset() == posts.to_multiset(),
        ascending(oldest_first(posts)),
    decreases posts.len(),
{
    broadcast use vstd::seq_lib::group_to_multiset_ensures;

    if posts.len() > 0 {
        lemma_oldest_first(posts.drop_last());
        lemma_insert_by_date(oldest_first(posts.drop_last()), posts.last());
        assert(posts =~= posts.drop_last().push(posts.last()));
    }
}

/// Putting an item in by date puts it behind the items of its own date and
/// leaves the items of every date in their order.
pub proof fn lemma_insert_by_date_is_stable(sorted: Seq<PostView>, item: PostView, date: int)
    ensures
        insert_by_date(sorted, item).filter(is_dated(date)) == if item.date == date {
            sorted.filter(is_dated(date)).push(item)
        } else {
            sorted.filter(is_dated(date))
        },
    decreases sorted.len(),
{
    if sorted.len() > 0 && sorted.last().date > item.date {
        let front = sorted.drop_last();
        let back = sorted.last();
        lemma_insert_by_date_is_stable(front, item, date);
        assert(sorted =~= front.push(back));
        insert_by_date(front, item).lemma_filter_push(back, is_dated(date));
        front.lemma_filter_push(back, is_dated(date));
    } else {
        sorted.lemma_filter_push(item, is_dated(date));
    }
}

/// Sorting oldest first is stable: the items of any one date stand in the
/// sorted sequence in the order they have in `posts`.
pub proof fn lemma_oldest_first_is_stable(posts: Seq<PostView>, date: int)
    ensures
        oldest_first(posts).filter(is_dated(date)) == posts.filter(is_dated(date)),
    decreases posts.len(),
{
    if posts.len() > 0 {
        let front = posts.drop_last();
        let back = posts.last();
        lemma_oldest_first_is_stable(front, date);
        lemma_insert_by_date_is_stable(oldest_first(front), back, date);
        assert(posts =~= front.push(back));
        front.lemma_filter_push(back, is_dated(date));
    }
}

/// What a test lets through of a sequence turned round is what it lets through
/// of the sequence, turned round.
proof fn lemma_filter_reverse(posts: Seq<PostView>, test: spec_fn(PostView) -> bool)
    ensures
        posts.reverse().filter(test) == posts.filter(test).reverse(),
    decreases posts.len(),
{
    if posts.len() > 0 {
        let front = posts.drop_last();
        let back = posts.last();
        lemma_filter_reverse(front, test);
        assert(posts =~= front.push(back));
        front.lemma_filter_push(back, test);
        assert(posts.reverse() =~= seq![back] + front.reverse());
        Seq::filter_distributes_over_add(seq![back], front.reverse(), test);
        assert(seq![back] =~= Seq::<PostView>::empty().push(back));
        Seq::<PostView>::empty().lemma_filter_push(back, test);
        assert(Seq::<PostView>::empty().filter(test) =~= Seq::<PostView>::empty()) by {
            reveal(Seq::filter);
        }
        if test(back) {
            assert(front.filter(test).push(back).reverse() =~= seq![back] + front.filter(
                test,
            ).reverse());
        } else {
            assert(Seq::<PostView>::empty() + front.filter(test).reverse() =~= front.filter(
                test,
            ).reverse());
        }
    } else {
        assert(posts.reverse() =~= posts);
        assert(posts.filter(test) =~= posts) by {
            reveal(Seq::filter);
        }
    }
}

/// Sorting newest first turns the items of any one date round: they stand in
/// the sorted sequence in the reverse of the order they have in `posts`.
pub proof fn lemma_newest_first_turns_ties(posts: Seq<PostView>, date: int)
    ensures
        newest_first(posts).filter(is_dated(date)) == posts.filter(is_dated(date)).reverse(),
{
    lemma_oldest_first_is_stable(posts, date);
    lemma_filter_reverse(oldest_first(posts), is_dated(date));
}

/// Sorting newest first gives the same items, in descending order of date.
pub proof fn lemma_newest_first(posts: Seq<PostView>)
    ensures
        newest_first(posts).len() == posts.len(),
        newest_first(posts).to_multiset() == posts.to_multiset(),
        descending(newest_first(posts)),
{
    let sorted = oldest_first(posts);
    lemma_oldest_first(posts);
    sorted.lemma_reverse_to_multiset();
    assert forall|i: int, j: int| 0 <= i <= j < sorted.reverse().len() implies sorted.reverse()[i].date
        >= sorted.reverse()[j].date by {
        assert(sorted.reverse()[i] == sorted[sorted.len() - 1 - i]);
        assert(sorted.reverse()[j] == sorted[sorted.len() - 1 - j]);
    }
}

/// What is out of a descending sequence is descending, is out, and comes from
/// that sequence.
pub proof fn lemma_published(posts: Seq<PostView>, today: int)
    ensures
        published(posts, today).len() <= posts.len(),
        forall|i: int|
            0 <= i < published(posts, today).len() ==> (#[trigger] published(
                posts,
                today,
            )[i]).date <= today,
        forall|i: int|
            0 <= i < published(posts, today).len() ==> posts.contains(
                #[trigger] published(posts, today)[i],
            ),
        forall|k: int|
            0 <= k < posts.len() && posts[k].date <= today ==> published(posts, today).contains(
                #[trigger] posts[k],
            ),
        descending(posts) ==> descending(published(posts, today)),
    decreases posts.len(),
{
    reveal(Seq::filter);
    let out = published(posts, today);
    if posts.len() > 0 {
        let front = posts.drop_last();
        let back = posts.last();
        let inner = published(front, today);
        lemma_published(front, today);
        assert forall|i: int| 0 <= i < out.len() implies posts.contains(#[trigger] out[i]) by {
            if i < inner.len() {
                assert(out[i] == inner[i]);
                assert(front.contains(inner[i]));
                let k = choose|k: int| 0 <= k < front.len() && front[k] == inner[i];
                assert(posts[k] == out[i]);
            } else {
                assert(out[i] == back);
                assert(posts[posts.len() - 1] == back);
            }
        }
        assert forall|k: int| 0 <= k < posts.len() && posts[k].date <= today implies out.contains(
            #[trigger] posts[k],
        ) by {
            if k < front.len() {
                assert(front[k] == posts[k]);
                assert(inner.contains(front[k]));
                let q = choose|q: int| 0 <= q < inner.len() && inner[q] == front[k];
                assert(out[q] == posts[k]);
            } else {
                assert(out[out.len() - 1] == posts[k]);
            }
        }
        if descending(posts) {
            assert(descending(front)) by {
                assert forall|i: int, j: int| 0 <= i <= j < front.len() implies front[i].date
                    >= front[j].date by {
                    assert(front[i] == posts[i] && front[j] == posts[j]);
                }
            }
            assert forall|i: int, j: int| 0 <= i <= j < out.len() implies out[i].date
                >= out[j].date by {
                if j < inner.len() {
                    assert(out[i] == inner[i] && out[j] == inner[j]);
                } else if i < inner.len() {
                    assert(out[i] == inner[i]);
                    assert(front.contains(inner[i]));
                    let k = choose|k: int| 0 <= k < front.len() && front[k] == inner[i];
                    assert(posts[k].date >= posts[posts.len() - 1].date);
                }
            }
        }
    }
}

/// Putting an item in by date adds one to what a test lets through if it lets
/// the item through, and nothing otherwise.
proof fn lemma_insert_by_date_count(
    sorted: Seq<PostView>,
    item: PostView,
    test: spec_fn(PostView) -> bool,
)
    ensures
        insert_by_date(sorted, item).filter(test).len() == sorted.filter(test).len() + if test(
            item,
        ) {
            1int
        } else {
            0int
        },
    decreases sorted.len(),
{
    if sorted.len() > 0 && sorted.last().date > item.date {
        let front = sorted.drop_last();
        let back = sorted.last();
        lemma_insert_by_date_count(front, item, test);
        assert(sorted =~= front.push(back));
        insert_by_date(front, item).lemma_filter_push(back, test);
        front.lemma_filter_push(back, test);
    } else {
        sorted.lemma_filter_push(item, test);
    }
}

/// A test lets as many items through after sorting as before.
proof fn lemma_newest_first_count(posts: Seq<PostView>, test: spec_fn(PostView) -> bool)
    ensures
        oldest_first(posts).filter(test).len() == posts.filter(test).len(),
        newest_first(posts).filter(test).len() == posts.filter(test).len(),
    decreases posts.len(),
{
    if posts.len() > 0 {
        let front = posts.drop_last();
        let back = posts.last();
        lemma_newest_first_count(front, test);
        lemma_insert_by_date_count(oldest_first(front), back, test);
        assert(posts =~= front.push(back));
        front.lemma_filter_push(back, test);
    }
    lemma_filter_reverse(oldest_first(posts), test);
}

/// A digest holds all the items of the collections that are out, or
/// [`DIGEST_LIMIT`] of them where there are more.
pub proof fn lemma_digest_len(
    blog: Seq<PostView>,
    gallery: Seq<PostView>,
    talks: Seq<PostView>,
    today: int,
)
    ensures
        digest_of(blog, gallery, talks, today).len() == if published(
            blog + gallery + talks,
            today,
        ).len() <= DIGEST_LIMIT {
            published(blog + gallery + talks, today).len()
        } else {
            DIGEST_LIMIT as nat
        },
{
    lemma_newest_first_count(blog + gallery + talks, is_out(today));
}

/// A digest holds no more than [`DIGEST_LIMIT`] items, and their dates never
/// rise from one item to the next.
pub proof fn lemma_digest_bounded_and_descending(
    blog: Seq<PostView>,
    gallery: Seq<PostView>,
    talks: Seq<PostView>,
    today: int,
)
    ensures
        digest_of(blog, gallery, talks, today).len() <= DIGEST_LIMIT,
        descending(digest_of(blog, gallery, talks, today)),
{
    let sorted = newest_first(blog + gallery + talks);
    let out = published(sorted, today);
    let digest = digest_of(blog, gallery, talks, today);
    lemma_newest_first(blog + gallery + talks);
    lemma_published(sorted, today);
    assert forall|i: int, j: int| 0 <= i <= j < digest.len() implies digest[i].date
        >= digest[j].date by {
        assert(digest[i] == out[i] && digest[j] == out[j]);
    }
}

/// No item of a digest is dated later than the day the digest is made for.
pub proof fn lemma_digest_is_out(
    blog: Seq<PostView>,
    gallery: Seq<PostView>,
    talks: Seq<PostView>,
    today: int,
)
    ensures
        forall|i: int|
            0 <= i < digest_of(blog, gallery, talks, today).len() ==> (#[trigger] digest_of(
                blog,
                gallery,
                talks,
                today,
            )[i]).date <= today,
{
    let sorted = newest_first(blog + gallery + talks);
    let out = published(sorted, today);
    let digest = digest_of(blog, gallery, talks, today);
    lemma_published(sorted, today);
    assert forall|i: int| 0 <= i < digest.len() implies (#[trigger] digest[i]).date <= today by {
        assert(digest[i] == out[i]);
    }
}

/// Every item of a digest is an item of one of the collections.
pub proof fn lemma_digest_from_collections(
    blog: Seq<PostView>,
    gallery: Seq<PostView>,
    talks: Seq<PostView>,
    today: int,
)
    ensures
        forall|i: int|
            0 <= i < digest_of(blog, gallery, talks, today).len() ==> (blog + gallery
                + talks).contains(#[trigger] digest_of(blog, gallery, talks, today)[i]),
{
    broadcast use vstd::seq_lib::group_to_multiset_ensures;

    let all = blog + gallery + talks;
    let sorted = newest_first(all);
    let out = published(sorted, today);
    let digest = digest_of(blog, gallery, talks, today);
    lemma_newest_first(all);
    lemma_published(sorted, today);
    assert forall|i: int| 0 <= i < digest.len() implies all.contains(#[trigger] digest[i]) by {
        assert(digest[i] == out[i]);
        assert(sorted.contains(out[i]));
        assert(sorted.to_multiset().count(out[i]) > 0);
    }
}

/// A digest passes over no item for an older one: an item of the collections
/// that is out on the day is in the digest, or the digest is full and its
/// last item is not dated earlier.
pub proof fn lemma_digest_holds_newest(
    blog: Seq<PostView>,
    gallery: Seq<PostView>,
    talks: Seq<PostView>,
    today: int,
    item: PostView,
)
    requires
        (blog + gallery + talks).contains(item),
        item.date <= today,
    ensures
        ({
            let digest = digest_of(blog, gallery, talks, today);
            digest.contains(item) || (digest.len() == DIGEST_LIMIT && item.date
                <= digest.last().date)
        }),
{
    broadcast use vstd::seq_lib::group_to_multiset_ensures;

    let all = blog + gallery + talks;
    let sorted = newest_first(all);
    let out = published(sorted, today);
    let digest = digest_of(blog, gallery, talks, today);
    lemma_newest_first(all);
    lemma_published(sorted, today);
    assert(all.to_multiset().count(item) > 0);
    assert(sorted.contains(item));
    let k = choose|k: int| 0 <= k < sorted.len() && sorted[k] == item;
    assert(out.contains(sorted[k]));
    let q = choose|q: int| 0 <= q < out.len() && out[q] == item;
    if q < digest.len() {
        assert(digest[q] == item);
    } else {
        assert(digest.last() == out[DIGEST_LIMIT - 1]);
    }
}

/// Making the digest again from the same collections for the same day gives
/// the same digest: whatever two sequences meet the contract of [`merge`] on
/// one input are equal.
pub proof fn lemma_digest_is_determined(
    blog: Seq<PostView>,
    gallery: Seq<PostView>,
    talks: Seq<PostView>,
    today: int,
    first: Seq<PostView>,
    second: Seq<PostView>,
)
    requires
        first == digest_of(blog, gallery, talks, today),
        second == digest_of(blog, gallery, talks, today),
    ensures
        first == second,
{
}

/// Appends a copy of every item of `src` to `dst`.
fn extend_with(dst: &mut Vec<Post>, src: &Vec<Post>)
    ensures
        final(dst)@ == old(dst)@ + src@,
{
    let mut i: usize = 0;
    while i < src.len()
        invariant
            i <= src.len(),
            dst@ == old(dst)@ + src@.take(i as int),
        decreases src.len() - i,
    {
        dst.push(src[i].clone());
        i += 1;
    }
}

/// Sorts `posts` in ascending order of date. Items of one date keep their
/// order.
fn sort_by_date(posts: &mut Vec<Post>)
    ensures
        views(final(posts)@) == oldest_first(views(old(posts)@)),
{
    let mut done: usize = 0;
    while done < posts.len()
        invariant
            done <= posts.len(),
            posts.len() == old(posts).len(),
            views(posts@.take(done as int)) == oldest_first(views(old(posts)@.take(done as int))),
            posts@.skip(done as int) == old(posts)@.skip(done as int),
        decreases posts.len() - done,
    {
        let ghost before = posts@;
        let item = posts.remove(done);
        let mut at: usize = done;
        while at > 0 && posts[at - 1].date > item.date
            invariant
                at <= done < posts.len() + 1,
                forall|j: int| at <= j < done ==> posts[j].date > item.date,
            decreases at,
        {
            at -= 1;
        }
        proof {
            let head = views(before.take(done as int));
            let source = views(old(posts)@.take(done as int + 1));
            assert(item == before.skip(done as int)[0]);
            assert(views(posts@.take(done as int)) =~= head);
            lemma_insert_by_date_at(head, item@, at as int);
            assert(source.drop_last() =~= views(old(posts)@.take(done as int)));
            assert(old(posts)@.skip(done as int + 1) =~= old(posts)@.skip(done as int).skip(1));
        }
        posts.insert(at, item);
        done += 1;
    }
    proof {
        assert(old(posts)@.take(done as int) =~= old(posts)@);
    }
}

/// The newest items of `sorted` that are out on the day `today`, newest first,
/// up to `limit` of them. `sorted` is taken from its end.
fn newest_published(sorted: Vec<Post>, today: i32, limit: usize) -> (out: Vec<Post>)
    ensures
        views(out@) == first_items(
            published(views(sorted@).reverse(), today as int),
            limit as int,
        ),
{
    let ghost turned = views(sorted@).reverse();
    let mut rest = sorted;
    let mut out: Vec<Post> = Vec::new();
    while out.len() < limit && rest.len() > 0
        invariant
            rest.len() <= sorted.len(),
            rest@ == sorted@.take(rest.len() as int),
            turned == views(sorted@).reverse(),
            out.len() <= limit,
            views(out@) == published(turned.take(sorted.len() - rest.len()), today as int),
        decreases rest.len(),
    {
        let ghost taken = sorted.len() - rest.len();
        let item = rest.pop().unwrap();
        proof {
            assert(turned.take(taken + 1) =~= turned.take(taken).push(item@));
            turned.take(taken).lemma_filter_push(item@, is_out(today as int));
        }
        if item.date <= today {
            out.push(item);
        }
    }
    proof {
        let taken = sorted.len() - rest.len();
        if rest.len() == 0 {
            assert(turned.take(taken) =~= turned);
        } else {
            turned.take(taken).lemma_filter_monotone(turned, is_out(today as int));
        }
    }
    out
}

/// Makes the digest of three collections on the day `today`: their items that
/// are out on that day, newest first, items of one date in the reverse of the
/// order in which `blog`, `gallery` and `talks` hold them one after another,
/// and no more than [`DIGEST_LIMIT`] of them.
pub fn merge(blog: &Vec<Post>, gallery: &Vec<Post>, talks: &Vec<Post>, today: i32) -> (digest:
    Vec<Post>)
    ensures
        views(digest@) == digest_of(views(blog@), views(gallery@), views(talks@), today as int),
        digest.len() <= DIGEST_LIMIT,
        forall|i: int, j: int| 0 <= i <= j < digest.len() ==> digest[i].date >= digest[j].date,
        forall|i: int| 0 <= i < digest.len() ==> digest[i].date <= today,
{
    let mut everything: Vec<Post> = Vec::new();
    extend_with(&mut everything, blog);
    extend_with(&mut everything, gallery);
    extend_with(&mut everything, talks);
    proof {
        assert(views(everything@) =~= views(blog@) + views(gallery@) + views(talks@));
    }
    sort_by_date(&mut everything);
    let digest = newest_published(everything, today, DIGEST_LIMIT);
    proof {
        let shown = views(digest@);
        lemma_digest_bounded_and_descending(
            views(blog@),
            views(gallery@),
            views(talks@),
            today as int,
        );
        lemma_digest_is_out(views(blog@), views(gallery@), views(talks@), today as int);
        assert forall|i: int, j: int| 0 <= i <= j < digest.len() implies digest[i].date
            >= digest[j].date by {
            assert(shown[i].date == digest[i].date && shown[j].date == digest[j].date);
        }
        assert forall|i: int| 0 <= i < digest.len() implies digest[i].date <= today by {
            assert(shown[i].date == digest[i].date);
        }
    }
    digest
}

} // verus!
