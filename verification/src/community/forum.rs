use vstd::prelude::*;
use crate::common::ids::Address;
use crate::common::lists::{collect_existing, existing_records, list_at, list_pushed, push_to_list};
use crate::community::errors::Error;
use crate::community::state::{
    counters_with, stats_of, Community, CommunityStorage, CounterKind,
};
use crate::community::types::{
    ForumCategory, ForumPost, ForumReply, PostStatus, UserCommunityStats,
};

verus! {

/// The post that `create_post` stores.
pub open spec fn new_post(
    id: u64,
    author: Address,
    category: ForumCategory,
    title: String,
    content: String,
    tags: Vec<String>,
    course_id: String,
    now: u64,
) -> ForumPost {
    ForumPost {
        id,
        author,
        category,
        title,
        content,
        status: PostStatus::Active,
        created_at: now,
        updated_at: now,
        views: 0,
        replies_count: 0,
        upvotes: 0,
        downvotes: 0,
        is_pinned: false,
        tags,
        course_id,
    }
}

/// The reply that `create_reply` stores.
pub open spec fn new_reply(
    id: u64,
    post_id: u64,
    author: Address,
    content: String,
    parent_reply_id: u64,
    now: u64,
) -> ForumReply {
    ForumReply {
        id,
        post_id,
        author,
        content,
        created_at: now,
        updated_at: now,
        upvotes: 0,
        downvotes: 0,
        is_solution: false,
        parent_reply_id,
    }
}

/// `s` with the forum counts raised by the given amounts.
pub open spec fn forum_counts_added(s: UserCommunityStats, posts: u32, replies: u32, solutions: u32) -> UserCommunityStats {
    UserCommunityStats {
        posts_created: (s.posts_created + posts) as u32,
        replies_given: (s.replies_given + replies) as u32,
        solutions_provided: (s.solutions_provided + solutions) as u32,
        ..s
    }
}

/// Forum posts, replies, solutions and votes.
pub struct ForumManager;

impl ForumManager {
    /// Opens a post; its id is the next value of the post counter.
    pub fn create_post(
        c: &mut Community,
        author: &Address,
        category: ForumCategory,
        title: String,
        content: String,
        tags: Vec<String>,
        course_id: String,
        now: u64,
    ) -> (r: Result<u64, Error>)
        requires
            old(c).wf(),
            old(c).counters.post < u64::MAX,
            stats_of(old(c).user_stats@, *author, now).posts_created < u32::MAX,
        ensures
            final(c).wf(),
            r == Ok::<u64, Error>((old(c).counters.post + 1) as u64),
            !old(c).forum.posts@.contains_key((old(c).counters.post + 1) as u64),
            final(c).counters == counters_with(old(c).counters, CounterKind::Post, (old(c).counters.post + 1) as u64),
            final(c).forum.posts@ == old(c).forum.posts@.insert(
                (old(c).counters.post + 1) as u64,
                new_post((old(c).counters.post + 1) as u64, *author, category, title, content, tags, course_id, now),
            ),
            list_pushed(old(c).forum.category_posts@, final(c).forum.category_posts@, category, (old(c).counters.post + 1) as u64),
            list_pushed(old(c).forum.user_posts@, final(c).forum.user_posts@, author.id, (old(c).counters.post + 1) as u64),
            final(c).user_stats@ == old(c).user_stats@.insert(
                author.id,
                forum_counts_added(stats_of(old(c).user_stats@, *author, now), 1, 0, 0),
            ),
            final(c).forum.replies == old(c).forum.replies,
            final(c).forum.post_replies == old(c).forum.post_replies,
            final(c).forum.post_votes == old(c).forum.post_votes,
            final(c).admin == old(c).admin,
            final(c).config == old(c).config,
            final(c).mentorship == old(c).mentorship,
            final(c).knowledge == old(c).knowledge,
            final(c).events == old(c).events,
            final(c).moderation == old(c).moderation,
            final(c).governance == old(c).governance,
            final(c).metrics == old(c).metrics,
    {
        let post_id = CommunityStorage::increment_counter(c, CounterKind::Post);
        let post = ForumPost {
            id: post_id,
            author: *author,
            category,
            title,
            content,
            status: PostStatus::Active,
            created_at: now,
            updated_at: now,
            views: 0,
            replies_count: 0,
            upvotes: 0,
            downvotes: 0,
            is_pinned: false,
            tags,
            course_id,
        };
        c.forum.posts.set(post_id, post);
        push_to_list(&mut c.forum.category_posts, category, post_id);
        push_to_list(&mut c.forum.user_posts, *author, post_id);
        Self::update_user_stats(c, author, 1, 0, 0, now);
        Ok(post_id)
    }

    /// Answers a post that is not closed; the post's reply count rises by one.
    pub fn create_reply(
        c: &mut Community,
        author: &Address,
        post_id: u64,
        content: String,
        parent_reply_id: u64,
        now: u64,
    ) -> (r: Result<u64, Error>)
        requires
            old(c).wf(),
            old(c).forum.posts@.contains_key(post_id) && old(c).forum.posts@[post_id].status != PostStatus::Closed ==> {
                &&& old(c).counters.reply < u64::MAX
                &&& old(c).forum.posts@[post_id].replies_count < u32::MAX
                &&& stats_of(old(c).user_stats@, *author, now).replies_given < u32::MAX
            },
        ensures
            final(c).wf(),
            !old(c).forum.posts@.contains_key(post_id) ==> r == Err::<u64, Error>(Error::PostNotFound),
            old(c).forum.posts@.contains_key(post_id) && old(c).forum.posts@[post_id].status == PostStatus::Closed
                ==> r == Err::<u64, Error>(Error::PostClosed),
            r.is_err() ==> final(c).forum == old(c).forum && final(c).counters == old(c).counters
                && final(c).user_stats == old(c).user_stats,
            old(c).forum.posts@.contains_key(post_id) && old(c).forum.posts@[post_id].status != PostStatus::Closed ==> {
                let id = (old(c).counters.reply + 1) as u64;
                let p = old(c).forum.posts@[post_id];
                &&& r == Ok::<u64, Error>(id)
                &&& !old(c).forum.replies@.contains_key(id)
                &&& final(c).counters == counters_with(old(c).counters, CounterKind::Reply, id)
                &&& final(c).forum.replies@ == old(c).forum.replies@.insert(id, new_reply(id, post_id, *author, content, parent_reply_id, now))
                &&& list_pushed(old(c).forum.post_replies@, final(c).forum.post_replies@, post_id, id)
                &&& final(c).forum.posts@ == old(c).forum.posts@.insert(
                    post_id,
                    ForumPost { replies_count: (p.replies_count + 1) as u32, updated_at: now, ..p },
                )
                &&& final(c).user_stats@ == old(c).user_stats@.insert(
                    author.id,
                    forum_counts_added(stats_of(old(c).user_stats@, *author, now), 0, 1, 0),
                )
                &&& final(c).forum.category_posts == old(c).forum.category_posts
                &&& final(c).forum.user_posts == old(c).forum.user_posts
                &&& final(c).forum.post_votes == old(c).forum.post_votes
            },
            final(c).admin == old(c).admin,
            final(c).config == old(c).config,
            final(c).mentorship == old(c).mentorship,
            final(c).knowledge == old(c).knowledge,
            final(c).events == old(c).events,
            final(c).moderation == old(c).moderation,
            final(c).governance == old(c).governance,
            final(c).metrics == old(c).metrics,
    {
        match c.forum.posts.get(&post_id) {
            None => return Err(Error::PostNotFound),
            Some(p) => {
                if p.status == PostStatus::Closed {
                    return Err(Error::PostClosed);
                }
            },
        }
        let mut post = c.forum.posts.remove(&post_id).unwrap();
        let reply_id = CommunityStorage::increment_counter(c, CounterKind::Reply);
        let reply = ForumReply {
            id: reply_id,
            post_id,
            author: *author,
            content,
            created_at: now,
            updated_at: now,
            upvotes: 0,
            downvotes: 0,
            is_solution: false,
            parent_reply_id,
        };
        c.forum.replies.set(reply_id, reply);
        push_to_list(&mut c.forum.post_replies, post_id, reply_id);
        post.replies_count = post.replies_count + 1;
        post.updated_at = now;
        c.forum.posts.set(post_id, post);
        proof {
            assert(c.forum.posts@ =~= old(c).forum.posts@.insert(
                post_id,
                ForumPost { replies_count: (old(c).forum.posts@[post_id].replies_count + 1) as u32, updated_at: now, ..old(c).forum.posts@[post_id] },
            ));
        }
        Self::update_user_stats(c, author, 0, 1, 0, now);
        Ok(reply_id)
    }

    /// The post's author marks one of its replies as the solution; the post becomes resolved.
    pub fn mark_solution(
        c: &mut Community,
        post_author: &Address,
        post_id: u64,
        reply_id: u64,
        now: u64,
    ) -> (r: Result<(), Error>)
        requires
            old(c).wf(),
            old(c).forum.replies@.contains_key(reply_id) ==> stats_of(
                old(c).user_stats@,
                old(c).forum.replies@[reply_id].author,
                now,
            ).solutions_provided < u32::MAX,
        ensures
            final(c).wf(),
            r == mark_solution_outcome(old(c).forum.posts@, old(c).forum.replies@, *post_author, post_id, reply_id),
            r.is_err() ==> final(c).forum == old(c).forum && final(c).user_stats == old(c).user_stats,
            r.is_ok() ==> {
                let p = old(c).forum.posts@[post_id];
                let rp = old(c).forum.replies@[reply_id];
                &&& final(c).forum.replies@ == old(c).forum.replies@.insert(reply_id, ForumReply { is_solution: true, ..rp })
                &&& final(c).forum.posts@ == old(c).forum.posts@.insert(post_id, ForumPost { status: PostStatus::Resolved, ..p })
                &&& final(c).user_stats@ == old(c).user_stats@.insert(
                    rp.author.id,
                    forum_counts_added(stats_of(old(c).user_stats@, rp.author, now), 0, 0, 1),
                )
                &&& final(c).forum.post_replies == old(c).forum.post_replies
                &&& final(c).forum.category_posts == old(c).forum.category_posts
                &&& final(c).forum.user_posts == old(c).forum.user_posts
                &&& final(c).forum.post_votes == old(c).forum.post_votes
            },
            final(c).counters == old(c).counters,
            final(c).admin == old(c).admin,
            final(c).config == old(c).config,
            final(c).mentorship == old(c).mentorship,
            final(c).knowledge == old(c).knowledge,
            final(c).events == old(c).events,
            final(c).moderation == old(c).moderation,
            final(c).governance == old(c).governance,
            final(c).metrics == old(c).metrics,
    {
        let post_ok = match c.forum.posts.get(&post_id) {
            None => return Err(Error::PostNotFound),
            Some(p) => p.author == *post_author,
        };
        if !post_ok {
            return Err(Error::Unauthorized);
        }
        let reply_author = match c.forum.replies.get(&reply_id) {
            None => return Err(Error::ReplyNotFound),
            Some(rp) => {
                if rp.post_id != post_id {
                    return Err(Error::InvalidInput);
                }
                rp.author
            },
        };
        let mut reply = c.forum.replies.remove(&reply_id).unwrap();
        reply.is_solution = true;
        c.forum.replies.set(reply_id, reply);
        proof {
            assert(c.forum.replies@ =~= old(c).forum.replies@.insert(reply_id, ForumReply { is_solution: true, ..old(c).forum.replies@[reply_id] }));
        }
        let mut post = c.forum.posts.remove(&post_id).unwrap();
        post.status = PostStatus::Resolved;
        c.forum.posts.set(post_id, post);
        proof {
            assert(c.forum.posts@ =~= old(c).forum.posts@.insert(post_id, ForumPost { status: PostStatus::Resolved, ..old(c).forum.posts@[post_id] }));
        }
        Self::update_user_stats(c, &reply_author, 0, 0, 1, now);
        Ok(())
    }

    /// One vote per member and post; an upvote also counts as a helpful vote for the author.
    pub fn vote_post(c: &mut Community, voter: &Address, post_id: u64, upvote: bool, now: u64) -> (r: Result<(), Error>)
        requires
            old(c).wf(),
            old(c).forum.posts@.contains_key(post_id) ==> {
                let p = old(c).forum.posts@[post_id];
                &&& p.upvotes < u32::MAX
                &&& p.downvotes < u32::MAX
                &&& stats_of(old(c).user_stats@, p.author, now).helpful_votes_received < u32::MAX
            },
        ensures
            final(c).wf(),
            old(c).forum.post_votes@.contains_key((voter.id, post_id)) ==> r == Err::<(), Error>(Error::AlreadyVoted),
            !old(c).forum.post_votes@.contains_key((voter.id, post_id)) && !old(c).forum.posts@.contains_key(post_id)
                ==> r == Err::<(), Error>(Error::PostNotFound),
            r.is_err() ==> final(c).forum == old(c).forum && final(c).user_stats == old(c).user_stats,
            r.is_ok() ==> {
                let p = old(c).forum.posts@[post_id];
                &&& !old(c).forum.post_votes@.contains_key((voter.id, post_id))
                &&& old(c).forum.posts@.contains_key(post_id)
                &&& final(c).forum.post_votes@ == old(c).forum.post_votes@.insert((voter.id, post_id), upvote)
                &&& final(c).forum.posts@ == old(c).forum.posts@.insert(
                    post_id,
                    if upvote {
                        ForumPost { upvotes: (p.upvotes + 1) as u32, ..p }
                    } else {
                        ForumPost { downvotes: (p.downvotes + 1) as u32, ..p }
                    },
                )
                &&& final(c).user_stats@ == if upvote {
                    old(c).user_stats@.insert(
                        p.author.id,
                        UserCommunityStats {
                            helpful_votes_received: (stats_of(old(c).user_stats@, p.author, now).helpful_votes_received + 1) as u32,
                            ..stats_of(old(c).user_stats@, p.author, now)
                        },
                    )
                } else {
                    old(c).user_stats@
                }
                &&& final(c).forum.replies == old(c).forum.replies
                &&& final(c).forum.post_replies == old(c).forum.post_replies
                &&& final(c).forum.category_posts == old(c).forum.category_posts
                &&& final(c).forum.user_posts == old(c).forum.user_posts
            },
            final(c).counters == old(c).counters,
            final(c).admin == old(c).admin,
            final(c).config == old(c).config,
            final(c).mentorship == old(c).mentorship,
            final(c).knowledge == old(c).knowledge,
            final(c).events == old(c).events,
            final(c).moderation == old(c).moderation,
            final(c).governance == old(c).governance,
            final(c).metrics == old(c).metrics,
    {
        let vote_key = (*voter, post_id);
        if c.forum.post_votes.contains_key(&vote_key) {
            return Err(Error::AlreadyVoted);
        }
        let mut post = match c.forum.posts.remove(&post_id) {
            Some(p) => p,
            None => return Err(Error::PostNotFound),
        };
        let author = post.author;
        if upvote {
            post.upvotes = post.upvotes + 1;
        } else {
            post.downvotes = post.downvotes + 1;
        }
        c.forum.posts.set(post_id, post);
        proof {
            let p = old(c).forum.posts@[post_id];
            assert(c.forum.posts@ =~= old(c).forum.posts@.insert(
                post_id,
                if upvote {
                    ForumPost { upvotes: (p.upvotes + 1) as u32, ..p }
                } else {
                    ForumPost { downvotes: (p.downvotes + 1) as u32, ..p }
                },
            ));
        }
        c.forum.post_votes.set(vote_key, upvote);
        if upvote {
            let mut stats = CommunityStorage::stats_or_new(c, author, now);
            stats.helpful_votes_received = stats.helpful_votes_received + 1;
            c.user_stats.set(author, stats);
        }
        Ok(())
    }

    /// Reads a post and counts the view.
    pub fn get_post(c: &mut Community, post_id: u64) -> (r: Option<&ForumPost>)
        requires
            old(c).wf(),
            old(c).forum.posts@.contains_key(post_id) ==> old(c).forum.posts@[post_id].views < u32::MAX,
        ensures
            final(c).wf(),
            match r {
                Some(p) => {
                    &&& old(c).forum.posts@.contains_key(post_id)
                    &&& *p == ForumPost { views: (old(c).forum.posts@[post_id].views + 1) as u32, ..old(c).forum.posts@[post_id] }
                    &&& final(c).forum.posts@ == old(c).forum.posts@.insert(post_id, *p)
                },
                None => !old(c).forum.posts@.contains_key(post_id) && final(c).forum.posts@ == old(c).forum.posts@,
            },
            final(c).forum.replies == old(c).forum.replies,
            final(c).forum.post_replies == old(c).forum.post_replies,
            final(c).forum.category_posts == old(c).forum.category_posts,
            final(c).forum.user_posts == old(c).forum.user_posts,
            final(c).forum.post_votes == old(c).forum.post_votes,
            final(c).counters == old(c).counters,
            final(c).user_stats == old(c).user_stats,
    {
        match c.forum.posts.remove(&post_id) {
            None => {
                proof {
                    assert(c.forum.posts@ =~= old(c).forum.posts@);
                }
                None
            },
            Some(mut p) => {
                p.views = p.views + 1;
                c.forum.posts.set(post_id, p);
                proof {
                    assert(c.forum.posts@ =~= old(c).forum.posts@.insert(post_id, ForumPost { views: (old(c).forum.posts@[post_id].views + 1) as u32, ..old(c).forum.posts@[post_id] }));
                }
                c.forum.posts.get(&post_id)
            },
        }
    }

    /// The replies of a post, oldest first.
    pub fn get_post_replies(c: &Community, post_id: u64) -> (r: Vec<&ForumReply>)
        ensures
            r@.map_values(|x: &ForumReply| *x) == existing_records(list_at(c.forum.post_replies@, post_id), c.forum.replies@),
    {
        match c.forum.post_replies.get(&post_id) {
            Some(ids) => {
                let r = collect_existing(ids, &c.forum.replies, ids.len());
                proof {
                    assert(ids@.take(ids@.len() as int) =~= ids@);
                }
                r
            },
            None => {
                let r: Vec<&ForumReply> = Vec::new();
                proof {
                    assert(r@.map_values(|x: &ForumReply| *x) =~= Seq::<ForumReply>::empty());
                }
                r
            },
        }
    }

    /// The first `limit` posts filed under a category, oldest first.
    pub fn get_category_posts(c: &Community, category: ForumCategory, limit: u32) -> (r: Vec<&ForumPost>)
        ensures
            r@.map_values(|x: &ForumPost| *x) == existing_records(
                list_at(c.forum.category_posts@, category).take(
                    if (limit as int) < list_at(c.forum.category_posts@, category).len() { limit as int }
                    else { list_at(c.forum.category_posts@, category).len() as int },
                ),
                c.forum.posts@,
            ),
    {
        match c.forum.category_posts.get(&category) {
            Some(ids) => {
                collect_existing(ids, &c.forum.posts, limit as usize)
            },
            None => {
                let r: Vec<&ForumPost> = Vec::new();
                proof {
                    assert(r@.map_values(|x: &ForumPost| *x) =~= Seq::<ForumPost>::empty());
                    assert(list_at(c.forum.category_posts@, category).take(0) =~= Seq::<u64>::empty());
                }
                r
            },
        }
    }

    fn update_user_stats(c: &mut Community, user: &Address, posts: u32, replies: u32, solutions: u32, now: u64)
        requires
            stats_of(old(c).user_stats@, *user, now).posts_created + posts <= u32::MAX,
            stats_of(old(c).user_stats@, *user, now).replies_given + replies <= u32::MAX,
            stats_of(old(c).user_stats@, *user, now).solutions_provided + solutions <= u32::MAX,
        ensures
            final(c).user_stats@ == old(c).user_stats@.insert(
                user.id,
                forum_counts_added(stats_of(old(c).user_stats@, *user, now), posts, replies, solutions),
            ),
            final(c).forum == old(c).forum,
            final(c).counters == old(c).counters,
            final(c).admin == old(c).admin,
            final(c).config == old(c).config,
            final(c).mentorship == old(c).mentorship,
            final(c).knowledge == old(c).knowledge,
            final(c).events == old(c).events,
            final(c).moderation == old(c).moderation,
            final(c).governance == old(c).governance,
            final(c).metrics == old(c).metrics,
    {
        let mut stats = CommunityStorage::stats_or_new(c, *user, now);
        stats.posts_created = stats.posts_created + posts;
        stats.replies_given = stats.replies_given + replies;
        stats.solutions_provided = stats.solutions_provided + solutions;
        c.user_stats.set(*user, stats);
    }
}

/// What `mark_solution` answers, checked in order: the post, its author, the reply, the reply's post.
pub open spec fn mark_solution_outcome(
    posts: Map<u64, ForumPost>,
    replies: Map<u64, ForumReply>,
    post_author: Address,
    post_id: u64,
    reply_id: u64,
) -> Result<(), Error> {
    if !posts.contains_key(post_id) {
        Err(Error::PostNotFound)
    } else if posts[post_id].author != post_author {
        Err(Error::Unauthorized)
    } else if !replies.contains_key(reply_id) {
        Err(Error::ReplyNotFound)
    } else if replies[reply_id].post_id != post_id {
        Err(Error::InvalidInput)
    } else {
        Ok(())
    }
}

} // verus!
