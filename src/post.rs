//! The post store: creating, updating and deleting posts.
use crate::key::{authorize, authorized, derive_address, program_address_of, Pubkey};
use crate::layout::{lemma_tweet_fits, tweet_stored_len, MAX_CONTENT_CHARS, MAX_TOPIC_CHARS, TWEET_LEN};
use crate::slots::{
    find_slot, lemma_push, lemma_remove, lemma_slot_in_map, lemma_update, slots_map,
    unique_addresses, Slot,
};
use crate::ErrorCode;
use vstd::prelude::*;
use vstd::utf8::encode_utf8;

verus! {

/// A post: its author, when it was created, its topic and its content.
pub struct Tweet {
    pub author: Pubkey,
    pub timestamp: i64,
    pub topic: String,
    pub content: String,
}

/// A post as plain values.
pub struct TweetView {
    pub author: Seq<u8>,
    pub timestamp: i64,
    pub topic: Seq<char>,
    pub content: Seq<char>,
}

impl View for Tweet {
    type V = TweetView;

    open spec fn view(&self) -> TweetView {
        TweetView {
            author: self.author@,
            timestamp: self.timestamp,
            topic: self.topic@,
            content: self.content@,
        }
    }
}

impl Tweet {
    /// The bytes allocated for every post.
    pub const LEN: usize = TWEET_LEN;
}

/// What creating a post takes besides its texts: the signing author and the
/// host's clock at the time of the call.
pub struct SendTweet {
    pub author: Pubkey,
    pub now: i64,
}

/// What updating a post takes besides its texts: the post's address and the
/// signing caller.
pub struct UpdateTweet {
    pub tweet: Pubkey,
    pub author: Pubkey,
}

/// What deleting a post takes: the post's address and the signing caller.
pub struct DeleteTweet {
    pub tweet: Pubkey,
    pub author: Pubkey,
}

/// The posts of one program, by address.
pub struct PostStore {
    program_id: Pubkey,
    slots: Vec<Slot<Tweet>>,
}

impl View for PostStore {
    type V = Map<Seq<u8>, TweetView>;

    closed spec fn view(&self) -> Map<Seq<u8>, TweetView> {
        slots_map(self.slots@)
    }
}

impl PostStore {
    /// No two posts share an address.
    pub closed spec fn wf(&self) -> bool {
        unique_addresses(self.slots@)
    }

    /// The id of the program that the posts belong to.
    pub closed spec fn program_key(&self) -> Seq<u8> {
        self.program_id@
    }

    /// The id of the program that the posts belong to.
    pub fn program_id(&self) -> (r: Pubkey)
        ensures
            r@ == self.program_key(),
    {
        self.program_id
    }

    /// An empty store for the program `program_id`.
    pub fn new(program_id: Pubkey) -> (r: PostStore)
        ensures
            r.wf(),
            r.program_key() == program_id@,
            r@ == Map::<Seq<u8>, TweetView>::empty(),
    {
        let r = PostStore { program_id, slots: Vec::new() };
        assert(r@ =~= Map::<Seq<u8>, TweetView>::empty());
        r
    }

    /// The post at `address`, if there is one.
    pub fn get(&self, address: &Pubkey) -> (r: Option<&Tweet>)
        requires
            self.wf(),
        ensures
            match r {
                Some(t) => self@.contains_key(address@) && self@[address@] == t@,
                None => !self@.contains_key(address@),
            },
    {
        match find_slot(&self.slots, address) {
            Some(i) => {
                proof {
                    lemma_slot_in_map(self.slots@, i as int);
                }
                Some(&self.slots[i].record)
            },
            None => None,
        }
    }
}

/// The error that a topic and a content are rejected with, if any: the topic
/// is checked first.
pub open spec fn text_error(topic: Seq<char>, content: Seq<char>) -> Option<ErrorCode> {
    if topic.len() > MAX_TOPIC_CHARS {
        Some(ErrorCode::TopicTooLong)
    } else if content.len() > MAX_CONTENT_CHARS {
        Some(ErrorCode::ContentTooLong)
    } else {
        None
    }
}

/// The address of the post that `author` creates with `nonce`.
pub open spec fn post_address(program: Seq<u8>, author: Seq<u8>, nonce: Seq<char>) -> Option<
    Seq<u8>,
> {
    program_address_of(author, encode_utf8(nonce), program)
}

/// Creating a post at `address` (none if no address could be derived): its
/// new address and the posts afterwards, or the error.
pub open spec fn create_result(
    posts: Map<Seq<u8>, TweetView>,
    address: Option<Seq<u8>>,
    author: Seq<u8>,
    now: i64,
    topic: Seq<char>,
    content: Seq<char>,
) -> Result<(Seq<u8>, Map<Seq<u8>, TweetView>), ErrorCode> {
    match address {
        None => Err(ErrorCode::InvalidSeeds),
        Some(a) => if posts.contains_key(a) {
            Err(ErrorCode::AlreadyExists)
        } else {
            match text_error(topic, content) {
                Some(e) => Err(e),
                None => Ok(
                    (a, posts.insert(a, TweetView { author, timestamp: now, topic, content })),
                ),
            }
        },
    }
}

/// Updating the post at `address` on behalf of `caller`: the posts
/// afterwards, or the error.
pub open spec fn update_result(
    posts: Map<Seq<u8>, TweetView>,
    address: Seq<u8>,
    caller: Seq<u8>,
    topic: Seq<char>,
    content: Seq<char>,
) -> Result<Map<Seq<u8>, TweetView>, ErrorCode> {
    if !posts.contains_key(address) {
        Err(ErrorCode::NotFound)
    } else if authorized(caller, posts[address].author) is Err {
        Err(ErrorCode::Forbidden)
    } else {
        match text_error(topic, content) {
            Some(e) => Err(e),
            None => Ok(posts.insert(address, TweetView { topic, content, ..posts[address] })),
        }
    }
}

/// Deleting the post at `address` on behalf of `caller`: the posts
/// afterwards, or the error.
pub open spec fn delete_result(posts: Map<Seq<u8>, TweetView>, address: Seq<u8>, caller: Seq<u8>) -> Result<
    Map<Seq<u8>, TweetView>,
    ErrorCode,
> {
    if !posts.contains_key(address) {
        Err(ErrorCode::NotFound)
    } else if authorized(caller, posts[address].author) is Err {
        Err(ErrorCode::Forbidden)
    } else {
        Ok(posts.remove(address))
    }
}

/// Creates a post at `address`, the address derived for it (none if no
/// address could be derived). The address and its slot are checked first,
/// then the texts; nothing changes on an error.
pub fn create_tweet(
    store: &mut PostStore,
    address: Option<Pubkey>,
    ctx: &SendTweet,
    topic: String,
    content: String,
) -> (r: Result<Pubkey, ErrorCode>)
    requires
        old(store).wf(),
    ensures
        final(store).wf(),
        final(store).program_key() == old(store).program_key(),
        match r {
            Ok(a) => create_result(
                old(store)@,
                match address { Some(k) => Some(k@), None => None },
                ctx.author@,
                ctx.now,
                topic@,
                content@,
            ) == Ok::<_, ErrorCode>((a@, final(store)@)),
            Err(e) => create_result(
                old(store)@,
                match address { Some(k) => Some(k@), None => None },
                ctx.author@,
                ctx.now,
                topic@,
                content@,
            ) == Err::<(Seq<u8>, Map<Seq<u8>, TweetView>), _>(e) && final(store)@ == old(store)@,
        },
{
    let a = match address {
        Some(a) => a,
        None => return Err(ErrorCode::InvalidSeeds),
    };
    if find_slot(&store.slots, &a).is_some() {
        return Err(ErrorCode::AlreadyExists);
    }
    if topic.as_str().unicode_len() > MAX_TOPIC_CHARS {
        return Err(ErrorCode::TopicTooLong);
    }
    if content.as_str().unicode_len() > MAX_CONTENT_CHARS {
        return Err(ErrorCode::ContentTooLong);
    }
    let slot = Slot {
        address: a,
        record: Tweet { author: ctx.author, timestamp: ctx.now, topic, content },
    };
    proof {
        lemma_push(store.slots@, slot);
    }
    store.slots.push(slot);
    Ok(a)
}

/// Creates a post at the address derived from its author and `user_tweet_id`.
/// The address and its slot are checked first, then the texts; nothing
/// changes on an error.
pub fn send_tweet(
    store: &mut PostStore,
    ctx: &SendTweet,
    topic: String,
    content: String,
    user_tweet_id: String,
) -> (r: Result<Pubkey, ErrorCode>)
    requires
        old(store).wf(),
    ensures
        final(store).wf(),
        final(store).program_key() == old(store).program_key(),
        match r {
            Ok(a) => create_result(
                old(store)@,
                post_address(old(store).program_key(), ctx.author@, user_tweet_id@),
                ctx.author@,
                ctx.now,
                topic@,
                content@,
            ) == Ok::<_, ErrorCode>((a@, final(store)@)),
            Err(e) => create_result(
                old(store)@,
                post_address(old(store).program_key(), ctx.author@, user_tweet_id@),
                ctx.author@,
                ctx.now,
                topic@,
                content@,
            ) == Err::<(Seq<u8>, Map<Seq<u8>, TweetView>), _>(e) && final(store)@ == old(store)@,
        },
{
    let author = ctx.author.to_vec();
    let nonce = user_tweet_id.as_str().as_bytes();
    let address = derive_address(author.as_slice(), nonce, &store.program_id);
    create_tweet(store, address, ctx, topic, content)
}

/// Replaces the topic and the content of a post. It checks that the post
/// exists, then that the caller is its author, then the texts; nothing
/// changes on an error.
pub fn update_tweet(store: &mut PostStore, ctx: &UpdateTweet, topic: String, content: String) -> (r:
    Result<(), ErrorCode>)
    requires
        old(store).wf(),
    ensures
        final(store).wf(),
        final(store).program_key() == old(store).program_key(),
        match r {
            Ok(()) => update_result(old(store)@, ctx.tweet@, ctx.author@, topic@, content@)
                == Ok::<_, ErrorCode>(final(store)@),
            Err(e) => update_result(old(store)@, ctx.tweet@, ctx.author@, topic@, content@)
                == Err::<Map<Seq<u8>, TweetView>, _>(e) && final(store)@ == old(store)@,
        },
{
    let i = match find_slot(&store.slots, &ctx.tweet) {
        Some(i) => i,
        None => return Err(ErrorCode::NotFound),
    };
    proof {
        lemma_slot_in_map(store.slots@, i as int);
    }
    if let Err(e) = authorize(&ctx.author, &store.slots[i].record.author) {
        return Err(e);
    }
    if topic.as_str().unicode_len() > MAX_TOPIC_CHARS {
        return Err(ErrorCode::TopicTooLong);
    }
    if content.as_str().unicode_len() > MAX_CONTENT_CHARS {
        return Err(ErrorCode::ContentTooLong);
    }
    let old_tweet = &store.slots[i].record;
    let slot = Slot {
        address: ctx.tweet,
        record: Tweet { author: old_tweet.author, timestamp: old_tweet.timestamp, topic, content },
    };
    proof {
        lemma_update(store.slots@, i as int, slot);
    }
    store.slots.set(i, slot);
    assert(final(store)@ == old(store)@.insert(
        ctx.tweet@,
        TweetView { topic: topic@, content: content@, ..old(store)@[ctx.tweet@] },
    ));
    Ok(())
}

/// Deletes a post, after checking that it exists and that the caller is its
/// author; nothing changes on an error.
pub fn delete_tweet(store: &mut PostStore, ctx: &DeleteTweet) -> (r: Result<(), ErrorCode>)
    requires
        old(store).wf(),
    ensures
        final(store).wf(),
        final(store).program_key() == old(store).program_key(),
        match r {
            Ok(()) => delete_result(old(store)@, ctx.tweet@, ctx.author@) == Ok::<_, ErrorCode>(
                final(store)@,
            ),
            Err(e) => delete_result(old(store)@, ctx.tweet@, ctx.author@) == Err::<
                Map<Seq<u8>, TweetView>,
                _,
            >(e) && final(store)@ == old(store)@,
        },
{
    let i = match find_slot(&store.slots, &ctx.tweet) {
        Some(i) => i,
        None => return Err(ErrorCode::NotFound),
    };
    proof {
        lemma_slot_in_map(store.slots@, i as int);
        lemma_remove(store.slots@, i as int);
    }
    if let Err(e) = authorize(&ctx.author, &store.slots[i].record.author) {
        return Err(e);
    }
    store.slots.remove(i);
    Ok(())
}

/// The posts after an update: the new posts on success, the old ones on an
/// error.
pub open spec fn posts_after_update(
    posts: Map<Seq<u8>, TweetView>,
    address: Seq<u8>,
    caller: Seq<u8>,
    topic: Seq<char>,
    content: Seq<char>,
) -> Map<Seq<u8>, TweetView> {
    match update_result(posts, address, caller, topic, content) {
        Ok(after) => after,
        Err(_) => posts,
    }
}

/// A topic of more than fifty characters is rejected with `TopicTooLong`,
/// by creation into a free slot and by the author's update of an existing
/// post alike, and the posts stay as they were. (A taken slot, a missing post
/// or another caller is reported first.)
pub proof fn lemma_topic_too_long(
    posts: Map<Seq<u8>, TweetView>,
    address: Option<Seq<u8>>,
    author: Seq<u8>,
    now: i64,
    target: Seq<u8>,
    caller: Seq<u8>,
    topic: Seq<char>,
    content: Seq<char>,
)
    requires
        topic.len() > 50,
        address is Some,
        !posts.contains_key(address->Some_0),
        posts.contains_key(target),
        caller == posts[target].author,
    ensures
        create_result(posts, address, author, now, topic, content) == Err::<
            (Seq<u8>, Map<Seq<u8>, TweetView>),
            _,
        >(ErrorCode::TopicTooLong),
        update_result(posts, target, caller, topic, content) == Err::<
            Map<Seq<u8>, TweetView>,
            _,
        >(ErrorCode::TopicTooLong),
        posts_after_update(posts, target, caller, topic, content) == posts,
{
}

/// A content of more than two hundred and eighty characters is rejected
/// with `ContentTooLong`, by creation into a free slot and by the author's
/// update of an existing post alike, when the topic is within its limit.
/// (A taken slot, a missing post, another caller or a long topic is
/// reported first.)
pub proof fn lemma_content_too_long(
    posts: Map<Seq<u8>, TweetView>,
    address: Option<Seq<u8>>,
    author: Seq<u8>,
    now: i64,
    target: Seq<u8>,
    caller: Seq<u8>,
    topic: Seq<char>,
    content: Seq<char>,
)
    requires
        topic.len() <= 50,
        content.len() > 280,
        address is Some,
        !posts.contains_key(address->Some_0),
        posts.contains_key(target),
        caller == posts[target].author,
    ensures
        create_result(posts, address, author, now, topic, content) == Err::<
            (Seq<u8>, Map<Seq<u8>, TweetView>),
            _,
        >(ErrorCode::ContentTooLong),
        update_result(posts, target, caller, topic, content) == Err::<
            Map<Seq<u8>, TweetView>,
            _,
        >(ErrorCode::ContentTooLong),
{
}

/// A caller that is not a post's author can neither update it, whatever the
/// texts, nor delete it: both are rejected with `Forbidden`.
pub proof fn lemma_only_author_mutates(
    posts: Map<Seq<u8>, TweetView>,
    target: Seq<u8>,
    caller: Seq<u8>,
    topic: Seq<char>,
    content: Seq<char>,
)
    requires
        posts.contains_key(target),
        caller != posts[target].author,
    ensures
        update_result(posts, target, caller, topic, content) == Err::<
            Map<Seq<u8>, TweetView>,
            _,
        >(ErrorCode::Forbidden),
        delete_result(posts, target, caller) == Err::<Map<Seq<u8>, TweetView>, _>(
            ErrorCode::Forbidden,
        ),
{
}

/// A rejected update changes nothing, so making it a second time is
/// rejected with the same error and again changes nothing.
pub proof fn lemma_rejection_repeats(
    posts: Map<Seq<u8>, TweetView>,
    target: Seq<u8>,
    caller: Seq<u8>,
    topic: Seq<char>,
    content: Seq<char>,
)
    requires
        update_result(posts, target, caller, topic, content) is Err,
    ensures
        ({
            let once = posts_after_update(posts, target, caller, topic, content);
            &&& once == posts
            &&& update_result(once, target, caller, topic, content) == update_result(
                posts,
                target,
                caller,
                topic,
                content,
            )
            &&& posts_after_update(once, target, caller, topic, content) == posts
        }),
{
}

/// Creation resolves the same author and nonce to the same address,
/// whatever the posts, texts and times; and once a post was created there, a
/// second creation with the same author and nonce is rejected with
/// `AlreadyExists`, whatever its texts.
pub proof fn lemma_creation_address(
    program: Seq<u8>,
    author: Seq<u8>,
    nonce: Seq<char>,
    posts1: Map<Seq<u8>, TweetView>,
    now1: i64,
    topic1: Seq<char>,
    content1: Seq<char>,
    posts2: Map<Seq<u8>, TweetView>,
    now2: i64,
    topic2: Seq<char>,
    content2: Seq<char>,
)
    ensures
        create_result(posts1, post_address(program, author, nonce), author, now1, topic1, content1) is Ok
            && create_result(posts2, post_address(program, author, nonce), author, now2, topic2, content2) is Ok
            ==> create_result(posts1, post_address(program, author, nonce), author, now1, topic1, content1)->Ok_0.0
            == create_result(posts2, post_address(program, author, nonce), author, now2, topic2, content2)->Ok_0.0,
        create_result(posts1, post_address(program, author, nonce), author, now1, topic1, content1) is Ok
            ==> create_result(
                create_result(posts1, post_address(program, author, nonce), author, now1, topic1, content1)->Ok_0.1,
                post_address(program, author, nonce),
                author,
                now2,
                topic2,
                content2,
            ) == Err::<(Seq<u8>, Map<Seq<u8>, TweetView>), _>(ErrorCode::AlreadyExists),
{
}

/// Every post's texts are within their limits.
pub open spec fn posts_within_limits(posts: Map<Seq<u8>, TweetView>) -> bool {
    forall|a: Seq<u8>|
        #[trigger] posts.contains_key(a) ==> posts[a].topic.len() <= MAX_TOPIC_CHARS
            && posts[a].content.len() <= MAX_CONTENT_CHARS
}

/// Creation, update and deletion keep every post's texts within their
/// limits, so every stored post fits in the space allocated for it.
pub proof fn lemma_posts_stay_within_limits(
    posts: Map<Seq<u8>, TweetView>,
    address: Option<Seq<u8>>,
    author: Seq<u8>,
    now: i64,
    target: Seq<u8>,
    caller: Seq<u8>,
    topic: Seq<char>,
    content: Seq<char>,
)
    requires
        posts_within_limits(posts),
    ensures
        create_result(posts, address, author, now, topic, content) is Ok ==> posts_within_limits(
            create_result(posts, address, author, now, topic, content)->Ok_0.1,
        ),
        update_result(posts, target, caller, topic, content) is Ok ==> posts_within_limits(
            update_result(posts, target, caller, topic, content)->Ok_0,
        ),
        delete_result(posts, target, caller) is Ok ==> posts_within_limits(
            delete_result(posts, target, caller)->Ok_0,
        ),
        forall|a: Seq<u8>|
            #[trigger] posts.contains_key(a) ==> tweet_stored_len(posts[a].topic, posts[a].content)
                <= TWEET_LEN,
{
    assert forall|a: Seq<u8>| #[trigger] posts.contains_key(a) implies tweet_stored_len(
        posts[a].topic,
        posts[a].content,
    ) <= TWEET_LEN by {
        lemma_tweet_fits(posts[a].topic, posts[a].content);
    }
}

/// Once a post is deleted, any update of its address is rejected with
/// `NotFound`, whatever the caller and the texts, and changes nothing.
pub proof fn lemma_deleted_post_not_found(
    posts: Map<Seq<u8>, TweetView>,
    target: Seq<u8>,
    owner: Seq<u8>,
    caller: Seq<u8>,
    topic: Seq<char>,
    content: Seq<char>,
)
    requires
        delete_result(posts, target, owner) is Ok,
    ensures
        update_result(delete_result(posts, target, owner)->Ok_0, target, caller, topic, content)
            == Err::<Map<Seq<u8>, TweetView>, _>(ErrorCode::NotFound),
        delete_result(delete_result(posts, target, owner)->Ok_0, target, caller) == Err::<
            Map<Seq<u8>, TweetView>,
            _,
        >(ErrorCode::NotFound),
{
}

} // verus!
