use solana_twitter::key::{authorize, derive_address, Pubkey};
use solana_twitter::layout::{tweet_space, user_space};
use solana_twitter::post::{
    create_tweet, delete_tweet, send_tweet, update_tweet, DeleteTweet, PostStore, SendTweet,
    Tweet, UpdateTweet,
};
use solana_twitter::profile::{
    create_user, initialize, update, Initialize, ProfileStore, TokenAccount, UpdateUser, User,
};
use solana_twitter::ErrorCode;

fn key(b: u8) -> Pubkey {
    Pubkey { bytes: [b; 32] }
}

fn program() -> Pubkey {
    let mut bytes = [0u8; 32];
    for (i, b) in bytes.iter_mut().enumerate() {
        *b = (i as u8).wrapping_mul(7).wrapping_add(3);
    }
    Pubkey { bytes }
}

fn s(text: &str) -> String {
    String::from(text)
}

fn send(store: &mut PostStore, author: u8, nonce: &str, topic: &str, content: &str) -> Result<Pubkey, ErrorCode> {
    let ctx = SendTweet { author: key(author), now: 1_700_000_000 };
    send_tweet(store, &ctx, s(topic), s(content), s(nonce))
}

fn upd(store: &mut PostStore, tweet: Pubkey, caller: u8, topic: &str, content: &str) -> Result<(), ErrorCode> {
    let ctx = UpdateTweet { tweet, author: key(caller) };
    update_tweet(store, &ctx, s(topic), s(content))
}

#[test]
fn create_post_records_fields() {
    let mut store = PostStore::new(program());
    let address = send(&mut store, 0xA, "n1", "hi", "hello").unwrap();
    let tweet: &Tweet = store.get(&address).unwrap();
    assert_eq!(tweet.author, key(0xA));
    assert_eq!(tweet.topic, "hi");
    assert_eq!(tweet.content, "hello");
    assert_eq!(tweet.timestamp, 1_700_000_000);
}

#[test]
fn update_with_long_topic_keeps_post() {
    let mut store = PostStore::new(program());
    let address = send(&mut store, 0xA, "n1", "hi", "hello").unwrap();
    let long = "x".repeat(51);
    assert_eq!(upd(&mut store, address, 0xA, &long, "ok"), Err(ErrorCode::TopicTooLong));
    assert_eq!(store.get(&address).unwrap().topic, "hi");
    assert_eq!(store.get(&address).unwrap().content, "hello");
}

#[test]
fn update_by_other_caller_forbidden() {
    let mut store = PostStore::new(program());
    let address = send(&mut store, 0xA, "n1", "hi", "hello").unwrap();
    assert_eq!(upd(&mut store, address, 0xB, "y", "ok"), Err(ErrorCode::Forbidden));
    assert_eq!(store.get(&address).unwrap().topic, "hi");
}

#[test]
fn delete_then_update_not_found() {
    let mut store = PostStore::new(program());
    let address = send(&mut store, 0xA, "n1", "hi", "hello").unwrap();
    let ctx = DeleteTweet { tweet: address, author: key(0xA) };
    assert_eq!(delete_tweet(&mut store, &ctx), Ok(()));
    assert!(store.get(&address).is_none());
    assert_eq!(upd(&mut store, address, 0xA, "y", "ok"), Err(ErrorCode::NotFound));
}

#[test]
fn profile_link_and_relink() {
    let mut store = ProfileStore::new(program());
    let proof_x = TokenAccount { mint: key(0x11), owner: key(0xA) };
    let address = initialize(&mut store, &Initialize { owner: key(0xA), token_account: proof_x }).unwrap();
    assert_eq!(store.get(&address), Some(User { pfp: key(0x11), owner: key(0xA) }));
    let proof_y = TokenAccount { mint: key(0x22), owner: key(0xA) };
    let ctx = UpdateUser { user: address, owner: key(0xA), token_account: proof_y };
    assert_eq!(update(&mut store, &ctx), Ok(()));
    assert_eq!(store.get(&address).unwrap().pfp, key(0x22));
    let ctx = UpdateUser { user: address, owner: key(0xB), token_account: proof_x };
    assert_eq!(update(&mut store, &ctx), Err(ErrorCode::Forbidden));
    assert_eq!(store.get(&address).unwrap().pfp, key(0x22));
}

#[test]
fn topic_limit_counts_characters_not_bytes() {
    let mut store = PostStore::new(program());
    let fifty = "é".repeat(50);
    assert!(send(&mut store, 1, "a", &fifty, "c").is_ok());
    let fifty_one = "é".repeat(51);
    assert_eq!(send(&mut store, 1, "b", &fifty_one, "c"), Err(ErrorCode::TopicTooLong));
}

#[test]
fn content_limit_on_create_and_update() {
    let mut store = PostStore::new(program());
    let max = "z".repeat(280);
    let address = send(&mut store, 1, "a", "t", &max).unwrap();
    let over = "z".repeat(281);
    assert_eq!(send(&mut store, 1, "b", "t", &over), Err(ErrorCode::ContentTooLong));
    assert_eq!(upd(&mut store, address, 1, "t", &over), Err(ErrorCode::ContentTooLong));
    assert_eq!(store.get(&address).unwrap().content, max);
}

#[test]
fn topic_checked_before_content() {
    let mut store = PostStore::new(program());
    let topic = "t".repeat(51);
    let content = "c".repeat(281);
    assert_eq!(send(&mut store, 1, "a", &topic, &content), Err(ErrorCode::TopicTooLong));
}

#[test]
fn same_author_and_nonce_same_address() {
    let mut first = PostStore::new(program());
    let mut second = PostStore::new(program());
    let a = send(&mut first, 3, "nonce", "one", "x").unwrap();
    let b = send(&mut second, 3, "nonce", "two", "y").unwrap();
    assert_eq!(a, b);
    assert_eq!(send(&mut first, 3, "nonce", "again", "z"), Err(ErrorCode::AlreadyExists));
    assert_eq!(first.get(&a).unwrap().topic, "one");
    let c = send(&mut first, 3, "other", "three", "w").unwrap();
    assert_ne!(a, c);
    let d = send(&mut first, 4, "nonce", "four", "v").unwrap();
    assert_ne!(a, d);
}

#[test]
fn rejected_update_repeats_same_error() {
    let mut store = PostStore::new(program());
    let address = send(&mut store, 1, "a", "t", "c").unwrap();
    let long = "x".repeat(60);
    assert_eq!(upd(&mut store, address, 1, &long, "c"), Err(ErrorCode::TopicTooLong));
    assert_eq!(upd(&mut store, address, 1, &long, "c"), Err(ErrorCode::TopicTooLong));
    assert_eq!(store.get(&address).unwrap().topic, "t");
    assert_eq!(store.get(&address).unwrap().content, "c");
}

#[test]
fn update_keeps_author_and_timestamp() {
    let mut store = PostStore::new(program());
    let address = send(&mut store, 1, "a", "t", "c").unwrap();
    assert_eq!(upd(&mut store, address, 1, "new", "text"), Ok(()));
    let tweet = store.get(&address).unwrap();
    assert_eq!(tweet.topic, "new");
    assert_eq!(tweet.content, "text");
    assert_eq!(tweet.author, key(1));
    assert_eq!(tweet.timestamp, 1_700_000_000);
}

#[test]
fn delete_by_other_forbidden_and_missing_not_found() {
    let mut store = PostStore::new(program());
    let address = send(&mut store, 1, "a", "t", "c").unwrap();
    let ctx = DeleteTweet { tweet: address, author: key(2) };
    assert_eq!(delete_tweet(&mut store, &ctx), Err(ErrorCode::Forbidden));
    assert!(store.get(&address).is_some());
    let ctx = DeleteTweet { tweet: key(9), author: key(1) };
    assert_eq!(delete_tweet(&mut store, &ctx), Err(ErrorCode::NotFound));
}

#[test]
fn delete_then_recreate_same_nonce() {
    let mut store = PostStore::new(program());
    let address = send(&mut store, 1, "a", "t", "c").unwrap();
    let ctx = DeleteTweet { tweet: address, author: key(1) };
    assert_eq!(delete_tweet(&mut store, &ctx), Ok(()));
    assert_eq!(send(&mut store, 1, "a", "t2", "c2"), Ok(address));
    assert_eq!(store.get(&address).unwrap().topic, "t2");
}

#[test]
fn long_nonce_invalid_seeds() {
    let mut store = PostStore::new(program());
    let nonce = "n".repeat(33);
    assert_eq!(send(&mut store, 1, &nonce, "t", "c"), Err(ErrorCode::InvalidSeeds));
    let nonce = "n".repeat(32);
    assert!(send(&mut store, 1, &nonce, "t", "c").is_ok());
}

#[test]
fn create_at_given_address() {
    let mut store = PostStore::new(program());
    let ctx = SendTweet { author: key(5), now: -3 };
    assert_eq!(create_tweet(&mut store, Some(key(8)), &ctx, s("t"), s("c")), Ok(key(8)));
    assert_eq!(store.get(&key(8)).unwrap().timestamp, -3);
    assert_eq!(create_tweet(&mut store, Some(key(8)), &ctx, s("u"), s("d")), Err(ErrorCode::AlreadyExists));
    assert_eq!(create_tweet(&mut store, None, &ctx, s("u"), s("d")), Err(ErrorCode::InvalidSeeds));
    let long = "x".repeat(51);
    assert_eq!(create_tweet(&mut store, None, &ctx, long.clone(), s("d")), Err(ErrorCode::InvalidSeeds));
    assert_eq!(create_tweet(&mut store, Some(key(8)), &ctx, long.clone(), s("d")), Err(ErrorCode::AlreadyExists));
    assert_eq!(create_tweet(&mut store, Some(key(9)), &ctx, long, s("d")), Err(ErrorCode::TopicTooLong));
}

#[test]
fn derived_address_is_not_an_input() {
    let author = key(7);
    let nonce = b"n1".to_vec();
    let a = derive_address(&author.bytes, &nonce, &program()).unwrap();
    assert_ne!(a, program());
    assert_ne!(a, author);
    let b = derive_address(&author.bytes, &nonce, &program()).unwrap();
    assert_eq!(a, b);
    let other_program = key(0x33);
    let c = derive_address(&author.bytes, &nonce, &other_program).unwrap();
    assert_ne!(a, c);
    assert!(derive_address(&[1u8; 33], &nonce, &program()).is_none());
}

#[test]
fn profile_errors() {
    let mut store = ProfileStore::new(program());
    let zero = TokenAccount { mint: Pubkey::zeroed(), owner: key(1) };
    assert_eq!(initialize(&mut store, &Initialize { owner: key(1), token_account: zero }), Err(ErrorCode::AssetUnchanged));
    let foreign = TokenAccount { mint: key(4), owner: key(2) };
    assert_eq!(initialize(&mut store, &Initialize { owner: key(1), token_account: foreign }), Err(ErrorCode::AssetNotOwned));
    let good = TokenAccount { mint: key(4), owner: key(1) };
    let address = initialize(&mut store, &Initialize { owner: key(1), token_account: good }).unwrap();
    assert_eq!(initialize(&mut store, &Initialize { owner: key(1), token_account: good }), Err(ErrorCode::AlreadyExists));
    let other = initialize(&mut store, &Initialize { owner: key(2), token_account: foreign }).unwrap();
    assert_ne!(address, other);
    let ctx = UpdateUser { user: key(9), owner: key(1), token_account: good };
    assert_eq!(update(&mut store, &ctx), Err(ErrorCode::NotFound));
    assert_eq!(create_user(&mut store, None, &Initialize { owner: key(3), token_account: good }), Err(ErrorCode::InvalidSeeds));
    assert_eq!(create_user(&mut store, Some(key(5)), &Initialize { owner: key(1), token_account: good }), Ok(key(5)));
}

#[test]
fn authorize_compares_keys() {
    assert_eq!(authorize(&key(1), &key(1)), Ok(()));
    assert_eq!(authorize(&key(1), &key(2)), Err(ErrorCode::Forbidden));
    let mut almost = key(1);
    almost.bytes[31] = 0;
    assert_eq!(authorize(&almost, &key(1)), Err(ErrorCode::Forbidden));
}

#[test]
fn record_sizes() {
    assert_eq!(tweet_space(), 1376);
    assert_eq!(Tweet::LEN, 1376);
    assert_eq!(user_space(), 72);
    assert_eq!(User::LEN, 72);
}

#[test]
fn slot_and_owner_checked_before_texts() {
    let mut store = PostStore::new(program());
    let address = send(&mut store, 0xA, "n1", "hi", "hello").unwrap();
    let long = "x".repeat(51);
    let over = "c".repeat(281);
    assert_eq!(send(&mut store, 0xA, "n1", &long, "c"), Err(ErrorCode::AlreadyExists));
    assert_eq!(send(&mut store, 0xA, "n1", "t", &over), Err(ErrorCode::AlreadyExists));
    assert_eq!(upd(&mut store, address, 0xB, &long, "ok"), Err(ErrorCode::Forbidden));
    assert_eq!(upd(&mut store, address, 0xB, "y", &over), Err(ErrorCode::Forbidden));
    assert_eq!(upd(&mut store, key(9), 0xA, &long, "ok"), Err(ErrorCode::NotFound));
    assert_eq!(store.get(&address).unwrap().topic, "hi");
    let ctx = DeleteTweet { tweet: address, author: key(0xA) };
    assert_eq!(delete_tweet(&mut store, &ctx), Ok(()));
    assert_eq!(upd(&mut store, address, 0xA, &long, "ok"), Err(ErrorCode::NotFound));
    assert_eq!(upd(&mut store, address, 0xB, "y", "ok"), Err(ErrorCode::NotFound));
}
