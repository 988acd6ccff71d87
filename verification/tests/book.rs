use flatbuf_pool::excerpt::longest;
use flatbuf_pool::excerpt::ImportantExcerpt;
use flatbuf_pool::summary::Article;
use flatbuf_pool::summary::Summary;
use flatbuf_pool::summary::Tweet;

#[test]
fn article_uses_generic_teaser() {
    let article = Article {
        headline: String::from("Headline!"),
        content: String::from("Article"),
    };
    assert_eq!(String::from("(Read more...)"), article.summarize());
}

#[test]
fn tweet_summarizes_with_username() {
    let tweet = Tweet {
        username: String::from("Sam I am"),
        content: String::from("tweet, tweet, tweet!"),
    };
    assert_eq!(String::from("tweet, tweet, tweet! @Sam I am"), tweet.summarize());
}

#[test]
fn longest_picks_longer_slice() {
    let a = "this is a sentence.";
    let b = "This is also a sentence.";
    assert_eq!("This is also a sentence.", longest(a, b));
}

#[test]
fn longest_with_different_lifetimes() {
    let s1 = String::from("long string is long");
    {
        let s2 = String::from("xyz");
        assert_eq!(&String::from("long string is long"), longest(&s1, &s2));
    }
}

#[test]
fn longest_ties_go_to_second() {
    assert_eq!("bcd", longest("abc", "bcd"));
}

#[test]
fn excerpt_keeps_part() {
    let novel = String::from("Call me Ishmael.  Some years ago...");
    let mut lines = novel.split('.');
    let first_sentence = lines.next().unwrap();
    assert_eq!("Call me Ishmael", first_sentence);
    let i = ImportantExcerpt::new(first_sentence);
    assert_eq!("Call me Ishmael", i.part());
}
