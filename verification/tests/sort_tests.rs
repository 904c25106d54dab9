use provider_bot::sort::ParseError;
use provider_bot::sort::RedditSort;

#[test]
fn parse_is_case_insensitive_on_hot() {
    assert_eq!(RedditSort::from_str("hot"), Ok(RedditSort::Hot));
    assert_eq!(RedditSort::from_str("HOT"), Ok(RedditSort::Hot));
    assert_eq!(RedditSort::from_str("Hot"), Ok(RedditSort::Hot));
    assert_eq!(RedditSort::from_str("hOt"), Ok(RedditSort::Hot));
}

#[test]
fn parse_accepts_all_six_tags() {
    assert_eq!(RedditSort::from_str("best"), Ok(RedditSort::Best));
    assert_eq!(RedditSort::from_str("hot"), Ok(RedditSort::Hot));
    assert_eq!(RedditSort::from_str("new"), Ok(RedditSort::New));
    assert_eq!(RedditSort::from_str("top"), Ok(RedditSort::Top));
    assert_eq!(RedditSort::from_str("controversial"), Ok(RedditSort::Controversial));
    assert_eq!(RedditSort::from_str("rising"), Ok(RedditSort::Rising));
}

#[test]
fn parse_accepts_all_six_tags_in_upper_case() {
    assert_eq!(RedditSort::from_str("BEST"), Ok(RedditSort::Best));
    assert_eq!(RedditSort::from_str("NEW"), Ok(RedditSort::New));
    assert_eq!(RedditSort::from_str("TOP"), Ok(RedditSort::Top));
    assert_eq!(RedditSort::from_str("CONTROVERSIAL"), Ok(RedditSort::Controversial));
    assert_eq!(RedditSort::from_str("RiSiNg"), Ok(RedditSort::Rising));
}

#[test]
fn parse_rejects_anything_else() {
    assert_eq!(RedditSort::from_str(""), Err(ParseError));
    assert_eq!(RedditSort::from_str("hots"), Err(ParseError));
    assert_eq!(RedditSort::from_str("ho"), Err(ParseError));
    assert_eq!(RedditSort::from_str(" hot"), Err(ParseError));
    assert_eq!(RedditSort::from_str("hot "), Err(ParseError));
    assert_eq!(RedditSort::from_str("random"), Err(ParseError));
    assert_eq!(RedditSort::from_str("h\u{00F6}t"), Err(ParseError));
}
