use provider_bot::command::Command;
use provider_bot::command::Provide;
use provider_bot::dispatch::Action;
use provider_bot::dispatch::Dispatcher;
use provider_bot::dispatch::Event;
use provider_bot::dispatch::RunError;
use provider_bot::sort::ParseError;
use provider_bot::sort::RedditSort;

fn invoke_command(target: &str, subreddit: &str, sort: RedditSort, n: u32) -> Command {
    Command::new(Provide::BotCall(target.to_string()), subreddit.to_string(), sort, n)
        .expect("command should be accepted")
}

#[test]
fn invoke_replies_to_each_item_in_order() {
    let cmd = invoke_command("botX", "sandboxtest", RedditSort::Hot, 3);
    let mut d = Dispatcher::new(cmd);
    assert_eq!(d.step(Event::Start), Action::Authenticate);
    assert_eq!(
        d.step(Event::AuthOk),
        Action::FetchHot { subreddit: "sandboxtest".to_string(), n: 3 }
    );
    let page = vec!["a1".to_string(), "a2".to_string(), "a3".to_string()];
    assert_eq!(
        d.step(Event::FetchOk(page)),
        Action::Reply { target: "botX".to_string(), item: "a1".to_string() }
    );
    assert_eq!(
        d.step(Event::ReplyOk),
        Action::Reply { target: "botX".to_string(), item: "a2".to_string() }
    );
    assert_eq!(
        d.step(Event::ReplyOk),
        Action::Reply { target: "botX".to_string(), item: "a3".to_string() }
    );
    assert_eq!(d.step(Event::ReplyOk), Action::Finish);
}

#[test]
fn noop_run_makes_no_feed_call() {
    let cmd = Command::new(Provide::Nothing, "random".to_string(), RedditSort::Hot, 1)
        .expect("command should be accepted");
    let mut d = Dispatcher::new(cmd);
    assert_eq!(d.step(Event::Start), Action::Authenticate);
    assert_eq!(d.step(Event::AuthOk), Action::Finish);
}

#[test]
fn unimplemented_sort_aborts_before_any_fetch() {
    for sort in [
        RedditSort::Best,
        RedditSort::New,
        RedditSort::Top,
        RedditSort::Controversial,
        RedditSort::Rising,
    ] {
        let cmd = invoke_command("botX", "random", sort, 5);
        let mut d = Dispatcher::new(cmd);
        assert_eq!(d.step(Event::Start), Action::Authenticate);
        assert_eq!(d.step(Event::AuthOk), Action::Abort(RunError::Unimplemented));
    }
}

#[test]
fn auth_failure_aborts_the_run() {
    let cmd = invoke_command("botX", "random", RedditSort::Hot, 5);
    let mut d = Dispatcher::new(cmd);
    assert_eq!(d.step(Event::Start), Action::Authenticate);
    assert_eq!(d.step(Event::AuthFailed), Action::Abort(RunError::Auth));
    let page = vec!["a1".to_string()];
    assert_eq!(d.step(Event::FetchOk(page)), Action::Nop);
    assert_eq!(d.step(Event::ReplyOk), Action::Nop);
}

#[test]
fn fetch_failure_aborts_the_run() {
    let cmd = invoke_command("botX", "random", RedditSort::Hot, 5);
    let mut d = Dispatcher::new(cmd);
    assert_eq!(d.step(Event::Start), Action::Authenticate);
    assert_eq!(
        d.step(Event::AuthOk),
        Action::FetchHot { subreddit: "random".to_string(), n: 5 }
    );
    assert_eq!(d.step(Event::FetchFailed), Action::Abort(RunError::Fetch));
    assert_eq!(d.step(Event::ReplyOk), Action::Nop);
}

#[test]
fn reply_failure_stops_the_remaining_items() {
    let cmd = invoke_command("botX", "random", RedditSort::Hot, 2);
    let mut d = Dispatcher::new(cmd);
    assert_eq!(d.step(Event::Start), Action::Authenticate);
    assert_eq!(
        d.step(Event::AuthOk),
        Action::FetchHot { subreddit: "random".to_string(), n: 2 }
    );
    let page = vec!["a1".to_string(), "a2".to_string()];
    assert_eq!(
        d.step(Event::FetchOk(page)),
        Action::Reply { target: "botX".to_string(), item: "a1".to_string() }
    );
    assert_eq!(d.step(Event::ReplyFailed), Action::Abort(RunError::Action));
    assert_eq!(d.step(Event::ReplyOk), Action::Nop);
    assert_eq!(d.step(Event::ReplyOk), Action::Nop);
}

#[test]
fn empty_target_is_rejected_at_construction() {
    let r = Command::new(
        Provide::BotCall(String::new()),
        "random".to_string(),
        RedditSort::Hot,
        1,
    );
    assert_eq!(r, Err(ParseError));
}

#[test]
fn empty_target_never_reaches_the_network() {
    let cmd = Command {
        provide: Provide::BotCall(String::new()),
        subreddit: "random".to_string(),
        sort: RedditSort::Hot,
        n: 1,
    };
    let mut d = Dispatcher::new(cmd);
    assert_eq!(d.step(Event::Start), Action::Authenticate);
    assert_eq!(d.step(Event::AuthOk), Action::Abort(RunError::Parse));
}

#[test]
fn empty_page_completes_without_replies() {
    let cmd = invoke_command("botX", "random", RedditSort::Hot, 5);
    let mut d = Dispatcher::new(cmd);
    assert_eq!(d.step(Event::Start), Action::Authenticate);
    assert_eq!(
        d.step(Event::AuthOk),
        Action::FetchHot { subreddit: "random".to_string(), n: 5 }
    );
    assert_eq!(d.step(Event::FetchOk(Vec::new())), Action::Finish);
    assert_eq!(d.step(Event::ReplyOk), Action::Nop);
}

#[test]
fn events_out_of_turn_do_nothing() {
    let cmd = invoke_command("botX", "random", RedditSort::Hot, 5);
    let mut d = Dispatcher::new(cmd);
    assert_eq!(d.step(Event::AuthOk), Action::Nop);
    assert_eq!(d.step(Event::ReplyOk), Action::Nop);
    assert_eq!(d.step(Event::Start), Action::Authenticate);
    assert_eq!(d.step(Event::Start), Action::Nop);
}
