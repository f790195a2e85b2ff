use groupme_hvz_rs::errors::Error;
use groupme_hvz_rs::hvz::login::{check_status, HvZScraper, LoginAction, LoginEvent, LoginState};
use groupme_hvz_rs::render::{chunkify, render_lines};

fn ev(url: &str, status: u16, location: Option<&str>, body: &str) -> LoginEvent {
    LoginEvent { url: url.to_string(), status, location: location.map(String::from), body: body.to_string() }
}

const FORM: &str = "<form action=\"/cas/login\"><input type=\"hidden\" name=\"lt\" value=\"1\"></form>";

#[test]
fn session_is_reused_for_twenty_minutes() {
    let mut s = HvZScraper::new("u".to_string(), "p".to_string(), 10_000);
    assert!(s.needs_login(10_000));
    s.logged_in(10_000);
    assert!(!s.needs_login(11_199));
    assert!(s.needs_login(11_200));
    assert!(s.login(11_199).is_none());
    assert_eq!(s.last_login, 10_000);
    assert!(s.login(11_200).is_some());
}

#[test]
fn already_logged_in_goes_straight_to_the_check() {
    let s = HvZScraper::new("u".to_string(), "p".to_string(), 0);
    let (mut login, first) = s.login(0).unwrap();
    assert!(matches!(first, LoginAction::Get { ref url, canfail: true } if url == "https://hvz.gatech.edu/rules/"));
    let a = s.login_step(&mut login, &ev("https://hvz.gatech.edu/rules/", 200, None, ""));
    assert!(matches!(a, LoginAction::Get { ref url, .. } if url == "https://hvz.gatech.edu/rules/"));
    assert_eq!(login.state, LoginState::Checking);
    let done = s.login_step(&mut login, &ev("https://hvz.gatech.edu/rules/", 200, None, ""));
    assert!(matches!(done, LoginAction::Finish));
}

#[test]
fn sign_on_posts_the_form_and_follows_redirects() {
    let s = HvZScraper::new("gb3".to_string(), "pw".to_string(), 0);
    let (mut login, _) = s.login(0).unwrap();
    let a = s.login_step(&mut login, &ev("https://login.gatech.edu/cas/login?service=x", 200, None, FORM));
    match a {
        LoginAction::Post { url, form, canfail } => {
            assert_eq!(url, "https://login.gatech.edu/cas/login");
            assert!(canfail);
            assert_eq!(form.len(), 3);
        },
        _ => panic!("expected the form to be posted"),
    }
    assert_eq!(login.state, LoginState::Posted);
    let a = s.login_step(&mut login, &ev("https://login.gatech.edu/cas/login", 302, Some("https://hvz.gatech.edu/rules/?ticket=1"), ""));
    assert!(matches!(a, LoginAction::Get { ref url, .. } if url == "https://hvz.gatech.edu/rules/?ticket=1"));
    assert_eq!(login.state, LoginState::Redirected);
    let a = s.login_step(&mut login, &ev("https://hvz.gatech.edu/rules/?ticket=1", 200, None, ""));
    assert!(matches!(a, LoginAction::Get { ref url, .. } if url == "https://hvz.gatech.edu/rules/"));
    assert_eq!(login.state, LoginState::Checking);
    let bad = s.login_step(&mut login, &ev("https://login.gatech.edu/cas/login", 200, None, ""));
    assert!(matches!(bad, LoginAction::Fail(Error::GaTechCreds)));
}

#[test]
fn elsewhere_fetches_the_sign_on_page() {
    let s = HvZScraper::new("u".to_string(), "p".to_string(), 0);
    let (mut login, _) = s.login(0).unwrap();
    let a = s.login_step(&mut login, &ev("https://example.org/", 200, None, ""));
    assert!(matches!(a, LoginAction::Get { canfail: false, .. }));
    assert_eq!(login.state, LoginState::LoginPage);
    let f = s.login_step(&mut login, &ev("https://login.gatech.edu/", 200, None, "<p>nothing</p>"));
    assert!(matches!(f, LoginAction::Fail(Error::Scraper(_))));
    assert_eq!(login.state, LoginState::Failed);
}

#[test]
fn statuses() {
    assert!(matches!(check_status(509, true), Err(Error::BandwidthLimitExceeded)));
    assert!(matches!(check_status(404, false), Err(Error::HttpError(404))));
    assert!(check_status(404, true).is_ok());
    assert!(check_status(200, false).is_ok());
}

#[test]
fn chunks_wrap_words() {
    let parts = chunkify("aaa bbb ccc\nd", 10);
    assert_eq!(parts, vec!["aaa bbb ", "\n", "ccc ", "\n", "d ", "\n"]);
    assert_eq!(chunkify("", 80), Vec::<String>::new());
    assert_eq!(chunkify("", 0), Vec::<String>::new());
    assert_eq!(chunkify("  \n", 1), vec!["", "\n"]);
    let lines = render_lines("hello   world\n\nbye");
    assert_eq!(lines, vec!["hello world", "", "bye"]);
}
