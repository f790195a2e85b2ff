use vstd::prelude::*;
use crate::errors::Error;
use crate::hvz::pages::{fill_login_form, login_form_read};
use crate::pattern::{join_url, url_host, url_host_of, url_joined};
use crate::text::{lit, same_text};

verus! {

/// The website's host.
pub open spec fn hvz_host() -> Seq<char> {
    "hvz.gatech.edu"@
}

/// The single sign-on's host.
pub open spec fn login_host() -> Seq<char> {
    "login.gatech.edu"@
}

/// The page that shows whether the session is logged in.
pub open spec fn rules_url() -> Seq<char> {
    "https://hvz.gatech.edu/rules/"@
}

/// The sign-on page that leads back to the rules.
pub open spec fn cas_url() -> Seq<char> {
    "https://login.gatech.edu/cas/login?service=https%3a%2f%2fhvz.gatech.edu%2frules%2f"@
}

/// A session is reused for 20 minutes after its login.
pub open spec fn session_fresh(now: int, last_login: int) -> bool {
    now - last_login < 1200
}

/// A login in progress: which response it waits for.
#[derive(Clone, Copy, Debug, PartialEq, Eq, Structural)]
pub enum LoginState {
    /// The rules page, fetched to see where it leads.
    Landing,
    /// The sign-on page, fetched to fill its form.
    LoginPage,
    /// The reply to the first posted form.
    Posted,
    /// The sign-on page, fetched again to fill its form again.
    RetryPage,
    /// The reply to a form posted again.
    RetryPosted,
    /// The page a redirection led to.
    Redirected,
    /// The rules page, fetched to check the login.
    Checking,
    /// Logged in.
    Done,
    /// Given up.
    Failed,
}

/// A response, as the login reads it: the address it came from, its status, its `Location`
/// header and its body.
pub struct LoginEvent {
    pub url: String,
    pub status: u16,
    pub location: Option<String>,
    pub body: String,
}

/// What the login asks for next.
pub enum LoginAction {
    /// Fetch a page; an error status may come back when `canfail`.
    Get { url: String, canfail: bool },
    /// Post a form; an error status may come back when `canfail`.
    Post { url: String, form: Vec<(String, String)>, canfail: bool },
    /// The session is logged in.
    Finish,
    /// The login failed.
    Fail(Error),
}

/// Whether a status is a success or a redirection.
pub open spec fn status_ok(status: u16) -> bool {
    200 <= status < 400
}

/// Where a response redirects to: its `Location`, read against its address.
pub open spec fn redirect_of(ev: LoginEvent) -> Option<Seq<char>> {
    match ev.location {
        Some(l) => url_joined(ev.url@, l@),
        None => None,
    }
}

/// Whether `a` posts the login form of page `body` filled with the credentials (or fails as
/// filling it fails), and `next` follows.
pub open spec fn posts_form(user: Seq<char>, pass: Seq<char>, body: Seq<char>, a: LoginAction, next: LoginState, then: LoginState) -> bool {
    match a {
        LoginAction::Post { url, form, canfail } => canfail && next == then && login_form_read(
            user,
            pass,
            body,
            Ok::<(Vec<(String, String)>, String), Error>((form, url)),
        ),
        LoginAction::Fail(e) => next == LoginState::Failed && login_form_read(user, pass, body, Err::<(Vec<(String, String)>, String), Error>(e)),
        _ => false,
    }
}

/// Whether `a` fetches `url`, with `canfail`.
pub open spec fn gets(a: LoginAction, url: Seq<char>, canfail: bool) -> bool {
    a matches LoginAction::Get { url: u, canfail: c } && u@ == url && c == canfail
}

/// Whether `a` fails with wrong credentials.
pub open spec fn fails_creds(a: LoginAction) -> bool {
    a matches LoginAction::Fail(e) && e is GaTechCreds
}

/// Following redirections: to where the response leads, else to the check of the rules page.
pub open spec fn follows_redirect(ev: LoginEvent, a: LoginAction, next: LoginState) -> bool {
    match redirect_of(ev) {
        Some(loc) => gets(a, loc, true) && next == LoginState::Redirected,
        None => gets(a, rules_url(), true) && next == LoginState::Checking,
    }
}

/// After a posted form: on the website, or redirected there, the redirections are followed;
/// else the sign-on page is fetched again.
pub open spec fn after_post(ev: LoginEvent, a: LoginAction, next: LoginState) -> bool {
    if url_host_of(ev.url@) == Some(hvz_host()) || (redirect_of(ev) matches Some(loc) && url_host_of(loc) == Some(hvz_host())) {
        follows_redirect(ev, a, next)
    } else {
        gets(a, cas_url(), true) && next == LoginState::RetryPage
    }
}

/// One step of the login: what the response `ev` to the request of state `state` leads to.
pub open spec fn login_step(state: LoginState, user: Seq<char>, pass: Seq<char>, ev: LoginEvent, a: LoginAction, next: LoginState) -> bool {
    match state {
        LoginState::Landing => if url_host_of(ev.url@) == Some(hvz_host()) {
            gets(a, rules_url(), true) && next == LoginState::Checking
        } else if url_host_of(ev.url@) == Some(login_host()) {
            posts_form(user, pass, ev.body@, a, next, LoginState::Posted)
        } else {
            gets(a, cas_url(), false) && next == LoginState::LoginPage
        },
        LoginState::LoginPage => posts_form(user, pass, ev.body@, a, next, LoginState::Posted),
        LoginState::Posted => after_post(ev, a, next),
        LoginState::RetryPage => posts_form(user, pass, ev.body@, a, next, LoginState::RetryPosted),
        LoginState::RetryPosted => if !status_ok(ev.status) {
            fails_creds(a) && next == LoginState::Failed
        } else {
            after_post(ev, a, next)
        },
        LoginState::Redirected => if !status_ok(ev.status) {
            fails_creds(a) && next == LoginState::Failed
        } else {
            follows_redirect(ev, a, next)
        },
        LoginState::Checking => if url_host_of(ev.url@) == Some(hvz_host()) {
            a is Finish && next == LoginState::Done
        } else {
            fails_creds(a) && next == LoginState::Failed
        },
        LoginState::Done => a is Finish && next == LoginState::Done,
        LoginState::Failed => fails_creds(a) && next == LoginState::Failed,
    }
}

/// A session of the website: the credentials and when it last logged in (seconds).
pub struct HvZScraper {
    pub username: String,
    pub password: String,
    pub last_login: i64,
}

/// A login under way.
pub struct Login {
    pub state: LoginState,
}

fn is_host(u: &str, host: &str) -> (b: bool)
    ensures
        b == (url_host_of(u@) == Some(host@)),
{
    match url_host(u) {
        Some(h) => same_text(h.as_str(), host),
        None => false,
    }
}

fn redirect(ev: &LoginEvent) -> (r: Option<String>)
    ensures
        match r {
            Some(l) => redirect_of(*ev) == Some(l@),
            None => redirect_of(*ev) is None,
        },
{
    match &ev.location {
        Some(l) => match join_url(ev.url.as_str(), l.as_str()) {
            Ok(u) => Some(u),
            Err(_) => None,
        },
        None => None,
    }
}

fn get(url: &str, canfail: bool) -> (a: LoginAction)
    ensures
        gets(a, url@, canfail),
{
    LoginAction::Get { url: lit(url), canfail }
}

fn fail_creds() -> (a: LoginAction)
    ensures
        fails_creds(a),
{
    LoginAction::Fail(Error::GaTechCreds)
}

impl HvZScraper {
    /// A session that has never logged in: its last login counts as 20 minutes before `now`.
    pub fn new(username: String, password: String, now: i64) -> (s: HvZScraper)
        requires
            now >= i64::MIN + 1200,
        ensures
            s.username == username,
            s.password == password,
            s.last_login == now - 1200,
    {
        HvZScraper { username, password, last_login: now - 1200 }
    }

    /// Whether the session must log in again at `now`: its login is 20 minutes old.
    pub fn needs_login(&self, now: i64) -> (b: bool)
        ensures
            b == !session_fresh(now as int, self.last_login as int),
    {
        !((now as i128) - (self.last_login as i128) < 1200)
    }

    /// Records a login at `now`.
    pub fn logged_in(&mut self, now: i64)
        ensures
            final(self).last_login == now,
            final(self).username == old(self).username,
            final(self).password == old(self).password,
    {
        self.last_login = now;
    }

    /// Starts logging in at `now`: a session under 20 minutes old is kept as it is, and no
    /// request is made; else the rules page is fetched to see where it leads.
    pub fn login(&self, now: i64) -> (r: Option<(Login, LoginAction)>)
        ensures
            r is None <==> session_fresh(now as int, self.last_login as int),
            r matches Some((l, a)) ==> l.state == LoginState::Landing && gets(a, rules_url(), true),
    {
        if !self.needs_login(now) {
            return None;
        }
        Some((Login { state: LoginState::Landing }, get("https://hvz.gatech.edu/rules/", true)))
    }

    fn post_form(&self, body: &str, then: LoginState) -> (r: (LoginAction, LoginState))
        ensures
            posts_form(self.username@, self.password@, body@, r.0, r.1, then),
    {
        match fill_login_form(self.username.as_str(), self.password.as_str(), body) {
            Ok((form, url)) => (LoginAction::Post { url, form, canfail: true }, then),
            Err(e) => (LoginAction::Fail(e), LoginState::Failed),
        }
    }

    fn follow(ev: &LoginEvent) -> (r: (LoginAction, LoginState))
        ensures
            follows_redirect(*ev, r.0, r.1),
    {
        match redirect(ev) {
            Some(loc) => (get(loc.as_str(), true), LoginState::Redirected),
            None => (get("https://hvz.gatech.edu/rules/", true), LoginState::Checking),
        }
    }

    fn after_post(ev: &LoginEvent) -> (r: (LoginAction, LoginState))
        ensures
            after_post(*ev, r.0, r.1),
    {
        let home = is_host(ev.url.as_str(), "hvz.gatech.edu");
        let led_home = match redirect(ev) {
            Some(loc) => is_host(loc.as_str(), "hvz.gatech.edu"),
            None => false,
        };
        if home || led_home {
            Self::follow(ev)
        } else {
            (get("https://login.gatech.edu/cas/login?service=https%3a%2f%2fhvz.gatech.edu%2frules%2f", true), LoginState::RetryPage)
        }
    }

    /// Takes in the response to the login's last request and gives the next request, as
    /// `login_step` says.
    pub fn login_step(&self, login: &mut Login, ev: &LoginEvent) -> (a: LoginAction)
        ensures
            login_step(old(login).state, self.username@, self.password@, *ev, a, final(login).state),
    {
        let ok = 200 <= ev.status && ev.status < 400;
        let (a, next) = match login.state {
            LoginState::Landing => {
                if is_host(ev.url.as_str(), "hvz.gatech.edu") {
                    (get("https://hvz.gatech.edu/rules/", true), LoginState::Checking)
                } else if is_host(ev.url.as_str(), "login.gatech.edu") {
                    self.post_form(ev.body.as_str(), LoginState::Posted)
                } else {
                    (get("https://login.gatech.edu/cas/login?service=https%3a%2f%2fhvz.gatech.edu%2frules%2f", false), LoginState::LoginPage)
                }
            },
            LoginState::LoginPage => self.post_form(ev.body.as_str(), LoginState::Posted),
            LoginState::Posted => Self::after_post(ev),
            LoginState::RetryPage => self.post_form(ev.body.as_str(), LoginState::RetryPosted),
            LoginState::RetryPosted => {
                if !ok {
                    (fail_creds(), LoginState::Failed)
                } else {
                    Self::after_post(ev)
                }
            },
            LoginState::Redirected => {
                if !ok {
                    (fail_creds(), LoginState::Failed)
                } else {
                    Self::follow(ev)
                }
            },
            LoginState::Checking => {
                if is_host(ev.url.as_str(), "hvz.gatech.edu") {
                    (LoginAction::Finish, LoginState::Done)
                } else {
                    (fail_creds(), LoginState::Failed)
                }
            },
            LoginState::Done => (LoginAction::Finish, LoginState::Done),
            LoginState::Failed => (fail_creds(), LoginState::Failed),
        };
        login.state = next;
        a
    }
}

/// What a response's status means for a request: 509 is the website's bandwidth limit; an
/// error status (400 to 599) fails the request unless it `canfail`.
pub fn check_status(status: u16, canfail: bool) -> (r: Result<(), Error>)
    ensures
        status == 509 ==> (r matches Err(e) && e is BandwidthLimitExceeded),
        status != 509 && !canfail && 400 <= status < 600 ==> (r matches Err(e) && (e matches Error::HttpError(c) && c == status)),
        status != 509 && (canfail || !(400 <= status < 600)) ==> r is Ok,
{
    if status == 509 {
        Err(Error::BandwidthLimitExceeded)
    } else if !canfail && 400 <= status && status < 600 {
        Err(Error::HttpError(status))
    } else {
        Ok(())
    }
}

} // verus!
