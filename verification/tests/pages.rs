use groupme_hvz_rs::errors::Error;
use groupme_hvz_rs::hvz::pages::{
    chat_audiences, chat_from_page, chat_time_text, chat_post_form, fill_login_form, killboard_from_page, mission_fields,
    panel_page_url, panels_from_page, profile_url,
};
use groupme_hvz_rs::hvz::{Faction, MissionWW, PanelKind, Player};
use groupme_hvz_rs::scrape::Link;

const KILLBOARD: &str = "<html><body>\
<div id=\"hkillboard\"><table>\
<tr><td><a href=\"/profile/?gtname=zb9\">Zoe Brown</a></td><td>x</td><td></td></tr>\
<tr><td><a href=\"/profile/?gtname=ab1\"> Al Brown </a></td><td>x</td><td></td></tr>\
</table></div>\
<div id=\"zkillboard\"><table>\
<tr><td><a href=\"/profile/?gtname=cz3\">Cy Zed</a></td><td>Mon</td><td> the admins </td></tr>\
</table></div>\
</body></html>";

#[test]
fn killboard_page_is_read_and_sorted() {
    let kb = killboard_from_page(KILLBOARD).expect("the page reads");
    let humans = kb.get(&Faction::Human).expect("humans");
    let names: Vec<&str> = humans.iter().map(|p| p.playername.as_str()).collect();
    assert_eq!(names, vec!["Al Brown", "Zoe Brown"]);
    assert_eq!(humans[0].gtname, "ab1");
    assert_eq!(humans[0].faction, Faction::Human);
    let zombies = kb.get(&Faction::Zombie).expect("zombies");
    assert_eq!(zombies.len(), 1);
    assert_eq!(zombies[0].kb_gtname.as_deref(), Some("the admins"));
    assert!(kb.get(&Faction::General).is_none());
}

#[test]
fn link_without_target_fails() {
    let link = Link { href: None, text: "X".to_string(), killer: None };
    match Player::from_kb_link(&link) {
        Err(Error::Scraper(s)) => assert_eq!(s, "kb->link->href:Player.gtname"),
        _ => panic!("expected a scraper error"),
    }
    let link = Link { href: Some("/profile/".to_string()), text: "X".to_string(), killer: None };
    match Player::from_chat_link(&link) {
        Err(Error::Scraper(s)) => assert_eq!(s, "join(kb->link->href):Player.gtname"),
        _ => panic!("expected a scraper error"),
    }
}

#[test]
fn chat_rows_are_read() {
    let html = "<table><tr class=\"chat_line\" id=\"chat_line_42\"><td><a href=\"/profile/?gtname=gb3\">George</a></td>\
<td>03/04 12:30</td><td>  hello  </td></tr></table>";
    let msgs = chat_from_page(html, Faction::Human).expect("the rows read");
    assert_eq!(msgs.len(), 1);
    assert_eq!(msgs[0].id, 42);
    assert_eq!(msgs[0].sender.gtname, "gb3");
    assert_eq!(msgs[0].sender.playername, "George");
    assert_eq!(msgs[0].text, "hello");
    assert_eq!(msgs[0].receiver, Faction::Human);
    let bad = "<table><tr class=\"chat_line\" id=\"line_x\"><td></td></tr></table>";
    assert!(matches!(chat_from_page(bad, Faction::Human), Err(Error::Css)));
    let short = "<table><tr class=\"chat_line\" id=\"chat_line_1\"><td><a href=\"/p?gtname=a\">A</a></td></tr></table>";
    match chat_from_page(short, Faction::General) {
        Err(Error::Scraper(s)) => assert_eq!(s, "chat->tr->td"),
        _ => panic!("expected a missing cell"),
    }
}

#[test]
fn mission_particulars_are_read() {
    let text = "\n  Start: Mon 18:00\nEnd: Mon 19:30\n\nlocation: Skiles Walkway\nstart: Tue 09:00\nnote\n";
    let (s, e, l) = mission_fields(text).expect("all three fields");
    assert_eq!(s, "Tue 09:00");
    assert_eq!(e, "Mon 19:30");
    assert_eq!(l, "Skiles Walkway");
    assert!(mission_fields("Start: Mon 18:00\nEnd: Mon 19:00").is_none());
    assert!(MissionWW::from_parts("x".to_string(), Some(1), None).is_none());
    let m = MissionWW::from_parts("x".to_string(), Some(1), Some(2)).expect("both times");
    assert_eq!((m.start, m.end, m.location.as_str()), (1, 2, "x"));
    if let Some(m) = MissionWW::from_p(text) {
        assert_eq!(m.location, "Skiles Walkway");
    }
}

#[test]
fn panels_are_read() {
    let html = "<html><body><div class=\"panel mission\"><div class=\"panel-title\"> Op Nightfall </div>\
<div class=\"panel-body\"> Hold the line. </div></div>\
<div class=\"panel announcement\"><div class=\"panel-title\">Other</div><div class=\"panel-body\">x</div></div></body></html>";
    let panels = panels_from_page(html, PanelKind::Mission).expect("the panel reads");
    assert_eq!(panels.len(), 1);
    assert_eq!(panels[0].title, "Op Nightfall");
    assert_eq!(panels[0].text, "Hold the line.");
    assert_eq!(panels[0].kind, PanelKind::Mission);
    assert!(panels[0].particulars.is_none());
    let untitled = "<div class=\"panel mission\"><div class=\"panel-body\">x</div></div>";
    match panels_from_page(untitled, PanelKind::Mission) {
        Err(Error::Scraper(s)) => assert_eq!(s, "Panel.title"),
        _ => panic!("expected a missing title"),
    }
}

#[test]
fn profile_page_is_read() {
    let html = "<div class=\"page-header\"><h1> George Burdell </h1><h3>Zombie</h3></div>";
    let p = Player::from_document(html).expect("the profile reads");
    assert_eq!(p.playername, "George Burdell");
    assert_eq!(p.faction, Faction::Zombie);
    assert_eq!(p.gtname, "");
    match Player::from_document("<div class=\"page-header\"><h3>Human</h3></div>") {
        Err(Error::Scraper(s)) => assert_eq!(s, "doc->Player.playername"),
        _ => panic!("expected a missing name"),
    }
}

#[test]
fn login_form_is_filled() {
    let html = "<html><body><form action=\"/cas/login?service=x\">\
<input type=\"hidden\" name=\"lt\" value=\"LT-1\">\
<input type=\"checkbox\" name=\"warn\" value=\"true\">\
<input type=\"text\" name=\"username\" value=\"\">\
<input name=\"notype\" value=\"v\">\
<input type=\"submit\" name=\"submit\" value=\"LOGIN\"></form></body></html>";
    let (fields, url) = fill_login_form("gburdell3", "hunter2", html).expect("the form fills");
    let expected: Vec<(String, String)> = vec![
        ("lt".into(), "LT-1".into()),
        ("password".into(), "hunter2".into()),
        ("submit".into(), "LOGIN".into()),
        ("username".into(), "gburdell3".into()),
    ];
    assert_eq!(fields, expected);
    assert_eq!(url, "https://login.gatech.edu/cas/login?service=x");
    match fill_login_form("u", "p", "<p>no form</p>") {
        Err(Error::Scraper(s)) => assert_eq!(s, "login->form"),
        _ => panic!("expected a missing form"),
    }
}

#[test]
fn urls_and_forms() {
    assert_eq!(chat_audiences(Faction::Zombie), vec![Faction::General, Faction::Zombie]);
    assert_eq!(chat_audiences(Faction::Admin), vec![Faction::General]);
    assert_eq!(
        chat_post_form(Faction::General, "hi"),
        vec![("aud".to_string(), "all".to_string()), ("content".to_string(), "hi".to_string())]
    );
    assert_eq!(panel_page_url(PanelKind::Mission), "https://hvz.gatech.edu/missions");
    assert_eq!(profile_url("gb3"), "https://hvz.gatech.edu/profile/?gtname=gb3");
}

#[test]
fn chat_times_are_read_in_the_given_year() {
    assert_eq!(chat_time_text(2017, " 10/31 23:59 "), "2017/10/31 23:59");
    assert_eq!(chat_time_text(-5, "1/2 3:04"), "-5/1/2 3:04");
    assert_eq!(groupme_hvz_rs::text::i32_to_string(0), "0");
}
