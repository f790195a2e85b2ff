use groupme_hvz_rs::board::Board;
use groupme_hvz_rs::errors::Error;
use groupme_hvz_rs::groupme::api::{check_empty_body, check_envelope_status, check_http_status, clamp, Groups};
use groupme_hvz_rs::groupme::{
    post_fallback, post_mentioning, post_without_fallback, Attachment, Bot, ConversationId, Group, GroupListing,
    GroupMessagesInfo, Member, Message, MessageSelector, Slurp,
};
use groupme_hvz_rs::groupme_syncer::GroupmeSyncer;
use groupme_hvz_rs::hvz::{Faction, Killboard, Player};
use groupme_hvz_rs::hvz_syncer::HvZSyncer;
use groupme_hvz_rs::order::Order;
use groupme_hvz_rs::syncer::{check_write, comm_list, update_list, write_statement, Comm};
use groupme_hvz_rs::conduit_to_groupme::ConduitHvZToGroupme;
use groupme_hvz_rs::worker::{choose_groups, next_tick, stops_worker, tick_end, TickEnd, TickPart};

fn member(id: &str, user_id: &str, nickname: &str) -> Member {
    Member {
        id: id.to_string(),
        user_id: user_id.to_string(),
        nickname: nickname.to_string(),
        muted: false,
        image_url: None,
        autokicked: false,
        app_installed: None,
    }
}

fn group(id: &str, name: &str, creator: &str, members: Vec<Member>) -> Group {
    Group {
        id: id.to_string(),
        group_id: id.to_string(),
        name: name.to_string(),
        description: None,
        image_url: None,
        creator_user_id: creator.to_string(),
        created_at: 0,
        updated_at: 0,
        share_url: None,
        office_mode: false,
        phone_number: String::new(),
        members,
        messages: GroupMessagesInfo { count: 0, last_message_id: String::new(), last_message_created_at: 0 },
    }
}

fn message(id: &str) -> Message {
    Message {
        id: id.to_string(),
        source_guid: String::new(),
        created_at: 0,
        user_id: "u".to_string(),
        recipient_id: None,
        group_id: None,
        name: "n".to_string(),
        text: None,
        system: None,
        favorited_by: vec![],
    }
}

fn player(gtname: &str, playername: &str) -> Player {
    Player { gtname: gtname.to_string(), playername: playername.to_string(), faction: Faction::Human, kb_gtname: None }
}

fn names(v: &[Player]) -> Vec<String> {
    v.iter().map(|p| p.playername.clone()).collect()
}

#[test]
fn comm_finds_additions_and_deletions() {
    let new = vec![player("a", "A"), player("c", "C"), player("d", "D")];
    let old = vec![player("a", "A"), player("b", "B"), player("d", "D")];
    let (all, adds, dels) = comm_list(new, &old, true);
    assert_eq!(names(&all), vec!["A", "C", "D"]);
    assert_eq!(names(&adds), vec!["C"]);
    assert_eq!(names(&dels), vec!["B"]);
    let kept = update_list(vec![player("a", "A")], &old, false);
    assert_eq!(names(&kept.all), vec!["A", "B", "D"]);
    assert!(kept.write_back);
    let same = update_list(old.iter().map(|p| player(&p.gtname, &p.playername)).collect(), &old, true);
    assert!(same.additions.is_empty() && same.deletions.is_empty());
    assert!(!same.write_back);
    assert_eq!(names(&same.all), names(&old));
}

#[test]
fn hvz_syncer_keeps_sections_and_merges() {
    let mut s = HvZSyncer::new(Board::new(), Board::new(), Board::new());
    assert_eq!(s.killboard.get(&Faction::Human).map(|v| v.len()), Some(0));
    assert_eq!(s.chatboard.get(&Faction::General).map(|v| v.len()), Some(0));
    assert!(s.killboard.get(&Faction::Admin).is_none());
    let mut fetched: Killboard = Board::new();
    fetched.insert(Faction::Human, vec![player("a", "A")]);
    let changes = s.update_killboard(fetched);
    assert_eq!(changes.additions.get(&Faction::Human).map(|v| names(v)), Some(vec!["A".to_string()]));
    assert!(changes.write_back);
    let mut again: Killboard = Board::new();
    again.insert(Faction::Human, vec![player("a", "A"), player("b", "B")]);
    let (added, write_back) = s.new_zombies(again);
    assert_eq!(names(&added), vec!["B"]);
    assert!(write_back);
    assert_eq!(s.killboard.get(&Faction::Human).map(|v| v.len()), Some(2));
    assert_eq!(s.killboard.get(&Faction::Zombie).map(|v| v.len()), Some(0));
}

#[test]
fn groupme_syncer_replays_nothing_on_cold_start() {
    let mut s = GroupmeSyncer::new(group("g1", "G", "1", vec![]), None);
    assert!(s.selector().is_none());
    assert_eq!(s.storage_key(), "g1last_message_id");
    let first = s.update_messages(vec![message("10"), message("11")]);
    assert!(first.is_empty());
    assert_eq!(s.last_message_id.as_deref(), Some("11"));
    assert!(matches!(s.selector(), Some(MessageSelector::After(ref a)) if a == "11"));
    let next = s.update_messages(vec![message("12")]);
    assert_eq!(next.len(), 1);
    let none = s.update_messages(vec![]);
    assert!(none.is_empty());
    assert_eq!(s.last_message_id.as_deref(), Some("12"));
}

#[test]
fn database_writes_are_checked() {
    assert_eq!(write_statement(true), "UPDATE blobs SET val = $2 WHERE key = $1");
    assert_eq!(write_statement(false), "INSERT INTO blobs(key,val) VALUES($1,$2)");
    assert!(matches!(check_write("k", 1), Ok(1)));
    match check_write("killboard", 0) {
        Err(Error::DbWriteNopped(k)) => assert_eq!(k, "killboard"),
        _ => panic!("expected a failed write"),
    }
}

#[test]
fn members_are_named_as_on_the_killboard() {
    assert_eq!(Member::canonical_name_of("Oso Oso"), "David Oso");
    assert_eq!(Member::canonical_name_of("George \"Buzz\" Burdell"), "George Burdell");
    assert_eq!(Member::canonical_name_of("  Ann  B.  Lee "), "Ann Lee");
    assert_eq!(Member::canonical_name_of("Cher"), "Cher");
}

#[test]
fn removal_needs_a_member() {
    let g = group("7", "G", "1", vec![member("m1", "1", "One"), member("m2", "2", "Two")]);
    let q = g.remove(member("x", "2", "Two")).expect("member two is there");
    assert_eq!(q.segments, vec!["groups", "7", "members", "m2", "remove"]);
    match g.remove(member("x", "9", "Nine")) {
        Err(Error::GroupRemovalFailed(m)) => assert_eq!(m.user_id, "9"),
        _ => panic!("expected a failed removal"),
    }
    assert_eq!(g.member_uids(), vec!["1", "2"]);
    assert_eq!(g.member_uids_except("1"), vec!["2"]);
    assert_eq!(Groups::show("7").segments, vec!["groups", "7"]);
    let url = Groups::show("7").url("tok").expect("the URL builds");
    assert_eq!(url, "https://api.groupme.com/v3/groups/7?token=tok");
}

#[test]
fn mentions_pad_the_text() {
    let uids = vec!["1".to_string(), "2".to_string(), "3".to_string()];
    let (text, atts) = post_mentioning("hi", &uids, None);
    assert_eq!(text, "hi ");
    assert_eq!(atts.len(), 1);
    match &atts[0] {
        Attachment::Mentions { user_ids, loci } => {
            assert_eq!(user_ids, &uids);
            assert_eq!(loci, &vec![(0, 1), (1, 1), (2, 1)]);
        },
        _ => panic!("expected mentions"),
    }
}

#[test]
fn long_texts_fall_back() {
    let long = "x".repeat(1000);
    assert!(matches!(post_without_fallback(long.clone(), None), Err(Error::TextTooLong(..))));
    assert!(post_without_fallback("short".to_string(), None).is_ok());
    let (head, rest) = post_fallback(&format!("Title\n{}", long));
    assert_eq!(head, "Title");
    assert_eq!(rest, "");
    let (head, rest) = post_fallback(&long);
    assert_eq!(head, "(Long message was converted into image.)");
    assert_eq!(rest, long);
}

#[test]
fn slurping_pages_before_arrives_oldest_first() {
    let mut s = Slurp::new(None);
    assert!(s.feed(vec![message("3"), message("2")]));
    assert!(!s.feed(vec![]));
    let all = s.finish();
    let ids: Vec<&str> = all.iter().map(|m| m.id.as_str()).collect();
    assert_eq!(ids, vec!["2", "3"]);
}

#[test]
fn status_checks() {
    assert!(check_http_status(200).is_ok());
    assert!(matches!(check_http_status(404), Err(Error::HttpError(404))));
    assert!(check_envelope_status(200).is_ok());
    assert!(matches!(check_envelope_status(201), Err(Error::HttpError(201))));
    assert!(check_empty_body("  \n").is_ok());
    assert!(matches!(check_empty_body("{}"), Err(Error::NonEmptyResponse(_))));
    assert_eq!(clamp(150, 1, 100), 100);
    assert_eq!(clamp(0, 1, 100), 1);
}

#[test]
fn worker_picks_its_groups() {
    let groups = vec![
        group("a", "Humans", "9", vec![member("1", "1", "x"), member("2", "2", "y")]),
        group("b", "CnC", "me", vec![member("3", "me", "me")]),
        group("c", "Humans", "5", vec![member("1", "1", "x"), member("2", "2", "y"), member("4", "4", "z")]),
    ];
    assert_eq!(choose_groups(&groups, "Humans", "CnC", "me"), (Some(2), Some(1)));
    assert_eq!(choose_groups(&groups, "Zombies", "CnC", "me"), (None, Some(1)));
    assert_eq!(next_tick(32767), 0);
    assert_eq!(next_tick(5), 6);
    assert!(stops_worker(&Error::GaTechCreds));
    assert!(!stops_worker(&Error::Css));
}

#[test]
fn groups_are_listed_page_by_page() {
    let mut listing = GroupListing::new();
    assert_eq!(listing.page, 1);
    let q = listing.request();
    assert_eq!(q.segments, vec!["groups"]);
    assert_eq!(q.query, vec![("page".to_string(), "1".to_string()), ("per_page".to_string(), "500".to_string())]);
    assert!(listing.feed(vec![group("a", "A", "1", vec![]), group("b", "B", "1", vec![])]));
    assert_eq!(listing.page, 2);
    assert_eq!(listing.request().query[0].1, "2");
    assert!(!listing.feed(vec![]));
    assert_eq!(listing.page, 2);
    let ids: Vec<String> = listing.collected.iter().map(|g| g.group_id.clone()).collect();
    assert_eq!(ids, vec!["a", "b"]);
}

#[test]
fn request_bodies_say_what_is_sent() {
    let g = group("77", "G", "1", vec![]);
    let (q, body) = g.update(None, Some("{}".to_string()), None, None);
    assert_eq!(q.segments, vec!["groups", "77", "update"]);
    assert_eq!(body.description.as_deref(), Some("{}"));
    assert!(body.name.is_none() && body.image_url.is_none() && body.share.is_none());
    let (q, body) = Group::create("CnC".to_string(), None, None, Some(false));
    assert_eq!(q.segments, vec!["groups"]);
    assert_eq!(body.name, "CnC");
    assert_eq!(body.share, Some(false));
    let (q, body) = Bot::create(&g, "Vox Populi".to_string(), None, None, "42");
    assert_eq!(q.segments, vec!["bots"]);
    assert_eq!(body.group_id, "77");
    assert_eq!(body.callback_url.as_deref(), Some("http://example.com/?42#Vox%20Populi"));
    let bot = Bot { bot_id: "b9".to_string(), group_id: "77".to_string(), name: "Vox Populi".to_string(), avatar_url: None, callback_url: None };
    let (q, body) = bot.destroy();
    assert_eq!(q.segments, vec!["bots", "destroy"]);
    assert_eq!(body.bot_id, "b9");
    assert_eq!(g.conversation_id("42", "77"), "77");
    assert_eq!(member("m1", "5", "x").conversation_id("42", "5"), "42+5");
}

#[test]
fn ticks_try_every_part_and_end_with_the_first_failure() {
    let c = ConduitHvZToGroupme::new(None, false).conduit;
    assert_eq!(c.tick_parts(1000), vec![TickPart::Cnc, TickPart::GroupmeMessages, TickPart::Killboard, TickPart::Panelboard, TickPart::Chatboard]);
    assert_eq!(c.tick_parts(900), vec![TickPart::Cnc, TickPart::GroupmeMessages]);
    assert!(matches!(tick_end(vec![Ok(()), Ok(())]), TickEnd::Done));
    assert!(matches!(tick_end(vec![Ok(()), Err(Error::BandwidthLimitExceeded), Err(Error::Css)]), TickEnd::Throttled));
    assert!(matches!(tick_end(vec![Err(Error::Css), Err(Error::BandwidthLimitExceeded)]), TickEnd::Failed(Error::Css)));
}

#[test]
fn comm_steps_come_out_strictly_increasing() {
    let mut c = Comm::new(
        vec![player("a", "A"), player("c", "C"), player("e", "E")],
        vec![player("b", "B"), player("c", "C"), player("f", "F")],
    );
    let mut names = Vec::new();
    let mut common = Vec::new();
    while let Some((o, p)) = c.next() {
        if o == Order::Equal {
            common.push(p.playername.clone());
        }
        names.push(p.playername);
    }
    assert_eq!(names, vec!["A", "B", "C", "E", "F"]);
    assert_eq!(common, vec!["C"]);
    let (all, adds, dels) = comm_list(vec![1u64, 3, 5, 8], &vec![2u64, 3, 8, 9], true);
    assert_eq!(all, vec![1u64, 3, 5, 8]);
    assert_eq!(adds, vec![1u64, 5]);
    assert_eq!(dels, vec![2u64, 9]);
}
