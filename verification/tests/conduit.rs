use groupme_hvz_rs::board::Board;
use groupme_hvz_rs::conduit_to_groupme::boards::{chat_line, KillboardAction};
use groupme_hvz_rs::conduit_to_groupme::bots::BotCache;
use groupme_hvz_rs::conduit_to_groupme::messages::{signature, Route};
use groupme_hvz_rs::conduit_to_groupme::zombies::ZombieRound;
use groupme_hvz_rs::conduit_to_groupme::{
    capitalize, killboard_checkers, nll, parse_cnc, ts_kind, BotRole, CncCommand, CncStep, ConduitHvZToGroupme, RuntimeState, Stamp,
};
use groupme_hvz_rs::groupme::{self, Bot, Group, GroupMessagesInfo, Member};
use groupme_hvz_rs::hvz::{self, Faction, Killboard, Panel, PanelKind, Player, MissionWW};

fn member(id: &str, user_id: &str, nickname: &str) -> Member {
    Member {
        id: id.to_string(),
        user_id: user_id.to_string(),
        nickname: nickname.to_string(),
        muted: false,
        image_url: None,
        autokicked: false,
        app_installed: None,
    }
}

fn group(members: Vec<Member>) -> Group {
    Group {
        id: "77".to_string(),
        group_id: "77".to_string(),
        name: "Humans".to_string(),
        description: None,
        image_url: None,
        creator_user_id: "1".to_string(),
        created_at: 0,
        updated_at: 0,
        share_url: None,
        office_mode: false,
        phone_number: String::new(),
        members,
        messages: GroupMessagesInfo { count: 0, last_message_id: String::new(), last_message_created_at: 0 },
    }
}

fn message(user_id: &str, name: &str, text: &str, created_at: u64) -> groupme::Message {
    groupme::Message {
        id: "m1".to_string(),
        source_guid: "g".to_string(),
        created_at,
        user_id: user_id.to_string(),
        recipient_id: None,
        group_id: Some("77".to_string()),
        name: name.to_string(),
        text: Some(text.to_string()),
        system: None,
        favorited_by: vec![],
    }
}

fn player(gtname: &str, playername: &str, faction: Faction, kb: Option<&str>) -> Player {
    Player { gtname: gtname.to_string(), playername: playername.to_string(), faction, kb_gtname: kb.map(String::from) }
}

fn awake() -> ConduitHvZToGroupme {
    ConduitHvZToGroupme {
        state: RuntimeState { newbs: true, dormant: false, annxs: true, missions: true, throttled_at: 0 },
    }
}

#[test]
fn capitalize_first_letter() {
    assert_eq!(capitalize("human chat"), "Human chat");
    assert_eq!(capitalize(""), "");
    assert_eq!(capitalize("ßa"), "SSa");
}

#[test]
fn nll_lists_naturally() {
    let v = |xs: &[&str]| xs.iter().map(|s| s.to_string()).collect::<Vec<_>>();
    assert_eq!(nll(&v(&[]), None), "");
    assert_eq!(nll(&v(&["a"]), Some(" (resp.)")), "a");
    assert_eq!(nll(&v(&["a", "b"]), None), "a and b");
    assert_eq!(nll(&v(&["a", "b", "c"]), Some(" (resp.)")), "a, b and c (resp.)");
}

#[test]
fn bot_names_and_phrases() {
    assert_eq!(BotRole::Chat(Faction::General).nickname(), "All Chat");
    assert_eq!(BotRole::Killboard(Faction::Zombie).nickname(), "The Messenger");
    assert_eq!(BotRole::Killboard(Faction::Human).phrase_with("Ann", 0), "A warm welcome goes out to Ann.");
    assert_eq!(BotRole::Killboard(Faction::Zombie).phrase_2_with("Ann", "Zed", 5), "Hunh. I guess that Zed turned Ann to the undeath. A grim inevitability.");
    assert_eq!(BotRole::Panel(PanelKind::Mission).phrase_with("Op", 0), "New mission is up! \"Op\". Good luck, everyone. https://hvz.gatech.edu/missions/");
    let p = BotRole::Killboard(Faction::Human).phrase("Ann");
    assert!((0..4).any(|k| BotRole::Killboard(Faction::Human).phrase_with("Ann", k) == p));
}

#[test]
fn commands_parse() {
    assert!(matches!(parse_cnc("!heartbeat please"), Some(CncCommand::Heartbeat)));
    assert!(matches!(parse_cnc("!mic check please"), Some(CncCommand::MicCheck)));
    assert!(matches!(parse_cnc("!wakeup"), Some(CncCommand::Wakeup)));
    assert!(matches!(parse_cnc("hey !newbs on"), Some(CncCommand::Newbs(true))));
    assert!(matches!(parse_cnc("!missions off! ignored"), Some(CncCommand::Missions(false))));
    assert!(matches!(parse_cnc("!annxs maybe"), None));
    assert!(matches!(parse_cnc("wakeup"), None));
    assert_eq!(CncCommand::Newbs(true).reply(), "<> new player annunciation ON; aye, aye");
}

#[test]
fn startup_is_dormant_by_default() {
    let s = ConduitHvZToGroupme::new(None, true);
    assert!(s.conduit.state.dormant);
    assert!(s.write_state);
    assert_eq!(s.cnc_posts.len(), 4);
    assert_eq!(s.cnc_posts[0], "<> bot starting up; in DORMANT state. please say \"!wakeup\" to exit the dormant state, or \"!sleep\" to re-enter it.");
    let t = ConduitHvZToGroupme::new(Some(RuntimeState { newbs: false, dormant: false, annxs: false, missions: false, throttled_at: 5 }), false);
    assert!(!t.write_state);
    assert_eq!(t.cnc_posts.len(), 1);
    assert!(t.cnc_posts[0].contains("ACTIVE"));
}

#[test]
fn heartbeat_command_is_acknowledged_and_answered() {
    let mut c = ConduitHvZToGroupme::new(None, false).conduit;
    let (cmd, steps) = c.process_cnc_message(&message("9", "Op", "!heartbeat please", 0)).unwrap();
    assert!(matches!(cmd, CncCommand::Heartbeat));
    assert_eq!(steps.len(), 4);
    assert!(matches!(&steps[0], CncStep::Acknowledge(t) if t == "<> quick mic check; aye, aye"));
    assert!(matches!(&steps[1], CncStep::LikeMessage));
    assert!(matches!(&steps[2], CncStep::QuickMicCheck(t) if t == "Okay, backup bot is up. Ping me if the current bot-operator dies."));
    assert!(matches!(&steps[3], CncStep::LikeAcknowledgement));
    let (cmd, steps) = c.process_cnc_message(&message("9", "Op", "!wakeup", 0)).unwrap();
    assert!(matches!(cmd, CncCommand::Wakeup));
    assert!(c.state.dormant);
    assert_eq!(steps.len(), 5);
    assert!(matches!(&steps[0], CncStep::Acknowledge(t) if t.starts_with("<> waking up; aye, aye.")));
    let awake = RuntimeState { dormant: false, ..c.state };
    assert!(matches!(&steps[2], CncStep::Commit(s) if *s == awake));
    assert!(matches!(&steps[3], CncStep::WriteState(s) if *s == awake));
    assert!(matches!(&steps[4], CncStep::LikeAcknowledgement));
    c.commit(awake);
    assert!(!c.state.dormant);
    assert_eq!(c.quick_mic_check(), "Okay, the bot is online.");
    let (_, steps) = c.process_cnc_message(&message("9", "Op", "!newbs on", 0)).unwrap();
    assert!(matches!(&steps[2], CncStep::Commit(s) if s.newbs && !s.dormant && !s.annxs));
}

#[test]
fn liked_commands_are_not_handled_again() {
    let c = ConduitHvZToGroupme::new(None, false).conduit;
    let mut m = message("9", "Op", "!wakeup", 0);
    m.favorited_by = vec!["9".to_string()];
    assert!(c.process_cnc_message(&m).is_none());
    assert!(c.state.dormant);
}

#[test]
fn headcount_counts_sides() {
    let c = awake();
    let mut kb: Killboard = Board::new();
    kb.insert(Faction::Human, vec![player("a", "A", Faction::Human, None), player("b", "B", Faction::Human, None)]);
    let (f, text) = c.make_headcount(&kb);
    assert_eq!(f, Faction::Human);
    assert_eq!(text, "Thusfar we have recruited 2 people to the cause of Humanity. Hail Victory!");
    kb.insert(Faction::Zombie, vec![player("z", "Z", Faction::Zombie, None)]);
    let (f, text) = c.make_headcount(&kb);
    assert_eq!(f, Faction::Zombie);
    assert_eq!(text, "You currently have 2 Humans versus 1 Zombies. Fight harder!");
}

#[test]
fn throttling_waits_fifteen_minutes() {
    let mut c = awake();
    let mut bots = BotCache::new();
    bots.insert(BotRole::Killboard(Faction::Zombie), Bot { bot_id: "b1".to_string(), group_id: "77".to_string(), name: "Z".to_string(), avatar_url: None, callback_url: None });
    bots.insert(BotRole::Chat(Faction::Human), Bot { bot_id: "b2".to_string(), group_id: "77".to_string(), name: "H".to_string(), avatar_url: None, callback_url: None });
    let n = c.being_throttled(10_000, &bots).expect("the first bot warns");
    assert_eq!(n.role, BotRole::Chat(Faction::Human));
    assert_eq!(n.text, "Ouch. We're being throttled, so we have to go down for 15 minutes. Please check the killboard while we're gone!");
    assert_eq!(n.mention, killboard_checkers());
    assert_eq!(c.state.throttled_at, 10_000);
    assert!(c.being_throttled(10_500, &bots).is_none());
    assert_eq!(c.state.throttled_at, 10_000);
    assert!(!c.boards_due(10_900));
    assert!(c.boards_due(10_901));
    assert!(c.being_throttled(11_000, &BotCache::new()).is_none());
    assert_eq!(c.state.throttled_at, 11_000);
}

#[test]
fn schedules() {
    assert!(ConduitHvZToGroupme::killboard_due(12, 16));
    assert!(!ConduitHvZToGroupme::killboard_due(4, 16));
    assert!(!ConduitHvZToGroupme::killboard_due(12, 3));
    assert!(ConduitHvZToGroupme::panelboard_due(12, 1, 6));
    assert!(!ConduitHvZToGroupme::panelboard_due(12, 15, 6));
    assert!(ConduitHvZToGroupme::panelboard_due(12, 58, 2));
    let dormant = ConduitHvZToGroupme::new(None, false).conduit;
    assert!(dormant.chatboard_due(12, 9));
    assert!(!dormant.chatboard_due(12, 5));
    assert!(awake().chatboard_due(12, 5));
}

#[test]
fn stamps_by_age() {
    assert!(matches!(ts_kind(1000, 1000 - 60), Stamp::Hidden));
    assert!(matches!(ts_kind(1000, 1000 - 3 * 60), Stamp::Time));
    assert!(matches!(ts_kind(10_000, 10_000 - 61 * 60), Stamp::DayTime));
}

#[test]
fn signature_keeps_letters_quotes_and_question_marks() {
    assert_eq!(signature("I am DEFINITELY dead!!"), " i am definitely dead ");
    assert_eq!(signature("  \"Really?\"  ok-go 42 "), " \"really?\" okgo  ");
}

#[test]
fn death_claims_get_the_sender_kicked() {
    let c = ConduitHvZToGroupme::new(None, false).conduit;
    let g = group(vec![member("m1", "1", "Creator"), member("m5", "5", "Bob Ross")]);
    let now = 1_000_000i64;
    let plan = c.process_groupme_message("2", now, 12, &g, &message("5", "Bob", "I am definitely dead.", now as u64 - 60));
    match plan.kick {
        Some(Some(m)) => assert_eq!(m.id, "m5"),
        _ => panic!("expected a kick"),
    }
    assert!(plan.route.is_none());
    let late = c.process_groupme_message("2", now, 23, &g, &message("5", "Bob", "I am dead", now as u64));
    assert!(late.kick.is_none());
    let creator = c.process_groupme_message("2", now, 12, &g, &message("1", "Boss", "I am dead", now as u64));
    assert!(creator.kick.is_none());
    let stranger = c.process_groupme_message("2", now, 12, &g, &message("8", "Who", "i am dead", now as u64));
    assert!(matches!(stranger.kick, Some(None)));
    let short = c.process_groupme_message("2", now, 12, &g, &message("5", "Bob", "I'm dead", now as u64 - 60));
    assert!(matches!(short.kick, Some(Some(m)) if m.id == "m5"));
}

#[test]
fn messages_are_routed_while_awake() {
    let c = awake();
    let g = group(vec![member("m1", "1", "Creator"), member("m2", "21806948", "Milo"), member("m3", "3", "Other")]);
    let plan = c.process_groupme_message("2", 0, 3, &g, &message("21806948", "Milo", "@everyone meeting at 5", 0));
    match plan.route {
        Some(Route::Everyone { text, mention }) => {
            assert_eq!(text, "[Milo] meeting at 5");
            assert_eq!(mention, vec!["1".to_string(), "3".to_string()]);
        },
        _ => panic!("expected a route to everyone"),
    }
    let denied = c.process_groupme_message("2", 0, 3, &g, &message("3", "Other", "@Everyone hi", 0));
    assert!(denied.route.is_none());
    let chat = c.process_groupme_message("2", 0, 3, &g, &message("3", "Other", "@Human Chat hello there", 0));
    match chat.route {
        Some(Route::Chat { faction, text }) => {
            assert_eq!(faction, Faction::Human);
            assert_eq!(text, "[Other from GroupMe] hello there");
        },
        _ => panic!("expected a route to the chat"),
    }
    let gen = c.process_groupme_message("2", 0, 3, &g, &message("3", "Other", "@all hi", 0));
    assert!(matches!(gen.route, Some(Route::Chat { faction: Faction::General, .. })));
    let admins = c.process_groupme_message("2", 0, 3, &g, &message("3", "Other", "@admins help", 0));
    match admins.route {
        Some(Route::Admins { text, mention }) => {
            assert_eq!(text, "help");
            assert_eq!(mention.len(), 5);
        },
        _ => panic!("expected a route to the admins"),
    }
    let dormant = ConduitHvZToGroupme::new(None, false).conduit;
    let quiet = dormant.process_groupme_message("2", 0, 3, &g, &message("21806948", "Milo", "@everyone meeting", 0));
    assert!(quiet.route.is_none());
}

#[test]
fn zombies_are_found_by_name_then_surname() {
    let members = vec![member("m1", "1", "George \"Buzz\" Burdell"), member("m2", "2", "Ann Lee")];
    let mut kb: Killboard = Board::new();
    kb.insert(Faction::Human, vec![player("gb", "George Burdell", Faction::Human, None)]);
    match ConduitHvZToGroupme::mark_zombie(&members, &kb, player("gb", "george burdell", Faction::Zombie, None)) {
        Ok((_, m)) => assert_eq!(m.id, "m1"),
        Err(_) => panic!("expected George"),
    }
    match ConduitHvZToGroupme::mark_zombie(&members, &kb, player("al2", "Annie Lee", Faction::Zombie, None)) {
        Ok((_, m)) => assert_eq!(m.id, "m2"),
        Err(_) => panic!("expected Ann by surname"),
    }
    kb.insert(Faction::Zombie, vec![player("bl", "Bruce Lee", Faction::Zombie, None)]);
    assert!(ConduitHvZToGroupme::mark_zombie(&members, &kb, player("al2", "Annie Lee", Faction::Zombie, None)).is_err());
}

#[test]
fn new_zombies_are_kicked_or_reported() {
    let g = group(vec![member("m1", "1", "George Burdell")]);
    let kb: Killboard = Board::new();
    let ZombieRound { removals, warning } = ConduitHvZToGroupme::process_new_zombies(
        &g,
        &kb,
        vec![player("gb", "George Burdell", Faction::Zombie, None), player("x", "Nobody Here", Faction::Zombie, None)],
    );
    assert_eq!(removals.len(), 2);
    let q = removals[0].as_ref().expect("George is kicked");
    assert_eq!(q.segments, vec!["groups", "77", "members", "m1", "remove"]);
    assert!(removals[1].is_none());
    let w = warning.expect("Nobody is reported");
    assert_eq!(w.text, "Achtung; Trottel! Of those deaths, I failed to ID (let alone kick) Nobody Here.");
    assert_eq!(w.role, BotRole::Killboard(Faction::Zombie));
    assert_eq!(w.mention, killboard_checkers());
}

#[test]
fn killboard_changes_become_actions() {
    let c = awake();
    let mut kb: Killboard = Board::new();
    kb.insert(Faction::Zombie, vec![player("zed1", "Zed One", Faction::Zombie, None)]);
    let mut adds: Killboard = Board::new();
    adds.insert(Faction::Human, vec![player("nh", "New Human", Faction::Human, None)]);
    adds.insert(Faction::Zombie, vec![player("v", "Victim", Faction::Zombie, Some("zed1"))]);
    let acts = c.process_killboard(&kb, &adds);
    assert_eq!(acts.len(), 3);
    match &acts[0] {
        KillboardAction::Cnc(s) => assert_eq!(s, "<> new player: nh@gatech.edu - New Human"),
        _ => panic!("expected the command Group line"),
    }
    match &acts[1] {
        KillboardAction::Announce { role, victims, perpetrators } => {
            assert_eq!(*role, BotRole::Killboard(Faction::Zombie));
            assert_eq!(victims, "Victim");
            assert_eq!(perpetrators.as_deref(), Some("Zed One"));
        },
        _ => panic!("expected an announcement"),
    }
    assert!(matches!(&acts[2], KillboardAction::Zombies(v) if v.len() == 1));
    let dormant = ConduitHvZToGroupme::new(None, false).conduit;
    assert_eq!(dormant.process_killboard(&kb, &adds).len(), 0);
}

#[test]
fn chat_posts_skip_stale_and_daytime_general() {
    let c = awake();
    let now = 100_000i64;
    let msg = |id: usize, ts: i64| hvz::Message {
        id,
        timestamp: ts,
        sender: player("s", "Sender", Faction::General, None),
        receiver: Faction::General,
        text: format!("text {}", id),
    };
    let mut adds = Board::new();
    adds.insert(Faction::General, vec![msg(1, now - 60)]);
    adds.insert(Faction::Human, vec![msg(2, now - 60), msg(3, now - 25 * 3600)]);
    let posts = c.process_chatboard(now, 12, &adds);
    assert_eq!(posts.len(), 1);
    assert_eq!(posts[0].message.id, 2);
    assert_eq!(posts[0].role, BotRole::Chat(Faction::Human));
    assert_eq!(chat_line(&posts[0], " "), "[Sender] text 2");
    let night = c.process_chatboard(now, 2, &adds);
    assert_eq!(night.len(), 2);
}

#[test]
fn panels_announced_when_upcoming() {
    let c = awake();
    let now = 50_000i64;
    let panel = |title: &str, start: Option<i64>| Panel {
        kind: PanelKind::Mission,
        title: title.to_string(),
        particulars: start.map(|s| MissionWW { start: s, end: s + 3600, location: "Skiles".to_string() }),
        text: "Go.".to_string(),
    };
    let mut adds = Board::new();
    adds.insert(PanelKind::Mission, vec![panel("soon", Some(now + 30 * 60)), panel("later", Some(now + 90 * 60)), panel("unknown", None)]);
    let posts = c.process_panelboard(now, &adds);
    assert_eq!(posts.len(), 1);
    assert_eq!(posts[0].1.title, "soon");
    let g = group(vec![member("m1", "1", "A"), member("m2", "2", "B")]);
    let notices = c.panel_notices(now, &adds, &g);
    assert_eq!(notices.len(), 1);
    assert_eq!(notices[0].role, BotRole::Panel(PanelKind::Mission));
    assert!(notices[0].text.ends_with("\nGo."));
    assert_eq!(notices[0].mention, vec!["1".to_string(), "2".to_string()]);
}

#[test]
fn bot_cache_remembers_bots() {
    let mut cache = BotCache::new();
    assert!(cache.get(BotRole::VoxPopuli).is_none());
    let bot = Bot { bot_id: "b1".to_string(), group_id: "77".to_string(), name: "Vox Populi".to_string(), avatar_url: None, callback_url: None };
    cache.insert(BotRole::Killboard(Faction::Zombie), bot);
    assert_eq!(cache.get(BotRole::Killboard(Faction::Zombie)).map(|b| b.bot_id.clone()), Some("b1".to_string()));
    let vox = Bot { bot_id: "b0".to_string(), group_id: "77".to_string(), name: "Vox Populi".to_string(), avatar_url: None, callback_url: None };
    cache.insert(BotRole::VoxPopuli, vox);
    assert_eq!(cache.roles(), vec![BotRole::VoxPopuli, BotRole::Killboard(Faction::Zombie)]);
    let mc = ConduitHvZToGroupme::mic_check(&cache.roles());
    assert_eq!(mc.bot_posts.len(), 4);
    assert_eq!(mc.bot_posts[2].1, "Oh, and be careful. If our operator dies, so do we.");
    assert_eq!(mc.group_posts.len(), 2);
}

#[test]
fn faction_names_give_the_faction_back() {
    for f in [Faction::General, Faction::Human, Faction::Zombie, Faction::Admin] {
        assert_eq!(Faction::from_name(&f.display_name()), f);
        assert_eq!(Faction::from_name(&f.debug_name()), f);
        assert_eq!(Faction::from_name(&f.display_name().to_uppercase()), f);
        assert_eq!(Faction::from_name(&f.debug_name().to_uppercase()), f);
    }
}

#[test]
fn bot_names_differ() {
    let roles = [
        BotRole::VoxPopuli,
        BotRole::Chat(Faction::General),
        BotRole::Chat(Faction::Human),
        BotRole::Chat(Faction::Zombie),
        BotRole::Chat(Faction::Admin),
        BotRole::Killboard(Faction::Human),
        BotRole::Killboard(Faction::Zombie),
        BotRole::Killboard(Faction::General),
        BotRole::Panel(PanelKind::Announcement),
        BotRole::Panel(PanelKind::Mission),
    ];
    for (i, a) in roles.iter().enumerate() {
        for b in roles.iter().skip(i + 1) {
            assert_ne!(a.nickname(), b.nickname());
        }
    }
    assert_eq!(BotRole::Killboard(Faction::General).nickname(), BotRole::Killboard(Faction::Admin).nickname());
}
