use vstd::prelude::*;
use crate::conduit_to_groupme::{ConduitHvZToGroupme, allowed_messageblasters_spec,
    is_allowed_messageblaster, the_admins, the_admins_spec};
use crate::groupme::{self, Group, Member, canonical_name_spec, user_ids_except};
use crate::hvz::{Faction, Player, Killboard, KillboardExt, surname, surname_spec};
use crate::pattern::{regex_is_match, regex_matches, regex_captures, regex_captured};
use crate::text::{lit, cat, chars_of, join, join_strings, str_views, lowercase, to_lowercase,
    words, views, split_whitespace, alphabetic, is_alphabetic, push_char, lemma_str_views_push};

verus! {

/// Whether a character stays in a message's signature: letters, double quotes and question marks.
pub open spec fn kept(c: char) -> bool {
    alphabetic(c) || c == '"' || c == '?'
}

/// A word without the characters that do not stay in a signature.
pub open spec fn keep_letters(w: Seq<char>) -> Seq<char>
    decreases w.len(),
{
    if w.len() == 0 {
        seq![]
    } else {
        let r = keep_letters(w.drop_last());
        if kept(w.last()) {
            r.push(w.last())
        } else {
            r
        }
    }
}

/// The signature of a message text: its words in lower case, stripped as `keep_letters` says,
/// joined by spaces and framed by a space on each side.
pub open spec fn signature_spec(text: Seq<char>) -> Seq<char> {
    let ws = words(lowercase(text));
    " "@ + join(Seq::new(ws.len(), |i: int| keep_letters(ws[i])), " "@) + " "@
}

fn strip_word(w: &Vec<char>) -> (r: String)
    ensures
        r@ == keep_letters(w@),
{
    let mut r = String::new();
    for i in 0..w.len()
        invariant
            r@ == keep_letters(w@.take(i as int)),
    {
        assert(w@.take(i + 1).drop_last() =~= w@.take(i as int));
        let c = w[i];
        if is_alphabetic(c) || c == '"' || c == '?' {
            push_char(&mut r, c);
        }
    }
    assert(w@.take(w.len() as int) =~= w@);
    r
}

/// The signature of a message text, as `signature_spec` says.
pub fn signature(text: &str) -> (r: String)
    ensures
        r@ == signature_spec(text@),
{
    let low = to_lowercase(text);
    let ws = split_whitespace(&chars_of(low.as_str()));
    let ghost wv = words(lowercase(text@));
    assert(views(ws@) == wv);
    let mut parts: Vec<String> = Vec::new();
    for i in 0..ws.len()
        invariant
            views(ws@) == wv,
            str_views(parts@) =~= Seq::new(i as nat, |j: int| keep_letters(wv[j])),
    {
        let p = strip_word(&ws[i]);
        proof {
            lemma_str_views_push(parts@, p);
            assert(ws@[i as int]@ == wv[i as int]);
        }
        parts.push(p);
    }
    let joined = join_strings(&parts, " ");
    cat(cat(" ", joined.as_str()).as_str(), " ")
}

/// The pattern of a message that says its sender is dead.
pub open spec fn i_am_dead_pattern() -> Seq<char> {
    " i( a)?m ((very|quite|definitely|totally|100%|completely|acutely|grievously|severely|regrettably|no-(joke|shit|troll)|thoroughly|absolutely|clearly|decidedly|doubtlessly|finally|obviously|plainly|certainly|undeniably|unequivocally|unquestionably|indubitably|positively|unmistakably) )*dead "@
}

/// The pattern of a message to be repeated to everyone.
pub open spec fn everyone_pattern() -> Seq<char> {
    "^@[Ee]veryone (?P<message>.+)"@
}

/// The pattern of a message to be reposted to a chat of the website.
pub open spec fn hvzchat_pattern() -> Seq<char> {
    "^@(?P<faction>(?:[Gg]en(?:eral)?|[Aa]ll)|(?:[Hh]um(?:an)?)|(?:[Zz]omb(?:ie)?))(?: |-)?(?:[Cc]hat)? (?P<message>.+)"@
}

/// The pattern of a message to the admins.
pub open spec fn admins_pattern() -> Seq<char> {
    "^@[Aa]dmins (?P<message>.+)"@
}

/// Whether a capture result is a match.
pub open spec fn matched(c: Option<Option<Seq<Option<Seq<char>>>>>) -> bool {
    c matches Some(Some(_))
}

/// The text of group `i` of a capture result, if it matched and took part.
pub open spec fn group_of(c: Option<Option<Seq<Option<Seq<char>>>>>, i: int) -> Option<Seq<char>> {
    match c {
        Some(Some(g)) => if 0 <= i < g.len() {
            g[i]
        } else {
            None
        },
        _ => None,
    }
}

/// Where a message of the faction Group goes on.
pub enum Route {
    /// The vox populi bot repeats the text, mentioning every member but the sender.
    Everyone { text: String, mention: Vec<String> },
    /// The text is posted to the website chat of the faction.
    Chat { faction: Faction, text: String },
    /// The vox populi bot repeats the text, mentioning the admins.
    Admins { text: String, mention: Vec<String> },
}

/// A route with its strings read as character sequences.
pub enum RouteView {
    Everyone(Seq<char>, Seq<Seq<char>>),
    Chat(Faction, Seq<char>),
    Admins(Seq<char>, Seq<Seq<char>>),
}

impl Route {
    pub open spec fn view(self) -> RouteView {
        match self {
            Route::Everyone { text, mention } => RouteView::Everyone(text@, str_views(mention@)),
            Route::Chat { faction, text } => RouteView::Chat(faction, text@),
            Route::Admins { text, mention } => RouteView::Admins(text@, str_views(mention@)),
        }
    }
}

/// What to do with one message of the faction Group.
pub struct MessagePlan {
    /// `Some` when the sender says they are dead and may be kicked: then the member to remove,
    /// when the sender is one, and the Group is read again afterwards.
    pub kick: Option<Option<Member>>,
    pub route: Option<Route>,
}

/// The first member of `members` with user id `uid`.
pub open spec fn first_member(members: Seq<Member>, uid: Seq<char>) -> Option<int> {
    if exists|i: int| 0 <= i < members.len() && #[trigger] members[i].user_id@ == uid {
        Some(choose|i: int| 0 <= i < members.len() && #[trigger] members[i].user_id@ == uid && forall|j: int|
            0 <= j < i ==> members[j].user_id@ != uid)
    } else {
        None
    }
}

/// Whether a message is a death claim that gets its sender kicked: sent during the day
/// (7 to 23 o'clock), at most six hours ago, matching `i_am_dead_pattern` in its signature, by
/// someone other than the Group's creator and this bot's user.
pub open spec fn kicks(message: groupme::Message, group: Group, my_user_id: Seq<char>, now: int, hour: int) -> bool {
    &&& 7 <= hour < 23
    &&& crate::conduit_to_groupme::hours_between(now, message.created_at as int) <= 6
    &&& regex_matches(i_am_dead_pattern(), signature_spec(groupme::message_text(message))) == Some(true)
    &&& message.user_id@ != group.creator_user_id@
    &&& message.user_id@ != my_user_id
}

/// Where a message goes on while the conduit is awake: a matching "@everyone" message from an
/// allowed user to everyone; else a matching website-chat message to that chat; else a matching
/// "@admins" message to the admins.
pub open spec fn route_spec(message: groupme::Message, group: Group) -> Option<RouteView> {
    let t = groupme::message_text(message);
    let ev = regex_captured(everyone_pattern(), t);
    let ch = regex_captured(hvzchat_pattern(), t);
    let ad = regex_captured(admins_pattern(), t);
    if matched(ev) {
        if allowed_messageblasters_spec().contains(message.user_id@) && group_of(ev, 1) is Some {
            Some(RouteView::Everyone(
                "["@ + message.name@ + "] "@ + group_of(ev, 1)->0,
                user_ids_except(group.members@, message.user_id@),
            ))
        } else {
            None
        }
    } else if matched(ch) {
        if group_of(ch, 1) is Some && group_of(ch, 2) is Some {
            Some(RouteView::Chat(
                Faction::named(lowercase(group_of(ch, 1)->0)),
                "["@ + message.name@ + " from GroupMe] "@ + group_of(ch, 2)->0,
            ))
        } else {
            None
        }
    } else if matched(ad) {
        match group_of(ad, 1) {
            Some(m) => Some(RouteView::Admins(m, the_admins_spec())),
            None => None,
        }
    } else {
        None
    }
}

/// The bot's own user and the Group's creator are never kicked, whatever they write, whenever;
/// and whoever is kicked is the sender, only for a claim made in the day hours (7 to 23) within
/// six hours.
pub proof fn law_who_is_kicked(message: groupme::Message, group: Group, my_user_id: Seq<char>, now: int, hour: int)
    ensures
        message.user_id@ == my_user_id ==> !kicks(message, group, my_user_id, now, hour),
        message.user_id@ == group.creator_user_id@ ==> !kicks(message, group, my_user_id, now, hour),
        kicks(message, group, my_user_id, now, hour) ==> 7 <= hour < 23
            && crate::conduit_to_groupme::hours_between(now, message.created_at as int) <= 6,
        match first_member(group.members@, message.user_id@) {
            Some(i) => 0 <= i < group.members.len() && group.members@[i].user_id@ == message.user_id@,
            None => true,
        },
{
    let uid = message.user_id@;
    let ms = group.members@;
    if exists|i: int| 0 <= i < ms.len() && #[trigger] ms[i].user_id@ == uid {
        let w = choose|i: int| 0 <= i < ms.len() && #[trigger] ms[i].user_id@ == uid;
        lemma_least_uid(ms, uid, w);
    }
}

proof fn lemma_least_uid(ms: Seq<Member>, uid: Seq<char>, w: int)
    requires
        0 <= w < ms.len(),
        ms[w].user_id@ == uid,
    ensures
        exists|i: int| 0 <= i < ms.len() && #[trigger] ms[i].user_id@ == uid && forall|j: int|
            0 <= j < i ==> ms[j].user_id@ != uid,
    decreases w,
{
    if exists|j: int| 0 <= j < w && #[trigger] ms[j].user_id@ == uid {
        let v = choose|j: int| 0 <= j < w && #[trigger] ms[j].user_id@ == uid;
        lemma_least_uid(ms, uid, v);
    } else {
        assert(forall|j: int| 0 <= j < w ==> ms[j].user_id@ != uid);
    }
}

fn capture_group(c: &Option<Option<Vec<Option<String>>>>, i: usize) -> (r: Option<String>)
    ensures
        match r {
            Some(s) => group_of(
                match c {
                    None => None,
                    Some(None) => Some(None),
                    Some(Some(g)) => Some(Some(crate::pattern::opt_views(g@))),
                },
                i as int,
            ) == Some(s@),
            None => group_of(
                match c {
                    None => None,
                    Some(None) => Some(None),
                    Some(Some(g)) => Some(Some(crate::pattern::opt_views(g@))),
                },
                i as int,
            ) is None,
        },
{
    match c {
        Some(Some(g)) => {
            if i < g.len() {
                match &g[i] {
                    Some(s) => Some(s.clone()),
                    None => None,
                }
            } else {
                None
            }
        },
        _ => None,
    }
}

fn first_member_index(members: &Vec<Member>, uid: &str) -> (r: Option<usize>)
    ensures
        match r {
            Some(i) => i < members.len() && first_member(members@, uid@) == Some(i as int),
            None => first_member(members@, uid@) is None,
        },
{
    for i in 0..members.len()
        invariant
            forall|j: int| 0 <= j < i ==> #[trigger] members@[j].user_id@ != uid@,
    {
        if crate::text::same_text(members[i].user_id.as_str(), uid) {
            proof {
                assert(0 <= i < members@.len() && members@[i as int].user_id@ == uid@ && forall|j: int|
                    0 <= j < i ==> members@[j].user_id@ != uid@);
                let c = choose|k: int| 0 <= k < members@.len() && #[trigger] members@[k].user_id@ == uid@
                    && forall|j: int| 0 <= j < k ==> members@[j].user_id@ != uid@;
                if c < i {
                    assert(members@[c].user_id@ != uid@);
                } else if c > i {
                    assert(members@[i as int].user_id@ != uid@);
                }
            }
            return Some(i);
        }
    }
    None
}

fn hours_since(now: i64, then: u64) -> (h: i128)
    ensures
        h == crate::conduit_to_groupme::hours_between(now as int, then as int),
{
    let d = now as i128 - then as i128;
    if d >= 0 {
        d / 3600
    } else {
        -((-d) / 3600)
    }
}

impl ConduitHvZToGroupme {
    /// Reads a message of the faction Group, seen at `now` (seconds) in local hour `hour`, by
    /// the bot's user `my_user_id`: a death claim gets its sender kicked (awake or not); while
    /// awake, a message may be routed on as `route_spec` says.
    pub fn process_groupme_message(&self, my_user_id: &str, now: i64, hour: u32, group: &Group, message: &groupme::Message) -> (r: MessagePlan)
        ensures
            match r.kick {
                Some(m) => kicks(*message, *group, my_user_id@, now as int, hour as int) && match first_member(group.members@, message.user_id@) {
                    Some(i) => m == Some(group.members@[i]),
                    None => m is None,
                },
                None => !kicks(*message, *group, my_user_id@, now as int, hour as int),
            },
            match r.route {
                Some(x) => !self.state.dormant && route_spec(*message, *group) == Some(x.view()),
                None => self.state.dormant || route_spec(*message, *group) is None,
            },
    {
        let text = message.text();
        let mut kick: Option<Option<Member>> = None;
        if 7 <= hour && hour < 23 && hours_since(now, message.created_at) <= 6 {
            let sig = signature(text.as_str());
            let dead = regex_is_match(" i( a)?m ((very|quite|definitely|totally|100%|completely|acutely|grievously|severely|regrettably|no-(joke|shit|troll)|thoroughly|absolutely|clearly|decidedly|doubtlessly|finally|obviously|plainly|certainly|undeniably|unequivocally|unquestionably|indubitably|positively|unmistakably) )*dead ", sig.as_str());
            if dead == Some(true) {
                if !crate::text::same_text(message.user_id.as_str(), group.creator_user_id.as_str())
                    && !crate::text::same_text(message.user_id.as_str(), my_user_id) {
                    kick = Some(
                        match first_member_index(&group.members, message.user_id.as_str()) {
                            Some(i) => Some(group.members[i].duplicate()),
                            None => None,
                        },
                    );
                }
            }
        }
        if self.state.dormant {
            return MessagePlan { kick, route: None };
        }
        let ev = regex_captures("^@[Ee]veryone (?P<message>.+)", text.as_str());
        let ev_hit = match &ev {
            Some(Some(_)) => true,
            _ => false,
        };
        let route = if ev_hit {
            let m = capture_group(&ev, 1);
            if is_allowed_messageblaster(message.user_id.as_str()) && m.is_some() {
                let m = m.unwrap();
                let t = cat(cat(cat("[", message.name.as_str()).as_str(), "] ").as_str(), m.as_str());
                Some(Route::Everyone { text: t, mention: group.member_uids_except(message.user_id.as_str()) })
            } else {
                None
            }
        } else {
            let ch = regex_captures("^@(?P<faction>(?:[Gg]en(?:eral)?|[Aa]ll)|(?:[Hh]um(?:an)?)|(?:[Zz]omb(?:ie)?))(?: |-)?(?:[Cc]hat)? (?P<message>.+)", text.as_str());
            let ch_hit = match &ch {
                Some(Some(_)) => true,
                _ => false,
            };
            if ch_hit {
                let f = capture_group(&ch, 1);
                let m = capture_group(&ch, 2);
                match (f, m) {
                    (Some(f), Some(m)) => {
                        let faction = Faction::from_name(f.as_str());
                        let t = cat(cat(cat("[", message.name.as_str()).as_str(), " from GroupMe] ").as_str(), m.as_str());
                        Some(Route::Chat { faction, text: t })
                    },
                    _ => None,
                }
            } else {
                let ad = regex_captures("^@[Aa]dmins (?P<message>.+)", text.as_str());
                let ad_hit = match &ad {
                    Some(Some(_)) => true,
                    _ => false,
                };
                if ad_hit {
                    match capture_group(&ad, 1) {
                        Some(m) => Some(Route::Admins { text: m, mention: the_admins() }),
                        None => None,
                    }
                } else {
                    None
                }
            }
        };
        MessagePlan { kick, route }
    }
}

} // verus!
