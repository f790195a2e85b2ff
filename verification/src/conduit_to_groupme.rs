use vstd::prelude::*;
use rand::Rng;
use crate::board::BoardKey;
use crate::errors::Error;
use crate::groupme::{self, Bot, Group, Member};
use crate::groupme::api::ApiRequest;
use crate::hvz::{Faction, PanelKind, Player, Killboard, KillboardExt, surname, surname_spec};
use crate::pattern::{regex_is_match, regex_matches, regex_captures, regex_captured};
use crate::text::{lit, cat, chars_of, string_of, debug_str, debug_quoted, char_to_uppercase,
    uppercase_char, join, join_strings, str_views, lowercase, to_lowercase, same_text, words,
    split_whitespace, alphabetic, is_alphabetic, split_on, split_char, usize_to_string, decimal,
    lemma_str_views_push, views};

pub mod messages;
pub mod zombies;
pub mod boards;
pub mod bots;

verus! {

/// The part a bot plays in the faction's Group.
#[derive(Clone, Copy, Debug, PartialEq, Eq, Structural, Hash)]
pub enum BotRole {
    VoxPopuli,
    Chat(Faction),
    Killboard(Faction),
    Panel(PanelKind),
}

/// `s` with its first character in upper case.
pub open spec fn capitalized(s: Seq<char>) -> Seq<char> {
    if s.len() == 0 {
        seq![]
    } else {
        uppercase_char(s[0]) + s.drop_first()
    }
}

/// Puts the first character of `s` in upper case.
pub fn capitalize(s: &str) -> (r: String)
    ensures
        r@ == capitalized(s@),
{
    let v = chars_of(s);
    if v.len() == 0 {
        return String::new();
    }
    let mut rest: Vec<char> = Vec::new();
    for i in 1..v.len()
        invariant
            rest@ =~= v@.subrange(1, i as int),
    {
        rest.push(v[i]);
    }
    assert(rest@ =~= s@.drop_first());
    let first = char_to_uppercase(v[0]);
    cat(first.as_str(), string_of(&rest).as_str())
}

/// A natural-language list: "a, b and c" followed by the postlude; a single item alone, without
/// the postlude; nothing for no items.
pub open spec fn nll_spec(items: Seq<Seq<char>>, postlude: Seq<char>) -> Seq<char> {
    if items.len() >= 2 {
        join(items.drop_last(), ", "@) + " and "@ + items.last() + postlude
    } else if items.len() == 1 {
        items[0]
    } else {
        seq![]
    }
}

/// Lists items in natural language.
pub fn nll(items: &Vec<String>, postlude: Option<&str>) -> (r: String)
    ensures
        r@ == nll_spec(
            str_views(items@),
            match postlude {
                Some(p) => p@,
                None => seq![],
            },
        ),
{
    let n = items.len();
    if n >= 2 {
        let mut init: Vec<String> = Vec::new();
        for i in 0..n - 1
            invariant
                n == items.len(),
                n >= 2,
                str_views(init@) =~= str_views(items@).take(i as int),
        {
            proof {
                crate::text::lemma_str_views_push(init@, items@[i as int]);
            }
            init.push(items[i].clone());
        }
        assert(str_views(items@).take(n - 1) =~= str_views(items@).drop_last());
        let joined = join_strings(&init, ", ");
        let a = cat(joined.as_str(), " and ");
        let b = cat(a.as_str(), items[n - 1].as_str());
        match postlude {
            Some(p) => cat(b.as_str(), p),
            None => {
                assert(b@ + Seq::<char>::empty() =~= b@);
                b
            },
        }
    } else if n == 1 {
        items[0].clone()
    } else {
        String::new()
    }
}

/// `pre` + `x` + `post`.
fn fill(pre: &str, x: &str, post: &str) -> (r: String)
    ensures
        r@ == pre@ + x@ + post@,
{
    cat(cat(pre, x).as_str(), post)
}

/// `a` + `x` + `b` + `y` + `c`.
fn fill2(a: &str, x: &str, b: &str, y: &str, c: &str) -> (r: String)
    ensures
        r@ == a@ + x@ + b@ + y@ + c@,
{
    cat(cat(fill(a, x, b).as_str(), y).as_str(), c)
}

/// The messages a bot may say about `p`.
pub open spec fn phrase_options(role: BotRole, p: Seq<char>) -> Seq<Seq<char>> {
    let d = debug_quoted(p);
    match role {
        BotRole::VoxPopuli => seq![p],
        BotRole::Chat(Faction::Zombie) => seq![p],
        BotRole::Chat(Faction::Human) => seq![p],
        BotRole::Chat(_) => seq![d],
        BotRole::Killboard(Faction::Zombie) => seq![
            "Verdammt! We lost "@ + p + ". I hope it was worth it."@,
            "(－‸ლ) "@ + p + " died. Come on; we can do better than this!"@,
            "Well, I'll be. Looks like "@ + p + " bit the dust."@,
            "Well, drat. I think the zombies got "@ + p + ". I hope they died with dignity."@,
            "Well, I declare. Seems that "@ + p + " kicked the bucket."@,
            "Hunh. I guess "@ + p + " turned. A grim inevitability."@,
            "Are you kidding me? Killboard says they've nommed "@ + p + "! Fight harder!"@,
            "Argh. "@ + p + " passed on to the undeath."@,
        ],
        BotRole::Killboard(Faction::Human) => seq![
            "A warm welcome goes out to "@ + p + "."@,
            "New blood! Err, I mean, signups. Namely, "@ + p + "."@,
            "Humanity has expanded to include "@ + p + "."@,
            "Well, it seems that "@ + p + " signed up for HvZ. Good luck to them."@,
        ],
        BotRole::Killboard(_) => seq![d],
        BotRole::Panel(PanelKind::Mission) => seq![
            "New mission is up! "@ + d + ". Good luck, everyone. https://hvz.gatech.edu/missions/"@,
            "Attention! A new mission has been posted! "@ + d + ". Let's do this! https://hvz.gatech.edu/missions/"@,
            "Mission details have been posted for "@ + d + ". Good luck, godspeed and hail victory! https://hvz.gatech.edu/missions/"@,
        ],
        BotRole::Panel(PanelKind::Announcement) => seq![
            "The "@ + d + " announcements are posted. https://hvz.gatech.edu/announcements/"@,
            "The admins have posted a "@ + d + " announcement. https://hvz.gatech.edu/announcements/"@,
            "The "@ + d + " announcement is up! https://hvz.gatech.edu/announcements/"@,
        ],
    }
}

/// The messages a bot may say about `p` and `q` (who, and by whom).
pub open spec fn phrase_2_options(role: BotRole, p: Seq<char>, q: Seq<char>) -> Seq<Seq<char>> {
    let dp = debug_quoted(p);
    let dq = debug_quoted(q);
    match role {
        BotRole::VoxPopuli => seq![p + q],
        BotRole::Chat(Faction::Zombie) => seq![p + q],
        BotRole::Chat(Faction::Human) => seq![p + q],
        BotRole::Chat(_) => seq![dp + dq],
        BotRole::Killboard(Faction::Zombie) => seq![
            "Verdammt! We lost "@ + p + " to "@ + q + ". I hope it was worth it."@,
            "(－‸ლ) "@ + p + " died to "@ + q + ". Come on; we can do better than this!"@,
            "Well, I'll be. Looks like "@ + p + " bit the dust of "@ + q + "."@,
            "Well, drat. I think the zombies (namely, "@ + q + ") got "@ + p + ". I hope they died with dignity."@,
            "Well, I declare. Seems that "@ + p + " kicked the bucket, kudos to "@ + q + "."@,
            "Hunh. I guess that "@ + q + " turned "@ + p + " to the undeath. A grim inevitability."@,
            "Are you kidding me? Killboard says "@ + q + " nommed "@ + p + "! Fight harder!"@,
            "Argh. "@ + p + " passed on to the undeath, with the help of "@ + q + "."@,
        ],
        BotRole::Killboard(Faction::Human) => seq!["("@ + dp + ", "@ + dq + ")"@],
        _ => seq![dp + dq],
    }
}

/// The outside choice of a random index below `n`.
#[verifier::external_body]
fn random_below(n: usize) -> (r: usize)
    requires
        n > 0,
    ensures
        r < n,
{
    rand::thread_rng().gen_range(0..n)
}

/// Four characters near the end of a name: the last, the one before it, and the sixth and
/// seventh from the end.
pub open spec fn name_key(s: Seq<char>) -> (char, char, char, char) {
    (s[s.len() - 1], s[s.len() - 2], s[s.len() - 6], s[s.len() - 7])
}

/// The key of each role's bot name.
pub open spec fn nickname_key(role: BotRole) -> (char, char, char, char) {
    match role {
        BotRole::VoxPopuli => ('i', 'l', 'P', ' '),
        BotRole::Chat(Faction::Human) => ('t', 'a', 'n', 'a'),
        BotRole::Chat(Faction::Zombie) => ('t', 'a', 'e', 'i'),
        BotRole::Chat(Faction::Admin) => ('t', 'a', 'n', 'i'),
        BotRole::Chat(Faction::General) => ('t', 'a', 'l', 'l'),
        BotRole::Killboard(Faction::Zombie) => ('r', 'e', 's', 's'),
        BotRole::Killboard(Faction::Human) => ('o', 'H', 'g', 'S'),
        BotRole::Killboard(_) => ('T', 'O', 'W', 'O'),
        BotRole::Panel(PanelKind::Mission) => ('T', 'I', 'r', 'f'),
        BotRole::Panel(PanelKind::Announcement) => ('n', 'r', 'a', 'L'),
    }
}

proof fn lemma_nickname_key(role: BotRole)
    ensures
        role.nickname_spec().len() >= 7,
        name_key(role.nickname_spec()) == nickname_key(role),
{
    reveal_strlit("Vox Populi");
    reveal_strlit("The Messenger");
    reveal_strlit("Fleet Sgt. Ho");
    reveal_strlit("ERROR: UNKNOWN BOT");
    reveal_strlit("John from IT");
    reveal_strlit("Midnight Lantern");
    reveal_strlit(" Chat");
    reveal_strlit("human");
    reveal_strlit("zombie");
    reveal_strlit("admin");
    reveal_strlit("all");
    match role {
        BotRole::Chat(f) => {
            let d = f.debug_spec() + " Chat"@;
            let t = d.drop_first();
            let u = uppercase_char(d[0]);
            let n = u + t;
            assert(n == role.nickname_spec());
            assert(n[n.len() - 1] == t[t.len() - 1]);
            assert(n[n.len() - 2] == t[t.len() - 2]);
            assert(n[n.len() - 6] == t[t.len() - 6]);
            assert(n[n.len() - 7] == t[t.len() - 7]);
        },
        _ => {},
    }
}

/// The bots have pairwise different names, but for the killboard bots of the general and admin
/// audiences, which both go by the name for an unknown bot.
pub proof fn law_bot_nicknames_distinct(a: BotRole, b: BotRole)
    requires
        a != b,
        !((a == BotRole::Killboard(Faction::General) || a == BotRole::Killboard(Faction::Admin))
            && (b == BotRole::Killboard(Faction::General) || b == BotRole::Killboard(Faction::Admin))),
    ensures
        a.nickname_spec() != b.nickname_spec(),
{
    lemma_nickname_key(a);
    lemma_nickname_key(b);
}

impl BotRole {
    /// The bot's name.
    pub open spec fn nickname_spec(self) -> Seq<char> {
        match self {
            BotRole::VoxPopuli => "Vox Populi"@,
            BotRole::Chat(f) => capitalized(f.debug_spec() + " Chat"@),
            BotRole::Killboard(Faction::Zombie) => "The Messenger"@,
            BotRole::Killboard(Faction::Human) => "Fleet Sgt. Ho"@,
            BotRole::Killboard(_) => "ERROR: UNKNOWN BOT"@,
            BotRole::Panel(PanelKind::Mission) => "John from IT"@,
            BotRole::Panel(PanelKind::Announcement) => "Midnight Lantern"@,
        }
    }

    pub fn nickname(&self) -> (r: String)
        ensures
            r@ == self.nickname_spec(),
    {
        match self {
            BotRole::VoxPopuli => lit("Vox Populi"),
            BotRole::Chat(f) => capitalize(cat(f.debug_name().as_str(), " Chat").as_str()),
            BotRole::Killboard(Faction::Zombie) => lit("The Messenger"),
            BotRole::Killboard(Faction::Human) => lit("Fleet Sgt. Ho"),
            BotRole::Killboard(_) => lit("ERROR: UNKNOWN BOT"),
            BotRole::Panel(PanelKind::Mission) => lit("John from IT"),
            BotRole::Panel(PanelKind::Announcement) => lit("Midnight Lantern"),
        }
    }

    /// The bot's picture, if it has one.
    pub open spec fn avatar_url_spec(self) -> Option<Seq<char>> {
        match self {
            BotRole::VoxPopuli => Some("http://oyster.ignimgs.com/mediawiki/apis.ign.com/bioshock-infinite/thumb/2/2a/BillBoard_Daisy_Render.jpg/468px-BillBoard_Daisy_Render.jpg"@),
            BotRole::Chat(Faction::Human) => Some("https://upload.wikimedia.org/wikipedia/commons/thumb/1/1e/Georgia_Tech_Outline_Interlocking_logo.svg/640px-Georgia_Tech_Outline_Interlocking_logo.svg.png"@),
            BotRole::Chat(Faction::General) => Some("https://upload.wikimedia.org/wikipedia/commons/thumb/1/1e/Georgia_Tech_Outline_Interlocking_logo.svg/640px-Georgia_Tech_Outline_Interlocking_logo.svg.png"@),
            BotRole::Chat(Faction::Zombie) => Some("https://upload.wikimedia.org/wikipedia/commons/thumb/1/1e/Georgia_Tech_Outline_Interlocking_logo.svg/640px-Georgia_Tech_Outline_Interlocking_logo.svg.png"@),
            BotRole::Chat(_) => None,
            BotRole::Killboard(Faction::Zombie) => Some("https://i.groupme.com/800x800.png.9ce096915aec40f5926ba8a8c392fa8f"@),
            BotRole::Killboard(Faction::Human) => Some("https://i.groupme.com/1280x688.jpeg.70371d1476624df0b6586d8e6d72a946"@),
            BotRole::Killboard(_) => None,
            BotRole::Panel(PanelKind::Mission) => Some("https://i.groupme.com/250x332.jpeg.bd6de69e29b5462085e685a595be7864"@),
            BotRole::Panel(PanelKind::Announcement) => None,
        }
    }

    pub fn avatar_url(&self) -> (r: Option<String>)
        ensures
            match r {
                Some(u) => self.avatar_url_spec() == Some(u@),
                None => self.avatar_url_spec() is None,
            },
    {
        match self {
            BotRole::VoxPopuli => Some(lit("http://oyster.ignimgs.com/mediawiki/apis.ign.com/bioshock-infinite/thumb/2/2a/BillBoard_Daisy_Render.jpg/468px-BillBoard_Daisy_Render.jpg")),
            BotRole::Chat(Faction::Human) => Some(lit("https://upload.wikimedia.org/wikipedia/commons/thumb/1/1e/Georgia_Tech_Outline_Interlocking_logo.svg/640px-Georgia_Tech_Outline_Interlocking_logo.svg.png")),
            BotRole::Chat(Faction::General) => Some(lit("https://upload.wikimedia.org/wikipedia/commons/thumb/1/1e/Georgia_Tech_Outline_Interlocking_logo.svg/640px-Georgia_Tech_Outline_Interlocking_logo.svg.png")),
            BotRole::Chat(Faction::Zombie) => Some(lit("https://upload.wikimedia.org/wikipedia/commons/thumb/1/1e/Georgia_Tech_Outline_Interlocking_logo.svg/640px-Georgia_Tech_Outline_Interlocking_logo.svg.png")),
            BotRole::Chat(_) => None,
            BotRole::Killboard(Faction::Zombie) => Some(lit("https://i.groupme.com/800x800.png.9ce096915aec40f5926ba8a8c392fa8f")),
            BotRole::Killboard(Faction::Human) => Some(lit("https://i.groupme.com/1280x688.jpeg.70371d1476624df0b6586d8e6d72a946")),
            BotRole::Killboard(_) => None,
            BotRole::Panel(PanelKind::Mission) => Some(lit("https://i.groupme.com/250x332.jpeg.bd6de69e29b5462085e685a595be7864")),
            BotRole::Panel(PanelKind::Announcement) => None,
        }
    }

    /// What the bot says it does.
    pub open spec fn watdo_spec(self) -> Seq<char> {
        match self {
            BotRole::VoxPopuli => "If certain people start their message with \"@Everyone\" or \"@everyone\", I'll repeat the message in such a way that it will \"@mention\" *everyone*.\nAbuse this, and there will be consequences."@,
            BotRole::Chat(f) => "I'm the voice of "@ + f.debug_spec() + " chat. When someone posts something there, I'll tell you about it within a few seconds."@ + if f == Faction::General { " Except during gameplay hours, because spam is bad."@ } else { ""@ },
            BotRole::Killboard(Faction::Zombie) => "If someone shows up on the other side of the killboard, I'll report it here within a few minutes, and simultaneously try to go about kicking them. If I can't kick them, I'll give a holler."@,
            BotRole::Killboard(Faction::Human) => "Whenever someone signs up, I'll report it here."@,
            BotRole::Killboard(x) => "ERROR: THE \""@ + x.debug_spec() + "\" FACTION LACKS A KILLBOARD SECTION"@,
            BotRole::Panel(PanelKind::Mission) => "If a mission arises, I'll contact you."@,
            BotRole::Panel(PanelKind::Announcement) => "I announce the nightly announcements. #DeptOfRedundancyDept"@,
        }
    }

    pub fn watdo(&self) -> (r: String)
        ensures
            r@ == self.watdo_spec(),
    {
        match self {
            BotRole::VoxPopuli => lit("If certain people start their message with \"@Everyone\" or \"@everyone\", I'll repeat the message in such a way that it will \"@mention\" *everyone*.\nAbuse this, and there will be consequences."),
            BotRole::Chat(f) => {
                let tail = if *f == Faction::General {
                    " Except during gameplay hours, because spam is bad."
                } else {
                    ""
                };
                let a = fill("I'm the voice of ", f.debug_name().as_str(), " chat. When someone posts something there, I'll tell you about it within a few seconds.");
                cat(a.as_str(), tail)
            },
            BotRole::Killboard(Faction::Zombie) => lit("If someone shows up on the other side of the killboard, I'll report it here within a few minutes, and simultaneously try to go about kicking them. If I can't kick them, I'll give a holler."),
            BotRole::Killboard(Faction::Human) => lit("Whenever someone signs up, I'll report it here."),
            BotRole::Killboard(x) => fill("ERROR: THE \"", x.debug_name().as_str(), "\" FACTION LACKS A KILLBOARD SECTION"),
            BotRole::Panel(PanelKind::Mission) => lit("If a mission arises, I'll contact you."),
            BotRole::Panel(PanelKind::Announcement) => lit("I announce the nightly announcements. #DeptOfRedundancyDept"),
        }
    }

    /// How many messages the bot may say about one thing.
    pub fn phrase_count(&self) -> (n: usize)
        ensures
            n == phrase_options(*self, seq![]).len(),
    {
        match self {
            BotRole::Killboard(Faction::Zombie) => 8,
            BotRole::Killboard(Faction::Human) => 4,
            BotRole::Panel(_) => 3,
            _ => 1,
        }
    }

    /// The `k`-th message the bot may say about `p`.
    pub fn phrase_with(&self, p: &str, k: usize) -> (r: String)
        requires
            k < phrase_options(*self, p@).len(),
        ensures
            r@ == phrase_options(*self, p@)[k as int],
    {
        match self {
            BotRole::VoxPopuli => lit(p),
            BotRole::Chat(Faction::Zombie) => lit(p),
            BotRole::Chat(Faction::Human) => lit(p),
            BotRole::Chat(_) => debug_str(p),
            BotRole::Killboard(Faction::Zombie) => {
                if k == 0 {
                    fill("Verdammt! We lost ", p, ". I hope it was worth it.")
                } else if k == 1 {
                    fill("(－‸ლ) ", p, " died. Come on; we can do better than this!")
                } else if k == 2 {
                    fill("Well, I'll be. Looks like ", p, " bit the dust.")
                } else if k == 3 {
                    fill("Well, drat. I think the zombies got ", p, ". I hope they died with dignity.")
                } else if k == 4 {
                    fill("Well, I declare. Seems that ", p, " kicked the bucket.")
                } else if k == 5 {
                    fill("Hunh. I guess ", p, " turned. A grim inevitability.")
                } else if k == 6 {
                    fill("Are you kidding me? Killboard says they've nommed ", p, "! Fight harder!")
                } else {
                    fill("Argh. ", p, " passed on to the undeath.")
                }
            },
            BotRole::Killboard(Faction::Human) => {
                if k == 0 {
                    fill("A warm welcome goes out to ", p, ".")
                } else if k == 1 {
                    fill("New blood! Err, I mean, signups. Namely, ", p, ".")
                } else if k == 2 {
                    fill("Humanity has expanded to include ", p, ".")
                } else {
                    fill("Well, it seems that ", p, " signed up for HvZ. Good luck to them.")
                }
            },
            BotRole::Killboard(_) => debug_str(p),
            BotRole::Panel(PanelKind::Mission) => {
                let d = debug_str(p);
                if k == 0 {
                    fill("New mission is up! ", d.as_str(), ". Good luck, everyone. https://hvz.gatech.edu/missions/")
                } else if k == 1 {
                    fill("Attention! A new mission has been posted! ", d.as_str(), ". Let's do this! https://hvz.gatech.edu/missions/")
                } else {
                    fill("Mission details have been posted for ", d.as_str(), ". Good luck, godspeed and hail victory! https://hvz.gatech.edu/missions/")
                }
            },
            BotRole::Panel(PanelKind::Announcement) => {
                let d = debug_str(p);
                if k == 0 {
                    fill("The ", d.as_str(), " announcements are posted. https://hvz.gatech.edu/announcements/")
                } else if k == 1 {
                    fill("The admins have posted a ", d.as_str(), " announcement. https://hvz.gatech.edu/announcements/")
                } else {
                    fill("The ", d.as_str(), " announcement is up! https://hvz.gatech.edu/announcements/")
                }
            },
        }
    }

    /// One of the messages the bot may say about `p`, chosen at random.
    pub fn phrase(&self, p: &str) -> (r: String)
        ensures
            exists|k: int| 0 <= k < phrase_options(*self, p@).len() && r@ == phrase_options(*self, p@)[k],
    {
        let n = self.phrase_count();
        let k = random_below(n);
        let r = self.phrase_with(p, k);
        assert(r@ == phrase_options(*self, p@)[k as int]);
        r
    }

    /// How many messages the bot may say about two things.
    pub fn phrase_2_count(&self) -> (n: usize)
        ensures
            n == phrase_2_options(*self, seq![], seq![]).len(),
    {
        match self {
            BotRole::Killboard(Faction::Zombie) => 8,
            _ => 1,
        }
    }

    /// The `k`-th message the bot may say about `p` and `q`.
    pub fn phrase_2_with(&self, p: &str, q: &str, k: usize) -> (r: String)
        requires
            k < phrase_2_options(*self, p@, q@).len(),
        ensures
            r@ == phrase_2_options(*self, p@, q@)[k as int],
    {
        match self {
            BotRole::VoxPopuli => cat(p, q),
            BotRole::Chat(Faction::Zombie) => cat(p, q),
            BotRole::Chat(Faction::Human) => cat(p, q),
            BotRole::Killboard(Faction::Zombie) => {
                if k == 0 {
                    fill2("Verdammt! We lost ", p, " to ", q, ". I hope it was worth it.")
                } else if k == 1 {
                    fill2("(－‸ლ) ", p, " died to ", q, ". Come on; we can do better than this!")
                } else if k == 2 {
                    fill2("Well, I'll be. Looks like ", p, " bit the dust of ", q, ".")
                } else if k == 3 {
                    fill2("Well, drat. I think the zombies (namely, ", q, ") got ", p, ". I hope they died with dignity.")
                } else if k == 4 {
                    fill2("Well, I declare. Seems that ", p, " kicked the bucket, kudos to ", q, ".")
                } else if k == 5 {
                    fill2("Hunh. I guess that ", q, " turned ", p, " to the undeath. A grim inevitability.")
                } else if k == 6 {
                    fill2("Are you kidding me? Killboard says ", q, " nommed ", p, "! Fight harder!")
                } else {
                    fill2("Argh. ", p, " passed on to the undeath, with the help of ", q, ".")
                }
            },
            BotRole::Killboard(Faction::Human) => {
                let dp = debug_str(p);
                let dq = debug_str(q);
                fill2("(", dp.as_str(), ", ", dq.as_str(), ")")
            },
            _ => {
                let dp = debug_str(p);
                let dq = debug_str(q);
                cat(dp.as_str(), dq.as_str())
            },
        }
    }

    /// One of the messages the bot may say about `p` and `q`, chosen at random.
    pub fn phrase_2(&self, p: &str, q: &str) -> (r: String)
        ensures
            exists|k: int| 0 <= k < phrase_2_options(*self, p@, q@).len() && r@ == phrase_2_options(*self, p@, q@)[k],
    {
        let n = self.phrase_2_count();
        let k = random_below(n);
        let r = self.phrase_2_with(p, q, k);
        assert(r@ == phrase_2_options(*self, p@, q@)[k as int]);
        r
    }
}

fn ids3(a: &str, b: &str, c: &str) -> (v: Vec<String>)
    ensures
        str_views(v@) == seq![a@, b@, c@],
{
    let mut v: Vec<String> = Vec::new();
    let x = lit(a);
    proof { lemma_str_views_push(v@, x); }
    v.push(x);
    let x = lit(b);
    proof { lemma_str_views_push(v@, x); }
    v.push(x);
    let x = lit(c);
    proof { lemma_str_views_push(v@, x); }
    v.push(x);
    assert(str_views(v@) =~= seq![a@, b@, c@]);
    v
}

/// The users who check the killboard by hand.
pub open spec fn killboard_checkers_spec() -> Seq<Seq<char>> {
    seq!["21806948"@, "21815306"@, "13153662"@]
}

/// The users who check the killboard by hand, by user id.
pub fn killboard_checkers() -> (v: Vec<String>)
    ensures
        str_views(v@) == killboard_checkers_spec(),
{
    ids3("21806948", "21815306", "13153662")
}

/// The admins of the game, by user id.
pub open spec fn the_admins_spec() -> Seq<Seq<char>> {
    seq!["8856552"@, "20298305"@, "19834407"@, "12949596"@, "13094442"@]
}

/// The admins of the game, by user id.
pub fn the_admins() -> (v: Vec<String>)
    ensures
        str_views(v@) == the_admins_spec(),
{
    let mut v = ids3("8856552", "20298305", "19834407");
    let x = lit("12949596");
    proof { lemma_str_views_push(v@, x); }
    v.push(x);
    let x = lit("13094442");
    proof { lemma_str_views_push(v@, x); }
    v.push(x);
    assert(str_views(v@) =~= the_admins_spec());
    v
}

/// The users allowed to mention everyone, by user id.
pub open spec fn allowed_messageblasters_spec() -> Seq<Seq<char>> {
    seq![
        "16614279"@, "11791190"@, "13883710"@, "13153662"@, "6852241"@, "13830361"@,
        "13808540"@, "17031287"@, "21806948"@, "22267657"@, "21815306"@,
    ]
}

/// Whether a user may mention everyone.
pub fn is_allowed_messageblaster(uid: &str) -> (b: bool)
    ensures
        b == allowed_messageblasters_spec().contains(uid@),
{
    let ids: [&str; 11] = ["16614279", "11791190", "13883710", "13153662", "6852241", "13830361",
        "13808540", "17031287", "21806948", "22267657", "21815306"];
    let ghost spec_ids = allowed_messageblasters_spec();
    assert(forall|j: int| 0 <= j < 11 ==> #[trigger] ids@[j]@ == spec_ids[j]);
    for i in 0..11
        invariant
            forall|j: int| 0 <= j < 11 ==> #[trigger] ids@[j]@ == spec_ids[j],
            spec_ids == allowed_messageblasters_spec(),
            forall|j: int| 0 <= j < i ==> spec_ids[j] != uid@,
    {
        if same_text(ids[i], uid) {
            assert(spec_ids[i as int] == uid@);
            return true;
        }
    }
    assert(!spec_ids.contains(uid@)) by {
        if spec_ids.contains(uid@) {
            let j = choose|j: int| 0 <= j < spec_ids.len() && spec_ids[j] == uid@;
        }
    }
    false
}

/// The toggles of a running conduit, kept in the command Group's description.
#[derive(Clone, Copy, Debug, PartialEq, Eq, Structural)]
pub struct RuntimeState {
    pub newbs: bool,
    pub dormant: bool,
    pub annxs: bool,
    pub missions: bool,
    pub throttled_at: i64,
}

impl Default for RuntimeState {
    fn default() -> (s: Self)
        ensures
            s == (RuntimeState { newbs: false, dormant: true, annxs: false, missions: false, throttled_at: 0 }),
    {
        RuntimeState { newbs: false, dormant: true, annxs: false, missions: false, throttled_at: 0 }
    }
}

/// A command sent to the command Group.
#[derive(Clone, Copy, Debug, PartialEq, Eq, Structural)]
pub enum CncCommand {
    MicCheck,
    Heartbeat,
    Headcount,
    Wakeup,
    Sleep,
    Dead,
    Newbs(bool),
    Annxs(bool),
    Missions(bool),
}

/// `s` begins with `p`.
pub open spec fn starts_with(s: Seq<char>, p: Seq<char>) -> bool {
    s.len() >= p.len() && s.take(p.len() as int) == p
}

/// The words of a command: those of the text between the first `'!'` and the next one.
pub open spec fn command_words(text: Seq<char>) -> Seq<Seq<char>> {
    let pieces = split_on(text, '!');
    words(if pieces.len() > 1 { pieces[1] } else { seq![] })
}

/// `on` or `off` as the last word turns a toggle on or off.
pub open spec fn toggle(w: Seq<Seq<char>>) -> Option<bool> {
    if w.last() == "on"@ {
        Some(true)
    } else if w.last() == "off"@ {
        Some(false)
    } else {
        None
    }
}

/// The command that the words give, if any.
pub open spec fn parse_command(w: Seq<Seq<char>>) -> Option<CncCommand> {
    if w == seq!["mic"@, "check"@, "please"@] {
        Some(CncCommand::MicCheck)
    } else if w == seq!["heartbeat"@, "please"@] {
        Some(CncCommand::Heartbeat)
    } else if w == seq!["headcount"@, "please"@] {
        Some(CncCommand::Headcount)
    } else if w.len() > 0 && w[0] == "wakeup"@ {
        Some(CncCommand::Wakeup)
    } else if w.len() > 0 && w[0] == "sleep"@ {
        Some(CncCommand::Sleep)
    } else if w.len() > 0 && w[0] == "dead"@ {
        Some(CncCommand::Dead)
    } else if w.len() > 0 && starts_with(w[0], "new"@) {
        match toggle(w) {
            Some(b) => Some(CncCommand::Newbs(b)),
            None => None,
        }
    } else if w.len() > 0 && starts_with(w[0], "annx"@) {
        match toggle(w) {
            Some(b) => Some(CncCommand::Annxs(b)),
            None => None,
        }
    } else if w.len() > 0 && starts_with(w[0], "mission"@) {
        match toggle(w) {
            Some(b) => Some(CncCommand::Missions(b)),
            None => None,
        }
    } else {
        None
    }
}

impl CncCommand {
    /// The acknowledgement posted to the command Group.
    pub open spec fn reply_spec(self) -> Seq<char> {
        match self {
            CncCommand::MicCheck => "<> mic check; aye, aye"@,
            CncCommand::Heartbeat => "<> quick mic check; aye, aye"@,
            CncCommand::Headcount => "<> headcount; aye, aye"@,
            CncCommand::Wakeup => "<> waking up; aye, aye. good luck, operator. say \"!heartbeat please\" if you wish to announce my awakening."@,
            CncCommand::Sleep => "<> going to sleep; aye, aye"@,
            CncCommand::Dead => "<> going to sleep; aye, aye. may the horde be with you."@,
            CncCommand::Newbs(true) => "<> new player annunciation ON; aye, aye"@,
            CncCommand::Newbs(false) => "<> new player annunciation OFF; aye, aye"@,
            CncCommand::Annxs(true) => "<> announcement annunciation ON; aye, aye"@,
            CncCommand::Annxs(false) => "<> announcement annunciation OFF; aye, aye"@,
            CncCommand::Missions(true) => "<> mission annunciation ON; aye, aye"@,
            CncCommand::Missions(false) => "<> mission annunciation OFF; aye, aye"@,
        }
    }

    pub fn reply(&self) -> (r: String)
        ensures
            r@ == self.reply_spec(),
    {
        match self {
            CncCommand::MicCheck => lit("<> mic check; aye, aye"),
            CncCommand::Heartbeat => lit("<> quick mic check; aye, aye"),
            CncCommand::Headcount => lit("<> headcount; aye, aye"),
            CncCommand::Wakeup => lit("<> waking up; aye, aye. good luck, operator. say \"!heartbeat please\" if you wish to announce my awakening."),
            CncCommand::Sleep => lit("<> going to sleep; aye, aye"),
            CncCommand::Dead => lit("<> going to sleep; aye, aye. may the horde be with you."),
            CncCommand::Newbs(true) => lit("<> new player annunciation ON; aye, aye"),
            CncCommand::Newbs(false) => lit("<> new player annunciation OFF; aye, aye"),
            CncCommand::Annxs(true) => lit("<> announcement annunciation ON; aye, aye"),
            CncCommand::Annxs(false) => lit("<> announcement annunciation OFF; aye, aye"),
            CncCommand::Missions(true) => lit("<> mission annunciation ON; aye, aye"),
            CncCommand::Missions(false) => lit("<> mission annunciation OFF; aye, aye"),
        }
    }

    /// The state after the command.
    pub open spec fn apply_spec(self, s: RuntimeState) -> RuntimeState {
        match self {
            CncCommand::Wakeup => RuntimeState { dormant: false, ..s },
            CncCommand::Sleep => RuntimeState { dormant: true, ..s },
            CncCommand::Dead => RuntimeState { dormant: true, ..s },
            CncCommand::Newbs(b) => RuntimeState { newbs: b, ..s },
            CncCommand::Annxs(b) => RuntimeState { annxs: b, ..s },
            CncCommand::Missions(b) => RuntimeState { missions: b, ..s },
            _ => s,
        }
    }

}

impl CncCommand {
    /// The state after the command, as `apply_spec` says.
    pub fn apply(&self, s: RuntimeState) -> (r: RuntimeState)
        ensures
            r == self.apply_spec(s),
    {
        match self {
            CncCommand::Wakeup => RuntimeState { dormant: false, ..s },
            CncCommand::Sleep => RuntimeState { dormant: true, ..s },
            CncCommand::Dead => RuntimeState { dormant: true, ..s },
            CncCommand::Newbs(b) => RuntimeState { newbs: *b, ..s },
            CncCommand::Annxs(b) => RuntimeState { annxs: *b, ..s },
            CncCommand::Missions(b) => RuntimeState { missions: *b, ..s },
            _ => s,
        }
    }
}

/// What each command does to the conduit's state: `!wakeup` leaves the dormant state and
/// `!sleep` and `!dead` enter it; each toggle command sets its own toggle to on or off; every
/// other field is kept, and the mic check, heartbeat and headcount change nothing. Carrying out
/// a command twice is the same as once.
pub proof fn law_commands_change_state(c: CncCommand, s: RuntimeState)
    ensures
        ({
            let t = c.apply_spec(s);
            &&& t.throttled_at == s.throttled_at
            &&& t.dormant == match c {
                CncCommand::Wakeup => false,
                CncCommand::Sleep | CncCommand::Dead => true,
                _ => s.dormant,
            }
            &&& t.newbs == match c {
                CncCommand::Newbs(b) => b,
                _ => s.newbs,
            }
            &&& t.annxs == match c {
                CncCommand::Annxs(b) => b,
                _ => s.annxs,
            }
            &&& t.missions == match c {
                CncCommand::Missions(b) => b,
                _ => s.missions,
            }
            &&& c.apply_spec(t) == t
        }),
{
}

/// One step in carrying out a command of the command Group. The steps are taken in order, and
/// the first that fails ends the round.
pub enum CncStep {
    /// Post this acknowledgement in the command Group.
    Acknowledge(String),
    /// Like the command's message.
    LikeMessage,
    /// Post the mic check in the faction's Group (see `mic_check`).
    MicCheck,
    /// Post this text in the faction's Group.
    QuickMicCheck(String),
    /// Post the headcount (see `make_headcount`).
    Headcount,
    /// The conduit's state becomes this one (see `commit`).
    Commit(RuntimeState),
    /// Write this state to the command Group's description.
    WriteState(RuntimeState),
    /// Like the acknowledgement, when its post gave back a message.
    LikeAcknowledgement,
}

/// A step as a value of the model.
pub enum CncStepView {
    Acknowledge(Seq<char>),
    LikeMessage,
    MicCheck,
    QuickMicCheck(Seq<char>),
    Headcount,
    Commit(RuntimeState),
    WriteState(RuntimeState),
    LikeAcknowledgement,
}

impl CncStep {
    pub open spec fn view(self) -> CncStepView {
        match self {
            CncStep::Acknowledge(t) => CncStepView::Acknowledge(t@),
            CncStep::LikeMessage => CncStepView::LikeMessage,
            CncStep::MicCheck => CncStepView::MicCheck,
            CncStep::QuickMicCheck(t) => CncStepView::QuickMicCheck(t@),
            CncStep::Headcount => CncStepView::Headcount,
            CncStep::Commit(s) => CncStepView::Commit(s),
            CncStep::WriteState(s) => CncStepView::WriteState(s),
            CncStep::LikeAcknowledgement => CncStepView::LikeAcknowledgement,
        }
    }
}

pub open spec fn step_views(s: Seq<CncStep>) -> Seq<CncStepView> {
    Seq::new(s.len(), |i: int| s[i].view())
}

/// The steps of a command in a state: acknowledge it and like the message; then post the mic
/// check, the heartbeat line or the headcount, or take on the new state and write it down; and
/// last like the acknowledgement.
pub open spec fn cnc_steps(c: CncCommand, state: RuntimeState) -> Seq<CncStepView> {
    seq![CncStepView::Acknowledge(c.reply_spec()), CncStepView::LikeMessage] + match c {
        CncCommand::MicCheck => seq![CncStepView::MicCheck],
        CncCommand::Heartbeat => seq![CncStepView::QuickMicCheck(ConduitHvZToGroupme::quick_mic_check_spec(state))],
        CncCommand::Headcount => seq![CncStepView::Headcount],
        _ => seq![CncStepView::Commit(c.apply_spec(state)), CncStepView::WriteState(c.apply_spec(state))],
    } + seq![CncStepView::LikeAcknowledgement]
}

/// Whether a word holds exactly the characters of `w`.
fn word_is(v: &Vec<char>, w: &str) -> (b: bool)
    ensures
        b == (v@ == w@),
{
    same_text(string_of(v).as_str(), w)
}

/// Whether a word begins with `p`.
fn word_starts_with(v: &Vec<char>, p: &str) -> (b: bool)
    ensures
        b == starts_with(v@, p@),
{
    let pv = chars_of(p);
    if v.len() < pv.len() {
        return false;
    }
    let mut head: Vec<char> = Vec::new();
    for i in 0..pv.len()
        invariant
            pv@ == p@,
            pv.len() <= v.len(),
            head@ =~= v@.take(i as int),
    {
        head.push(v[i]);
    }
    same_text(string_of(&head).as_str(), p)
}

fn parse_toggle(w: &Vec<Vec<char>>) -> (r: Option<bool>)
    requires
        w.len() > 0,
    ensures
        r == toggle(views(w@)),
{
    let last = &w[w.len() - 1];
    if word_is(last, "on") {
        Some(true)
    } else if word_is(last, "off") {
        Some(false)
    } else {
        None
    }
}

/// Reads the command in a message text, if any.
pub fn parse_cnc(text: &str) -> (r: Option<CncCommand>)
    ensures
        r == parse_command(command_words(text@)),
{
    let pieces = split_char(&chars_of(text), '!');
    let middle: Vec<char> = if pieces.len() > 1 {
        crate::text::copy_chars(&pieces[1])
    } else {
        Vec::new()
    };
    let w = split_whitespace(&middle);
    let ghost wv = views(w@);
    if w.len() == 3 && word_is(&w[0], "mic") && word_is(&w[1], "check") && word_is(&w[2], "please") {
        assert(wv =~= seq!["mic"@, "check"@, "please"@]);
        return Some(CncCommand::MicCheck);
    }
    assert(wv != seq!["mic"@, "check"@, "please"@] ==> !(w.len() == 3 && wv[0] == "mic"@ && wv[1] == "check"@ && wv[2] == "please"@));
    if w.len() == 2 && word_is(&w[0], "heartbeat") && word_is(&w[1], "please") {
        assert(wv =~= seq!["heartbeat"@, "please"@]);
        return Some(CncCommand::Heartbeat);
    }
    if w.len() == 2 && word_is(&w[0], "headcount") && word_is(&w[1], "please") {
        assert(wv =~= seq!["headcount"@, "please"@]);
        return Some(CncCommand::Headcount);
    }
    proof {
        if wv == seq!["mic"@, "check"@, "please"@] {
            assert(wv[0] == "mic"@ && wv[1] == "check"@ && wv[2] == "please"@);
        }
        if wv == seq!["heartbeat"@, "please"@] {
            assert(wv[0] == "heartbeat"@ && wv[1] == "please"@);
        }
        if wv == seq!["headcount"@, "please"@] {
            assert(wv[0] == "headcount"@ && wv[1] == "please"@);
        }
    }
    if w.len() == 0 {
        return None;
    }
    if word_is(&w[0], "wakeup") {
        Some(CncCommand::Wakeup)
    } else if word_is(&w[0], "sleep") {
        Some(CncCommand::Sleep)
    } else if word_is(&w[0], "dead") {
        Some(CncCommand::Dead)
    } else if word_starts_with(&w[0], "new") {
        match parse_toggle(&w) {
            Some(b) => Some(CncCommand::Newbs(b)),
            None => None,
        }
    } else if word_starts_with(&w[0], "annx") {
        match parse_toggle(&w) {
            Some(b) => Some(CncCommand::Annxs(b)),
            None => None,
        }
    } else if word_starts_with(&w[0], "mission") {
        match parse_toggle(&w) {
            Some(b) => Some(CncCommand::Missions(b)),
            None => None,
        }
    } else {
        None
    }
}

/// How a chat message's time is shown: not at all when under three minutes old, by time of
/// day when under about an hour, else by weekday and time.
#[derive(Clone, Copy, Debug, PartialEq, Eq, Structural)]
pub enum Stamp {
    Hidden,
    Time,
    DayTime,
}

/// Whole minutes from `earlier` to `later`, rounded toward zero.
pub open spec fn minutes_between(later: int, earlier: int) -> int {
    let d = later - earlier;
    if d >= 0 { d / 60 } else { -((-d) / 60) }
}

/// Whole hours from `earlier` to `later`, rounded toward zero.
pub open spec fn hours_between(later: int, earlier: int) -> int {
    let d = later - earlier;
    if d >= 0 { d / 3600 } else { -((-d) / 3600) }
}

fn minutes_from(later: i64, earlier: i64) -> (m: i128)
    ensures
        m == minutes_between(later as int, earlier as int),
{
    let d = later as i128 - earlier as i128;
    if d >= 0 { d / 60 } else { -((-d) / 60) }
}

/// The stamp of a chat message of time `timestamp`, seen at `now`.
pub open spec fn stamp_spec(now: int, timestamp: int) -> Stamp {
    let m = minutes_between(now, timestamp);
    if m > 60 {
        Stamp::DayTime
    } else if m > 2 {
        Stamp::Time
    } else {
        Stamp::Hidden
    }
}

/// How to stamp a chat message of time `timestamp`, seen at `now` (the `ts` helper).
pub fn ts_kind(now: i64, timestamp: i64) -> (s: Stamp)
    ensures
        s == stamp_spec(now as int, timestamp as int),
{
    let m = minutes_from(now, timestamp);
    if m > 60 {
        Stamp::DayTime
    } else if m > 2 {
        Stamp::Time
    } else {
        Stamp::Hidden
    }
}

/// Between 3 and 6 o'clock the website is left alone.
pub open spec fn quiet_hour(hour: u32) -> bool {
    2 < hour < 7
}

/// What starting a conduit posts and keeps.
pub struct Startup {
    pub conduit: ConduitHvZToGroupme,
    pub write_state: bool,
    pub cnc_posts: Vec<String>,
}

/// The first line posted to the command Group on startup.
pub open spec fn startup_line(dormant: bool) -> Seq<char> {
    "<> bot starting up; in "@ + (if dormant { "DORMANT"@ } else { "ACTIVE"@ })
        + " state. please say \"!wakeup\" to exit the dormant state, or \"!sleep\" to re-enter it."@
}

/// The lines that explain the commands, posted when the command Group is new.
pub open spec fn tutorial_lines() -> Seq<Seq<char>> {
    seq![
        "<> private annunciation of new players can be toggled at any time. to do so, say \"!newbs on\" or \"!newbs off\"."@,
        "<> depending on how the admins are doing with \"Remind\", public annunciation of announcements and missions can be individually toggled at any time. to do so, say \"!annxs on\", \"!annxs off\", \"!missions on\" or \"!missions off\"."@,
        "<> if the game has not yet started and you're not afraid of being accused of spam, say \"!mic check please\" to publicly post a list of features."@,
    ]
}

/// The decisions of the conduit from the website to the faction's Group.
pub struct ConduitHvZToGroupme {
    pub state: RuntimeState,
}

impl ConduitHvZToGroupme {
    /// Starts with the stored state, or the default one (then to be written back); posts the
    /// startup line, and the tutorial when the command Group has no description yet.
    pub fn new(stored: Option<RuntimeState>, tutorial: bool) -> (r: Startup)
        ensures
            r.conduit.state == match stored {
                Some(s) => s,
                None => RuntimeState::default_spec(),
            },
            r.write_state == (stored is None),
            str_views(r.cnc_posts@) == seq![startup_line(r.conduit.state.dormant)] + if tutorial {
                tutorial_lines()
            } else {
                seq![]
            },
    {
        let (state, write_state) = match stored {
            Some(s) => (s, false),
            None => (RuntimeState::default(), true),
        };
        let mut posts: Vec<String> = Vec::new();
        let first = fill(
            "<> bot starting up; in ",
            if state.dormant {
                "DORMANT"
            } else {
                "ACTIVE"
            },
            " state. please say \"!wakeup\" to exit the dormant state, or \"!sleep\" to re-enter it.",
        );
        proof { lemma_str_views_push(posts@, first); }
        posts.push(first);
        if tutorial {
            let x = lit("<> private annunciation of new players can be toggled at any time. to do so, say \"!newbs on\" or \"!newbs off\".");
            proof { lemma_str_views_push(posts@, x); }
            posts.push(x);
            let x = lit("<> depending on how the admins are doing with \"Remind\", public annunciation of announcements and missions can be individually toggled at any time. to do so, say \"!annxs on\", \"!annxs off\", \"!missions on\" or \"!missions off\".");
            proof { lemma_str_views_push(posts@, x); }
            posts.push(x);
            let x = lit("<> if the game has not yet started and you're not afraid of being accused of spam, say \"!mic check please\" to publicly post a list of features.");
            proof { lemma_str_views_push(posts@, x); }
            posts.push(x);
        }
        let r = Startup { conduit: ConduitHvZToGroupme { state }, write_state, cnc_posts: posts };
        assert(str_views(r.cnc_posts@) =~= seq![startup_line(r.conduit.state.dormant)] + if tutorial {
            tutorial_lines()
        } else {
            seq![]
        });
        r
    }

    /// What the bot says in the faction's Group when asked for a heartbeat.
    pub fn quick_mic_check(&self) -> (r: String)
        ensures
            r@ == Self::quick_mic_check_spec(self.state),
    {
        if self.state.dormant {
            lit("Okay, backup bot is up. Ping me if the current bot-operator dies.")
        } else {
            lit("Okay, the bot is online.")
        }
    }

    /// The headcount message and the faction whose killboard bot says it: while no one has
    /// turned, the number of humans; afterwards, both numbers.
    pub fn make_headcount(&self, killboard: &Killboard) -> (r: (Faction, String))
        ensures
            ({
                let h = killboard.items(Faction::Human).len();
                let z = killboard.items(Faction::Zombie).len();
                if z == 0 {
                    r.0 == Faction::Human && r.1@ == "Thusfar we have recruited "@ + decimal(h)
                        + " people to the cause of Humanity. Hail Victory!"@
                } else {
                    r.0 == Faction::Zombie && r.1@ == "You currently have "@ + decimal(h)
                        + " Humans versus "@ + decimal(z) + " Zombies. Fight harder!"@
                }
            }),
    {
        let h = match killboard.get(&Faction::Human) {
            Some(v) => v.len(),
            None => 0,
        };
        let z = match killboard.get(&Faction::Zombie) {
            Some(v) => v.len(),
            None => 0,
        };
        if z == 0 {
            (Faction::Human, fill("Thusfar we have recruited ", usize_to_string(h).as_str(), " people to the cause of Humanity. Hail Victory!"))
        } else {
            (Faction::Zombie, fill2("You currently have ", usize_to_string(h).as_str(), " Humans versus ", usize_to_string(z).as_str(), " Zombies. Fight harder!"))
        }
    }

    /// The text the bot posts in the faction's Group when asked for a heartbeat, in a state.
    pub open spec fn quick_mic_check_spec(state: RuntimeState) -> Seq<char> {
        if state.dormant {
            "Okay, backup bot is up. Ping me if the current bot-operator dies."@
        } else {
            "Okay, the bot is online."@
        }
    }

    /// Reads a message of the command Group: a message somebody already liked was handled
    /// before; else, for a command, the steps that carry it out, in order. The state is not
    /// touched here: it changes at the `Commit` step, after the acknowledgement is posted and
    /// the message liked.
    pub fn process_cnc_message(&self, message: &groupme::Message) -> (r: Option<(CncCommand, Vec<CncStep>)>)
        ensures
            match r {
                Some((c, steps)) => message.favorited_by@.len() == 0
                    && parse_command(command_words(groupme::message_text(*message))) == Some(c)
                    && step_views(steps@) == cnc_steps(c, self.state),
                None => message.favorited_by@.len() > 0
                    || parse_command(command_words(groupme::message_text(*message))) is None,
            },
    {
        if message.favorited_by.len() > 0 {
            return None;
        }
        let text = message.text();
        match parse_cnc(text.as_str()) {
            Some(c) => Some((c, self.cnc_plan(c))),
            None => None,
        }
    }

    /// The steps that carry out a command, as `cnc_steps` says.
    pub fn cnc_plan(&self, c: CncCommand) -> (steps: Vec<CncStep>)
        ensures
            step_views(steps@) == cnc_steps(c, self.state),
    {
        let mut steps: Vec<CncStep> = Vec::new();
        steps.push(CncStep::Acknowledge(c.reply()));
        steps.push(CncStep::LikeMessage);
        match c {
            CncCommand::MicCheck => { steps.push(CncStep::MicCheck); },
            CncCommand::Heartbeat => { steps.push(CncStep::QuickMicCheck(self.quick_mic_check())); },
            CncCommand::Headcount => { steps.push(CncStep::Headcount); },
            _ => {
                let next = c.apply(self.state);
                steps.push(CncStep::Commit(next));
                steps.push(CncStep::WriteState(next));
            },
        }
        steps.push(CncStep::LikeAcknowledgement);
        assert(step_views(steps@) =~= cnc_steps(c, self.state));
        steps
    }

    /// Takes on a state that a `Commit` step gives.
    pub fn commit(&mut self, next: RuntimeState)
        ensures
            final(self).state == next,
    {
        self.state = next;
    }

    /// The website is polled when the last throttling is over 15 minutes old.
    pub fn boards_due(&self, now: i64) -> (b: bool)
        ensures
            b == (now - self.state.throttled_at > 900),
    {
        now as i128 - self.state.throttled_at as i128 > 900
    }

    /// The killboard is read every eighth tick, outside the quiet hours.
    pub fn killboard_due(hour: u32, i: usize) -> (b: bool)
        ensures
            b == (!quiet_hour(hour) && i % 8 == 0),
    {
        !(2 < hour && hour < 7) && i % 8 == 0
    }

    /// The panels are read on ticks 2 mod 4 within three minutes of the hour or the half hour,
    /// outside the quiet hours.
    pub fn panelboard_due(hour: u32, minute: u32, i: usize) -> (b: bool)
        ensures
            b == (!quiet_hour(hour) && (if 15 >= minute % 30 { 15 - minute % 30 } else { minute % 30 - 15 }) >= 12 && i % 4 == 2),
    {
        let m = minute % 30;
        let d = if 15 >= m {
            15 - m
        } else {
            m - 15
        };
        !(2 < hour && hour < 7) && d >= 12 && i % 4 == 2
    }

    /// The chat is read every eighth tick, or every fourth when awake, outside the quiet hours.
    pub fn chatboard_due(&self, hour: u32, i: usize) -> (b: bool)
        ensures
            b == (!quiet_hour(hour) && (i % 8 == 1 || (!self.state.dormant && i % 4 == 1))),
    {
        !(2 < hour && hour < 7) && (i % 8 == 1 || (!self.state.dormant && i % 4 == 1))
    }
}

impl RuntimeState {
    pub open spec fn default_spec() -> RuntimeState {
        RuntimeState { newbs: false, dormant: true, annxs: false, missions: false, throttled_at: 0 }
    }
}

} // verus!
