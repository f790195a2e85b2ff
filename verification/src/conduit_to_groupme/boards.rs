use vstd::prelude::*;
use crate::board::{Board, BoardKey};
use crate::conduit_to_groupme::{BotRole, ConduitHvZToGroupme, RuntimeState, Stamp, nll, nll_spec,
    phrase_options, phrase_2_options, minutes_between, hours_between, stamp_spec, ts_kind};
use crate::hvz::{self, Faction, PanelKind, Panel, Player, Killboard, Chatboard, Panelboard};
use crate::order::Ordered;
use crate::syncer::copy_items;
use crate::text::{lit, cat, str_views, lemma_str_views_push};
use crate::conduit_to_groupme::bots::Notice;
use crate::groupme::{Group, user_ids};

verus! {

/// What the conduit does about a change of the killboard.
pub enum KillboardAction {
    /// The command Group hears of a new player.
    Cnc(String),
    /// The role's bot tells the faction Group who signed up or died, and by whom when every
    /// killer is known.
    Announce { role: BotRole, victims: String, perpetrators: Option<String> },
    /// The players who just turned are to be found in the faction Group and kicked.
    Zombies(Vec<Player>),
}

/// A killboard action with its strings read as character sequences.
pub enum KillboardStep {
    Cnc(Seq<char>),
    Announce(BotRole, Seq<char>, Option<Seq<char>>),
    Zombies(Seq<Player>),
}

impl KillboardAction {
    pub open spec fn step(self) -> KillboardStep {
        match self {
            KillboardAction::Cnc(s) => KillboardStep::Cnc(s@),
            KillboardAction::Announce { role, victims, perpetrators } => KillboardStep::Announce(
                role,
                victims@,
                match perpetrators {
                    Some(p) => Some(p@),
                    None => None,
                },
            ),
            KillboardAction::Zombies(v) => KillboardStep::Zombies(v@),
        }
    }
}

/// The steps of a list of actions.
pub open spec fn steps(v: Seq<KillboardAction>) -> Seq<KillboardStep> {
    Seq::new(v.len(), |i: int| v[i].step())
}

/// The line that tells the command Group of a new player.
pub open spec fn newbie_line(p: Player) -> Seq<char> {
    "<> new player: "@ + p.gtname@ + "@gatech.edu - "@ + p.playername@
}

/// The player names of a list of players.
pub open spec fn playernames(ps: Seq<Player>) -> Seq<Seq<char>> {
    Seq::new(ps.len(), |i: int| ps[i].playername@)
}

/// The killers of each of `ps`, as the killboard names them, when all are known.
pub open spec fn killers(ps: Seq<Player>, zeds: Seq<Player>) -> Option<Seq<Seq<char>>>
    decreases ps.len(),
{
    if ps.len() == 0 {
        Some(seq![])
    } else {
        match (killers(ps.drop_last(), zeds), ps.last().kb_playername_spec(zeds)) {
            (Some(k), Some(z)) => Some(k.push(z)),
            _ => None,
        }
    }
}

/// What the conduit does about the players newly listed under faction `f`, with `zeds` the
/// zombies of the whole killboard: new humans are told to the command Group when it asked
/// for them; otherwise, while awake, the faction's bot announces them, and new zombies are
/// then kicked.
pub open spec fn killboard_steps(state: RuntimeState, zeds: Seq<Player>, f: Faction, news: Seq<Player>) -> Seq<KillboardStep> {
    if news.len() == 0 {
        seq![]
    } else if f == Faction::Human {
        if state.newbs {
            Seq::new(news.len(), |i: int| KillboardStep::Cnc(newbie_line(news[i])))
        } else {
            seq![]
        }
    } else if state.dormant {
        seq![]
    } else {
        let victims = nll_spec(playernames(news), seq![]);
        let perps = match killers(news, zeds) {
            Some(k) => Some(nll_spec(k, " (resp.)"@)),
            None => None,
        };
        let a = seq![KillboardStep::Announce(BotRole::Killboard(f), victims, perps)];
        if f == Faction::Zombie {
            a.push(KillboardStep::Zombies(news))
        } else {
            a
        }
    }
}

/// The items of a board under one key, copied.
fn items_of<K: BoardKey, T: Ordered>(b: &Board<K, T>, k: K) -> (r: Vec<T>)
    ensures
        r@ == b.items(k),
{
    match b.get(&k) {
        Some(v) => copy_items(v),
        None => Vec::new(),
    }
}

fn killers_of(ps: &Vec<Player>, zeds: &Vec<Player>) -> (r: Option<Vec<String>>)
    ensures
        match r {
            Some(k) => killers(ps@, zeds@) == Some(str_views(k@)),
            None => killers(ps@, zeds@) is None,
        },
{
    let mut out: Vec<String> = Vec::new();
    for i in 0..ps.len()
        invariant
            killers(ps@.take(i as int), zeds@) == Some(str_views(out@)),
    {
        assert(ps@.take(i + 1).drop_last() =~= ps@.take(i as int));
        match ps[i].kb_playername(zeds) {
            Some(z) => {
                proof { lemma_str_views_push(out@, z); }
                out.push(z);
            },
            None => {
                proof { lemma_killers_none(ps@, zeds@, i + 1); }
                return None;
            },
        }
    }
    assert(ps@.take(ps.len() as int) =~= ps@);
    Some(out)
}

proof fn lemma_killers_none(ps: Seq<Player>, zeds: Seq<Player>, k: int)
    requires
        0 <= k <= ps.len(),
        killers(ps.take(k), zeds) is None,
    ensures
        killers(ps, zeds) is None,
    decreases ps.len() - k,
{
    if k < ps.len() {
        assert(ps.take(k + 1).drop_last() =~= ps.take(k));
        lemma_killers_none(ps, zeds, k + 1);
    } else {
        assert(ps.take(k) =~= ps);
    }
}

fn player_names(ps: &Vec<Player>) -> (r: Vec<String>)
    ensures
        str_views(r@) == playernames(ps@),
{
    let mut out: Vec<String> = Vec::new();
    for i in 0..ps.len()
        invariant
            str_views(out@) =~= playernames(ps@.take(i as int)),
    {
        let x = ps[i].playername.clone();
        proof { lemma_str_views_push(out@, x); }
        out.push(x);
    }
    assert(ps@.take(ps.len() as int) =~= ps@);
    out
}

/// The pattern of a panel's mission window, by minutes from now to its start.
pub open spec fn mission_upcoming(p: Panel, now: int) -> bool {
    match p.particulars {
        Some(w) => 15 <= minutes_between(w.start as int, now) <= 65,
        None => false,
    }
}

/// Whether a new panel of kind `kind` is announced: every announcement is; a mission only
/// when it starts in 15 to 65 minutes.
pub open spec fn panel_due(kind: PanelKind, p: Panel, now: int) -> bool {
    kind != PanelKind::Mission || mission_upcoming(p, now)
}

/// Whether the panels of a kind are announced at all: while awake, and as the command Group
/// toggled them.
pub open spec fn announces(state: RuntimeState, kind: PanelKind) -> bool {
    !state.dormant && match kind {
        PanelKind::Announcement => state.annxs,
        PanelKind::Mission => state.missions,
    }
}

/// The new panels of a kind that are announced, in order.
pub open spec fn due_panels(now: int, kind: PanelKind, ps: Seq<Panel>) -> Seq<(PanelKind, Panel)>
    decreases ps.len(),
{
    if ps.len() == 0 {
        seq![]
    } else {
        let r = due_panels(now, kind, ps.drop_last());
        if panel_due(kind, ps.last(), now) {
            r.push((kind, ps.last()))
        } else {
            r
        }
    }
}

/// What is announced of the new panels of a kind.
pub open spec fn panel_posts(state: RuntimeState, now: int, kind: PanelKind, ps: Seq<Panel>) -> Seq<(PanelKind, Panel)> {
    if announces(state, kind) {
        due_panels(now, kind, ps)
    } else {
        seq![]
    }
}

proof fn lemma_due_panels(now: int, kind: PanelKind, ps: Seq<Panel>)
    ensures
        forall|j: int| 0 <= j < due_panels(now, kind, ps).len() ==> {
            let x = #[trigger] due_panels(now, kind, ps)[j];
            x.0 == kind && panel_due(kind, x.1, now) && ps.contains(x.1)
        },
        forall|i: int| 0 <= i < ps.len() && panel_due(kind, #[trigger] ps[i], now) ==> due_panels(now, kind, ps).contains((kind, ps[i])),
    decreases ps.len(),
{
    if ps.len() > 0 {
        let q = ps.drop_last();
        lemma_due_panels(now, kind, q);
        let r = due_panels(now, kind, q);
        assert forall|j: int| 0 <= j < due_panels(now, kind, ps).len() implies {
            let x = #[trigger] due_panels(now, kind, ps)[j];
            x.0 == kind && panel_due(kind, x.1, now) && ps.contains(x.1)
        } by {
            let d = due_panels(now, kind, ps);
            if j < r.len() {
                assert(d[j] == r[j]);
                let x = r[j];
                assert(q.contains(x.1));
                let k = choose|k: int| 0 <= k < q.len() && q[k] == x.1;
                assert(ps[k] == x.1);
            } else {
                assert(d[j] == (kind, ps.last()));
                assert(ps[ps.len() - 1] == ps.last());
            }
        }
        assert forall|i: int| 0 <= i < ps.len() && panel_due(kind, #[trigger] ps[i], now) implies due_panels(now, kind, ps).contains((kind, ps[i])) by {
            let d = due_panels(now, kind, ps);
            if i < ps.len() - 1 {
                assert(q[i] == ps[i]);
                assert(r.contains((kind, q[i])));
                let k = choose|k: int| 0 <= k < r.len() && r[k] == (kind, q[i]);
                assert(d[k] == r[k]);
            } else {
                assert(d[d.len() - 1] == (kind, ps.last()));
            }
        }
    }
}

/// What is announced of new panels: nothing while dormant; missions when `!missions on` was
/// set, announcements when `!annxs on` was, each regardless of the other toggle. Every
/// announcement of an announced kind is posted; a mission is posted exactly when it starts in
/// 15 to 65 minutes; and what is posted is a panel of the list, of that kind.
pub proof fn law_panel_toggles(state: RuntimeState, now: int, ps: Seq<Panel>)
    ensures
        forall|kind: PanelKind| {
            let posts = #[trigger] panel_posts(state, now, kind, ps);
            let on = match kind {
                PanelKind::Announcement => state.annxs,
                PanelKind::Mission => state.missions,
            };
            &&& (state.dormant || !on) ==> posts.len() == 0
            &&& forall|j: int| 0 <= j < posts.len() ==> posts[j].0 == kind && ps.contains(posts[j].1)
                && (kind == PanelKind::Mission ==> mission_upcoming(posts[j].1, now))
            &&& (!state.dormant && on) ==> forall|i: int| 0 <= i < ps.len()
                && (kind == PanelKind::Announcement || mission_upcoming(#[trigger] ps[i], now))
                ==> posts.contains((kind, ps[i]))
        },
{
    assert forall|kind: PanelKind| {
        let posts = #[trigger] panel_posts(state, now, kind, ps);
        let on = match kind {
            PanelKind::Announcement => state.annxs,
            PanelKind::Mission => state.missions,
        };
        &&& (state.dormant || !on) ==> posts.len() == 0
        &&& forall|j: int| 0 <= j < posts.len() ==> posts[j].0 == kind && ps.contains(posts[j].1)
            && (kind == PanelKind::Mission ==> mission_upcoming(posts[j].1, now))
        &&& (!state.dormant && on) ==> forall|i: int| 0 <= i < ps.len()
            && (kind == PanelKind::Announcement || mission_upcoming(#[trigger] ps[i], now))
            ==> posts.contains((kind, ps[i]))
    } by {
        lemma_due_panels(now, kind, ps);
        let posts = panel_posts(state, now, kind, ps);
        assert forall|j: int| 0 <= j < posts.len() implies posts[j].0 == kind && ps.contains(posts[j].1)
            && (kind == PanelKind::Mission ==> mission_upcoming(posts[j].1, now)) by {
            assert(posts[j] == due_panels(now, kind, ps)[j]);
        }
        let on = match kind {
            PanelKind::Announcement => state.annxs,
            PanelKind::Mission => state.missions,
        };
        if !state.dormant && on {
            assert forall|i: int| 0 <= i < ps.len()
                && (kind == PanelKind::Announcement || mission_upcoming(#[trigger] ps[i], now))
                implies posts.contains((kind, ps[i])) by {
                assert(panel_due(kind, ps[i], now));
            }
        }
    }
}

/// Whether a chat message is recent enough to repeat: at most a day old, or ahead.
pub open spec fn chat_fresh(m: hvz::Message, now: int) -> bool {
    let h = hours_between(now, m.timestamp as int);
    -24 <= h <= 24
}

/// A chat message to repeat, by the bot of `role`, with the way to stamp it.
pub struct ChatPost {
    pub role: BotRole,
    pub message: hvz::Message,
    pub stamp: Stamp,
}

/// The new chat messages of an audience that are repeated, in order.
pub open spec fn due_chats(now: int, f: Faction, ms: Seq<hvz::Message>) -> Seq<ChatPost>
    decreases ms.len(),
{
    if ms.len() == 0 {
        seq![]
    } else {
        let r = due_chats(now, f, ms.drop_last());
        if chat_fresh(ms.last(), now) {
            r.push(ChatPost { role: BotRole::Chat(f), message: ms.last(), stamp: stamp_spec(now, ms.last().timestamp as int) })
        } else {
            r
        }
    }
}

/// What is repeated of the new chat messages of an audience: nothing while asleep, nor of the
/// general chat during the day (7 to 23 o'clock).
pub open spec fn chat_posts(state: RuntimeState, now: int, hour: int, f: Faction, ms: Seq<hvz::Message>) -> Seq<ChatPost> {
    if state.dormant || (f == Faction::General && 7 <= hour < 23) {
        seq![]
    } else {
        due_chats(now, f, ms)
    }
}

impl ConduitHvZToGroupme {
    fn killboard_actions(&self, zeds: &Vec<Player>, f: Faction, news: Vec<Player>) -> (r: Vec<KillboardAction>)
        ensures
            steps(r@) == killboard_steps(self.state, zeds@, f, news@),
    {
        let mut r: Vec<KillboardAction> = Vec::new();
        if news.len() == 0 {
            assert(steps(r@) =~= seq![]);
            return r;
        }
        if f == Faction::Human {
            if self.state.newbs {
                for i in 0..news.len()
                    invariant
                        f == Faction::Human,
                        r.len() == i,
                        steps(r@) =~= Seq::new(i as nat, |j: int| KillboardStep::Cnc(newbie_line(news@[j]))),
                {
                    let p = &news[i];
                    let line = cat(cat(cat("<> new player: ", p.gtname.as_str()).as_str(), "@gatech.edu - ").as_str(), p.playername.as_str());
                    let ghost before = r@;
                    r.push(KillboardAction::Cnc(line));
                    assert(r@[i as int].step() == KillboardStep::Cnc(newbie_line(news@[i as int])));
                    assert(forall|j: int| 0 <= j < i ==> r@[j] == before[j]);
                    assert forall|j: int| 0 <= j <= i implies steps(r@)[j] == KillboardStep::Cnc(newbie_line(news@[j])) by {
                        if j < i {
                            assert(steps(before)[j] == KillboardStep::Cnc(newbie_line(news@[j])));
                        }
                    }
                }
            }
            assert(steps(r@) =~= killboard_steps(self.state, zeds@, f, news@));
            return r;
        }
        if self.state.dormant {
            assert(steps(r@) =~= seq![]);
            return r;
        }
        let names = player_names(&news);
        let victims = nll(&names, None);
        let perpetrators = match killers_of(&news, zeds) {
            Some(k) => Some(nll(&k, Some(" (resp.)"))),
            None => None,
        };
        r.push(KillboardAction::Announce { role: BotRole::Killboard(f), victims, perpetrators });
        if f == Faction::Zombie {
            r.push(KillboardAction::Zombies(news));
        }
        assert(steps(r@) =~= killboard_steps(self.state, zeds@, f, news@));
        r
    }

    /// What to do about the changes of the killboard, `killboard` being the board after them
    /// and `additions` the newly listed players, faction by faction in order.
    pub fn process_killboard(&self, killboard: &Killboard, additions: &Killboard) -> (r: Vec<KillboardAction>)
        ensures
            ({
                let zeds = killboard.items(Faction::Zombie);
                steps(r@) == killboard_steps(self.state, zeds, Faction::General, additions.items(Faction::General))
                    + killboard_steps(self.state, zeds, Faction::Human, additions.items(Faction::Human))
                    + killboard_steps(self.state, zeds, Faction::Zombie, additions.items(Faction::Zombie))
                    + killboard_steps(self.state, zeds, Faction::Admin, additions.items(Faction::Admin))
            }),
    {
        let zeds = items_of(killboard, Faction::Zombie);
        let mut r = self.killboard_actions(&zeds, Faction::General, items_of(additions, Faction::General));
        let mut h = self.killboard_actions(&zeds, Faction::Human, items_of(additions, Faction::Human));
        let mut z = self.killboard_actions(&zeds, Faction::Zombie, items_of(additions, Faction::Zombie));
        let mut a = self.killboard_actions(&zeds, Faction::Admin, items_of(additions, Faction::Admin));
        let ghost (r0, h0, z0, a0) = (r@, h@, z@, a@);
        r.append(&mut h);
        r.append(&mut z);
        r.append(&mut a);
        assert(r@ == r0 + h0 + z0 + a0);
        assert(steps(r@) =~= steps(r0) + steps(h0) + steps(z0) + steps(a0));
        r
    }

    fn due_panels_of(now: i64, kind: PanelKind, ps: &Vec<Panel>) -> (r: Vec<(PanelKind, Panel)>)
        ensures
            r@ == due_panels(now as int, kind, ps@),
    {
        let mut r: Vec<(PanelKind, Panel)> = Vec::new();
        for i in 0..ps.len()
            invariant
                r@ == due_panels(now as int, kind, ps@.take(i as int)),
        {
            assert(ps@.take(i + 1).drop_last() =~= ps@.take(i as int));
            let p = &ps[i];
            let due = match kind {
                PanelKind::Mission => match &p.particulars {
                    Some(w) => {
                        let d = w.start as i128 - now as i128;
                        let m = if d >= 0 {
                            d / 60
                        } else {
                            -((-d) / 60)
                        };
                        15 <= m && m <= 65
                    },
                    None => false,
                },
                PanelKind::Announcement => true,
            };
            if due {
                r.push((kind, p.duplicate()));
            }
        }
        assert(ps@.take(ps.len() as int) =~= ps@);
        r
    }

    /// The new panels to announce, announcements first, each with its kind.
    pub fn process_panelboard(&self, now: i64, additions: &Panelboard) -> (r: Vec<(PanelKind, Panel)>)
        ensures
            r@ == panel_posts(self.state, now as int, PanelKind::Announcement, additions.items(PanelKind::Announcement))
                + panel_posts(self.state, now as int, PanelKind::Mission, additions.items(PanelKind::Mission)),
    {
        let mut r: Vec<(PanelKind, Panel)> = Vec::new();
        if !self.state.dormant && self.state.annxs {
            r = Self::due_panels_of(now, PanelKind::Announcement, &items_of(additions, PanelKind::Announcement));
        }
        let ghost r0 = r@;
        let mut m: Vec<(PanelKind, Panel)> = Vec::new();
        if !self.state.dormant && self.state.missions {
            m = Self::due_panels_of(now, PanelKind::Mission, &items_of(additions, PanelKind::Mission));
        }
        let ghost m0 = m@;
        r.append(&mut m);
        assert(r@ =~= r0 + m0);
        r
    }

    /// The posts about the new panels, as `process_panelboard` picks them: each by the bot of
    /// the panel's kind, as `panel_message` says, mentioning every member of the faction Group.
    pub fn panel_notices(&self, now: i64, additions: &Panelboard, group: &Group) -> (r: Vec<Notice>)
        ensures
            ({
                let posts = panel_posts(self.state, now as int, PanelKind::Announcement, additions.items(PanelKind::Announcement))
                    + panel_posts(self.state, now as int, PanelKind::Mission, additions.items(PanelKind::Mission));
                &&& r.len() == posts.len()
                &&& forall|i: int| 0 <= i < r.len() ==> {
                    &&& #[trigger] r@[i].role == BotRole::Panel(posts[i].0)
                    &&& panel_text(r@[i].text@, posts[i].0, posts[i].1)
                    &&& str_views(r@[i].mention@) == user_ids(group.members@)
                }
            }),
    {
        let posts = self.process_panelboard(now, additions);
        let mut r: Vec<Notice> = Vec::new();
        for i in 0..posts.len()
            invariant
                r.len() == i,
                forall|j: int| 0 <= j < i ==> {
                    &&& #[trigger] r@[j].role == BotRole::Panel(posts@[j].0)
                    &&& panel_text(r@[j].text@, posts@[j].0, posts@[j].1)
                    &&& str_views(r@[j].mention@) == user_ids(group.members@)
                },
        {
            let kind = posts[i].0;
            let text = panel_message(kind, &posts[i].1);
            r.push(Notice { role: BotRole::Panel(kind), text, mention: group.member_uids() });
        }
        r
    }

    fn due_chats_of(now: i64, f: Faction, ms: &Vec<hvz::Message>) -> (r: Vec<ChatPost>)
        ensures
            r@ == due_chats(now as int, f, ms@),
    {
        let mut r: Vec<ChatPost> = Vec::new();
        for i in 0..ms.len()
            invariant
                r@ == due_chats(now as int, f, ms@.take(i as int)),
        {
            assert(ms@.take(i + 1).drop_last() =~= ms@.take(i as int));
            let m = &ms[i];
            let d = now as i128 - m.timestamp as i128;
            let h = if d >= 0 {
                d / 3600
            } else {
                -((-d) / 3600)
            };
            if -24 <= h && h <= 24 {
                r.push(ChatPost { role: BotRole::Chat(f), message: m.duplicate(), stamp: ts_kind(now, m.timestamp) });
            }
        }
        assert(ms@.take(ms.len() as int) =~= ms@);
        r
    }

    fn chat_posts_of(&self, now: i64, hour: u32, f: Faction, ms: &Vec<hvz::Message>) -> (r: Vec<ChatPost>)
        ensures
            r@ == chat_posts(self.state, now as int, hour as int, f, ms@),
    {
        if self.state.dormant || (f == Faction::General && 7 <= hour && hour < 23) {
            Vec::new()
        } else {
            Self::due_chats_of(now, f, ms)
        }
    }

    /// The new chat messages to repeat, audience by audience in order, seen at `now` in local
    /// hour `hour`.
    pub fn process_chatboard(&self, now: i64, hour: u32, additions: &Chatboard) -> (r: Vec<ChatPost>)
        ensures
            r@ == chat_posts(self.state, now as int, hour as int, Faction::General, additions.items(Faction::General))
                + chat_posts(self.state, now as int, hour as int, Faction::Human, additions.items(Faction::Human))
                + chat_posts(self.state, now as int, hour as int, Faction::Zombie, additions.items(Faction::Zombie))
                + chat_posts(self.state, now as int, hour as int, Faction::Admin, additions.items(Faction::Admin)),
    {
        let mut r = self.chat_posts_of(now, hour, Faction::General, &items_of(additions, Faction::General));
        let mut h = self.chat_posts_of(now, hour, Faction::Human, &items_of(additions, Faction::Human));
        let mut z = self.chat_posts_of(now, hour, Faction::Zombie, &items_of(additions, Faction::Zombie));
        let mut a = self.chat_posts_of(now, hour, Faction::Admin, &items_of(additions, Faction::Admin));
        let ghost (r0, h0, z0, a0) = (r@, h@, z@, a@);
        r.append(&mut h);
        r.append(&mut z);
        r.append(&mut a);
        assert(r@ =~= r0 + h0 + z0 + a0);
        r
    }
}

/// What the role's bot says of new players `victims`, by `perpetrators` when known: one of its
/// messages, chosen at random.
pub fn announcement(role: BotRole, victims: &str, perpetrators: &Option<String>) -> (r: String)
    ensures
        match perpetrators {
            Some(p) => exists|k: int|
                0 <= k < phrase_2_options(role, victims@, p@).len() && r@ == phrase_2_options(role, victims@, p@)[k],
            None => exists|k: int| 0 <= k < phrase_options(role, victims@).len() && r@ == phrase_options(role, victims@)[k],
        },
{
    match perpetrators {
        Some(p) => role.phrase_2(victims, p.as_str()),
        None => role.phrase(victims),
    }
}

/// Whether `t` is what the bot of a panel's kind may post about it: one of its messages about
/// the title, then the panel's text on the next line.
pub open spec fn panel_text(t: Seq<char>, kind: PanelKind, panel: Panel) -> bool {
    exists|k: int|
        0 <= k < phrase_options(BotRole::Panel(kind), panel.title@).len() && t == phrase_options(
            BotRole::Panel(kind),
            panel.title@,
        )[k] + "\n"@ + panel.text@
}

/// What the bot of a panel's kind posts about it: one of its messages about the title, chosen
/// at random, then the panel's text on the next line.
pub fn panel_message(kind: PanelKind, panel: &Panel) -> (r: String)
    ensures
        panel_text(r@, kind, *panel),
{
    let head = BotRole::Panel(kind).phrase(panel.title.as_str());
    cat(cat(head.as_str(), "\n").as_str(), panel.text.as_str())
}

impl Stamp {
    /// The `strftime` pattern the time of a repeated chat message is written with; `None` when
    /// a single space stands in its place.
    pub fn pattern(&self) -> (r: Option<String>)
        ensures
            match self {
                Stamp::Hidden => r is None,
                Stamp::Time => r matches Some(p) && p@ == " [%H:%M:%S] "@,
                Stamp::DayTime => r matches Some(p) && p@ == " [%a %H:%M:%S] "@,
            },
    {
        match self {
            Stamp::Hidden => None,
            Stamp::Time => Some(lit(" [%H:%M:%S] ")),
            Stamp::DayTime => Some(lit(" [%a %H:%M:%S] ")),
        }
    }
}

/// The line the chat bot posts: the sender in brackets, the written time, then the text.
pub fn chat_line(post: &ChatPost, stamp_text: &str) -> (r: String)
    ensures
        r@ == "["@ + post.message.sender.playername@ + "]"@ + stamp_text@ + post.message.text@,
{
    cat(cat(cat(cat("[", post.message.sender.playername.as_str()).as_str(), "]").as_str(), stamp_text).as_str(), post.message.text.as_str())
}

/// A dormant conduit is silent in the faction Group: it announces no killboard change but
/// the new players it tells the command Group of, repeats no chat message, and announces no
/// panel.
pub proof fn law_dormant_is_silent(state: RuntimeState, zeds: Seq<Player>, f: Faction, news: Seq<Player>, now: int, hour: int, ms: Seq<hvz::Message>, kind: PanelKind, ps: Seq<Panel>)
    requires
        state.dormant,
    ensures
        forall|i: int| 0 <= i < killboard_steps(state, zeds, f, news).len() ==> #[trigger] killboard_steps(state, zeds, f, news)[i] is Cnc,
        chat_posts(state, now, hour, f, ms).len() == 0,
        panel_posts(state, now, kind, ps).len() == 0,
{
}

} // verus!
