use vstd::prelude::*;
use crate::board::BoardKey;
use crate::conduit_to_groupme::{BotRole, ConduitHvZToGroupme, killboard_checkers, killboard_checkers_spec};
use crate::groupme::Bot;
use crate::hvz::{Faction, PanelKind};
use crate::text::{lit, str_views, lemma_str_views_push};

verus! {

impl BoardKey for BotRole {
    /// Roles are ranked as their derived order sorts them: the vox populi, the chats, the
    /// killboards, then the panels, each by faction or kind.
    open spec fn rank(self) -> nat {
        match self {
            BotRole::VoxPopuli => 0,
            BotRole::Chat(f) => 1 + f.rank(),
            BotRole::Killboard(f) => 5 + f.rank(),
            BotRole::Panel(k) => 9 + k.rank(),
        }
    }

    open spec fn count() -> nat {
        11
    }

    fn index(&self) -> (i: usize) {
        match self {
            BotRole::VoxPopuli => 0,
            BotRole::Chat(f) => 1 + f.index(),
            BotRole::Killboard(f) => 5 + f.index(),
            BotRole::Panel(k) => 9 + k.index(),
        }
    }

    fn size() -> (n: usize) {
        11
    }

    fn from_index(i: usize) -> (k: Self) {
        if i == 0 {
            BotRole::VoxPopuli
        } else if i < 5 {
            BotRole::Chat(Faction::from_index(i - 1))
        } else if i < 9 {
            BotRole::Killboard(Faction::from_index(i - 5))
        } else {
            BotRole::Panel(PanelKind::from_index(i - 9))
        }
    }

    proof fn lemma_rank_bound(k: Self) {
        match k {
            BotRole::Chat(f) => Faction::lemma_rank_bound(f),
            BotRole::Killboard(f) => Faction::lemma_rank_bound(f),
            BotRole::Panel(p) => PanelKind::lemma_rank_bound(p),
            _ => {},
        }
    }

    proof fn lemma_rank_injective(a: Self, b: Self) {
        match (a, b) {
            (BotRole::Chat(f), BotRole::Chat(g)) => Faction::lemma_rank_injective(f, g),
            (BotRole::Killboard(f), BotRole::Killboard(g)) => Faction::lemma_rank_injective(f, g),
            (BotRole::Panel(f), BotRole::Panel(g)) => PanelKind::lemma_rank_injective(f, g),
            _ => {
                Faction::lemma_rank_bound(Faction::General);
                match a {
                    BotRole::Chat(f) => Faction::lemma_rank_bound(f),
                    BotRole::Killboard(f) => Faction::lemma_rank_bound(f),
                    BotRole::Panel(p) => PanelKind::lemma_rank_bound(p),
                    _ => {},
                }
                match b {
                    BotRole::Chat(f) => Faction::lemma_rank_bound(f),
                    BotRole::Killboard(f) => Faction::lemma_rank_bound(f),
                    BotRole::Panel(p) => PanelKind::lemma_rank_bound(p),
                    _ => {},
                }
            },
        }
    }
}

/// The bots of the faction Group found so far, one per role, walked in the order of roles.
pub struct BotCache {
    slots: Vec<Option<Bot>>,
}

impl BotCache {
    #[verifier::type_invariant]
    spec fn inv(&self) -> bool {
        self.slots.len() == BotRole::count()
    }

    /// The bot cached for a role.
    pub closed spec fn bot(&self, role: BotRole) -> Option<Bot> {
        self.slots@[role.rank() as int]
    }

    fn empty_slots() -> (v: Vec<Option<Bot>>)
        ensures
            v.len() == BotRole::count(),
            forall|j: int| 0 <= j < v.len() ==> v@[j] is None,
    {
        let mut slots: Vec<Option<Bot>> = Vec::new();
        for i in 0..11usize
            invariant
                slots.len() == i,
                forall|j: int| 0 <= j < i ==> slots@[j] is None,
        {
            slots.push(None);
        }
        slots
    }

    /// A cache that holds no bot.
    pub fn new() -> (c: BotCache)
        ensures
            forall|role: BotRole| #[trigger] c.bot(role) is None,
    {
        let slots = Self::empty_slots();
        let c = BotCache { slots };
        assert forall|role: BotRole| #[trigger] c.bot(role) is None by {
            BotRole::lemma_rank_bound(role);
        }
        c
    }

    /// The bot cached for a role, if any (the first half of `retrieve`: when there is none,
    /// the bot is looked up or created, then `insert`ed).
    pub fn get(&self, role: BotRole) -> (r: Option<&Bot>)
        ensures
            match r {
                Some(b) => self.bot(role) == Some(*b),
                None => self.bot(role) is None,
            },
    {
        proof {
            use_type_invariant(self);
            BotRole::lemma_rank_bound(role);
        }
        match &self.slots[role.index()] {
            Some(b) => Some(b),
            None => None,
        }
    }

    /// Caches the bot of a role.
    pub fn insert(&mut self, role: BotRole, bot: Bot)
        ensures
            final(self).bot(role) == Some(bot),
            forall|other: BotRole| other != role ==> #[trigger] final(self).bot(other) == old(self).bot(other),
    {
        proof {
            use_type_invariant(&*self);
            BotRole::lemma_rank_bound(role);
        }
        let i = role.index();
        let mut slots = Self::empty_slots();
        std::mem::swap(&mut slots, &mut self.slots);
        slots.set(i, Some(bot));
        self.slots = slots;
        proof {
            assert forall|other: BotRole| other != role implies #[trigger] self.bot(other) == old(self).bot(other) by {
                BotRole::lemma_rank_bound(other);
                if other.rank() == role.rank() {
                    BotRole::lemma_rank_injective(other, role);
                }
            }
        }
    }

    /// The roles that have a bot, in order.
    pub fn roles(&self) -> (r: Vec<BotRole>)
        ensures
            forall|i: int, j: int| 0 <= i < j < r.len() ==> r@[i].rank() < r@[j].rank(),
            forall|role: BotRole| #[trigger] self.bot(role) is Some <==> r@.contains(role),
    {
        proof {
            use_type_invariant(self);
        }
        let mut r: Vec<BotRole> = Vec::new();
        for i in 0..11usize
            invariant
                self.slots.len() == 11,
                forall|a: int, b: int| 0 <= a < b < r.len() ==> r@[a].rank() < r@[b].rank(),
                forall|a: int| 0 <= a < r.len() ==> r@[a].rank() < i,
                forall|a: int| 0 <= a < r.len() ==> #[trigger] self.slots@[r@[a].rank() as int] is Some,
                forall|role: BotRole| role.rank() < i && #[trigger] self.bot(role) is Some ==> r@.contains(role),
        {
            if self.slots[i].is_some() {
                let role = BotRole::from_index(i);
                let ghost before = r@;
                r.push(role);
                proof {
                    assert forall|other: BotRole| other.rank() < i + 1 && #[trigger] self.bot(other) is Some implies r@.contains(other) by {
                        if other.rank() == i {
                            BotRole::lemma_rank_injective(other, role);
                            assert(r@[r.len() - 1] == role);
                        } else {
                            assert(before.contains(other));
                            let k = choose|k: int| 0 <= k < before.len() && before[k] == other;
                            assert(r@[k] == other);
                        }
                    }
                }
            }
        }
        proof {
            assert forall|role: BotRole| #[trigger] self.bot(role) is Some <==> r@.contains(role) by {
                BotRole::lemma_rank_bound(role);
                if r@.contains(role) {
                    let k = choose|k: int| 0 <= k < r.len() && r@[k] == role;
                    assert(self.slots@[r@[k].rank() as int] is Some);
                }
            }
        }
        r
    }
}

/// A post by the bot of a role, mentioning some users.
pub struct Notice {
    pub role: BotRole,
    pub text: String,
    pub mention: Vec<String>,
}

/// Whether `role` is the first role, in the order of roles, that has a bot in the cache.
pub open spec fn first_bot(bots: BotCache, role: BotRole) -> bool {
    &&& bots.bot(role) is Some
    &&& forall|r: BotRole| #[trigger] bots.bot(r) is Some ==> role.rank() <= r.rank()
}

impl BotCache {
    /// The first role, in the order of roles, that has a bot, if any.
    pub fn first_role(&self) -> (r: Option<BotRole>)
        ensures
            match r {
                Some(role) => first_bot(*self, role),
                None => forall|role: BotRole| #[trigger] self.bot(role) is None,
            },
    {
        let roles = self.roles();
        if roles.len() == 0 {
            proof {
                assert forall|role: BotRole| #[trigger] self.bot(role) is None by {
                    if self.bot(role) is Some {
                        assert(roles@.contains(role));
                        let k = choose|k: int| 0 <= k < roles.len() && roles@[k] == role;
                    }
                }
            }
            None
        } else {
            let first = roles[0];
            proof {
                assert(roles@.contains(roles@[0]));
                assert forall|other: BotRole| #[trigger] self.bot(other) is Some implies first.rank() <= other.rank() by {
                    assert(roles@.contains(other));
                    let k = choose|k: int| 0 <= k < roles.len() && roles@[k] == other;
                    if k > 0 {
                        assert(roles@[0].rank() < roles@[k].rank());
                    }
                }
            }
            Some(first)
        }
    }
}

/// The roles whose bots are looked up when the conduit starts.
pub open spec fn starting_roles() -> Seq<BotRole> {
    seq![
        BotRole::VoxPopuli,
        BotRole::Chat(Faction::Human),
        BotRole::Chat(Faction::General),
        BotRole::Killboard(Faction::Human),
        BotRole::Killboard(Faction::Zombie),
    ]
}

/// The closing lines of the bots' mic check, one per bot, as far as there are bots.
pub open spec fn mic_check_closers() -> Seq<Seq<char>> {
    seq![
        "Oh, and be careful. If our operator dies, so do we."@,
        "In such an event, our code is hosted at https://github.com/mmirate/groupme_hvz_rs ."@,
        "Just throw it up on Heroku's free plan. (https://www.heroku.com)"@,
    ]
}

/// What the Group itself is told at the end of a mic check.
pub open spec fn mic_check_group_lines() -> Seq<Seq<char>> {
    seq![
        "Two more things. (1) If you start your message with \"@Human Chat\" or \"@General Chat\", I'll repost it to the requested HvZ website chat."@,
        "(2) If your message includes the two words \"I'm dead\" adjacently and in that order (or \"I am dead\"; again, adjacently in that order), but without the doublequotes and regardless of capitalization or non-doublequote & non-questionmark punctuation, and with any number of certain adverbs (e.g. \"definitely\") ... then I will kick you from the Group within about half a minute. So please tell us you're dead and wait a minute; instead of immediately removing yourself."@,
    ]
}

/// A mic check: what the bots of `roles` say, in order.
pub open spec fn mic_check_spec(roles: Seq<BotRole>) -> Seq<(BotRole, Seq<char>)> {
    let n = if roles.len() < 3 { roles.len() } else { 3 };
    Seq::new(roles.len(), |i: int| (roles[i], roles[i].watdo_spec()))
        + Seq::new(n, |i: int| (roles[i], mic_check_closers()[i]))
}

/// The bots' part of a mic check: each says what it does, then the first three say the
/// closing lines.
pub struct MicCheck {
    pub bot_posts: Vec<(BotRole, String)>,
    pub group_posts: Vec<String>,
}

/// What the bots warn the killboard checkers of when the website throttles the conduit.
pub open spec fn throttle_warning_spec() -> Seq<char> {
    "Ouch. We're being throttled, so we have to go down for 15 minutes. Please check the killboard while we're gone!"@
}

impl ConduitHvZToGroupme {
    /// The roles whose bots are looked up when the conduit starts, in that order.
    pub fn starting_roles() -> (r: Vec<BotRole>)
        ensures
            r@ == starting_roles(),
    {
        let r = vec![
            BotRole::VoxPopuli,
            BotRole::Chat(Faction::Human),
            BotRole::Chat(Faction::General),
            BotRole::Killboard(Faction::Human),
            BotRole::Killboard(Faction::Zombie),
        ];
        assert(r@ =~= starting_roles());
        r
    }

    /// The posts of a mic check by the bots of `roles`, and what the Group is told after.
    pub fn mic_check(roles: &Vec<BotRole>) -> (r: MicCheck)
        ensures
            r.bot_posts@.len() == mic_check_spec(roles@).len(),
            forall|i: int|
                0 <= i < r.bot_posts@.len() ==> (#[trigger] r.bot_posts@[i]).0 == mic_check_spec(roles@)[i].0
                    && r.bot_posts@[i].1@ == mic_check_spec(roles@)[i].1,
            str_views(r.group_posts@) == mic_check_group_lines(),
    {
        let ghost want = mic_check_spec(roles@);
        let mut posts: Vec<(BotRole, String)> = Vec::new();
        for i in 0..roles.len()
            invariant
                want == mic_check_spec(roles@),
                posts.len() == i,
                forall|k: int|
                    0 <= k < i ==> (#[trigger] posts@[k]).0 == want[k].0 && posts@[k].1@ == want[k].1,
        {
            posts.push((roles[i], roles[i].watdo()));
        }
        let closers = [
            "Oh, and be careful. If our operator dies, so do we.",
            "In such an event, our code is hosted at https://github.com/mmirate/groupme_hvz_rs .",
            "Just throw it up on Heroku's free plan. (https://www.heroku.com)",
        ];
        assert(forall|k: int| 0 <= k < 3 ==> #[trigger] closers@[k]@ == mic_check_closers()[k]);
        let n = if roles.len() < 3 {
            roles.len()
        } else {
            3
        };
        for i in 0..n
            invariant
                want == mic_check_spec(roles@),
                n <= roles.len(),
                n <= 3,
                n == if roles.len() < 3 { roles.len() } else { 3 },
                posts.len() == roles.len() + i,
                forall|k: int| 0 <= k < 3 ==> #[trigger] closers@[k]@ == mic_check_closers()[k],
                forall|k: int|
                    0 <= k < roles.len() + i ==> (#[trigger] posts@[k]).0 == want[k].0 && posts@[k].1@ == want[k].1,
        {
            posts.push((roles[i], lit(closers[i])));
        }
        let mut group_posts: Vec<String> = Vec::new();
        let x = lit("Two more things. (1) If you start your message with \"@Human Chat\" or \"@General Chat\", I'll repost it to the requested HvZ website chat.");
        proof { lemma_str_views_push(group_posts@, x); }
        group_posts.push(x);
        let x = lit("(2) If your message includes the two words \"I'm dead\" adjacently and in that order (or \"I am dead\"; again, adjacently in that order), but without the doublequotes and regardless of capitalization or non-doublequote & non-questionmark punctuation, and with any number of certain adverbs (e.g. \"definitely\") ... then I will kick you from the Group within about half a minute. So please tell us you're dead and wait a minute; instead of immediately removing yourself.");
        proof { lemma_str_views_push(group_posts@, x); }
        group_posts.push(x);
        assert(str_views(group_posts@) =~= mic_check_group_lines());
        MicCheck { bot_posts: posts, group_posts }
    }

    /// On a bandwidth error at `now`: within 15 minutes of the last throttling nothing changes;
    /// else the throttling time becomes `now`, and, when the conduit is awake and has a bot,
    /// the first bot warns the killboard checkers.
    pub fn being_throttled(&mut self, now: i64, bots: &BotCache) -> (notice: Option<Notice>)
        ensures
            if now - old(self).state.throttled_at < 900 {
                notice is None && final(self).state == old(self).state
            } else {
                &&& final(self).state == (crate::conduit_to_groupme::RuntimeState { throttled_at: now, ..old(self).state })
                &&& match notice {
                    Some(n) => !old(self).state.dormant && first_bot(*bots, n.role)
                        && n.text@ == throttle_warning_spec()
                        && str_views(n.mention@) == killboard_checkers_spec(),
                    None => old(self).state.dormant || forall|role: BotRole| #[trigger] bots.bot(role) is None,
                }
            },
    {
        if (now as i128) - (self.state.throttled_at as i128) < 900 {
            return None;
        }
        self.state.throttled_at = now;
        if self.state.dormant {
            return None;
        }
        match bots.first_role() {
            Some(role) => Some(Notice { role, text: Self::throttle_warning(), mention: killboard_checkers() }),
            None => None,
        }
    }

    /// What the bots warn the killboard checkers of when the website throttles the conduit.
    pub fn throttle_warning() -> (r: String)
        ensures
            r@ == throttle_warning_spec(),
    {
        lit("Ouch. We're being throttled, so we have to go down for 15 minutes. Please check the killboard while we're gone!")
    }
}

} // verus!
