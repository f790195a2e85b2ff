use vstd::prelude::*;
use crate::board::{Board, BoardKey};
use crate::order::{Order, Ordered, lex_order, lex_compare, total_order, lemma_lex_equal, lemma_lex_flip, lemma_lex_less_trans};
use crate::text::{chars_of, lit, same_text, lowercase, to_lowercase, ascii_lowercase, ascii_letters, ascii_lower, ascii_upper,
    ascii_letter, ascii_lower_char, words, split_whitespace, string_of};

pub mod login;
pub mod pages;

verus! {

/// A side of the game, or the audience of a chat.
#[derive(Clone, Copy, Debug, PartialEq, Eq, Structural, Hash)]
pub enum Faction {
    General,
    Human,
    Zombie,
    Admin,
}

/// The players of each faction.
pub type Killboard = Board<Faction, Player>;

/// The chat messages of each audience.
pub type Chatboard = Board<Faction, Message>;

/// The panels of each kind.
pub type Panelboard = Board<PanelKind, Panel>;

impl Faction {
    /// The position of a faction in the declared order.
    pub open spec fn position(self) -> nat {
        match self {
            Faction::General => 0,
            Faction::Human => 1,
            Faction::Zombie => 2,
            Faction::Admin => 3,
        }
    }

    /// The factions that have a killboard section.
    pub fn killboards() -> (v: Vec<Faction>)
        ensures
            v@ == seq![Faction::Human, Faction::Zombie],
    {
        vec![Faction::Human, Faction::Zombie]
    }

    /// The audiences of the chat.
    pub fn chats() -> (v: Vec<Faction>)
        ensures
            v@ == seq![Faction::General, Faction::Human, Faction::Zombie],
    {
        vec![Faction::General, Faction::Human, Faction::Zombie]
    }

    /// The factions that have members.
    pub fn populated() -> (v: Vec<Faction>)
        ensures
            v@ == seq![Faction::Admin, Faction::Human, Faction::Zombie],
    {
        vec![Faction::Admin, Faction::Human, Faction::Zombie]
    }

    /// The name that `Display` gives.
    pub open spec fn display_spec(self) -> Seq<char> {
        match self {
            Faction::Human => "human"@,
            Faction::Zombie => "zombie"@,
            Faction::Admin => "admin"@,
            Faction::General => "general"@,
        }
    }

    /// The name that `Debug` gives; it is also the chat audience name of the website.
    pub open spec fn debug_spec(self) -> Seq<char> {
        match self {
            Faction::Human => "human"@,
            Faction::Zombie => "zombie"@,
            Faction::Admin => "admin"@,
            Faction::General => "all"@,
        }
    }

    /// The one-letter code used in killboard element ids.
    pub open spec fn letter_spec(self) -> Seq<char> {
        match self {
            Faction::Human => "h"@,
            Faction::Zombie => "z"@,
            Faction::Admin => "a"@,
            Faction::General => "?"@,
        }
    }

    /// The display name.
    pub fn display_name(&self) -> (s: String)
        ensures
            s@ == self.display_spec(),
    {
        match self {
            Faction::Human => lit("human"),
            Faction::Zombie => lit("zombie"),
            Faction::Admin => lit("admin"),
            Faction::General => lit("general"),
        }
    }

    /// The debug name.
    pub fn debug_name(&self) -> (s: String)
        ensures
            s@ == self.debug_spec(),
    {
        match self {
            Faction::Human => lit("human"),
            Faction::Zombie => lit("zombie"),
            Faction::Admin => lit("admin"),
            Faction::General => lit("all"),
        }
    }

    /// The one-letter code.
    pub fn letter(&self) -> (s: String)
        ensures
            s@ == self.letter_spec(),
    {
        match self {
            Faction::Human => lit("h"),
            Faction::Zombie => lit("z"),
            Faction::Admin => lit("a"),
            Faction::General => lit("?"),
        }
    }

    /// The faction that an already lowercased name stands for; anything unknown is `General`.
    pub open spec fn named(lower: Seq<char>) -> Faction {
        if lower == "human"@ || lower == "hum"@ || lower == "h"@ {
            Faction::Human
        } else if lower == "zombie"@ || lower == "zomb"@ || lower == "z"@ {
            Faction::Zombie
        } else if lower == "admin"@ {
            Faction::Admin
        } else {
            Faction::General
        }
    }

    /// The faction a name stands for, regardless of case.
    pub fn from_name(s: &str) -> (f: Faction)
        ensures
            f == Faction::named(lowercase(s@)),
            ascii_lowercase(s@) ==> f == Faction::named(s@),
            ascii_letters(s@) ==> f == Faction::named(ascii_lower(s@)),
    {
        let l = to_lowercase(s);
        if l == lit("human") || l == lit("hum") || l == lit("h") {
            Faction::Human
        } else if l == lit("zombie") || l == lit("zomb") || l == lit("z") {
            Faction::Zombie
        } else if l == lit("admin") {
            Faction::Admin
        } else {
            Faction::General
        }
    }
}

/// A faction's display name and its debug name are names of lowercase letters that give the
/// faction back.
pub proof fn law_faction_names_round_trip(f: Faction)
    ensures
        ascii_lowercase(f.display_spec()),
        ascii_lowercase(f.debug_spec()),
        Faction::named(f.display_spec()) == f,
        Faction::named(f.debug_spec()) == f,
{
    reveal_strlit("human");
    reveal_strlit("hum");
    reveal_strlit("h");
    reveal_strlit("zombie");
    reveal_strlit("zomb");
    reveal_strlit("z");
    reveal_strlit("admin");
    reveal_strlit("general");
    reveal_strlit("all");
    match f {
        Faction::Human => {},
        Faction::Zombie => {
            assert("zombie"@ != "human"@ && "zombie"@ != "hum"@ && "zombie"@ != "h"@) by {
                assert("zombie"@.len() != "human"@.len());
            }
        },
        Faction::Admin => {
            assert("admin"@[0] != "human"@[0]);
            assert("admin"@ != "hum"@ && "admin"@ != "h"@ && "admin"@ != "zombie"@ && "admin"@ != "zomb"@ && "admin"@ != "z"@);
        },
        Faction::General => {
            assert("general"@.len() == 7 && "human"@.len() == 5 && "hum"@.len() == 3 && "h"@.len() == 1);
            assert("z"@.len() == 1 && "admin"@.len() == 5 && "all"@.len() == 3);
            assert("general"@ != "human"@ && "general"@ != "hum"@ && "general"@ != "h"@);
            assert("general"@ != "zombie"@ && "general"@ != "zomb"@ && "general"@ != "z"@ && "general"@ != "admin"@);
            assert("all"@[0] != "hum"@[0]);
            assert("all"@ != "human"@ && "all"@ != "h"@ && "all"@ != "zombie"@ && "all"@ != "zomb"@);
            assert("all"@ != "z"@ && "all"@ != "admin"@);
        },
    }
}

/// A faction's display name and its debug name written in upper case are ASCII letters that
/// give the faction back, as `from_name` reads them.
pub proof fn law_faction_upper_names_round_trip(f: Faction)
    ensures
        ascii_letters(ascii_upper(f.display_spec())),
        ascii_letters(ascii_upper(f.debug_spec())),
        Faction::named(ascii_lower(ascii_upper(f.display_spec()))) == f,
        Faction::named(ascii_lower(ascii_upper(f.debug_spec()))) == f,
{
    law_faction_names_round_trip(f);
    lemma_ascii_upper_lower(f.display_spec());
    lemma_ascii_upper_lower(f.debug_spec());
}

/// Upper-casing then lower-casing a text of ASCII lower-case letters gives it back, and the
/// upper-case text is made of ASCII letters.
proof fn lemma_ascii_upper_lower(s: Seq<char>)
    requires
        ascii_lowercase(s),
    ensures
        ascii_letters(ascii_upper(s)),
        ascii_lower(ascii_upper(s)) == s,
{
    let u = ascii_upper(s);
    assert forall|i: int| 0 <= i < u.len() implies ascii_letter(#[trigger] u[i]) && ascii_lower_char(u[i]) == s[i] by {
        let c = s[i];
        assert('a' <= c <= 'z');
        let v = ((c as u32) - 32) as char;
        assert(u[i] == v);
        assert(v as u32 == (c as u32) - 32);
        assert('A' <= v <= 'Z');
        assert(((v as u32) + 32) as char == c);
    }
    assert(ascii_lower(u) =~= s);
}

impl Default for Faction {
    fn default() -> (f: Faction)
        ensures
            f == Faction::General,
    {
        Faction::General
    }
}

impl BoardKey for Faction {
    open spec fn rank(self) -> nat {
        self.position()
    }

    open spec fn count() -> nat {
        4
    }

    fn index(&self) -> (i: usize) {
        match self {
            Faction::General => 0,
            Faction::Human => 1,
            Faction::Zombie => 2,
            Faction::Admin => 3,
        }
    }

    fn size() -> (n: usize) {
        4
    }

    fn from_index(i: usize) -> (k: Self) {
        if i == 0 {
            Faction::General
        } else if i == 1 {
            Faction::Human
        } else if i == 2 {
            Faction::Zombie
        } else {
            Faction::Admin
        }
    }

    proof fn lemma_rank_bound(k: Self) {
    }

    proof fn lemma_rank_injective(a: Self, b: Self) {
    }
}

/// The kind of a website panel.
#[derive(Clone, Copy, Debug, PartialEq, Eq, Structural, Hash)]
pub enum PanelKind {
    Announcement,
    Mission,
}

impl PanelKind {
    /// The name that `Display` gives; it also names the website page.
    pub open spec fn display_spec(self) -> Seq<char> {
        match self {
            PanelKind::Announcement => "announcement"@,
            PanelKind::Mission => "mission"@,
        }
    }

    /// The display name.
    pub fn display_name(&self) -> (s: String)
        ensures
            s@ == self.display_spec(),
    {
        match self {
            PanelKind::Announcement => lit("announcement"),
            PanelKind::Mission => lit("mission"),
        }
    }
}

impl BoardKey for PanelKind {
    open spec fn rank(self) -> nat {
        match self {
            PanelKind::Announcement => 0,
            PanelKind::Mission => 1,
        }
    }

    open spec fn count() -> nat {
        2
    }

    fn index(&self) -> (i: usize) {
        match self {
            PanelKind::Announcement => 0,
            PanelKind::Mission => 1,
        }
    }

    fn size() -> (n: usize) {
        2
    }

    fn from_index(i: usize) -> (k: Self) {
        if i == 0 {
            PanelKind::Announcement
        } else {
            PanelKind::Mission
        }
    }

    proof fn lemma_rank_bound(k: Self) {
    }

    proof fn lemma_rank_injective(a: Self, b: Self) {
    }
}

/// A copy of an optional string.
pub fn copy_opt_string(s: &Option<String>) -> (r: Option<String>)
    ensures
        r == *s,
{
    match s {
        Some(x) => Some(x.clone()),
        None => None,
    }
}

/// A player as listed on the website.
#[derive(Debug)]
pub struct Player {
    pub gtname: String,
    pub playername: String,
    pub faction: Faction,
    pub kb_gtname: Option<String>,
}

/// The first player of `zeds` whose login name is `g`, by player name.
pub open spec fn zed_named(zeds: Seq<Player>, g: Seq<char>) -> Option<Seq<char>>
    decreases zeds.len(),
{
    if zeds.len() == 0 {
        None
    } else if zeds[0].gtname@ == g {
        Some(zeds[0].playername@)
    } else {
        zed_named(zeds.drop_first(), g)
    }
}

/// The last word of a name, or nothing.
pub open spec fn surname_spec(name: Seq<char>) -> Seq<char> {
    let w = words(name);
    if w.len() == 0 {
        seq![]
    } else {
        w.last()
    }
}

/// The last word of a name (`KillboardExt::surname`).
pub fn surname(name: &str) -> (r: String)
    ensures
        r@ == surname_spec(name@),
{
    let w = split_whitespace(&chars_of(name));
    if w.len() == 0 {
        String::new()
    } else {
        string_of(&w[w.len() - 1])
    }
}

impl Player {
    /// The player name of whoever this player's killboard entry names as the killer: the
    /// entry itself when it reads "the admins" in any case, else the zombie of that login name.
    pub open spec fn kb_playername_spec(self, zeds: Seq<Player>) -> Option<Seq<char>> {
        match self.kb_gtname {
            None => None,
            Some(g) => if lowercase(g@) == "the admins"@ {
                Some(g@)
            } else {
                zed_named(zeds, g@)
            },
        }
    }

    /// Names the killer of this player, as `kb_playername_spec` says.
    pub fn kb_playername(&self, zeds: &Vec<Player>) -> (r: Option<String>)
        ensures
            match r {
                Some(s) => self.kb_playername_spec(zeds@) == Some(s@),
                None => self.kb_playername_spec(zeds@) is None,
            },
    {
        match &self.kb_gtname {
            None => None,
            Some(g) => {
                let lower = to_lowercase(g.as_str());
                let admins = lit("the admins");
                if lower == admins {
                    assert(lowercase(g@) == "the admins"@);
                    return Some(g.clone());
                }
                assert(lowercase(g@) != "the admins"@);
                assert(zeds@.skip(0) =~= zeds@);
                for i in 0..zeds.len()
                    invariant
                        zed_named(zeds@, g@) == zed_named(zeds@.skip(i as int), g@),
                        self.kb_gtname == Some(*g),
                        lowercase(g@) != "the admins"@,
                {
                    assert(zeds@.skip(i as int).drop_first() =~= zeds@.skip(i + 1));
                    assert(zeds@.skip(i as int)[0] == zeds@[i as int]);
                    if zeds[i].gtname == *g {
                        return Some(zeds[i].playername.clone());
                    }
                }
                assert(zeds@.skip(zeds.len() as int) =~= Seq::<Player>::empty());
                None
            },
        }
    }
}

impl Ordered for Player {
    /// Players are ordered by player name, then by login name.
    open spec fn order_spec(&self, other: &Self) -> Order {
        let o = lex_order(self.playername@, other.playername@);
        if o != Order::Equal {
            o
        } else {
            lex_order(self.gtname@, other.gtname@)
        }
    }

    fn compare(&self, other: &Self) -> (o: Order) {
        let o = lex_compare(&chars_of(self.playername.as_str()), &chars_of(other.playername.as_str()));
        match o {
            Order::Equal => lex_compare(
                &chars_of(self.gtname.as_str()),
                &chars_of(other.gtname.as_str()),
            ),
            _ => o,
        }
    }

    fn duplicate(&self) -> (r: Self) {
        Player {
            gtname: self.gtname.clone(),
            playername: self.playername.clone(),
            faction: self.faction,
            kb_gtname: copy_opt_string(&self.kb_gtname),
        }
    }
}

/// Players are totally ordered (by player name, then login name).
pub proof fn law_player_order_total()
    ensures
        total_order::<Player>(),
{
    assert forall|a: Player| #[trigger] a.order_spec(&a) == Order::Equal by {
        lemma_lex_equal(a.playername@, a.playername@);
        lemma_lex_equal(a.gtname@, a.gtname@);
    }
    assert forall|a: Player, b: Player| #[trigger] a.order_spec(&b) == b.order_spec(&a).flip() by {
        lemma_lex_flip(a.playername@, b.playername@);
        lemma_lex_flip(a.gtname@, b.gtname@);
    }
    assert forall|a: Player, b: Player, c: Player|
        #![trigger a.order_spec(&b), b.order_spec(&c)]
        a.order_spec(&b) == Order::Less && b.order_spec(&c) == Order::Less implies a.order_spec(&c)
        == Order::Less by {
        lemma_lex_equal(a.playername@, b.playername@);
        lemma_lex_equal(b.playername@, c.playername@);
        if lex_order(a.playername@, b.playername@) == Order::Less && lex_order(b.playername@, c.playername@) == Order::Less {
            lemma_lex_less_trans(a.playername@, b.playername@, c.playername@);
        }
        if lex_order(a.playername@, b.playername@) == Order::Equal && lex_order(b.playername@, c.playername@) == Order::Equal {
            lemma_lex_less_trans(a.gtname@, b.gtname@, c.gtname@);
        }
    }
    assert forall|a: Player, b: Player, c: Player|
        #![trigger a.order_spec(&b), b.order_spec(&c)]
        a.order_spec(&b) == Order::Equal implies a.order_spec(&c) == b.order_spec(&c) by {
        lemma_lex_equal(a.playername@, b.playername@);
        lemma_lex_flip(a.playername@, b.playername@);
        if lex_order(a.playername@, b.playername@) == Order::Equal {
            lemma_lex_equal(a.gtname@, b.gtname@);
        }
    }
}

/// The order of two integers.
pub open spec fn int_order(a: int, b: int) -> Order {
    if a < b {
        Order::Less
    } else if a > b {
        Order::Greater
    } else {
        Order::Equal
    }
}

fn compare_i64(a: i64, b: i64) -> (o: Order)
    ensures
        o == int_order(a as int, b as int),
{
    if a < b {
        Order::Less
    } else if a > b {
        Order::Greater
    } else {
        Order::Equal
    }
}

fn compare_usize(a: usize, b: usize) -> (o: Order)
    ensures
        o == int_order(a as int, b as int),
{
    if a < b {
        Order::Less
    } else if a > b {
        Order::Greater
    } else {
        Order::Equal
    }
}

/// `first`, unless it is `Equal`, in which case `then`.
pub open spec fn then_order(first: Order, then: Order) -> Order {
    if first == Order::Equal {
        then
    } else {
        first
    }
}

/// A chat message of the website; its time is in seconds since the Unix epoch.
#[derive(Debug)]
pub struct Message {
    pub id: usize,
    pub timestamp: i64,
    pub sender: Player,
    pub receiver: Faction,
    pub text: String,
}

impl Ordered for Message {
    /// Messages are ordered by id, time, sender, audience, then text.
    open spec fn order_spec(&self, other: &Self) -> Order {
        then_order(
            int_order(self.id as int, other.id as int),
            then_order(
                int_order(self.timestamp as int, other.timestamp as int),
                then_order(
                    self.sender.order_spec(&other.sender),
                    then_order(
                        int_order(self.receiver.position() as int, other.receiver.position() as int),
                        lex_order(self.text@, other.text@),
                    ),
                ),
            ),
        )
    }

    fn compare(&self, other: &Self) -> (o: Order) {
        let a = compare_usize(self.id, other.id);
        if a != Order::Equal {
            return a;
        }
        let b = compare_i64(self.timestamp, other.timestamp);
        if b != Order::Equal {
            return b;
        }
        let c = self.sender.compare(&other.sender);
        if c != Order::Equal {
            return c;
        }
        let d = compare_usize(self.receiver.index(), other.receiver.index());
        if d != Order::Equal {
            return d;
        }
        lex_compare(&chars_of(self.text.as_str()), &chars_of(other.text.as_str()))
    }

    fn duplicate(&self) -> (r: Self) {
        Message {
            id: self.id,
            timestamp: self.timestamp,
            sender: self.sender.duplicate(),
            receiver: self.receiver,
            text: self.text.clone(),
        }
    }
}

/// When and where a mission takes place; times are in seconds since the Unix epoch.
#[derive(Debug)]
pub struct MissionWW {
    pub start: i64,
    pub end: i64,
    pub location: String,
}

impl MissionWW {
    /// Missions are ordered by start, end, then location.
    pub open spec fn order_spec(&self, other: &Self) -> Order {
        then_order(
            int_order(self.start as int, other.start as int),
            then_order(
                int_order(self.end as int, other.end as int),
                lex_order(self.location@, other.location@),
            ),
        )
    }

    pub fn compare(&self, other: &Self) -> (o: Order)
        ensures
            o == self.order_spec(other),
    {
        let a = compare_i64(self.start, other.start);
        if a != Order::Equal {
            return a;
        }
        let b = compare_i64(self.end, other.end);
        if b != Order::Equal {
            return b;
        }
        lex_compare(&chars_of(self.location.as_str()), &chars_of(other.location.as_str()))
    }

    pub fn duplicate(&self) -> (r: Self)
        ensures
            r == *self,
    {
        MissionWW { start: self.start, end: self.end, location: self.location.clone() }
    }
}

/// A panel of the website (an announcement or a mission).
#[derive(Debug)]
pub struct Panel {
    pub kind: PanelKind,
    pub title: String,
    pub particulars: Option<MissionWW>,
    pub text: String,
}

impl Ordered for Panel {
    /// Panels are ordered by kind, then by their particulars when both have them, else by title.
    open spec fn order_spec(&self, other: &Self) -> Order {
        let k = int_order(self.kind.rank() as int, other.kind.rank() as int);
        match (self.particulars, other.particulars) {
            (Some(a), Some(b)) => then_order(k, a.order_spec(&b)),
            _ => then_order(k, lex_order(self.title@, other.title@)),
        }
    }

    fn compare(&self, other: &Self) -> (o: Order) {
        let k = compare_usize(self.kind.index(), other.kind.index());
        if k != Order::Equal {
            return k;
        }
        match (&self.particulars, &other.particulars) {
            (Some(a), Some(b)) => a.compare(b),
            _ => lex_compare(&chars_of(self.title.as_str()), &chars_of(other.title.as_str())),
        }
    }

    fn duplicate(&self) -> (r: Self) {
        Panel {
            kind: self.kind,
            title: self.title.clone(),
            particulars: match &self.particulars {
                Some(m) => Some(m.duplicate()),
                None => None,
            },
            text: self.text.clone(),
        }
    }
}

/// Whether `p` is a different player whose surname matches `needle`, regardless of case.
pub open spec fn shares_surname(p: Player, needle: Seq<char>, fullname: Seq<char>) -> bool {
    lowercase(needle) == lowercase(surname_spec(p.playername@)) && p.playername@ != fullname
}

/// A surname is ambiguous for a player exactly when some player of the board with another
/// name has that surname, in any case: the player never makes her own surname ambiguous, so a
/// player alone with her surname on the board (a board holding just her, for one) is not.
pub proof fn law_ambiguous_surname(kb: Killboard, n: Seq<char>)
    ensures
        (forall|f: Faction, i: int|
            0 <= i < kb.items(f).len() && lowercase(surname_spec(#[trigger] kb.items(f)[i].playername@))
                == lowercase(surname_spec(n)) ==> kb.items(f)[i].playername@ == n) ==> !kb.ambiguous_spec(n),
        (exists|f: Faction, i: int|
            0 <= i < kb.items(f).len() && lowercase(surname_spec(#[trigger] kb.items(f)[i].playername@))
                == lowercase(surname_spec(n)) && kb.items(f)[i].playername@ != n) ==> kb.ambiguous_spec(n),
{
    if exists|f: Faction, i: int|
        0 <= i < kb.items(f).len() && lowercase(surname_spec(#[trigger] kb.items(f)[i].playername@))
            == lowercase(surname_spec(n)) && kb.items(f)[i].playername@ != n {
        let (f, i) = choose|f: Faction, i: int|
            0 <= i < kb.items(f).len() && lowercase(surname_spec(#[trigger] kb.items(f)[i].playername@))
                == lowercase(surname_spec(n)) && kb.items(f)[i].playername@ != n;
        assert(shares_surname(kb.items(f)[i], surname_spec(n), n));
    }
}

/// Name lookups over a killboard.
pub trait KillboardExt {
    /// Whether some other player of the board has the same surname as `fullname`.
    spec fn ambiguous_spec(&self, fullname: Seq<char>) -> bool;

    fn surname(name: &str) -> (r: String)
        ensures
            r@ == surname_spec(name@),
    ;

    fn name_has_ambiguous_surname(&self, fullname: &str) -> (b: bool)
        ensures
            b == self.ambiguous_spec(fullname@),
    ;
}

impl KillboardExt for Killboard {
    /// Some player of the board, not named `fullname` exactly, has the same surname in any case.
    open spec fn ambiguous_spec(&self, fullname: Seq<char>) -> bool {
        exists|f: Faction, i: int|
            0 <= i < self.items(f).len() && #[trigger] shares_surname(
                self.items(f)[i],
                surname_spec(fullname),
                fullname,
            )
    }

    fn surname(name: &str) -> (r: String) {
        surname(name)
    }

    fn name_has_ambiguous_surname(&self, fullname: &str) -> (b: bool) {
        let needle = surname(fullname);
        let needle_lower = to_lowercase(needle.as_str());
        let n = Faction::size();
        let ghost nd = surname_spec(fullname@);
        for fi in 0..n
            invariant
                n == Faction::count(),
                needle@ == nd,
                nd == surname_spec(fullname@),
                needle_lower@ == lowercase(nd),
                forall|f: Faction, i: int|
                    f.rank() < fi && 0 <= i < self.items(f).len() ==> !#[trigger] shares_surname(
                        self.items(f)[i],
                        nd,
                        fullname@,
                    ),
        {
            let f = Faction::from_index(fi);
            match self.get(&f) {
                None => {},
                Some(players) => {
                    for i in 0..players.len()
                        invariant
                            needle@ == nd,
                            nd == surname_spec(fullname@),
                            needle_lower@ == lowercase(nd),
                            players@ == self.items(f),
                            f.rank() == fi,
                            forall|f2: Faction, j: int|
                                f2.rank() < fi && 0 <= j < self.items(f2).len() ==> !#[trigger] shares_surname(
                                    self.items(f2)[j],
                                    nd,
                                    fullname@,
                                ),
                            forall|j: int|
                                0 <= j < i ==> !#[trigger] shares_surname(
                                    players@[j],
                                    nd,
                                    fullname@,
                                ),
                    {
                        let p = &players[i];
                        let other = to_lowercase(surname(p.playername.as_str()).as_str());
                        if needle_lower == other && !same_text(p.playername.as_str(), fullname) {
                            assert(shares_surname(self.items(f)[i as int], nd, fullname@));
                            assert(0 <= i < self.items(f).len());
                            assert(self.ambiguous_spec(fullname@));
                            return true;
                        }
                    }
                },
            }
            assert forall|f2: Faction, j: int|
                f2.rank() < fi + 1 && 0 <= j < self.items(f2).len() implies !#[trigger] shares_surname(
                self.items(f2)[j],
                nd,
                fullname@,
            ) by {
                if f2.rank() == fi {
                    Faction::lemma_rank_injective(f2, f);
                }
            }
        }
        assert forall|f2: Faction, j: int|
            0 <= j < self.items(f2).len() implies !#[trigger] shares_surname(
            self.items(f2)[j],
            nd,
            fullname@,
        ) by {
            Faction::lemma_rank_bound(f2);
        }
        false
    }
}

} // verus!
