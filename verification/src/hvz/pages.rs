use vstd::prelude::*;
use crate::board::Board;
use crate::errors::Error;
use crate::clock::{local_year, local_iso_week, parse_local_datetime, parse_local_week_time};
use crate::hvz::{Faction, PanelKind, Panel, Player, Killboard, Message, MissionWW, copy_opt_string};
use crate::order::{Order, lex_order, lex_compare, sort_items, sort_spec};
use crate::pattern::{join_url, first_query_value, url_joined, url_first_query_value, pair_views};
use crate::scrape::{Link, Row, PanelDiv, link_views, opt_view, select_links, selected_links,
    select_rows, selected_rows, row_views, select_panels, selected_panels, panel_views,
    select_first_inner, first_inner, Control, control_views, select_form, selected_form};
use crate::text::{cat, chars_of, lit, string_of, trim, trim_chars, trim_str, lines, split_lines,
    lowercase, to_lowercase, find, find_from, after_first, before_first, parse_usize,
    parse_usize_spec, views, same_text, i32_to_string, signed_decimal};

verus! {

/// Why a link names no player.
#[derive(Clone, Copy, Debug, PartialEq, Eq, Structural)]
pub enum LinkFailure {
    /// The link has no target.
    NoHref,
    /// The target does not resolve against the page's address.
    BadUrl,
    /// The resolved target has no query.
    NoQuery,
}

/// The error a link failure is reported as.
pub open spec fn link_error(e: Error, f: LinkFailure) -> bool {
    match f {
        LinkFailure::NoHref => e matches Error::Scraper(s) && s@ == "kb->link->href:Player.gtname"@,
        LinkFailure::BadUrl => e is UrlParsing,
        LinkFailure::NoQuery => e matches Error::Scraper(s) && s@ == "join(kb->link->href):Player.gtname"@,
    }
}

/// What a link says of a player, read on the page at `base`: the login name (the first query
/// value of its target), the player name (its text, trimmed) and, when `killer` is asked for,
/// the killer's cell, trimmed.
pub open spec fn link_outcome(l: (Option<Seq<char>>, Seq<char>, Option<Seq<char>>), base: Seq<char>, killer: bool) -> Result<(Seq<char>, Seq<char>, Option<Seq<char>>), LinkFailure> {
    match l.0 {
        None => Err(LinkFailure::NoHref),
        Some(h) => match url_joined(base, h) {
            None => Err(LinkFailure::BadUrl),
            Some(u) => match url_first_query_value(u) {
                None => Err(LinkFailure::NoQuery),
                Some(g) => Ok((
                    g,
                    trim(l.1),
                    if killer {
                        match l.2 {
                            Some(k) => Some(trim(k)),
                            None => None,
                        }
                    } else {
                        None
                    },
                )),
            },
        },
    }
}

/// Whether `p` is the player of faction `f` that a link outcome names.
pub open spec fn player_is(p: Player, t: (Seq<char>, Seq<char>, Option<Seq<char>>), f: Faction) -> bool {
    &&& p.gtname@ == t.0
    &&& p.playername@ == t.1
    &&& p.faction == f
    &&& opt_view(p.kb_gtname) == t.2
}

/// What a list of links says of players: the outcome of each, or the first failure.
pub open spec fn links_outcome(ls: Seq<(Option<Seq<char>>, Seq<char>, Option<Seq<char>>)>, base: Seq<char>, killer: bool) -> Result<Seq<(Seq<char>, Seq<char>, Option<Seq<char>>)>, LinkFailure>
    decreases ls.len(),
{
    if ls.len() == 0 {
        Ok(seq![])
    } else {
        match links_outcome(ls.drop_last(), base, killer) {
            Err(f) => Err(f),
            Ok(ts) => match link_outcome(ls.last(), base, killer) {
                Err(f) => Err(f),
                Ok(t) => Ok(ts.push(t)),
            },
        }
    }
}

/// Whether `ps` are the players of faction `f` that the outcomes `ts` name, in order.
pub open spec fn players_are(ps: Seq<Player>, ts: Seq<(Seq<char>, Seq<char>, Option<Seq<char>>)>, f: Faction) -> bool {
    ps.len() == ts.len() && forall|i: int| 0 <= i < ps.len() ==> #[trigger] player_is(ps[i], ts[i], f)
}

/// The address the killboard's links are read against.
pub open spec fn killboard_base() -> Seq<char> {
    "https://hvz.gatech.edu/killboard"@
}

/// The address the chat's links are read against.
pub open spec fn chat_base() -> Seq<char> {
    "https://hvz.gatech.edu/chat"@
}

impl Player {
    /// The player a link names, read on the page at `base`, with the killer's cell when
    /// `killer` is asked for.
    pub fn from_link(link: &Link, base: &str, killer: bool, faction: Faction) -> (r: Result<Player, Error>)
        ensures
            match link_outcome(link.view(), base@, killer) {
                Ok(t) => r matches Ok(p) && player_is(p, t, faction),
                Err(f) => r matches Err(e) && link_error(e, f),
            },
    {
        let href = match &link.href {
            Some(h) => h,
            None => {
                return Err(Error::Scraper(lit("kb->link->href:Player.gtname")));
            },
        };
        let url = match join_url(base, href.as_str()) {
            Ok(u) => u,
            Err(e) => {
                return Err(Error::UrlParsing(e));
            },
        };
        let gtname = match first_query_value(url.as_str()) {
            Some(g) => g,
            None => {
                return Err(Error::Scraper(lit("join(kb->link->href):Player.gtname")));
            },
        };
        let kb_gtname = if killer {
            match &link.killer {
                Some(k) => Some(trim_str(k.as_str())),
                None => None,
            }
        } else {
            None
        };
        Ok(Player { gtname, playername: trim_str(link.text.as_str()), faction, kb_gtname })
    }

    /// The player a killboard link names, with the killer's cell (`General` until the caller
    /// sets the faction).
    pub fn from_kb_link(link: &Link) -> (r: Result<Player, Error>)
        ensures
            match link_outcome(link.view(), killboard_base(), true) {
                Ok(t) => r matches Ok(p) && player_is(p, t, Faction::General),
                Err(f) => r matches Err(e) && link_error(e, f),
            },
    {
        Self::from_link(link, "https://hvz.gatech.edu/killboard", true, Faction::General)
    }

    /// The player a chat link names, without a killer.
    pub fn from_chat_link(link: &Link) -> (r: Result<Player, Error>)
        ensures
            match link_outcome(link.view(), chat_base(), false) {
                Ok(t) => r matches Ok(p) && player_is(p, t, Faction::General),
                Err(f) => r matches Err(e) && link_error(e, f),
            },
    {
        Self::from_link(link, "https://hvz.gatech.edu/chat", false, Faction::General)
    }
}

proof fn lemma_links_fail(ls: Seq<(Option<Seq<char>>, Seq<char>, Option<Seq<char>>)>, base: Seq<char>, killer: bool, k: int, f: LinkFailure)
    requires
        0 <= k <= ls.len(),
        links_outcome(ls.take(k), base, killer) == Err::<Seq<(Seq<char>, Seq<char>, Option<Seq<char>>)>, LinkFailure>(f),
    ensures
        links_outcome(ls, base, killer) == Err::<Seq<(Seq<char>, Seq<char>, Option<Seq<char>>)>, LinkFailure>(f),
    decreases ls.len() - k,
{
    if k < ls.len() {
        assert(ls.take(k + 1).drop_last() =~= ls.take(k));
        lemma_links_fail(ls, base, killer, k + 1, f);
    } else {
        assert(ls.take(k) =~= ls);
    }
}

/// The players that a list of links names, of faction `faction`; fails at the first link that
/// names none.
pub fn players_from_links(links: &Vec<Link>, base: &str, killer: bool, faction: Faction) -> (r: Result<Vec<Player>, Error>)
    ensures
        match links_outcome(link_views(links@), base@, killer) {
            Ok(ts) => r matches Ok(ps) && players_are(ps@, ts, faction),
            Err(f) => r matches Err(e) && link_error(e, f),
        },
{
    let ghost lv = link_views(links@);
    let mut ps: Vec<Player> = Vec::new();
    for i in 0..links.len()
        invariant
            lv == link_views(links@),
            ps.len() == i,
            links_outcome(lv.take(i as int), base@, killer) matches Ok(ts) && players_are(ps@, ts, faction),
    {
        assert(lv.take(i + 1).drop_last() =~= lv.take(i as int));
        assert(lv.take(i + 1).last() == links@[i as int].view());
        match Player::from_link(&links[i], base, killer, faction) {
            Ok(p) => {
                let ghost before = ps@;
                ps.push(p);
                proof {
                    let ts = links_outcome(lv.take(i + 1), base@, killer)->Ok_0;
                    assert forall|j: int| 0 <= j < ps@.len() implies #[trigger] player_is(ps@[j], ts[j], faction) by {
                        if j < i {
                            assert(ps@[j] == before[j]);
                        }
                    }
                }
            },
            Err(e) => {
                proof {
                    let f = link_outcome(links@[i as int].view(), base@, killer)->Err_0;
                    lemma_links_fail(lv, base@, killer, i + 1, f);
                }
                return Err(e);
            },
        }
    }
    assert(lv.take(links.len() as int) =~= lv);
    Ok(ps)
}

/// The selector of the links of one side of the killboard.
pub open spec fn kb_selector(f: Faction) -> Seq<char> {
    "#"@ + f.letter_spec() + "killboard a[href*=\"gtname\"]"@
}

/// Whether `b` holds, under `f`, the sorted players that the killboard page `html` lists there.
pub open spec fn kb_side_read(html: Seq<char>, f: Faction, b: Killboard) -> bool {
    match selected_links(html, kb_selector(f)) {
        Some(ls) => match links_outcome(ls, killboard_base(), true) {
            Ok(ts) => exists|ps: Seq<Player>| players_are(ps, ts, f) && b.slot(f) == Some(sort_spec(ps)),
            Err(_) => false,
        },
        None => false,
    }
}

/// Whether `e` is the error of reading one side of the killboard page `html`, if any.
pub open spec fn kb_side_error(html: Seq<char>, f: Faction, e: Error) -> Option<bool> {
    match selected_links(html, kb_selector(f)) {
        None => Some(e is Css),
        Some(ls) => match links_outcome(ls, killboard_base(), true) {
            Err(fail) => Some(link_error(e, fail)),
            Ok(_) => None,
        },
    }
}

fn read_kb_side(html: &str, f: Faction) -> (r: Result<Vec<Player>, Error>)
    ensures
        match r {
            Ok(v) => match selected_links(html@, kb_selector(f)) {
                Some(ls) => match links_outcome(ls, killboard_base(), true) {
                    Ok(ts) => exists|ps: Seq<Player>| players_are(ps, ts, f) && v@ == sort_spec(ps),
                    Err(_) => false,
                },
                None => false,
            },
            Err(e) => kb_side_error(html@, f, e) == Some(true),
        },
{
    let sel = cat(cat("#", f.letter().as_str()).as_str(), "killboard a[href*=\"gtname\"]");
    let links = match select_links(html, sel.as_str()) {
        Some(l) => l,
        None => {
            return Err(Error::Css);
        },
    };
    let ps = match players_from_links(&links, "https://hvz.gatech.edu/killboard", true, f) {
        Ok(ps) => ps,
        Err(e) => {
            return Err(e);
        },
    };
    let ghost pv = ps@;
    let sorted = sort_items(ps);
    assert(players_are(pv, links_outcome(link_views(links@), killboard_base(), true)->Ok_0, f));
    Ok(sorted)
}

/// Reads the killboard page: the humans and the zombies, each side sorted; fails as the first
/// side that cannot be read fails.
pub fn killboard_from_page(html: &str) -> (r: Result<Killboard, Error>)
    ensures
        match r {
            Ok(b) => kb_side_read(html@, Faction::Human, b) && kb_side_read(html@, Faction::Zombie, b)
                && b.slot(Faction::General) is None && b.slot(Faction::Admin) is None,
            Err(e) => match kb_side_error(html@, Faction::Human, e) {
                Some(x) => x,
                None => kb_side_error(html@, Faction::Zombie, e) == Some(true),
            },
        },
{
    let mut b: Killboard = Board::new();
    let h = match read_kb_side(html, Faction::Human) {
        Ok(h) => h,
        Err(e) => {
            return Err(e);
        },
    };
    b.insert(Faction::Human, h);
    let z = match read_kb_side(html, Faction::Zombie) {
        Ok(z) => z,
        Err(e) => {
            return Err(e);
        },
    };
    b.insert(Faction::Zombie, z);
    Ok(b)
}

/// The number of a chat row, from its id ("chat_line_" and the number).
pub open spec fn row_number(id: Option<Seq<char>>) -> Option<nat> {
    match id {
        None => None,
        Some(i) => match after_first(i, "chat_line_"@) {
            None => None,
            Some(n) => parse_usize_spec(n),
        },
    }
}

fn chat_row_number(id: &Option<String>) -> (r: Option<usize>)
    ensures
        match r {
            Some(n) => row_number(opt_view(*id)) == Some(n as nat),
            None => row_number(opt_view(*id)) is None,
        },
{
    let id = match id {
        Some(i) => i,
        None => {
            return None;
        },
    };
    let v = chars_of(id.as_str());
    let pat = chars_of("chat_line_");
    match find(&v, &pat) {
        Some(k) => {
            let mut rest: Vec<char> = Vec::new();
            let mut j = k + pat.len();
            while j < v.len()
                invariant
                    k + pat.len() <= j <= v.len(),
                    rest@ =~= v@.subrange((k + pat.len()) as int, j as int),
                decreases v.len() - j,
            {
                rest.push(v[j]);
                j = j + 1;
            }
            assert(rest@ =~= v@.skip((k + pat.len()) as int));
            parse_usize(string_of(&rest).as_str())
        },
        None => None,
    }
}

/// Whether `m` is the message a chat row holds, sent at `time`: its number, its sender (as
/// `link_outcome` reads the link on the chat page), its text (the third cell, trimmed), for
/// the general audience until the caller says otherwise.
pub open spec fn message_is(m: Message, n: nat, t: (Seq<char>, Seq<char>, Option<Seq<char>>), text: Seq<char>, time: i64) -> bool {
    &&& m.id == n
    &&& player_is(m.sender, t, Faction::General)
    &&& m.text@ == trim(text)
    &&& m.timestamp == time
    &&& m.receiver == Faction::General
}

/// What reading a chat row gives when its time reads as `time`, an error description when it
/// does not: the row's number (else `Css`), its sender (else `Scraper` or the link's error),
/// three cells (else `Scraper`), then the time (else `DateFormatParsing`).
pub open spec fn row_read(row: (Option<Seq<char>>, Seq<Seq<char>>, Option<(Option<Seq<char>>, Seq<char>, Option<Seq<char>>)>), time: Result<i64, String>, r: Result<Message, Error>) -> bool {
    match row_number(row.0) {
        None => r matches Err(e) && e is Css,
        Some(n) => match row.2 {
            None => r matches Err(e) && (e matches Error::Scraper(s) && s@ == "chat->tr->link:Player"@),
            Some(l) => match link_outcome(l, chat_base(), false) {
                Err(f) => r matches Err(e) && link_error(e, f),
                Ok(t) => if row.1.len() < 3 {
                    r matches Err(e) && (e matches Error::Scraper(s) && s@ == "chat->tr->td"@)
                } else {
                    match time {
                        Ok(when) => r matches Ok(m) && message_is(m, n, t, row.1[2], when),
                        Err(d) => r matches Err(e) && (e matches Error::DateFormatParsing(x) && x@ == d@),
                    }
                },
            },
        },
    }
}

impl Message {
    /// Reads a chat row whose time, read elsewhere, is `time`, as `row_read` says.
    pub fn from_row_at(row: &Row, time: Result<i64, String>) -> (r: Result<Message, Error>)
        ensures
            row_read(row.view(), time, r),
    {
        let id = match chat_row_number(&row.id) {
            Some(n) => n,
            None => {
                return Err(Error::Css);
            },
        };
        let link = match &row.link {
            Some((href, text)) => Link { href: copy_opt_string(href), text: text.clone(), killer: None },
            None => {
                return Err(Error::Scraper(lit("chat->tr->link:Player")));
            },
        };
        let sender = match Player::from_chat_link(&link) {
            Ok(p) => p,
            Err(e) => {
                return Err(e);
            },
        };
        if row.cells.len() < 3 {
            return Err(Error::Scraper(lit("chat->tr->td")));
        }
        let timestamp = match time {
            Ok(t) => t,
            Err(d) => {
                return Err(Error::DateFormatParsing(d));
            },
        };
        Ok(Message { id, timestamp, sender, receiver: Faction::General, text: trim_str(row.cells[2].as_str()) })
    }

    /// Reads a chat row, its time read from the second cell in the local time zone.
    pub fn from_tr(row: &Row) -> (r: Result<Message, Error>)
        ensures
            exists|time: Result<i64, String>| row_read(row.view(), time, r),
    {
        let time = if row.cells.len() >= 3 {
            let text = chat_time_text(local_year(), row.cells[1].as_str());
            parse_local_datetime(text.as_str(), chat_time_fmt())
        } else {
            Err(String::new())
        };
        let r = Self::from_row_at(row, time);
        assert(row_read(row.view(), time, r));
        r
    }
}

/// The format of a chat row's time once its year is put in front: "year/month/day hour:minute".
pub open spec fn chat_time_format() -> Seq<char> {
    "%Y/%m/%d %H:%M"@
}

fn chat_time_fmt() -> (s: &'static str)
    ensures
        s@ == chat_time_format(),
{
    "%Y/%m/%d %H:%M"
}

/// A chat row shows its time without the year: it is read in the given (current) year.
pub open spec fn chat_time_text_spec(year: int, cell: Seq<char>) -> Seq<char> {
    signed_decimal(year) + "/"@ + trim(cell)
}

/// The time text of a chat row's time cell in `year`, as `chat_time_text_spec` says.
pub fn chat_time_text(year: i32, cell: &str) -> (r: String)
    ensures
        r@ == chat_time_text_spec(year as int, cell@),
{
    let y = i32_to_string(year);
    let t = trim_str(cell);
    let r = cat(cat(y.as_str(), "/").as_str(), t.as_str());
    r
}

/// The format of a mission's start or end: "weekday hour:minute", read in the current ISO week.
pub open spec fn mission_time_format() -> Seq<char> {
    "%a %H:%M"@
}

fn mission_time_fmt() -> (s: &'static str)
    ensures
        s@ == mission_time_format(),
{
    "%a %H:%M"
}

/// The selectors of the chat's rows, their cells, and the sender's link.
pub open spec fn chat_selectors() -> (Seq<char>, Seq<char>, Seq<char>) {
    ("tr.chat_line"@, "td"@, "a[href*=\"gtname\"]"@)
}

/// Whether `m`, addressed to `faction`, is what some reading of a row's time makes of it.
pub open spec fn row_gives(row: (Option<Seq<char>>, Seq<Seq<char>>, Option<(Option<Seq<char>>, Seq<char>, Option<Seq<char>>)>), m: Message, faction: Faction) -> bool {
    &&& m.receiver == faction
    &&& exists|time: Result<i64, String>| row_read(row, time, Ok::<Message, Error>(Message { receiver: Faction::General, ..m }))
}

/// Whether reading a row fails with `e` for some reading of its time.
pub open spec fn row_fails(row: (Option<Seq<char>>, Seq<Seq<char>>, Option<(Option<Seq<char>>, Seq<char>, Option<Seq<char>>)>), e: Error) -> bool {
    exists|time: Result<i64, String>| row_read(row, time, Err::<Message, Error>(e))
}

/// Reads the chat fragment `html` of audience `faction`: each row in order, or the first
/// error; `Css` when a selector does not parse.
pub fn chat_from_page(html: &str, faction: Faction) -> (r: Result<Vec<Message>, Error>)
    ensures
        match selected_rows(html@, chat_selectors().0, chat_selectors().1, chat_selectors().2) {
            None => r matches Err(e) && e is Css,
            Some(rows) => match r {
                Ok(v) => v.len() == rows.len() && forall|i: int| 0 <= i < v.len() ==> #[trigger] row_gives(rows[i], v@[i], faction),
                Err(e) => exists|i: int| 0 <= i < rows.len() && #[trigger] row_fails(rows[i], e),
            },
        },
{
    let rows = match select_rows(html, "tr.chat_line", "td", "a[href*=\"gtname\"]") {
        Some(r) => r,
        None => {
            return Err(Error::Css);
        },
    };
    let ghost rv = row_views(rows@);
    let mut out: Vec<Message> = Vec::new();
    for i in 0..rows.len()
        invariant
            rv == row_views(rows@),
            selected_rows(html@, chat_selectors().0, chat_selectors().1, chat_selectors().2) == Some(rv),
            out.len() == i,
            forall|j: int| 0 <= j < i ==> #[trigger] row_gives(rv[j], out@[j], faction),
    {
        assert(rv[i as int] == rows@[i as int].view());
        match Message::from_tr(&rows[i]) {
            Ok(m) => {
                let ghost m0 = m;
                assert(m0.receiver == Faction::General) by {
                    let time = choose|time: Result<i64, String>| row_read(rv[i as int], time, Ok::<Message, Error>(m0));
                }
                let m = Message { receiver: faction, ..m };
                assert(Message { receiver: Faction::General, ..m } == m0);
                assert(row_gives(rv[i as int], m, faction));
                let ghost before = out@;
                out.push(m);
                assert forall|j: int| 0 <= j < i + 1 implies #[trigger] row_gives(rv[j], out@[j], faction) by {
                    if j < i {
                        assert(out@[j] == before[j]);
                    }
                }
            },
            Err(e) => {
                proof {
                    let sr = selected_rows(html@, chat_selectors().0, chat_selectors().1, chat_selectors().2)->Some_0;
                    assert(sr == rv);
                    assert(row_fails(sr[i as int], e));
                }
                return Err(e);
            },
        }
    }
    Ok(out)
}

/// The key and value of a line of mission particulars: the trimmed line split at its first
/// ": ", the key in lower case.
pub open spec fn particular(line: Seq<char>) -> Option<(Seq<char>, Seq<char>)> {
    let t = trim(line);
    match find_from(t, ": "@, 0) {
        Some(i) => Some((lowercase(t.take(i as int)), t.skip(i + 2int))),
        None => None,
    }
}

/// The value given to `key` by the last line that gives it one.
pub open spec fn particular_of(ls: Seq<Seq<char>>, key: Seq<char>) -> Option<Seq<char>>
    decreases ls.len(),
{
    if ls.len() == 0 {
        None
    } else {
        match particular(ls.last()) {
            Some((k, v)) => if k == key {
                Some(v)
            } else {
                particular_of(ls.drop_last(), key)
            },
            None => particular_of(ls.drop_last(), key),
        }
    }
}

/// The start, end and location of a mission, as its particulars' text gives them.
pub open spec fn mission_fields_spec(text: Seq<char>) -> Option<(Seq<char>, Seq<char>, Seq<char>)> {
    let ls = lines(text);
    match (particular_of(ls, "start"@), particular_of(ls, "end"@), particular_of(ls, "location"@)) {
        (Some(s), Some(e), Some(l)) => Some((s, e, l)),
        _ => None,
    }
}

fn line_particular(line: &Vec<char>) -> (r: Option<(String, String)>)
    ensures
        match r {
            Some((k, v)) => particular(line@) == Some((k@, v@)),
            None => particular(line@) is None,
        },
{
    let t = trim_chars(line);
    let sep = chars_of(": ");
    proof {
        reveal_strlit(": ");
    }
    assert(sep.len() == 2);
    match find(&t, &sep) {
        Some(i) => {
            let mut key: Vec<char> = Vec::new();
            for j in 0..i
                invariant
                    i + 2 <= t.len(),
                    key@ =~= t@.take(j as int),
            {
                key.push(t[j]);
            }
            let mut value: Vec<char> = Vec::new();
            let mut j = i + 2;
            while j < t.len()
                invariant
                    i + 2 <= j <= t.len(),
                    value@ =~= t@.subrange(i + 2, j as int),
                decreases t.len() - j,
            {
                value.push(t[j]);
                j = j + 1;
            }
            assert(value@ =~= t@.skip(i + 2));
            Some((to_lowercase(string_of(&key).as_str()), string_of(&value)))
        },
        None => None,
    }
}

/// The start, end and location of a mission, as `mission_fields_spec` says.
pub fn mission_fields(text: &str) -> (r: Option<(String, String, String)>)
    ensures
        match r {
            Some((s, e, l)) => mission_fields_spec(text@) == Some((s@, e@, l@)),
            None => mission_fields_spec(text@) is None,
        },
{
    let ls = split_lines(&chars_of(text));
    let ghost lv = lines(text@);
    let mut start: Option<String> = None;
    let mut end: Option<String> = None;
    let mut location: Option<String> = None;
    for i in 0..ls.len()
        invariant
            views(ls@) == lv,
            opt_view(start) == particular_of(lv.take(i as int), "start"@),
            opt_view(end) == particular_of(lv.take(i as int), "end"@),
            opt_view(location) == particular_of(lv.take(i as int), "location"@),
    {
        assert(lv.take(i + 1).drop_last() =~= lv.take(i as int));
        assert(lv.take(i + 1).last() == ls@[i as int]@);
        proof {
            reveal_strlit("start");
            reveal_strlit("end");
            reveal_strlit("location");
            assert("start"@.len() == 5);
            assert("end"@.len() == 3);
            assert("location"@.len() == 8);
        }
        match line_particular(&ls[i]) {
            Some((k, v)) => {
                if same_text(k.as_str(), "start") {
                    start = Some(v);
                } else if same_text(k.as_str(), "end") {
                    end = Some(v);
                } else if same_text(k.as_str(), "location") {
                    location = Some(v);
                }
            },
            None => {},
        }
    }
    assert(lv.take(ls.len() as int) =~= lv);
    match (start, end, location) {
        (Some(s), Some(e), Some(l)) => Some((s, e, l)),
        _ => None,
    }
}

impl MissionWW {
    /// A mission of the given location, when both its times were read.
    pub fn from_parts(location: String, start: Option<i64>, end: Option<i64>) -> (r: Option<MissionWW>)
        ensures
            match (start, end) {
                (Some(s), Some(e)) => r matches Some(m) && m.start == s && m.end == e && m.location@ == location@,
                _ => r is None,
            },
    {
        match (start, end) {
            (Some(s), Some(e)) => Some(MissionWW { start: s, end: e, location }),
            _ => None,
        }
    }

    /// Reads a mission's particulars: its start and end (read in the current week in the local
    /// time zone) and its location.
    pub fn from_p(text: &str) -> (r: Option<MissionWW>)
        ensures
            match r {
                Some(m) => mission_fields_spec(text@) matches Some(f) && m.location@ == f.2,
                None => true,
            },
            mission_fields_spec(text@) is None ==> r is None,
    {
        match mission_fields(text) {
            Some((s, e, l)) => {
                let (isoyear, isoweek) = local_iso_week();
                let start = parse_local_week_time(s.as_str(), mission_time_fmt(), isoyear, isoweek);
                let end = parse_local_week_time(e.as_str(), mission_time_fmt(), isoyear, isoweek);
                Self::from_parts(l, start, end)
            },
            None => None,
        }
    }
}

/// Why a panel cannot be read: the part that is missing, if any.
pub open spec fn div_failure(d: (Option<Seq<char>>, Option<Seq<char>>, Option<Seq<char>>)) -> Option<Seq<char>> {
    if d.0 is None {
        Some("Panel.title"@)
    } else if d.1 is None {
        Some("Panel.text"@)
    } else {
        None
    }
}

/// Whether `p` is the panel of kind `kind` that a panel of the page holds: title and text
/// trimmed, and mission particulars only where the panel has them, at the location they give.
pub open spec fn panel_gives(d: (Option<Seq<char>>, Option<Seq<char>>, Option<Seq<char>>), p: Panel, kind: PanelKind) -> bool {
    &&& p.kind == kind
    &&& d.0 matches Some(t) && p.title@ == trim(t)
    &&& d.1 matches Some(b) && p.text@ == trim(b)
    &&& match p.particulars {
        Some(m) => d.2 matches Some(x) && (mission_fields_spec(x) matches Some(f) && m.location@ == f.2),
        None => true,
    }
}

impl Panel {
    /// The panel a panel of the page holds, with the given particulars.
    pub fn from_div_with(div: &PanelDiv, particulars: Option<MissionWW>) -> (r: Result<Panel, Error>)
        ensures
            match div_failure(div.view()) {
                Some(m) => r matches Err(e) && (e matches Error::Scraper(s) && s@ == m),
                None => r matches Ok(p) && p.kind == PanelKind::Announcement && p.particulars == particulars
                    && (div.view().0 matches Some(t) && p.title@ == trim(t))
                    && (div.view().1 matches Some(b) && p.text@ == trim(b)),
            },
    {
        let title = match &div.title {
            Some(t) => trim_str(t.as_str()),
            None => {
                return Err(Error::Scraper(lit("Panel.title")));
            },
        };
        let text = match &div.body {
            Some(b) => trim_str(b.as_str()),
            None => {
                return Err(Error::Scraper(lit("Panel.text")));
            },
        };
        Ok(Panel { kind: PanelKind::Announcement, title, particulars, text })
    }

    /// The panel a panel of the page holds, its particulars read as `MissionWW::from_p` reads
    /// them.
    pub fn from_div(div: &PanelDiv) -> (r: Result<Panel, Error>)
        ensures
            match div_failure(div.view()) {
                Some(m) => r matches Err(e) && (e matches Error::Scraper(s) && s@ == m),
                None => r matches Ok(p) && panel_gives(div.view(), p, PanelKind::Announcement),
            },
    {
        let particulars = match &div.particulars {
            Some(t) => MissionWW::from_p(t.as_str()),
            None => None,
        };
        Self::from_div_with(div, particulars)
    }
}

/// Whether panel `i` is the first that cannot be read, and `e` the error it gives.
pub open spec fn first_failing_div(divs: Seq<(Option<Seq<char>>, Option<Seq<char>>, Option<Seq<char>>)>, i: int, e: Error) -> bool {
    &&& 0 <= i < divs.len()
    &&& forall|j: int| 0 <= j < i ==> div_failure(#[trigger] divs[j]) is None
    &&& div_failure(divs[i]) matches Some(m) && (e matches Error::Scraper(s) && s@ == m)
}

/// The selectors of a panel of kind `kind`, its title, body and particulars.
pub open spec fn panel_selectors(kind: PanelKind) -> (Seq<char>, Seq<char>, Seq<char>, Seq<char>) {
    ("div.panel."@ + kind.display_spec(), ".panel-title"@, ".panel-body"@, "p.mission_particulars"@)
}

/// Reads the panels of kind `kind` off their page: each panel in order, or the error of the
/// first that cannot be read; `Css` when a selector does not parse.
pub fn panels_from_page(html: &str, kind: PanelKind) -> (r: Result<Vec<Panel>, Error>)
    ensures
        ({
            let sel = panel_selectors(kind);
            match selected_panels(html@, sel.0, sel.1, sel.2, sel.3) {
                None => r matches Err(e) && e is Css,
                Some(divs) => match r {
                    Ok(v) => v.len() == divs.len() && forall|i: int|
                        0 <= i < v.len() ==> #[trigger] panel_gives(divs[i], v@[i], kind),
                    Err(e) => exists|i: int| #[trigger] first_failing_div(divs, i, e),
                },
            }
        }),
{
    let sel = cat("div.panel.", kind.display_name().as_str());
    let divs = match select_panels(html, sel.as_str(), ".panel-title", ".panel-body", "p.mission_particulars") {
        Some(d) => d,
        None => {
            return Err(Error::Css);
        },
    };
    let ghost dv = panel_views(divs@);
    let ghost sl = panel_selectors(kind);
    let mut out: Vec<Panel> = Vec::new();
    for i in 0..divs.len()
        invariant
            dv == panel_views(divs@),
            sl == panel_selectors(kind),
            selected_panels(html@, sl.0, sl.1, sl.2, sl.3) == Some(dv),
            out.len() == i,
            forall|j: int| 0 <= j < i ==> #[trigger] panel_gives(dv[j], out@[j], kind),
            forall|j: int| 0 <= j < i ==> div_failure(#[trigger] dv[j]) is None,
    {
        assert(dv[i as int] == divs@[i as int].view());
        match Panel::from_div(&divs[i]) {
            Ok(p) => {
                let p = Panel { kind, ..p };
                let ghost before = out@;
                out.push(p);
                assert forall|j: int| 0 <= j < i + 1 implies #[trigger] panel_gives(dv[j], out@[j], kind) by {
                    if j < i {
                        assert(out@[j] == before[j]);
                    }
                }
            },
            Err(e) => {
                proof {
                    let sp = selected_panels(html@, sl.0, sl.1, sl.2, sl.3)->Some_0;
                    assert(sp == dv);
                    assert(first_failing_div(sp, i as int, e));
                }
                return Err(e);
            },
        }
    }
    Ok(out)
}

/// The player a profile page shows: the header's name, trimmed, and its faction; the login
/// name is left empty.
pub open spec fn profile_read(html: Seq<char>, r: Result<Player, Error>) -> bool {
    match first_inner(html, "div.page-header > h1"@) {
        None => r matches Err(e) && e is Css,
        Some(None) => r matches Err(e) && (e matches Error::Scraper(s) && s@ == "doc->Player.playername"@),
        Some(Some(n)) => match first_inner(html, "div.page-header > h3"@) {
            None => r matches Err(e) && e is Css,
            Some(None) => r matches Err(e) && (e matches Error::Scraper(s) && s@ == "doc->Player.faction"@),
            Some(Some(f)) => r matches Ok(p) && p.gtname@ == Seq::<char>::empty() && p.playername@ == trim(n)
                && p.faction == Faction::named(lowercase(trim(f))) && p.kb_gtname is None,
        },
    }
}

impl Player {
    /// Reads a player's profile page, as `profile_read` says.
    pub fn from_document(html: &str) -> (r: Result<Player, Error>)
        ensures
            profile_read(html@, r),
    {
        let name = match select_first_inner(html, "div.page-header > h1") {
            None => {
                return Err(Error::Css);
            },
            Some(None) => {
                return Err(Error::Scraper(lit("doc->Player.playername")));
            },
            Some(Some(n)) => n,
        };
        let side = match select_first_inner(html, "div.page-header > h3") {
            None => {
                return Err(Error::Css);
            },
            Some(None) => {
                return Err(Error::Scraper(lit("doc->Player.faction")));
            },
            Some(Some(f)) => f,
        };
        let faction = Faction::from_name(trim_str(side.as_str()).as_str());
        let gtname = String::new();
        proof {
            assert(gtname@ =~= Seq::<char>::empty());
        }
        Ok(Player { gtname, playername: trim_str(name.as_str()), faction, kb_gtname: None })
    }
}

/// A form's fields after setting `k` to `v`: kept sorted by name, a field of the same name
/// replaced.
pub open spec fn insert_param(s: Seq<(Seq<char>, Seq<char>)>, k: Seq<char>, v: Seq<char>) -> Seq<(Seq<char>, Seq<char>)>
    decreases s.len(),
{
    if s.len() == 0 {
        seq![(k, v)]
    } else {
        let o = lex_order(s.last().0, k);
        if o == Order::Equal {
            s.drop_last().push((k, v))
        } else if o == Order::Greater {
            insert_param(s.drop_last(), k, v).push(s.last())
        } else {
            s.push((k, v))
        }
    }
}

fn set_param(ps: &mut Vec<(String, String)>, k: String, v: String)
    ensures
        pair_views(final(ps)@) == insert_param(pair_views(old(ps)@), k@, v@),
{
    let kc = chars_of(k.as_str());
    let ghost s = pair_views(ps@);
    let mut p = ps.len();
    assert(s.take(p as int) =~= s);
    assert(s.skip(p as int) =~= Seq::<(Seq<char>, Seq<char>)>::empty());
    while p > 0 && lex_compare(&chars_of(ps[p - 1].0.as_str()), &kc) == Order::Greater
        invariant
            p <= ps.len(),
            s == pair_views(ps@),
            kc@ == k@,
            insert_param(s, k@, v@) =~= insert_param(s.take(p as int), k@, v@) + s.skip(p as int),
        decreases p,
    {
        assert(s.take(p as int).drop_last() =~= s.take(p - 1));
        assert(s.take(p as int).last() == s[p - 1]);
        assert(s.skip(p - 1) =~= seq![s[p - 1]] + s.skip(p as int));
        p = p - 1;
    }
    if p > 0 && lex_compare(&chars_of(ps[p - 1].0.as_str()), &kc) == Order::Equal {
        assert(s.take(p as int).last() == s[p - 1]);
        ps.set(p - 1, (k, v));
        assert(pair_views(ps@) =~= s.take(p - 1).push((k@, v@)) + s.skip(p as int));
        assert(s.take(p as int).drop_last() =~= s.take(p - 1));
    } else {
        if p > 0 {
            assert(s.take(p as int).last() == s[p - 1]);
        }
        ps.insert(p, (k, v));
        assert(pair_views(ps@) =~= s.take(p as int).push((k@, v@)) + s.skip(p as int));
    }
}

/// Whether a control of the login form is sent on: it has a type other than "reset" and
/// "checkbox", and is not the username or password field.
pub open spec fn control_kept(c: (Option<Seq<char>>, Option<Seq<char>>, Option<Seq<char>>)) -> bool {
    &&& c.0 matches Some(t) && t != "reset"@ && t != "checkbox"@
    &&& !(c.1 matches Some(n) && (n == "username"@ || n == "password"@))
}

/// The fields of the login form: the credentials, then each control sent on; or the name of
/// the first control that lacks a name or a value.
pub open spec fn login_params(user: Seq<char>, pass: Seq<char>, cs: Seq<(Option<Seq<char>>, Option<Seq<char>>, Option<Seq<char>>)>) -> Result<Seq<(Seq<char>, Seq<char>)>, Seq<char>>
    decreases cs.len(),
{
    if cs.len() == 0 {
        Ok(insert_param(insert_param(seq![], "username"@, user), "password"@, pass))
    } else {
        match login_params(user, pass, cs.drop_last()) {
            Err(m) => Err(m),
            Ok(ps) => {
                let c = cs.last();
                if !control_kept(c) {
                    Ok(ps)
                } else {
                    match (c.1, c.2) {
                        (None, _) => Err("login->form->element[name]"@),
                        (Some(_), None) => Err("login->form->element[value]"@),
                        (Some(n), Some(v)) => Ok(insert_param(ps, n, v)),
                    }
                }
            },
        }
    }
}

proof fn lemma_login_params_fail(user: Seq<char>, pass: Seq<char>, cs: Seq<(Option<Seq<char>>, Option<Seq<char>>, Option<Seq<char>>)>, k: int, m: Seq<char>)
    requires
        0 <= k <= cs.len(),
        login_params(user, pass, cs.take(k)) == Err::<Seq<(Seq<char>, Seq<char>)>, Seq<char>>(m),
    ensures
        login_params(user, pass, cs) == Err::<Seq<(Seq<char>, Seq<char>)>, Seq<char>>(m),
    decreases cs.len() - k,
{
    if k < cs.len() {
        assert(cs.take(k + 1).drop_last() =~= cs.take(k));
        lemma_login_params_fail(user, pass, cs, k + 1, m);
    } else {
        assert(cs.take(k) =~= cs);
    }
}

/// The characters of a form's action, when there is a form.
pub open spec fn action_view(a: Option<Option<String>>) -> Option<Option<Seq<char>>> {
    match a {
        Some(x) => Some(opt_view(x)),
        None => None,
    }
}

/// What filling the login form gives: its fields (as `login_params` says, else `Scraper` naming
/// the control's lack), then the address it posts to (the first form's action read against
/// the login site; else `Scraper`, or `UrlParsing`); `Css` when a selector does not parse.
pub open spec fn login_form_read(user: Seq<char>, pass: Seq<char>, html: Seq<char>, r: Result<(Vec<(String, String)>, String), Error>) -> bool {
    match selected_form(html, "form"@, "form input[name][value]"@) {
        None => r matches Err(e) && e is Css,
        Some((action, cs)) => match login_params(user, pass, cs) {
            Err(m) => r matches Err(e) && (e matches Error::Scraper(s) && s@ == m),
            Ok(ps) => match action {
                None => r matches Err(e) && (e matches Error::Scraper(s) && s@ == "login->form"@),
                Some(None) => r matches Err(e) && (e matches Error::Scraper(s) && s@ == "login->form[action]"@),
                Some(Some(a)) => match url_joined("https://login.gatech.edu/"@, a) {
                    None => r matches Err(e) && e is UrlParsing,
                    Some(u) => r matches Ok((fields, url)) && pair_views(fields@) == ps && url@ == u,
                },
            },
        },
    }
}

/// Fills the Georgia Tech login form of page `html` with the credentials, as
/// `login_form_read` says.
pub fn fill_login_form(username: &str, password: &str, html: &str) -> (r: Result<(Vec<(String, String)>, String), Error>)
    ensures
        login_form_read(username@, password@, html@, r),
{
    let (action, controls) = match select_form(html, "form", "form input[name][value]") {
        Some(f) => f,
        None => {
            return Err(Error::Css);
        },
    };
    let ghost cv = control_views(controls@);
    let ghost av = action_view(action);
    assert(selected_form(html@, "form"@, "form input[name][value]"@) == Some((av, cv)));
    let mut params: Vec<(String, String)> = Vec::new();
    assert(pair_views(params@) =~= seq![]);
    set_param(&mut params, lit("username"), lit(username));
    set_param(&mut params, lit("password"), lit(password));
    assert(cv.take(0) =~= Seq::<(Option<Seq<char>>, Option<Seq<char>>, Option<Seq<char>>)>::empty());
    for i in 0..controls.len()
        invariant
            cv == control_views(controls@),
            selected_form(html@, "form"@, "form input[name][value]"@) == Some((av, cv)),
            login_params(username@, password@, cv.take(i as int)) == Ok::<Seq<(Seq<char>, Seq<char>)>, Seq<char>>(pair_views(params@)),
    {
        assert(cv.take(i + 1).drop_last() =~= cv.take(i as int));
        assert(cv.take(i + 1).last() == controls@[i as int].view());
        let c = &controls[i];
        let kept = match &c.kind {
            Some(t) => !same_text(t.as_str(), "reset") && !same_text(t.as_str(), "checkbox"),
            None => false,
        } && !match &c.name {
            Some(n) => same_text(n.as_str(), "username") || same_text(n.as_str(), "password"),
            None => false,
        };
        if kept {
            let name = match &c.name {
                Some(n) => n.clone(),
                None => {
                    proof {
                        assert(control_kept(cv[i as int]));
                        assert(cv[i as int].1 is None);
                        assert(login_params(username@, password@, cv.take(i + 1)) == Err::<Seq<(Seq<char>, Seq<char>)>, Seq<char>>("login->form->element[name]"@));
                        lemma_login_params_fail(username@, password@, cv, i + 1, "login->form->element[name]"@);
                    }
                    return Err(Error::Scraper(lit("login->form->element[name]")));
                },
            };
            let value = match &c.value {
                Some(v) => v.clone(),
                None => {
                    proof {
                        lemma_login_params_fail(username@, password@, cv, i + 1, "login->form->element[value]"@);
                    }
                    return Err(Error::Scraper(lit("login->form->element[value]")));
                },
            };
            set_param(&mut params, name, value);
        }
    }
    assert(cv.take(controls.len() as int) =~= cv);
    let a = match action {
        None => {
            return Err(Error::Scraper(lit("login->form")));
        },
        Some(None) => {
            return Err(Error::Scraper(lit("login->form[action]")));
        },
        Some(Some(a)) => a,
    };
    match join_url("https://login.gatech.edu/", a.as_str()) {
        Ok(u) => Ok((params, u)),
        Err(d) => Err(Error::UrlParsing(d)),
    }
}

/// The chat audiences that a player of faction `own` reads: the general chat, and their
/// faction's own chat.
pub open spec fn audiences(own: Faction) -> Seq<Faction> {
    if own == Faction::Human || own == Faction::Zombie {
        seq![Faction::General, own]
    } else {
        seq![Faction::General]
    }
}

/// The chat audiences that a player of faction `own` reads, in order.
pub fn chat_audiences(own: Faction) -> (r: Vec<Faction>)
    ensures
        r@ == audiences(own),
{
    let mut r: Vec<Faction> = Vec::new();
    r.push(Faction::General);
    if own == Faction::Human || own == Faction::Zombie {
        r.push(own);
    }
    assert(r@ =~= audiences(own));
    r
}

/// The form that fetches the messages of a chat audience.
pub fn chat_update_form(audience: Faction) -> (r: Vec<(String, String)>)
    ensures
        pair_views(r@) == seq![("aud"@, audience.debug_spec())],
{
    let r = vec![(lit("aud"), audience.debug_name())];
    assert(pair_views(r@) =~= seq![("aud"@, audience.debug_spec())]);
    r
}

/// The form that posts `text` to the chat of `recipient`.
pub fn chat_post_form(recipient: Faction, text: &str) -> (r: Vec<(String, String)>)
    ensures
        pair_views(r@) == seq![("aud"@, recipient.debug_spec()), ("content"@, text@)],
{
    let r = vec![(lit("aud"), recipient.debug_name()), (lit("content"), lit(text))];
    assert(pair_views(r@) =~= seq![("aud"@, recipient.debug_spec()), ("content"@, text@)]);
    r
}

/// The page that lists the panels of a kind.
pub fn panel_page_url(kind: PanelKind) -> (r: String)
    ensures
        r@ == "https://hvz.gatech.edu/"@ + kind.display_spec() + "s"@,
{
    cat(cat("https://hvz.gatech.edu/", kind.display_name().as_str()).as_str(), "s")
}

/// The profile page of a player, by login name.
pub fn profile_url(gtname: &str) -> (r: String)
    ensures
        r@ == "https://hvz.gatech.edu/profile/?gtname="@ + gtname@,
{
    cat("https://hvz.gatech.edu/profile/?gtname=", gtname)
}

/// The kinds of panels that are fetched: the missions (announcements are not read).
pub fn fetched_panel_kinds() -> (r: Vec<PanelKind>)
    ensures
        r@ == seq![PanelKind::Mission],
{
    vec![PanelKind::Mission]
}

} // verus!
