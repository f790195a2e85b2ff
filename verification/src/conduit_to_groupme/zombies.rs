use vstd::prelude::*;
use crate::conduit_to_groupme::{BotRole, ConduitHvZToGroupme, killboard_checkers,
    killboard_checkers_spec, nll, nll_spec};
use crate::conduit_to_groupme::bots::Notice;
use crate::groupme::{Group, Member, canonical_name_spec, removes};
use crate::groupme::api::ApiRequest;
use crate::hvz::{Faction, Player, Killboard, KillboardExt, surname, surname_spec};
use crate::text::{lit, cat, str_views, lowercase, to_lowercase, lemma_str_views_push};

verus! {

/// Whether a member goes by a name: their canonical name, or its last word when `by_surname`,
/// equals the name, or its last word, regardless of case.
pub open spec fn member_matches(m: Member, name: Seq<char>, by_surname: bool) -> bool {
    if by_surname {
        lowercase(surname_spec(canonical_name_spec(m.nickname@))) == lowercase(surname_spec(name))
    } else {
        lowercase(canonical_name_spec(m.nickname@)) == lowercase(name)
    }
}

/// The first member that goes by a name, as `member_matches` says.
#[verifier::opaque]
pub open spec fn first_matching_spec(members: Seq<Member>, name: Seq<char>, by_surname: bool) -> Option<int> {
    if exists|i: int| 0 <= i < members.len() && #[trigger] member_matches(members[i], name, by_surname) {
        Some(choose|i: int|
            0 <= i < members.len() && #[trigger] member_matches(members[i], name, by_surname)
                && forall|j: int| 0 <= j < i ==> !member_matches(members[j], name, by_surname))
    } else {
        None
    }
}

/// The member a dead player is found as: the first with the player's full name; failing that,
/// when no other player of the killboard shares the surname, the first with that surname.
#[verifier::opaque]
pub open spec fn found_as(members: Seq<Member>, killboard: Killboard, name: Seq<char>) -> Option<int> {
    match first_matching_spec(members, name, false) {
        Some(i) => Some(i),
        None => if killboard.ambiguous_spec(name) {
            None
        } else {
            first_matching_spec(members, name, true)
        },
    }
}

/// The first member that goes by a name does, and none before it does; when there is none, no
/// member does.
pub proof fn lemma_first_matching(members: Seq<Member>, name: Seq<char>, by_surname: bool)
    ensures
        match first_matching_spec(members, name, by_surname) {
            Some(i) => 0 <= i < members.len() && member_matches(members[i], name, by_surname) && forall|j: int|
                0 <= j < i ==> !#[trigger] member_matches(members[j], name, by_surname),
            None => forall|j: int| 0 <= j < members.len() ==> !#[trigger] member_matches(members[j], name, by_surname),
        },
{
    reveal(first_matching_spec);
    if exists|i: int| 0 <= i < members.len() && #[trigger] member_matches(members[i], name, by_surname) {
        let w = choose|i: int| 0 <= i < members.len() && #[trigger] member_matches(members[i], name, by_surname);
        lemma_least_match(members, name, by_surname, w);
    }
}

proof fn lemma_least_match(members: Seq<Member>, name: Seq<char>, by_surname: bool, w: int)
    requires
        0 <= w < members.len(),
        member_matches(members[w], name, by_surname),
    ensures
        exists|i: int|
            0 <= i < members.len() && #[trigger] member_matches(members[i], name, by_surname) && forall|j: int|
                0 <= j < i ==> !member_matches(members[j], name, by_surname),
    decreases w,
{
    if exists|j: int| 0 <= j < w && #[trigger] member_matches(members[j], name, by_surname) {
        let v = choose|j: int| 0 <= j < w && #[trigger] member_matches(members[j], name, by_surname);
        lemma_least_match(members, name, by_surname, v);
    } else {
        assert(forall|j: int| 0 <= j < w ==> !member_matches(members[j], name, by_surname));
    }
}

/// A dead player no member goes by in full, whose surname no other player of the killboard has,
/// is found as the first member with her surname, in any case, when there is one. The player
/// herself being on the board (as she is once she turned) does not stop this.
pub proof fn law_found_by_lone_surname(members: Seq<Member>, killboard: Killboard, name: Seq<char>, k: int)
    requires
        forall|j: int| 0 <= j < members.len() ==> !#[trigger] member_matches(members[j], name, false),
        forall|f: Faction, i: int|
            0 <= i < killboard.items(f).len() && lowercase(surname_spec(#[trigger] killboard.items(f)[i].playername@))
                == lowercase(surname_spec(name)) ==> killboard.items(f)[i].playername@ == name,
        0 <= k < members.len(),
        lowercase(surname_spec(canonical_name_spec(members[k].nickname@))) == lowercase(surname_spec(name)),
    ensures
        found_as(members, killboard, name) matches Some(i) && 0 <= i <= k
            && lowercase(surname_spec(canonical_name_spec(members[i].nickname@))) == lowercase(surname_spec(name)),
{
    reveal(found_as);
    lemma_first_matching(members, name, false);
    lemma_first_matching(members, name, true);
    crate::hvz::law_ambiguous_surname(killboard, name);
    assert(member_matches(members[k], name, true));
}

/// A member a dead player is found as is one of the members.
pub proof fn lemma_found_as_member(members: Seq<Member>, killboard: Killboard, name: Seq<char>)
    ensures
        found_as(members, killboard, name) matches Some(i) ==> 0 <= i < members.len(),
{
    reveal(found_as);
    lemma_first_matching(members, name, false);
    lemma_first_matching(members, name, true);
}

/// The names of the dead players who are found as no member, in order.
pub open spec fn unfound_names(members: Seq<Member>, killboard: Killboard, zs: Seq<Player>) -> Seq<Seq<char>>
    decreases zs.len(),
{
    if zs.len() == 0 {
        seq![]
    } else {
        let rest = unfound_names(members, killboard, zs.drop_last());
        if found_as(members, killboard, zs.last().playername@) is None {
            rest.push(zs.last().playername@)
        } else {
            rest
        }
    }
}

/// The warning to the killboard checkers about dead players who could not be found.
pub open spec fn zombie_warning(unfound: Seq<Seq<char>>) -> Seq<char> {
    "Achtung; Trottel! Of those deaths, I failed to ID (let alone kick) "@ + nll_spec(unfound, seq![]) + "."@
}

fn first_matching(members: &Vec<Member>, name: &str, by_surname: bool) -> (r: Option<usize>)
    ensures
        match r {
            Some(i) => i < members.len() && first_matching_spec(members@, name@, by_surname) == Some(i as int),
            None => first_matching_spec(members@, name@, by_surname) is None,
        },
{
    let target = if by_surname {
        to_lowercase(surname(name).as_str())
    } else {
        to_lowercase(name)
    };
    for i in 0..members.len()
        invariant
            target@ == if by_surname {
                lowercase(surname_spec(name@))
            } else {
                lowercase(name@)
            },
            forall|j: int| 0 <= j < i ==> !#[trigger] member_matches(members@[j], name@, by_surname),
    {
        let cn = members[i].canonical_name();
        let key = if by_surname {
            to_lowercase(surname(cn.as_str()).as_str())
        } else {
            to_lowercase(cn.as_str())
        };
        if key == target {
            proof {
                assert(member_matches(members@[i as int], name@, by_surname));
                lemma_first_matching(members@, name@, by_surname);
                let c = first_matching_spec(members@, name@, by_surname)->0;
                if c < i {
                    assert(!member_matches(members@[c], name@, by_surname));
                } else if c > i {
                    assert(!member_matches(members@[i as int], name@, by_surname));
                }
            }
            return Some(i);
        }
        assert(!member_matches(members@[i as int], name@, by_surname));
    }
    proof { lemma_first_matching(members@, name@, by_surname); }
    None
}

fn zombie_step(group: &Group, killboard: &Killboard, z: Player) -> (r: (Option<ApiRequest>, Option<String>))
    ensures
        match found_as(group.members@, *killboard, z.playername@) {
            Some(i) => r.1 is None && (r.0 matches Some(q) && removes(*group, group.members@[i], q)),
            None => r.0 is None && (r.1 matches Some(s) && s@ == z.playername@),
        },
{
    match ConduitHvZToGroupme::mark_zombie(&group.members, killboard, z) {
        Ok((_death, member)) => {
            let ghost i = found_as(group.members@, *killboard, z.playername@)->0;
            proof { lemma_found_as_member(group.members@, *killboard, z.playername@); }
            match group.remove(member) {
                Ok(q) => (Some(q), None),
                Err(_) => {
                    assert(group.members@[i].user_id@ == group.members@[i].user_id@);
                    (None, None)
                },
            }
        },
        Err(death) => (None, Some(death.playername)),
    }
}

/// What to do about the players who just turned.
pub struct ZombieRound {
    /// For each new zombie, in order, the request that kicks the member they were found as.
    pub removals: Vec<Option<ApiRequest>>,
    /// The warning the zombies' killboard bot gives the killboard checkers, mentioning them,
    /// when some could not be found.
    pub warning: Option<Notice>,
}

impl ConduitHvZToGroupme {
    /// Finds the member a dead player goes by among `members`, as `found_as` says; hands the
    /// player back when there is none.
    pub fn mark_zombie(members: &Vec<Member>, killboard: &Killboard, zombie_player: Player) -> (r: Result<(Player, Member), Player>)
        ensures
            match found_as(members@, *killboard, zombie_player.playername@) {
                Some(i) => r == Ok::<(Player, Member), Player>((zombie_player, members@[i])),
                None => r == Err::<(Player, Member), Player>(zombie_player),
            },
    {
        proof { reveal(found_as); }
        match first_matching(members, zombie_player.playername.as_str(), false) {
            Some(i) => {
                return Ok((zombie_player, members[i].duplicate()));
            },
            None => {},
        }
        if killboard.name_has_ambiguous_surname(zombie_player.playername.as_str()) {
            Err(zombie_player)
        } else {
            match first_matching(members, zombie_player.playername.as_str(), true) {
                Some(i) => Ok((zombie_player, members[i].duplicate())),
                None => Err(zombie_player),
            }
        }
    }

    /// Handles the players who just turned, against the freshly read faction Group: each one
    /// found as a member is kicked; those not found are named in a warning.
    pub fn process_new_zombies(group: &Group, killboard: &Killboard, new_zombies: Vec<Player>) -> (r: ZombieRound)
        ensures
            r.removals.len() == new_zombies.len(),
            forall|j: int|
                0 <= j < new_zombies.len() ==> match found_as(group.members@, *killboard, new_zombies@[j].playername@) {
                    Some(i) => #[trigger] r.removals@[j] matches Some(q) && removes(*group, group.members@[i], q),
                    None => r.removals@[j] is None,
                },
            ({
                let unfound = unfound_names(group.members@, *killboard, new_zombies@);
                match r.warning {
                    Some(w) => unfound.len() > 0 && w.text@ == zombie_warning(unfound)
                        && w.role == BotRole::Killboard(Faction::Zombie)
                        && str_views(w.mention@) == killboard_checkers_spec(),
                    None => unfound.len() == 0,
                }
            }),
    {
        let mut removals: Vec<Option<ApiRequest>> = Vec::new();
        let mut not_found: Vec<String> = Vec::new();
        let n = new_zombies.len();
        let mut k: usize = 0;
        let mut rest = new_zombies;
        let ghost all = rest@;
        while k < n
            invariant
                all.len() == n,
                k <= n,
                rest@ == all.skip(k as int),
                removals.len() == k,
                forall|j: int|
                    0 <= j < k ==> match found_as(group.members@, *killboard, all[j].playername@) {
                        Some(i) => #[trigger] removals@[j] matches Some(q) && removes(*group, group.members@[i], q),
                        None => removals@[j] is None,
                    },
                str_views(not_found@) == unfound_names(group.members@, *killboard, all.take(k as int)),
            decreases n - k,
        {
            assert(all.take(k + 1).drop_last() =~= all.take(k as int));
            let z = rest.remove(0);
            assert(rest@ =~= all.skip(k + 1));
            assert(z == all[k as int]);
            let (q, unfound) = zombie_step(group, killboard, z);
            let ghost before = removals@;
            removals.push(q);
            assert(forall|j: int| 0 <= j < k ==> removals@[j] == before[j]);
            match unfound {
                Some(name) => {
                    proof { lemma_str_views_push(not_found@, name); }
                    not_found.push(name);
                },
                None => {},
            }
            k = k + 1;
        }
        assert(all.take(n as int) =~= all);
        let warning = if not_found.len() > 0 {
            let names = nll(&not_found, None);
            let w = cat(cat("Achtung; Trottel! Of those deaths, I failed to ID (let alone kick) ", names.as_str()).as_str(), ".");
            Some(Notice { role: BotRole::Killboard(Faction::Zombie), text: w, mention: killboard_checkers() })
        } else {
            None
        };
        ZombieRound { removals, warning }
    }
}

} // verus!
