use vstd::prelude::*;
use crate::board::{Board, BoardKey};
use crate::hvz::{Faction, PanelKind, Player, Killboard, Chatboard, Panelboard};
use crate::order::Ordered;
use crate::syncer::{adds_of, all_of, comm_seq, dels_of, update_map, comm_slot_ok};

verus! {

/// What an update of a board brought: the additions and the deletions, and whether the merged
/// board is to be written back.
pub struct Changes<C> {
    pub additions: C,
    pub deletions: C,
    pub write_back: bool,
}

/// What the board `after` and the changes hold under key `k`, once `fetched` was compared with
/// `before`, deletions heeded or not.
pub open spec fn synced_slot<K: BoardKey, T: Ordered>(
    fetched: Board<K, T>,
    before: Board<K, T>,
    after: Board<K, T>,
    changes: Changes<Board<K, T>>,
    heed_deletions: bool,
    k: K,
) -> bool {
    if fetched.slot(k) is None && before.slot(k) is None {
        &&& after.slot(k) is None
        &&& changes.additions.slot(k) is None
        &&& changes.deletions.slot(k) is None
    } else {
        let steps = comm_seq(fetched.items(k), before.items(k));
        &&& after.slot(k) == Some(all_of(steps, heed_deletions))
        &&& changes.additions.slot(k) == Some(adds_of(steps))
        &&& changes.deletions.slot(k) == Some(dels_of(steps))
    }
}

/// What a board holds under key `k` once `fetched` was merged into `before`.
pub open spec fn merged_slot<K: BoardKey, T: Ordered>(fetched: Board<K, T>, before: Board<K, T>, heed_deletions: bool, k: K) -> Option<Seq<T>> {
    if fetched.slot(k) is None && before.slot(k) is None {
        None
    } else {
        Some(all_of(comm_seq(fetched.items(k), before.items(k)), heed_deletions))
    }
}

/// Whether an update is to be written back: when the changes hold any key.
pub open spec fn changes_write_back<K: BoardKey, T>(changes: Changes<Board<K, T>>) -> bool {
    changes.write_back == !((forall|k: K| #[trigger] changes.additions.slot(k) is None) && (forall|k: K|
        #[trigger] changes.deletions.slot(k) is None))
}

/// The boards of the website as last seen.
pub struct HvZSyncer {
    pub killboard: Killboard,
    pub chatboard: Chatboard,
    pub panelboard: Panelboard,
}

fn sync_board<K: BoardKey, T: Ordered>(board: &mut Board<K, T>, fetched: Board<K, T>, heed_deletions: bool) -> (r: Changes<Board<K, T>>)
    ensures
        forall|k: K| #![trigger final(board).slot(k)] synced_slot(fetched, *old(board), *final(board), r, heed_deletions, k),
        changes_write_back(r),
{
    let ghost before = *board;
    let res = update_map(fetched, board, heed_deletions);
    let r = Changes { additions: res.additions, deletions: res.deletions, write_back: res.write_back };
    *board = res.all;
    assert forall|k: K| #![trigger board.slot(k)] synced_slot(fetched, before, *board, r, heed_deletions, k) by {
        assert(res.all.slot(k) == board.slot(k));
    }
    r
}

impl HvZSyncer {
    /// Starts from the stored boards, each given the lists its sections always have: humans
    /// and zombies on the killboard, the general, human and zombie chats, announcements and
    /// missions.
    pub fn new(killboard: Killboard, chatboard: Chatboard, panelboard: Panelboard) -> (s: HvZSyncer)
        ensures
            s.killboard.slot(Faction::Human) == Some(killboard.items(Faction::Human)),
            s.killboard.slot(Faction::Zombie) == Some(killboard.items(Faction::Zombie)),
            forall|f: Faction| f != Faction::Human && f != Faction::Zombie ==> #[trigger] s.killboard.slot(f) == killboard.slot(f),
            s.chatboard.slot(Faction::General) == Some(chatboard.items(Faction::General)),
            s.chatboard.slot(Faction::Human) == Some(chatboard.items(Faction::Human)),
            s.chatboard.slot(Faction::Zombie) == Some(chatboard.items(Faction::Zombie)),
            s.chatboard.slot(Faction::Admin) == chatboard.slot(Faction::Admin),
            s.panelboard.slot(PanelKind::Announcement) == Some(panelboard.items(PanelKind::Announcement)),
            s.panelboard.slot(PanelKind::Mission) == Some(panelboard.items(PanelKind::Mission)),
    {
        let mut killboard = killboard;
        let mut chatboard = chatboard;
        let mut panelboard = panelboard;
        killboard.or_insert_empty(Faction::Human);
        killboard.or_insert_empty(Faction::Zombie);
        chatboard.or_insert_empty(Faction::General);
        chatboard.or_insert_empty(Faction::Human);
        chatboard.or_insert_empty(Faction::Zombie);
        panelboard.or_insert_empty(PanelKind::Announcement);
        panelboard.or_insert_empty(PanelKind::Mission);
        HvZSyncer { killboard, chatboard, panelboard }
    }

    /// Takes in the killboard as fetched: deletions are heeded, and the merged board is kept.
    pub fn update_killboard(&mut self, fetched: Killboard) -> (r: Changes<Killboard>)
        ensures
            forall|f: Faction| #![trigger final(self).killboard.slot(f)]
                synced_slot(fetched, old(self).killboard, final(self).killboard, r, true, f),
            changes_write_back(r),
            final(self).chatboard == old(self).chatboard,
            final(self).panelboard == old(self).panelboard,
    {
        sync_board(&mut self.killboard, fetched, true)
    }

    /// Takes in the killboard as fetched, as `update_killboard` does, and gives the players
    /// newly listed among the humans, with whether the board is to be written back.
    pub fn new_zombies(&mut self, fetched: Killboard) -> (r: (Vec<Player>, bool))
        ensures
            forall|f: Faction| #![trigger final(self).killboard.slot(f)]
                final(self).killboard.slot(f) == merged_slot(fetched, old(self).killboard, true, f),
            r.1 == exists|f: Faction| #[trigger] fetched.slot(f) is Some || old(self).killboard.slot(f) is Some,
            r.0@ == adds_of(comm_seq(fetched.items(Faction::Human), old(self).killboard.items(Faction::Human))),
    {
        let ghost before = self.killboard;
        let mut changes = self.update_killboard(fetched);
        assert(synced_slot(fetched, before, self.killboard, changes, true, Faction::Human));
        assert forall|f: Faction| #![trigger self.killboard.slot(f)] self.killboard.slot(f) == merged_slot(fetched, before, true, f) by {
            assert(synced_slot(fetched, before, self.killboard, changes, true, f));
        }
        proof {
            if exists|f: Faction| #[trigger] fetched.slot(f) is Some || before.slot(f) is Some {
                let f = choose|f: Faction| #[trigger] fetched.slot(f) is Some || before.slot(f) is Some;
                assert(synced_slot(fetched, before, self.killboard, changes, true, f));
                assert(changes.additions.slot(f) is Some);
                assert(changes.write_back);
            } else {
                assert forall|f: Faction| #[trigger] changes.additions.slot(f) is None by {
                    assert(synced_slot(fetched, before, self.killboard, changes, true, f));
                    assert(!(fetched.slot(f) is Some || before.slot(f) is Some));
                }
                assert forall|f: Faction| #[trigger] changes.deletions.slot(f) is None by {
                    assert(synced_slot(fetched, before, self.killboard, changes, true, f));
                    assert(!(fetched.slot(f) is Some || before.slot(f) is Some));
                }
                assert(!changes.write_back);
            }
        }
        let added = changes.additions.remove(Faction::Human);
        let v = match added {
            Some(v) => v,
            None => {
                assert(comm_seq(fetched.items(Faction::Human), before.items(Faction::Human)) =~= seq![]);
                Vec::new()
            },
        };
        (v, changes.write_back)
    }

    /// Takes in the chat as fetched: deletions are heeded, and the merged board is kept.
    pub fn update_chatboard(&mut self, fetched: Chatboard) -> (r: Changes<Chatboard>)
        ensures
            forall|f: Faction| #![trigger final(self).chatboard.slot(f)]
                synced_slot(fetched, old(self).chatboard, final(self).chatboard, r, true, f),
            changes_write_back(r),
            final(self).killboard == old(self).killboard,
            final(self).panelboard == old(self).panelboard,
    {
        sync_board(&mut self.chatboard, fetched, true)
    }

    /// Takes in the panels as fetched: panels that vanished are kept, and the merged board is
    /// kept.
    pub fn update_panelboard(&mut self, fetched: Panelboard) -> (r: Changes<Panelboard>)
        ensures
            forall|k: PanelKind| #![trigger final(self).panelboard.slot(k)]
                synced_slot(fetched, old(self).panelboard, final(self).panelboard, r, false, k),
            changes_write_back(r),
            final(self).killboard == old(self).killboard,
            final(self).chatboard == old(self).chatboard,
    {
        sync_board(&mut self.panelboard, fetched, false)
    }
}

} // verus!
