use vstd::prelude::*;
use crate::errors::Error;
use crate::conduit_to_groupme::ConduitHvZToGroupme;
use crate::groupme::Group;
use crate::hvz::int_order;
use crate::order::{Order, Ordered, sort_items, sort_spec};
use crate::text::{lit, same_text};

verus! {

/// A Group's place in the list of Groups, and its size.
#[derive(Clone, Copy, Debug, PartialEq, Eq, Structural)]
pub struct SizeIndex {
    pub size: usize,
    pub index: usize,
}

impl Ordered for SizeIndex {
    /// Groups are ordered by their number of members.
    open spec fn order_spec(&self, other: &Self) -> Order {
        int_order(self.size as int, other.size as int)
    }

    fn compare(&self, other: &Self) -> (o: Order) {
        if self.size < other.size {
            Order::Less
        } else if self.size > other.size {
            Order::Greater
        } else {
            Order::Equal
        }
    }

    fn duplicate(&self) -> (r: Self) {
        *self
    }
}

/// The sizes of the Groups, each with its place.
pub open spec fn sizes(groups: Seq<Group>) -> Seq<SizeIndex> {
    Seq::new(groups.len(), |i: int| SizeIndex { size: groups[i].members.len(), index: i as usize })
}

/// Whether a Group is the faction Group: it has the name, and more than two members or was
/// created by this user.
pub open spec fn is_faction_group(g: Group, name: Seq<char>, me: Seq<char>) -> bool {
    g.name@ == name && (g.members.len() > 2 || g.creator_user_id@ == me)
}

/// Whether a Group is the command Group: it has the name, this user alone as member, and was
/// created by this user.
pub open spec fn is_cnc_group(g: Group, name: Seq<char>, me: Seq<char>) -> bool {
    g.name@ == name && g.members.len() == 1 && g.creator_user_id@ == me
}

/// Goes through the Groups in the order `order` (places in `groups`): the first faction Group
/// and the first command Group found, stopping once both are.
pub open spec fn pick(groups: Seq<Group>, order: Seq<SizeIndex>, fname: Seq<char>, cname: Seq<char>, me: Seq<char>, acc: (Option<usize>, Option<usize>)) -> (Option<usize>, Option<usize>)
    decreases order.len(),
{
    if order.len() == 0 {
        acc
    } else {
        let k = order[0].index;
        let g = groups[k as int];
        if acc.0 is None && is_faction_group(g, fname, me) {
            pick(groups, order.drop_first(), fname, cname, me, (Some(k), acc.1))
        } else if acc.1 is None && is_cnc_group(g, cname, me) {
            pick(groups, order.drop_first(), fname, cname, me, (acc.0, Some(k)))
        } else if acc.0 is Some && acc.1 is Some {
            acc
        } else {
            pick(groups, order.drop_first(), fname, cname, me, acc)
        }
    }
}

/// Which of the Groups are the faction Group and the command Group, by place: the Groups are
/// gone through from the largest down (among equal sizes, the later first), as `pick` says.
pub fn choose_groups(groups: &Vec<Group>, faction_name: &str, cnc_name: &str, my_user_id: &str) -> (r: (Option<usize>, Option<usize>))
    ensures
        r == pick(groups@, sort_spec(sizes(groups@)).reverse(), faction_name@, cnc_name@, my_user_id@, (None, None)),
{
    let mut keys: Vec<SizeIndex> = Vec::new();
    for i in 0..groups.len()
        invariant
            keys@ =~= sizes(groups@).take(i as int),
    {
        keys.push(SizeIndex { size: groups[i].members.len(), index: i });
    }
    assert(sizes(groups@).take(groups.len() as int) =~= sizes(groups@));
    let mut order = sort_items(keys);
    let ghost all = order@.reverse();
    let mut acc: (Option<usize>, Option<usize>) = (None, None);
    proof {
        lemma_sort_indices(sizes(groups@), groups.len() as int);
    }
    while order.len() > 0
        invariant
            all == sort_spec(sizes(groups@)).reverse(),
            pick(groups@, all, faction_name@, cnc_name@, my_user_id@, (None, None))
                == pick(groups@, order@.reverse(), faction_name@, cnc_name@, my_user_id@, acc),
            forall|j: int| 0 <= j < order.len() ==> #[trigger] order@[j].index < groups.len(),
        decreases order.len(),
    {
        let ghost before = order@;
        let s = order.pop().unwrap();
        assert(before.reverse()[0] == s);
        assert(before.reverse().drop_first() =~= order@.reverse());
        let g = &groups[s.index];
        if acc.0.is_none() && same_text(g.name.as_str(), faction_name) && (g.members.len() > 2 || same_text(g.creator_user_id.as_str(), my_user_id)) {
            acc = (Some(s.index), acc.1);
        } else if acc.1.is_none() && same_text(g.name.as_str(), cnc_name) && g.members.len() == 1 && same_text(g.creator_user_id.as_str(), my_user_id) {
            acc = (acc.0, Some(s.index));
        } else if acc.0.is_some() && acc.1.is_some() {
            assert(before.reverse().len() > 0);
            assert(before.reverse()[0].index == s.index);
            assert(pick(groups@, before.reverse(), faction_name@, cnc_name@, my_user_id@, acc) == acc);
            return acc;
        }
    }
    acc
}

/// Every entry of a sorted list of places is a place below `n`.
proof fn lemma_sort_indices(s: Seq<SizeIndex>, n: int)
    requires
        forall|j: int| 0 <= j < s.len() ==> #[trigger] s[j].index < n,
    ensures
        forall|j: int| 0 <= j < sort_spec(s).len() ==> #[trigger] sort_spec(s)[j].index < n,
{
    crate::order::law_sort_permutation(s);
    assert forall|j: int| 0 <= j < sort_spec(s).len() implies #[trigger] sort_spec(s)[j].index < n by {
        let x = sort_spec(s)[j];
        assert(sort_spec(s).to_multiset().count(x) > 0) by {
            vstd::seq_lib::to_multiset_contains(sort_spec(s), x);
        }
        vstd::seq_lib::to_multiset_contains(s, x);
        let k = choose|k: int| 0 <= k < s.len() && s[k] == x;
    }
}

/// The next tick's number: ticks count up to 32767, then start again from 0.
pub fn next_tick(i: usize) -> (r: usize)
    ensures
        r == (i + 1) % 32768,
{
    ((i % 32768) + 1) % 32768
}

/// Whether an error stops the worker: wrong credentials must be fixed first; anything else
/// is reported and the work goes on.
pub fn stops_worker(e: &Error) -> (b: bool)
    ensures
        b == (*e is GaTechCreds),
{
    match e {
        Error::GaTechCreds => true,
        _ => false,
    }
}

/// A part of a tick of the conduit.
#[derive(Clone, Copy, Debug, PartialEq, Eq, Structural)]
pub enum TickPart {
    Cnc,
    GroupmeMessages,
    Killboard,
    Panelboard,
    Chatboard,
}

impl ConduitHvZToGroupme {
    /// The parts of a tick at `now`, in order: the command Group and the faction Group are
    /// read; the website's boards too, when the last throttling is over 15 minutes old. Each
    /// part is tried even when an earlier one fails.
    pub fn tick_parts(&self, now: i64) -> (r: Vec<TickPart>)
        ensures
            r@ == seq![TickPart::Cnc, TickPart::GroupmeMessages] + if now - self.state.throttled_at > 900 {
                seq![TickPart::Killboard, TickPart::Panelboard, TickPart::Chatboard]
            } else {
                seq![]
            },
    {
        let mut r = vec![TickPart::Cnc, TickPart::GroupmeMessages];
        if self.boards_due(now) {
            r.push(TickPart::Killboard);
            r.push(TickPart::Panelboard);
            r.push(TickPart::Chatboard);
        }
        r
    }
}

/// The first error among the parts' results, if any.
pub open spec fn first_error(rs: Seq<Result<(), Error>>) -> Option<Error>
    decreases rs.len(),
{
    if rs.len() == 0 {
        None
    } else {
        match rs[0] {
            Err(e) => Some(e),
            Ok(_) => first_error(rs.drop_first()),
        }
    }
}

/// How a tick ends.
pub enum TickEnd {
    /// Every part succeeded.
    Done,
    /// The first failure is the website's bandwidth limit: the conduit is being throttled (see
    /// `being_throttled`), and the tick fails with that error.
    Throttled,
    /// The tick fails with the first failure.
    Failed(Error),
}

/// How a tick ends, given its parts' results in order.
pub fn tick_end(results: Vec<Result<(), Error>>) -> (r: TickEnd)
    ensures
        match first_error(results@) {
            None => r is Done,
            Some(e) => if e is BandwidthLimitExceeded {
                r is Throttled
            } else {
                r == TickEnd::Failed(e)
            },
        },
{
    let ghost all = results@;
    let mut rest = results;
    while rest.len() > 0
        invariant
            all == results@,
            first_error(rest@) == first_error(all),
        decreases rest.len(),
    {
        let ghost before = rest@;
        let x = rest.remove(0);
        assert(rest@ =~= before.drop_first());
        assert(x == before[0]);
        match x {
            Err(Error::BandwidthLimitExceeded) => {
                return TickEnd::Throttled;
            },
            Err(e) => {
                assert(first_error(before) == Some(e));
                return TickEnd::Failed(e);
            },
            Ok(()) => {
                assert(first_error(before) == first_error(rest@));
            },
        }
    }
    assert(first_error(all) is None);
    TickEnd::Done
}

/// What a new command Group is told.
pub fn cnc_welcome() -> (r: String)
    ensures
        r@ == "<> this group is for command+control over your copy of the bots. do not invite anyone else here."@,
{
    lit("<> this group is for command+control over your copy of the bots. do not invite anyone else here.")
}

} // verus!
