use vstd::prelude::*;
use crate::groupme::{Group, Member, Message, MessageSelector};
use crate::text::cat;

verus! {

/// The characters of an optional string.
pub open spec fn opt_chars(o: Option<String>) -> Option<Seq<char>> {
    match o {
        Some(s) => Some(s@),
        None => None,
    }
}

/// A Group followed message by message: the id of the last message seen is kept, so that each
/// update brings only what came after it.
pub struct GroupmeSyncer {
    pub group: Group,
    pub last_message_id: Option<String>,
    pub members: Vec<Member>,
}

impl GroupmeSyncer {
    /// Follows a Group from the last message id stored for it, if any.
    pub fn new(group: Group, stored_last_message_id: Option<String>) -> (s: GroupmeSyncer)
        ensures
            s.group == group,
            s.last_message_id == stored_last_message_id,
            s.members@.len() == 0,
    {
        GroupmeSyncer { group, last_message_id: stored_last_message_id, members: Vec::new() }
    }

    /// The key under which the last message id of the Group is stored.
    pub fn storage_key(&self) -> (r: String)
        ensures
            r@ == self.group.group_id@ + "last_message_id"@,
    {
        cat(self.group.group_id.as_str(), "last_message_id")
    }

    /// Which messages to fetch: those after the last one seen, or the latest when none was.
    pub fn selector(&self) -> (r: Option<MessageSelector>)
        ensures
            match self.last_message_id {
                Some(id) => r matches Some(MessageSelector::After(a)) && a@ == id@,
                None => r is None,
            },
    {
        match &self.last_message_id {
            Some(id) => Some(MessageSelector::After(id.clone())),
            None => None,
        }
    }

    /// Takes in the messages fetched with `selector`, oldest first: the last one becomes the
    /// last seen; they are handed on only when a last message was known before, so that the
    /// first update after a cold start replays nothing.
    pub fn update_messages(&mut self, fetched: Vec<Message>) -> (r: Vec<Message>)
        ensures
            opt_chars(final(self).last_message_id) == if fetched@.len() > 0 {
                Some(fetched@.last().id@)
            } else {
                opt_chars(old(self).last_message_id)
            },
            r@ == if old(self).last_message_id is Some {
                fetched@
            } else {
                Seq::<Message>::empty()
            },
            final(self).group == old(self).group,
            final(self).members == old(self).members,
    {
        let known = self.last_message_id.is_some();
        if fetched.len() > 0 {
            self.last_message_id = Some(fetched[fetched.len() - 1].id.clone());
        }
        if known {
            fetched
        } else {
            Vec::new()
        }
    }
}

} // verus!
