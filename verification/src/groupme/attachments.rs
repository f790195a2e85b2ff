use vstd::prelude::*;
use crate::text::str_views;

verus! {

/// Something attached to a GroupMe message.
#[derive(Debug)]
pub enum Attachment {
    Mentions { user_ids: Vec<String>, loci: Vec<(usize, usize)> },
    Image { url: String },
    Location { lat: String, lng: String, name: String },
    Split { token: String },
    Emoji { placeholder: String, charmap: Vec<(usize, usize)> },
}

impl Attachment {
    /// A mention of each user, the i-th pinned to the one character at position i, with the
    /// number of users.
    pub fn make_mentions(uids: &Vec<String>) -> (r: (Attachment, usize))
        ensures
            r.1 == uids.len(),
            r.0 matches Attachment::Mentions { user_ids, loci } && str_views(user_ids@) == str_views(
                uids@,
            ) && loci@ == Seq::new(uids.len() as nat, |i: int| (i as usize, 1usize)),
    {
        let mut user_ids: Vec<String> = Vec::new();
        let mut loci: Vec<(usize, usize)> = Vec::new();
        for i in 0..uids.len()
            invariant
                user_ids.len() == i,
                loci.len() == i,
                forall|j: int| 0 <= j < i ==> #[trigger] user_ids@[j]@ == uids@[j]@,
                forall|j: int| 0 <= j < i ==> #[trigger] loci@[j] == (j as usize, 1usize),
        {
            user_ids.push(uids[i].clone());
            loci.push((i, 1));
        }
        assert(str_views(user_ids@) =~= str_views(uids@));
        assert(loci@ =~= Seq::new(uids.len() as nat, |i: int| (i as usize, 1usize)));
        (Attachment::Mentions { user_ids, loci }, uids.len())
    }
}

} // verus!
