pub mod api;
pub mod attachments;

use vstd::prelude::*;
use crate::errors::Error;
use crate::pattern::{regex_replace, regex_replaced, with_fragment_query, url_with_fragment_query};
use crate::text::{chars_of, string_of, lit, cat, split_whitespace, words, lines, split_lines, trim,
    trim_chars, chars_byte_len, byte_len, str_views, same_text, lemma_str_views_push};
use crate::hvz::copy_opt_string;
use self::api::{ApiRequest, Groups, Members, Bots, GroupsCreateReqEnvelope, GroupsUpdateReqEnvelope,
    BotsCreateReqEnvelope, BotsDestroyReqEnvelope, Likes, DirectMessages, Messages, MemberId,
    Method, Reply, api_url, request_is};

pub use self::api::{MessageSelector, User};
pub use self::attachments::Attachment;

verus! {

/// A message of a Group or a direct conversation.
#[derive(Debug)]
pub struct Message {
    pub id: String,
    pub source_guid: String,
    pub created_at: u64,
    pub user_id: String,
    pub recipient_id: Option<String>,
    pub group_id: Option<String>,
    pub name: String,
    pub text: Option<String>,
    pub system: Option<bool>,
    pub favorited_by: Vec<String>,
}

/// The text of a message, empty when it has none.
pub open spec fn message_text(m: Message) -> Seq<char> {
    match m.text {
        Some(t) => t@,
        None => seq![],
    }
}

/// The conversation a message belongs to: the direct conversation with its recipient, else its
/// Group; `None` when it has neither.
pub open spec fn conversation_spec(m: Message, my_user_id: Seq<char>) -> Option<Seq<char>> {
    match m.recipient_id {
        Some(r) => Some(my_user_id + "+"@ + r@),
        None => match m.group_id {
            Some(g) => Some(g@),
            None => None,
        },
    }
}

impl Message {
    /// The text, empty when there is none.
    pub fn text(&self) -> (r: String)
        ensures
            r@ == message_text(*self),
    {
        match &self.text {
            Some(t) => t.clone(),
            None => String::new(),
        }
    }

    /// The conversation id under which the message can be liked.
    pub fn conversation_id(&self, my_user_id: &str) -> (r: Result<String, Error>)
        ensures
            match r {
                Ok(c) => conversation_spec(*self, my_user_id@) == Some(c@),
                Err(e) => conversation_spec(*self, my_user_id@) is None && (e
                    matches Error::JsonTypeError(d) && d@ == "message had un-ID'ed parent"@),
            },
    {
        match &self.recipient_id {
            Some(r) => Ok(DirectMessages::conversation_id(my_user_id, r.as_str())),
            None => match &self.group_id {
                Some(g) => Ok(Messages::conversation_id(g.as_str())),
                None => Err(Error::JsonTypeError(lit("message had un-ID'ed parent"))),
            },
        }
    }

    /// The request that likes the message.
    pub fn like(&self, my_user_id: &str) -> (r: Result<ApiRequest, Error>)
        ensures
            match r {
                Ok(q) => (conversation_spec(*self, my_user_id@) matches Some(c) && request_is(
                    q,
                    Method::Post,
                    api_url(),
                    seq!["messages"@, c, self.id@, "like"@],
                    seq![],
                    Reply::Null,
                )),
                Err(_) => conversation_spec(*self, my_user_id@) is None,
            },
    {
        let c = self.conversation_id(my_user_id)?;
        Ok(Likes::create(c.as_str(), self.id.as_str()))
    }

    /// The request that unlikes the message.
    pub fn unlike(&self, my_user_id: &str) -> (r: Result<ApiRequest, Error>)
        ensures
            match r {
                Ok(q) => (conversation_spec(*self, my_user_id@) matches Some(c) && request_is(
                    q,
                    Method::Post,
                    api_url(),
                    seq!["messages"@, c, self.id@, "unlike"@],
                    seq![],
                    Reply::Null,
                )),
                Err(_) => conversation_spec(*self, my_user_id@) is None,
            },
    {
        let c = self.conversation_id(my_user_id)?;
        Ok(Likes::destroy(c.as_str(), self.id.as_str()))
    }
}

/// A bot of a Group.
#[derive(Debug)]
pub struct Bot {
    pub bot_id: String,
    pub group_id: String,
    pub name: String,
    pub avatar_url: Option<String>,
    pub callback_url: Option<String>,
}

impl Bot {
    pub fn duplicate(&self) -> (r: Bot)
        ensures
            r == *self,
    {
        Bot {
            bot_id: self.bot_id.clone(),
            group_id: self.group_id.clone(),
            name: self.name.clone(),
            avatar_url: copy_opt_string(&self.avatar_url),
            callback_url: copy_opt_string(&self.callback_url),
        }
    }

    /// The request that lists the bots.
    pub fn list() -> (r: ApiRequest)
        ensures
            request_is(r, Method::Get, api_url(), seq!["bots"@], seq![], Reply::Envelope),
    {
        Bots::index()
    }

    /// The request that creates a bot of the Group, and what it sends: the given callback URL,
    /// or else `http://example.com` with the bot's name as fragment and the user's id as query.
    pub fn create(group: &Group, name: String, avatar_url: Option<String>, callback_url: Option<String>, my_user_id: &str) -> (r: (ApiRequest, BotsCreateReqEnvelope))
        ensures
            request_is(r.0, Method::Post, api_url(), seq!["bots"@], seq![], Reply::Envelope),
            r.1.group_id@ == group.group_id@,
            r.1.name == name,
            r.1.avatar_url == avatar_url,
            match callback_url {
                Some(c) => r.1.callback_url == Some(c),
                None => match url_with_fragment_query("http://example.com"@, name@, my_user_id@) {
                    Some(u) => r.1.callback_url matches Some(c) && c@ == u,
                    None => r.1.callback_url is None,
                },
            },
    {
        let callback_url = match callback_url {
            Some(c) => Some(c),
            None => with_fragment_query("http://example.com", name.as_str(), my_user_id),
        };
        let body = BotsCreateReqEnvelope { group_id: group.group_id.clone(), name, avatar_url, callback_url };
        (Bots::create(), body)
    }

    /// The first listed bot of the Group with this name, if any; else one is to be created.
    pub fn upsert(bots: &Vec<Bot>, group: &Group, name: &str) -> (r: Option<Bot>)
        ensures
            match r {
                Some(b) => exists|i: int|
                    0 <= i < bots.len() && bots@[i] == b && b.group_id@ == group.group_id@
                        && b.name@ == name@ && forall|j: int|
                        0 <= j < i ==> !(#[trigger] bots@[j].group_id@ == group.group_id@
                            && bots@[j].name@ == name@),
                None => forall|j: int|
                    0 <= j < bots.len() ==> !(#[trigger] bots@[j].group_id@ == group.group_id@
                        && bots@[j].name@ == name@),
            },
    {
        for i in 0..bots.len()
            invariant
                forall|j: int|
                    0 <= j < i ==> !(#[trigger] bots@[j].group_id@ == group.group_id@
                        && bots@[j].name@ == name@),
        {
            if same_text(bots[i].group_id.as_str(), group.group_id.as_str()) && same_text(
                bots[i].name.as_str(),
                name,
            ) {
                return Some(bots[i].duplicate());
            }
        }
        None
    }

    /// The request that destroys the bot, and what it sends: the bot's id.
    pub fn destroy(&self) -> (r: (ApiRequest, BotsDestroyReqEnvelope))
        ensures
            request_is(r.0, Method::Post, api_url(), seq!["bots"@, "destroy"@], seq![], Reply::Envelope),
            r.1.bot_id@ == self.bot_id@,
    {
        (Bots::destroy(), BotsDestroyReqEnvelope { bot_id: self.bot_id.clone() })
    }
}

/// A member of a Group.
#[derive(Debug)]
pub struct Member {
    pub id: String,
    pub user_id: String,
    pub nickname: String,
    pub muted: bool,
    pub image_url: Option<String>,
    pub autokicked: bool,
    pub app_installed: Option<bool>,
}

/// The pattern of a quoted callsign within a nickname, with the spaces around it.
pub open spec fn callsign_pattern() -> Seq<char> {
    " *\"[^\"]+?\" *"@
}

/// `s` with the first match of `pattern` replaced, or `s` itself when the pattern does not compile.
pub open spec fn replaced_or_same(pattern: Seq<char>, s: Seq<char>, rep: Seq<char>) -> Seq<char> {
    match regex_replaced(pattern, s, rep) {
        Some(r) => r,
        None => s,
    }
}

/// The first and the last word of `w`, joined with a space.
pub open spec fn first_last(w: Seq<Seq<char>>) -> Seq<char> {
    if w.len() == 0 {
        seq![]
    } else if w.len() == 1 {
        w[0]
    } else {
        w[0] + " "@ + w.last()
    }
}

/// A member's name as the killboard shows it: "Oso Oso" read as "David Oso", a quoted callsign
/// dropped, then the first and last words.
pub open spec fn canonical_name_spec(name: Seq<char>) -> Seq<char> {
    let named = replaced_or_same("Oso Oso"@, name, "David Oso"@);
    let plain = replaced_or_same(callsign_pattern(), named, " "@);
    first_last(words(plain))
}

impl Member {
    pub fn duplicate(&self) -> (r: Member)
        ensures
            r == *self,
    {
        Member {
            id: self.id.clone(),
            user_id: self.user_id.clone(),
            nickname: self.nickname.clone(),
            muted: self.muted,
            image_url: copy_opt_string(&self.image_url),
            autokicked: self.autokicked,
            app_installed: self.app_installed,
        }
    }

    /// The name of a member as the killboard would show it.
    pub fn canonical_name_of(name: &str) -> (r: String)
        ensures
            r@ == canonical_name_spec(name@),
    {
        let named = match regex_replace("Oso Oso", name, "David Oso") {
            Some(s) => s,
            None => lit(name),
        };
        let plain = match regex_replace(" *\"[^\"]+?\" *", named.as_str(), " ") {
            Some(s) => s,
            None => named,
        };
        let w = split_whitespace(&chars_of(plain.as_str()));
        if w.len() == 0 {
            String::new()
        } else if w.len() == 1 {
            string_of(&w[0])
        } else {
            let first = string_of(&w[0]);
            let last = string_of(&w[w.len() - 1]);
            cat(cat(first.as_str(), " ").as_str(), last.as_str())
        }
    }

    /// This member's canonical name.
    pub fn canonical_name(&self) -> (r: String)
        ensures
            r@ == canonical_name_spec(self.nickname@),
    {
        Self::canonical_name_of(self.nickname.as_str())
    }

    /// The id under which the member would be added to a Group.
    pub fn member_id(&self) -> (r: MemberId)
        ensures
            r.user_id@ == self.user_id@,
            r.nickname@ == self.nickname@,
    {
        MemberId { user_id: self.user_id.clone(), nickname: self.nickname.clone() }
    }
}

/// Message counts of a Group.
#[derive(Debug)]
pub struct GroupMessagesInfo {
    pub count: u64,
    pub last_message_id: String,
    pub last_message_created_at: u64,
}

/// A GroupMe Group.
#[derive(Debug)]
pub struct Group {
    pub id: String,
    pub group_id: String,
    pub name: String,
    pub description: Option<String>,
    pub image_url: Option<String>,
    pub creator_user_id: String,
    pub created_at: u64,
    pub updated_at: u64,
    pub share_url: Option<String>,
    pub office_mode: bool,
    pub phone_number: String,
    pub members: Vec<Member>,
    pub messages: GroupMessagesInfo,
}

/// Whether `q` is the request that removes `member` from `group`: the one that names the first
/// member of the Group with the member's user id.
pub open spec fn removes(group: Group, member: Member, q: ApiRequest) -> bool {
    exists|i: int|
        0 <= i < group.members.len() && #[trigger] group.members@[i].user_id@ == member.user_id@
            && (forall|j: int| 0 <= j < i ==> group.members@[j].user_id@ != member.user_id@)
            && request_is(
            q,
            Method::Post,
            api_url(),
            seq!["groups"@, group.id@, "members"@, group.members@[i].id@, "remove"@],
            seq![],
            Reply::Empty,
        )
}

/// The user ids of `members`, in order.
pub open spec fn user_ids(members: Seq<Member>) -> Seq<Seq<char>> {
    Seq::new(members.len(), |i: int| members[i].user_id@)
}

/// The user ids of `members`, in order, but those equal to `exception`.
pub open spec fn user_ids_except(members: Seq<Member>, exception: Seq<char>) -> Seq<Seq<char>>
    decreases members.len(),
{
    if members.len() == 0 {
        seq![]
    } else {
        let rest = user_ids_except(members.drop_last(), exception);
        if members.last().user_id@ == exception {
            rest
        } else {
            rest.push(members.last().user_id@)
        }
    }
}

impl Group {
    /// The request that creates a Group, and what it sends.
    pub fn create(name: String, description: Option<String>, image_url: Option<String>, share: Option<bool>) -> (r: (ApiRequest, GroupsCreateReqEnvelope))
        ensures
            request_is(r.0, Method::Post, api_url(), seq!["groups"@], seq![], Reply::Envelope),
            r.1 == (GroupsCreateReqEnvelope { name, description, image_url, share }),
    {
        (Groups::create(), GroupsCreateReqEnvelope { name, description, image_url, share })
    }

    /// The request for one page of the Groups list (pages of 500, starting at 1); the list ends
    /// at the first empty page.
    pub fn list(page: usize) -> (r: ApiRequest)
        ensures
            request_is(
                r,
                Method::Get,
                api_url(),
                seq!["groups"@],
                seq![("page"@, crate::text::decimal(page as nat)), ("per_page"@, crate::text::decimal(500))],
                Reply::Envelope,
            ),
    {
        Groups::index(Some(page), Some(500), None)
    }

    /// The request that destroys the Group.
    pub fn destroy(&self) -> (r: ApiRequest)
        ensures
            request_is(r, Method::Post, api_url(), seq!["groups"@, self.group_id@, "destroy"@], seq![], Reply::Empty),
    {
        Groups::destroy(self.group_id.as_str())
    }

    /// The requests that hand the Group to a new owner, then reread it.
    pub fn change_owners(&self, new_owner: &Member) -> (r: (ApiRequest, ApiRequest))
        ensures
            request_is(r.0, Method::Post, api_url(), seq!["groups"@, "change_owners"@], seq![], Reply::OwnerResults),
            request_is(r.1, Method::Get, api_url(), seq!["groups"@, self.id@], seq![], Reply::Envelope),
    {
        (Groups::change_owners(), Groups::show(self.id.as_str()))
    }

    /// The request that rereads the Group.
    pub fn refresh(&self) -> (r: ApiRequest)
        ensures
            request_is(r, Method::Get, api_url(), seq!["groups"@, self.id@], seq![], Reply::Envelope),
    {
        Groups::show(self.id.as_str())
    }

    /// The request that reads a Group.
    pub fn get(id: &str) -> (r: ApiRequest)
        ensures
            request_is(r, Method::Get, api_url(), seq!["groups"@, id@], seq![], Reply::Envelope),
    {
        Groups::show(id)
    }

    /// The request that updates the Group, and what it sends: the parts to change.
    pub fn update(&self, name: Option<String>, description: Option<String>, image_url: Option<String>, share: Option<bool>) -> (r: (ApiRequest, GroupsUpdateReqEnvelope))
        ensures
            request_is(r.0, Method::Post, api_url(), seq!["groups"@, self.group_id@, "update"@], seq![], Reply::Envelope),
            r.1 == (GroupsUpdateReqEnvelope { name, description, image_url, share }),
    {
        (Groups::update(self.group_id.as_str()), GroupsUpdateReqEnvelope { name, description, image_url, share })
    }

    /// The request that adds members, with the ids under which they are added.
    pub fn add(&self, members: &Vec<Member>) -> (r: (ApiRequest, Vec<MemberId>))
        ensures
            request_is(r.0, Method::Post, api_url(), seq!["groups"@, self.id@, "members"@, "add"@], seq![], Reply::Envelope),
            r.1.len() == members.len(),
            forall|i: int|
                0 <= i < members.len() ==> (#[trigger] r.1@[i]).user_id@ == members@[i].user_id@
                    && r.1@[i].nickname@ == members@[i].nickname@,
    {
        let mut ids: Vec<MemberId> = Vec::new();
        for i in 0..members.len()
            invariant
                ids.len() == i,
                forall|j: int|
                    0 <= j < i ==> (#[trigger] ids@[j]).user_id@ == members@[j].user_id@
                        && ids@[j].nickname@ == members@[j].nickname@,
        {
            ids.push(members[i].member_id());
        }
        (Members::add(self.id.as_str()), ids)
    }

    /// As `add`, then the request that rereads the Group.
    pub fn add_mut(&self, members: &Vec<Member>) -> (r: (ApiRequest, Vec<MemberId>, ApiRequest))
        ensures
            request_is(r.0, Method::Post, api_url(), seq!["groups"@, self.id@, "members"@, "add"@], seq![], Reply::Envelope),
            r.1.len() == members.len(),
            forall|i: int|
                0 <= i < members.len() ==> (#[trigger] r.1@[i]).user_id@ == members@[i].user_id@
                    && r.1@[i].nickname@ == members@[i].nickname@,
            request_is(r.2, Method::Get, api_url(), seq!["groups"@, self.id@], seq![], Reply::Envelope),
    {
        let (a, ids) = self.add(members);
        (a, ids, self.refresh())
    }

    /// The request that removes a member, found by user id among the Group's members; fails
    /// with `GroupRemovalFailed` when no member has that user id.
    pub fn remove(&self, member: Member) -> (r: Result<ApiRequest, Error>)
        ensures
            match r {
                Ok(q) => removes(*self, member, q),
                Err(e) => e == Error::GroupRemovalFailed(member) && forall|j: int|
                    0 <= j < self.members.len() ==> #[trigger] self.members@[j].user_id@
                        != member.user_id@,
            },
    {
        for i in 0..self.members.len()
            invariant
                forall|j: int| 0 <= j < i ==> #[trigger] self.members@[j].user_id@ != member.user_id@,
        {
            if same_text(self.members[i].user_id.as_str(), member.user_id.as_str()) {
                return Ok(Members::remove(self.id.as_str(), self.members[i].id.as_str()));
            }
        }
        Err(Error::GroupRemovalFailed(member))
    }

    /// As `remove`, then the request that rereads the Group.
    pub fn remove_mut(&self, member: Member) -> (r: Result<(ApiRequest, ApiRequest), Error>)
        ensures
            match r {
                Ok(q) => removes(*self, member, q.0) && request_is(q.1, Method::Get, api_url(), seq!["groups"@, self.id@], seq![], Reply::Envelope),
                Err(e) => e == Error::GroupRemovalFailed(member) && forall|j: int|
                    0 <= j < self.members.len() ==> #[trigger] self.members@[j].user_id@
                        != member.user_id@,
            },
    {
        let q = self.remove(member)?;
        Ok((q, self.refresh()))
    }

    /// The user ids of the members, in order.
    pub fn member_uids(&self) -> (r: Vec<String>)
        ensures
            str_views(r@) == user_ids(self.members@),
    {
        let mut r: Vec<String> = Vec::new();
        for i in 0..self.members.len()
            invariant
                str_views(r@) =~= user_ids(self.members@.take(i as int)),
        {
            proof {
                lemma_str_views_push(r@, self.members@[i as int].user_id);
                assert(user_ids(self.members@.take(i + 1)) =~= user_ids(self.members@.take(i as int)).push(
                    self.members@[i as int].user_id@,
                ));
            }
            r.push(self.members[i].user_id.clone());
        }
        assert(self.members@.take(self.members.len() as int) =~= self.members@);
        r
    }

    /// The user ids of the members, in order, but `exception`.
    pub fn member_uids_except(&self, exception: &str) -> (r: Vec<String>)
        ensures
            str_views(r@) == user_ids_except(self.members@, exception@),
    {
        let mut r: Vec<String> = Vec::new();
        for i in 0..self.members.len()
            invariant
                str_views(r@) =~= user_ids_except(self.members@.take(i as int), exception@),
        {
            assert(self.members@.take(i + 1).drop_last() =~= self.members@.take(i as int));
            if !same_text(self.members[i].user_id.as_str(), exception) {
                proof {
                    lemma_str_views_push(r@, self.members@[i as int].user_id);
                }
                r.push(self.members[i].user_id.clone());
            }
        }
        assert(self.members@.take(self.members.len() as int) =~= self.members@);
        r
    }
}

/// The reversed order of a list of messages.
pub fn reverse_messages(v: Vec<Message>) -> (r: Vec<Message>)
    ensures
        r@ == v@.reverse(),
{
    let mut v = v;
    let ghost v0 = v@;
    let ghost len0 = v0.len() as int;
    let mut r: Vec<Message> = Vec::new();
    assert(v0.take(len0) =~= v0);
    assert(v0.skip(len0).reverse() =~= Seq::<Message>::empty());
    while v.len() > 0
        invariant
            v0.len() == len0,
            v.len() <= len0,
            v@ == v0.take(v.len() as int),
            r@ == v0.skip(v.len() as int).reverse(),
        decreases v.len(),
    {
        let ghost n = v.len() as int;
        let ghost r_old = r@;
        let ghost v_old = v@;
        let x = v.pop().unwrap();
        assert(x == v0[n - 1]);
        r.push(x);
        assert(v@ =~= v0.take(n - 1));
        assert forall|j: int| 0 <= j < r@.len() implies r@[j] == v0.skip(n - 1).reverse()[j] by {
            assert(v0.skip(n - 1).reverse()[j] == v0.skip(n - 1)[len0 - n - j]);
            assert(v0.skip(n - 1)[len0 - n - j] == v0[len0 - 1 - j]);
            if j < r_old.len() {
                assert(r_old[j] == v0.skip(n)[len0 - n - 1 - j]);
                assert(v0.skip(n)[len0 - n - 1 - j] == v0[len0 - 1 - j]);
            }
        }
        assert(r@ =~= v0.skip(n - 1).reverse());
    }
    assert(v0.skip(0) =~= v0);
    r
}

/// A recipient whose messages make up conversations: names the conversation of one of its
/// messages, seen by the user `my_user_id`.
pub trait ConversationId {
    spec fn conversation_id_spec(&self, my_user_id: Seq<char>, sub_id: Seq<char>) -> Seq<char>;

    fn conversation_id(&self, my_user_id: &str, sub_id: &str) -> (r: String)
        ensures
            r@ == self.conversation_id_spec(my_user_id@, sub_id@);
}

impl ConversationId for Group {
    /// A Group's messages are its own conversation.
    open spec fn conversation_id_spec(&self, my_user_id: Seq<char>, sub_id: Seq<char>) -> Seq<char> {
        sub_id
    }

    fn conversation_id(&self, my_user_id: &str, sub_id: &str) -> (r: String) {
        Messages::conversation_id(sub_id)
    }
}

impl ConversationId for Member {
    /// Direct messages are named by both user ids, the caller's first.
    open spec fn conversation_id_spec(&self, my_user_id: Seq<char>, sub_id: Seq<char>) -> Seq<char> {
        my_user_id + "+"@ + sub_id
    }

    fn conversation_id(&self, my_user_id: &str, sub_id: &str) -> (r: String) {
        DirectMessages::conversation_id(my_user_id, sub_id)
    }
}

/// The gathering of the Groups list page by page: the next page's number (from 1) and the
/// Groups so far.
pub struct GroupListing {
    pub page: usize,
    pub collected: Vec<Group>,
}

impl GroupListing {
    /// Starts the listing at page 1.
    pub fn new() -> (s: GroupListing)
        ensures
            s.page == 1,
            s.collected@.len() == 0,
    {
        GroupListing { page: 1, collected: Vec::new() }
    }

    /// The request for the next page.
    pub fn request(&self) -> (r: ApiRequest)
        ensures
            request_is(
                r,
                Method::Get,
                api_url(),
                seq!["groups"@],
                seq![("page"@, crate::text::decimal(self.page as nat)), ("per_page"@, crate::text::decimal(500))],
                Reply::Envelope,
            ),
    {
        Group::list(self.page)
    }

    /// Takes in the next page; whether there may be more. An empty page ends the listing;
    /// else its Groups are added in order and the page after it is next.
    pub fn feed(&mut self, page: Vec<Group>) -> (more: bool)
        requires
            old(self).page < usize::MAX,
        ensures
            more == (page@.len() > 0),
            !more ==> *final(self) == *old(self),
            more ==> final(self).collected@ == old(self).collected@ + page@ && final(self).page == old(self).page + 1,
    {
        if page.len() == 0 {
            return false;
        }
        let mut page = page;
        self.collected.append(&mut page);
        self.page = self.page + 1;
        true
    }
}

/// The selector that continues a listing after a page whose last message has id `id`: of the
/// same kind, from that id, a listing without a selector going on backwards.
pub open spec fn follows(next: Option<MessageSelector>, prev: Option<MessageSelector>, id: Seq<char>) -> bool {
    match prev {
        Some(MessageSelector::After(_)) => next matches Some(MessageSelector::After(s)) && s@ == id,
        Some(MessageSelector::Since(_)) => next matches Some(MessageSelector::Since(s)) && s@ == id,
        _ => next matches Some(MessageSelector::Before(s)) && s@ == id,
    }
}

/// Whether a listing with this selector runs backwards in time.
pub open spec fn backward(which: Option<MessageSelector>) -> bool {
    !(which matches Some(MessageSelector::After(_)))
}

/// The gathering of a message listing page by page: the selector of the next page and the
/// messages so far.
pub struct Slurp {
    pub selector: Option<MessageSelector>,
    pub collected: Vec<Message>,
}

impl Slurp {
    /// Starts a listing.
    pub fn new(selector: Option<MessageSelector>) -> (s: Slurp)
        ensures
            s.selector == selector,
            s.collected@.len() == 0,
    {
        Slurp { selector, collected: Vec::new() }
    }

    /// A page as listed, put in order: reversed when the listing runs backwards.
    pub fn arrange_page(which: &Option<MessageSelector>, page: Vec<Message>) -> (r: Vec<Message>)
        ensures
            r@ == if backward(*which) { page@.reverse() } else { page@ },
    {
        match which {
            Some(MessageSelector::After(_)) => page,
            _ => reverse_messages(page),
        }
    }

    /// Takes in a page (in order); whether there may be more. An empty page ends the listing.
    pub fn feed(&mut self, page: Vec<Message>) -> (more: bool)
        ensures
            more == (page@.len() > 0),
            !more ==> *final(self) == *old(self),
            more ==> final(self).collected@ == old(self).collected@ + page@ && follows(
                final(self).selector,
                old(self).selector,
                page@.last().id@,
            ),
    {
        if page.len() == 0 {
            return false;
        }
        let id = page[page.len() - 1].id.clone();
        let mut page = page;
        self.collected.append(&mut page);
        let next = match &self.selector {
            Some(MessageSelector::After(_)) => MessageSelector::After(id),
            Some(MessageSelector::Since(_)) => MessageSelector::Since(id),
            _ => MessageSelector::Before(id),
        };
        self.selector = Some(next);
        true
    }

    /// The messages gathered, reversed unless the listing ran forwards.
    pub fn finish(self) -> (r: Vec<Message>)
        ensures
            r@ == if backward(self.selector) { self.collected@.reverse() } else { self.collected@ },
    {
        match &self.selector {
            Some(MessageSelector::After(_)) => self.collected,
            _ => reverse_messages(self.collected),
        }
    }
}

/// The first line of a long message stands for it when it is not blank and under 500 bytes,
/// and the rest is dropped; otherwise a fixed note stands for it and the whole text goes into
/// the image.
pub open spec fn fallback_spec(t: Seq<char>) -> (Seq<char>, Seq<char>) {
    let ls = lines(t);
    if ls.len() > 0 && trim(ls[0]).len() > 0 && byte_len(ls[0]) < 500 {
        (ls[0], seq![])
    } else {
        ("(Long message was converted into image.)"@, t)
    }
}

/// Fails with `TextTooLong` when a text of 1000 bytes or more would be posted; else the text
/// and the attachments (none when absent) to post.
pub fn post_without_fallback(text: String, attachments: Option<Vec<Attachment>>) -> (r: Result<(String, Vec<Attachment>), Error>)
    ensures
        match r {
            Ok((t, a)) => byte_len(text@) < 1000 && t == text && match attachments {
                Some(v) => a == v,
                None => a@.len() == 0,
            },
            Err(e) => byte_len(text@) >= 1000 && e == Error::TextTooLong(text, attachments),
        },
{
    if chars_byte_len(&chars_of(text.as_str())) >= 1000 {
        return Err(Error::TextTooLong(text, attachments));
    }
    let a = match attachments {
        Some(v) => v,
        None => Vec::new(),
    };
    Ok((text, a))
}

/// The text to post in place of a message too long to post, and the text to render as an
/// image beside it.
pub fn post_fallback(t: &str) -> (r: (String, String))
    ensures
        (r.0@, r.1@) == fallback_spec(t@),
{
    let ls = split_lines(&chars_of(t));
    if ls.len() > 0 {
        let first = &ls[0];
        if trim_chars(first).len() > 0 && chars_byte_len(first) < 500 {
            return (string_of(first), String::new());
        }
    }
    (lit("(Long message was converted into image.)"), lit(t))
}

/// `s` padded with spaces to at least `width` characters (`format!("{: <1$}", s, width)`).
pub open spec fn padded(s: Seq<char>, width: nat) -> Seq<char> {
    if s.len() >= width {
        s
    } else {
        s + Seq::new((width - s.len()) as nat, |i: int| ' ')
    }
}

/// Pads a text with spaces to a width.
pub fn pad_right(s: &str, width: usize) -> (r: String)
    ensures
        r@ == padded(s@, width as nat),
{
    let v = chars_of(s);
    let mut r = lit(s);
    let mut k = v.len();
    while k < width
        invariant
            v@ == s@,
            v.len() <= k <= width || (k == v.len() && k >= width),
            r@ == s@ + Seq::new((k - v.len()) as nat, |i: int| ' '),
        decreases width - k,
    {
        crate::text::push_char(&mut r, ' ');
        assert(r@ =~= s@ + Seq::new((k + 1 - v.len()) as nat, |i: int| ' '));
        k = k + 1;
    }
    if v.len() >= width {
        assert(Seq::new((k - v.len()) as nat, |i: int| ' ') =~= Seq::<char>::empty());
        assert(r@ =~= s@);
    } else {
        assert(k == width);
    }
    assert(r@ =~= padded(s@, width as nat));
    r
}

/// The text and attachments that mention each of `uids`: the mentions go after the given
/// attachments, and the text is padded so that every mention has a character to sit on.
pub fn post_mentioning(text: &str, uids: &Vec<String>, attachments: Option<Vec<Attachment>>) -> (r: (String, Vec<Attachment>))
    ensures
        r.0@ == padded(text@, uids.len() as nat),
        r.1@.len() >= 1,
        r.1@.drop_last() == match attachments {
            Some(v) => v@,
            None => seq![],
        },
        r.1@.last() matches Attachment::Mentions { user_ids, loci } && str_views(user_ids@)
            == str_views(uids@) && loci@ == Seq::new(uids.len() as nat, |i: int| (i as usize, 1usize)),
{
    let (mentions, i) = Attachment::make_mentions(uids);
    let mut a = match attachments {
        Some(v) => v,
        None => Vec::new(),
    };
    let ghost a0 = a@;
    a.push(mentions);
    assert(a@.drop_last() =~= a0);
    (pad_right(text, i), a)
}

} // verus!
