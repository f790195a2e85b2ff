use vstd::prelude::*;
use crate::errors::Error;
use crate::pattern::{build_url, url_built, pair_views};
use crate::text::{same_text, lit, cat, usize_to_string, decimal, trim_str, trim, str_views};

verus! {

/// The GroupMe API.
pub open spec fn api_url() -> Seq<char> {
    "https://api.groupme.com/v3"@
}

/// The GroupMe image service.
pub open spec fn image_api_url() -> Seq<char> {
    "https://image.groupme.com"@
}

/// An HTTP method.
#[derive(Clone, Copy, Debug, PartialEq, Eq, Structural)]
pub enum Method {
    Get,
    Post,
}

/// How the reply to a request is read.
#[derive(Clone, Copy, Debug, PartialEq, Eq, Structural)]
pub enum Reply {
    /// A JSON envelope whose `response` member is the result.
    Envelope,
    /// A JSON envelope whose `payload` member is the result.
    Payload,
    /// A JSON envelope with only a status.
    Null,
    /// An empty body.
    Empty,
    /// The results of an ownership change.
    OwnerResults,
}

/// A request to the GroupMe API: the method, the service, the path segments below it, the query
/// pairs after the access token, and how the reply is read. The body, if any, is the caller's.
pub struct ApiRequest {
    pub method: Method,
    pub base: String,
    pub segments: Vec<String>,
    pub query: Vec<(String, String)>,
    pub reply: Reply,
}

impl ApiRequest {
    /// The URL of the request, with the access token as its first query pair.
    pub fn url(&self, token: &str) -> (r: Option<String>)
        ensures
            match r {
                Some(u) => url_built(
                    self.base@,
                    str_views(self.segments@),
                    seq![("token"@, token@)] + pair_views(self.query@),
                ) == Some(u@),
                None => url_built(
                    self.base@,
                    str_views(self.segments@),
                    seq![("token"@, token@)] + pair_views(self.query@),
                ) is None,
            },
    {
        let mut pairs: Vec<(String, String)> = Vec::new();
        push_pair(&mut pairs, "token", token);
        assert(pair_views(pairs@) =~= seq![("token"@, token@)] + pair_views(self.query@.take(0)));
        for i in 0..self.query.len()
            invariant
                pair_views(pairs@) =~= seq![("token"@, token@)] + pair_views(self.query@.take(i as int)),
        {
            let (k, v) = &self.query[i];
            push_pair(&mut pairs, k.as_str(), v.as_str());
            assert(pair_views(self.query@.take(i + 1)) =~= pair_views(self.query@.take(i as int)).push(
                (k@, v@),
            ));
        }
        assert(self.query@.take(self.query.len() as int) =~= self.query@);
        build_url(self.base.as_str(), &self.segments, &pairs)
    }
}

/// The request described by its parts.
pub open spec fn request_is(
    r: ApiRequest,
    method: Method,
    base: Seq<char>,
    segments: Seq<Seq<char>>,
    query: Seq<(Seq<char>, Seq<char>)>,
    reply: Reply,
) -> bool {
    &&& r.method == method
    &&& r.base@ == base
    &&& str_views(r.segments@) == segments
    &&& pair_views(r.query@) == query
    &&& r.reply == reply
}

fn request(method: Method, base: &str, segments: Vec<String>, query: Vec<(String, String)>, reply: Reply) -> (r: ApiRequest)
    ensures
        request_is(r, method, base@, str_views(segments@), pair_views(query@), reply),
{
    ApiRequest { method, base: lit(base), segments, query, reply }
}

fn api_base() -> (s: &'static str)
    ensures
        s@ == api_url(),
{
    "https://api.groupme.com/v3"
}

fn image_api_base() -> (s: &'static str)
    ensures
        s@ == image_api_url(),
{
    "https://image.groupme.com"
}

/// `value` held between `lower` and `upper`.
pub open spec fn clamp_spec(value: int, lower: int, upper: int) -> int {
    if value > upper {
        if upper < lower { lower } else { upper }
    } else if value < lower {
        lower
    } else {
        value
    }
}

/// `max(min(value, upper), lower)`.
pub fn clamp(value: usize, lower: usize, upper: usize) -> (r: usize)
    ensures
        r == clamp_spec(value as int, lower as int, upper as int),
{
    let m = if value < upper {
        value
    } else {
        upper
    };
    if m > lower {
        m
    } else {
        lower
    }
}

/// Which messages to list, relative to a message id.
#[derive(Debug)]
pub enum MessageSelector {
    Before(String),
    Since(String),
    After(String),
}

impl MessageSelector {
    /// The query pair that selects the messages.
    pub open spec fn pair_spec(self) -> (Seq<char>, Seq<char>) {
        match self {
            MessageSelector::After(s) => ("after_id"@, s@),
            MessageSelector::Before(s) => ("before_id"@, s@),
            MessageSelector::Since(s) => ("since_id"@, s@),
        }
    }

    pub fn pair(&self) -> (p: (String, String))
        ensures
            (p.0@, p.1@) == self.pair_spec(),
    {
        match self {
            MessageSelector::After(s) => (lit("after_id"), s.clone()),
            MessageSelector::Before(s) => (lit("before_id"), s.clone()),
            MessageSelector::Since(s) => (lit("since_id"), s.clone()),
        }
    }

    pub fn duplicate(&self) -> (r: MessageSelector)
        ensures
            r == *self,
    {
        match self {
            MessageSelector::After(s) => MessageSelector::After(s.clone()),
            MessageSelector::Before(s) => MessageSelector::Before(s.clone()),
            MessageSelector::Since(s) => MessageSelector::Since(s.clone()),
        }
    }
}

/// The query pairs of a message listing.
pub open spec fn selector_pairs(which: Option<MessageSelector>) -> Seq<(Seq<char>, Seq<char>)> {
    match which {
        Some(s) => seq![s.pair_spec()],
        None => seq![],
    }
}

fn selector_query(which: &Option<MessageSelector>) -> (q: Vec<(String, String)>)
    ensures
        pair_views(q@) == selector_pairs(*which),
{
    let mut q: Vec<(String, String)> = Vec::new();
    match which {
        Some(s) => {
            let (a, b) = s.pair();
            push_pair(&mut q, a.as_str(), b.as_str());
            assert(pair_views(q@) =~= selector_pairs(*which));
        },
        None => {
            assert(pair_views(q@) =~= selector_pairs(*which));
        },
    }
    q
}

fn push_seg(v: &mut Vec<String>, s: &str)
    ensures
        str_views(final(v)@) == str_views(old(v)@).push(s@),
{
    let ghost before = v@;
    v.push(lit(s));
    assert forall|i: int| 0 <= i < before.len() implies #[trigger] str_views(v@)[i] == str_views(before)[i] by {
        assert(v@[i] == before[i]);
    }
    assert(str_views(v@) =~= str_views(before).push(s@));
}

fn segs1(a: &str) -> (v: Vec<String>)
    ensures
        str_views(v@) == seq![a@],
{
    let mut v: Vec<String> = Vec::new();
    push_seg(&mut v, a);
    assert(str_views(v@) =~= seq![a@]);
    v
}

fn segs2(a: &str, b: &str) -> (v: Vec<String>)
    ensures
        str_views(v@) == seq![a@, b@],
{
    let mut v = segs1(a);
    push_seg(&mut v, b);
    assert(str_views(v@) =~= seq![a@, b@]);
    v
}

fn segs3(a: &str, b: &str, c: &str) -> (v: Vec<String>)
    ensures
        str_views(v@) == seq![a@, b@, c@],
{
    let mut v = segs2(a, b);
    push_seg(&mut v, c);
    assert(str_views(v@) =~= seq![a@, b@, c@]);
    v
}

fn segs4(a: &str, b: &str, c: &str, d: &str) -> (v: Vec<String>)
    ensures
        str_views(v@) == seq![a@, b@, c@, d@],
{
    let mut v = segs3(a, b, c);
    push_seg(&mut v, d);
    assert(str_views(v@) =~= seq![a@, b@, c@, d@]);
    v
}

fn segs5(a: &str, b: &str, c: &str, d: &str, e: &str) -> (v: Vec<String>)
    ensures
        str_views(v@) == seq![a@, b@, c@, d@, e@],
{
    let mut v = segs4(a, b, c, d);
    push_seg(&mut v, e);
    assert(str_views(v@) =~= seq![a@, b@, c@, d@, e@]);
    v
}

fn push_pair(v: &mut Vec<(String, String)>, k: &str, x: &str)
    ensures
        pair_views(final(v)@) == pair_views(old(v)@).push((k@, x@)),
{
    let ghost before = v@;
    v.push((lit(k), lit(x)));
    assert forall|i: int| 0 <= i < before.len() implies #[trigger] pair_views(v@)[i] == pair_views(before)[i] by {
        assert(v@[i] == before[i]);
    }
    assert(pair_views(v@) =~= pair_views(before).push((k@, x@)));
}

fn no_query() -> (q: Vec<(String, String)>)
    ensures
        pair_views(q@) == Seq::<(Seq<char>, Seq<char>)>::empty(),
{
    let q: Vec<(String, String)> = Vec::new();
    assert(pair_views(q@) =~= Seq::<(Seq<char>, Seq<char>)>::empty());
    q
}

/// Fails with `HttpError` on a client or server error status (400 to 599).
pub fn check_http_status(code: u16) -> (r: Result<(), Error>)
    ensures
        r is Ok <==> !(400 <= code <= 599),
        r matches Err(e) ==> e == Error::HttpError(code),
{
    if 400 <= code && code <= 599 {
        Err(Error::HttpError(code))
    } else {
        Ok(())
    }
}

/// Fails with `NonEmptyResponse` when a body expected empty holds anything but white space.
pub fn check_empty_body(body: &str) -> (r: Result<(), Error>)
    ensures
        r is Ok <==> trim(body@).len() == 0,
        r matches Err(e) ==> e matches Error::NonEmptyResponse(s) && s@ == body@,
{
    if !trim_str(body).as_str().is_empty() {
        Err(Error::NonEmptyResponse(lit(body)))
    } else {
        Ok(())
    }
}

/// Fails with `HttpError` when a reply envelope's status is not 200.
pub fn check_envelope_status(status: u16) -> (r: Result<(), Error>)
    ensures
        r is Ok <==> status == 200,
        r matches Err(e) ==> e == Error::HttpError(status),
{
    if status != 200 {
        Err(Error::HttpError(status))
    } else {
        Ok(())
    }
}

/// The groups endpoint.
pub struct Groups;

impl Groups {
    pub fn show(group_id: &str) -> (r: ApiRequest)
        ensures
            request_is(r, Method::Get, api_url(), seq!["groups"@, group_id@], seq![], Reply::Envelope),
    {
        request(Method::Get, api_base(), segs2("groups", group_id), no_query(), Reply::Envelope)
    }

    /// A page of groups; the page defaults to 1, the page size to 500 (held between 1 and 500),
    /// and `former` lists the groups left.
    pub fn index(page: Option<usize>, per_page: Option<usize>, former: Option<bool>) -> (r: ApiRequest)
        ensures
            ({
                let p = match page { Some(p) => p as nat, None => 1nat };
                let pp = clamp_spec(match per_page { Some(x) => x as int, None => 500 }, 1, 500);
                let f = match former { Some(b) => b, None => false };
                request_is(
                    r,
                    Method::Get,
                    api_url(),
                    if f { seq!["groups"@, "former"@] } else { seq!["groups"@] },
                    seq![("page"@, decimal(p)), ("per_page"@, decimal(pp as nat))],
                    Reply::Envelope,
                )
            }),
    {
        let p = match page {
            Some(p) => p,
            None => 1,
        };
        let pp = clamp(
            match per_page {
                Some(x) => x,
                None => 500,
            },
            1,
            500,
        );
        let f = match former {
            Some(b) => b,
            None => false,
        };
        let segments = if f {
            segs2("groups", "former")
        } else {
            segs1("groups")
        };
        let mut q: Vec<(String, String)> = Vec::new();
        push_pair(&mut q, "page", usize_to_string(p).as_str());
        push_pair(&mut q, "per_page", usize_to_string(pp).as_str());
        let r = request(Method::Get, api_base(), segments, q, Reply::Envelope);
        assert(pair_views(r.query@) =~= seq![("page"@, decimal(p as nat)), ("per_page"@, decimal(pp as nat))]);
        r
    }

    pub fn create() -> (r: ApiRequest)
        ensures
            request_is(r, Method::Post, api_url(), seq!["groups"@], seq![], Reply::Envelope),
    {
        request(Method::Post, api_base(), segs1("groups"), no_query(), Reply::Envelope)
    }

    pub fn update(group_id: &str) -> (r: ApiRequest)
        ensures
            request_is(r, Method::Post, api_url(), seq!["groups"@, group_id@, "update"@], seq![], Reply::Envelope),
    {
        request(Method::Post, api_base(), segs3("groups", group_id, "update"), no_query(), Reply::Envelope)
    }

    pub fn destroy(group_id: &str) -> (r: ApiRequest)
        ensures
            request_is(r, Method::Post, api_url(), seq!["groups"@, group_id@, "destroy"@], seq![], Reply::Empty),
    {
        request(Method::Post, api_base(), segs3("groups", group_id, "destroy"), no_query(), Reply::Empty)
    }

    pub fn change_owners() -> (r: ApiRequest)
        ensures
            request_is(r, Method::Post, api_url(), seq!["groups"@, "change_owners"@], seq![], Reply::OwnerResults),
    {
        request(Method::Post, api_base(), segs2("groups", "change_owners"), no_query(), Reply::OwnerResults)
    }

    /// Succeeds when some result names this owner and group with status "200" or "403".
    pub fn check_change_owners(results: &Vec<(String, String, String)>, owner_id: &str, group_id: &str) -> (r: Result<(), Error>)
        ensures
            r is Ok <==> exists|i: int|
                0 <= i < results.len() && #[trigger] owner_result_ok(results@[i], owner_id@, group_id@),
            r matches Err(e) ==> e == Error::GroupOwnershipChangeFailed,
    {
        for i in 0..results.len()
            invariant
                forall|j: int| 0 <= j < i ==> !#[trigger] owner_result_ok(results@[j], owner_id@, group_id@),
        {
            let (o, g, s) = &results[i];
            if same_text(o.as_str(), owner_id) && same_text(g.as_str(), group_id) && (same_text(
                s.as_str(),
                "200",
            ) || same_text(s.as_str(), "403")) {
                assert(owner_result_ok(results@[i as int], owner_id@, group_id@));
                return Ok(());
            }
        }
        Err(Error::GroupOwnershipChangeFailed)
    }
}

/// An ownership-change result that confirms the change.
pub open spec fn owner_result_ok(res: (String, String, String), owner_id: Seq<char>, group_id: Seq<char>) -> bool {
    res.0@ == owner_id && res.1@ == group_id && (res.2@ == "200"@ || res.2@ == "403"@)
}

/// The user and nickname under which a member is added.
#[derive(Debug)]
pub struct MemberId {
    pub user_id: String,
    pub nickname: String,
}

/// The members endpoint.
pub struct Members;

impl Members {
    pub fn add(group_id: &str) -> (r: ApiRequest)
        ensures
            request_is(r, Method::Post, api_url(), seq!["groups"@, group_id@, "members"@, "add"@], seq![], Reply::Envelope),
    {
        request(Method::Post, api_base(), segs4("groups", group_id, "members", "add"), no_query(), Reply::Envelope)
    }

    pub fn remove(group_id: &str, membership_id: &str) -> (r: ApiRequest)
        ensures
            request_is(
                r,
                Method::Post,
                api_url(),
                seq!["groups"@, group_id@, "members"@, membership_id@, "remove"@],
                seq![],
                Reply::Empty,
            ),
    {
        request(
            Method::Post,
            api_base(),
            segs5("groups", group_id, "members", membership_id, "remove"),
            no_query(),
            Reply::Empty,
        )
    }
}

/// The group messages endpoint.
pub struct Messages;

impl Messages {
    /// Lists messages of a group: the selector's pair, then the limit (default 100, held between
    /// 1 and 100).
    pub fn index(group_id: &str, which: &Option<MessageSelector>, limit: Option<usize>) -> (r: ApiRequest)
        ensures
            request_is(
                r,
                Method::Get,
                api_url(),
                seq!["groups"@, group_id@, "messages"@],
                selector_pairs(*which).push(
                    ("limit"@, decimal(clamp_spec(match limit { Some(l) => l as int, None => 100 }, 1, 100) as nat)),
                ),
                Reply::Envelope,
            ),
    {
        let l = clamp(
            match limit {
                Some(l) => l,
                None => 100,
            },
            1,
            100,
        );
        let mut q = selector_query(which);
        push_pair(&mut q, "limit", usize_to_string(l).as_str());
        let r = request(Method::Get, api_base(), segs3("groups", group_id, "messages"), q, Reply::Envelope);
        assert(pair_views(r.query@) =~= selector_pairs(*which).push(("limit"@, decimal(l as nat))));
        r
    }

    /// A group's messages are its own conversation.
    pub fn conversation_id(sub_id: &str) -> (r: String)
        ensures
            r@ == sub_id@,
    {
        lit(sub_id)
    }

    pub fn create(group_id: &str) -> (r: ApiRequest)
        ensures
            request_is(r, Method::Post, api_url(), seq!["groups"@, group_id@, "messages"@], seq![], Reply::Envelope),
    {
        request(Method::Post, api_base(), segs3("groups", group_id, "messages"), no_query(), Reply::Envelope)
    }
}

/// The direct messages endpoint.
pub struct DirectMessages;

impl DirectMessages {
    /// Lists direct messages with another user: only the selector's pair.
    pub fn index(other_user_id: &str, which: &Option<MessageSelector>) -> (r: ApiRequest)
        ensures
            request_is(r, Method::Get, api_url(), seq!["direct_messages"@, other_user_id@], selector_pairs(*which), Reply::Envelope),
    {
        request(Method::Get, api_base(), segs2("direct_messages", other_user_id), selector_query(which), Reply::Envelope)
    }

    /// A direct conversation is named by both user ids, the caller's first.
    pub fn conversation_id(my_user_id: &str, sub_id: &str) -> (r: String)
        ensures
            r@ == my_user_id@ + "+"@ + sub_id@,
    {
        cat(cat(my_user_id, "+").as_str(), sub_id)
    }

    pub fn create(recipient_id: &str) -> (r: ApiRequest)
        ensures
            request_is(r, Method::Post, api_url(), seq!["direct_messages"@, recipient_id@], seq![], Reply::Envelope),
    {
        request(Method::Post, api_base(), segs2("direct_messages", recipient_id), no_query(), Reply::Envelope)
    }
}

/// The likes endpoint.
pub struct Likes;

impl Likes {
    pub fn create(conversation_id: &str, message_id: &str) -> (r: ApiRequest)
        ensures
            request_is(r, Method::Post, api_url(), seq!["messages"@, conversation_id@, message_id@, "like"@], seq![], Reply::Null),
    {
        request(Method::Post, api_base(), segs4("messages", conversation_id, message_id, "like"), no_query(), Reply::Null)
    }

    pub fn destroy(conversation_id: &str, message_id: &str) -> (r: ApiRequest)
        ensures
            request_is(r, Method::Post, api_url(), seq!["messages"@, conversation_id@, message_id@, "unlike"@], seq![], Reply::Null),
    {
        request(Method::Post, api_base(), segs4("messages", conversation_id, message_id, "unlike"), no_query(), Reply::Null)
    }
}

/// What creating a Group sends.
pub struct GroupsCreateReqEnvelope {
    pub name: String,
    pub description: Option<String>,
    pub image_url: Option<String>,
    pub share: Option<bool>,
}

/// What updating a Group sends: only the parts given are changed.
pub struct GroupsUpdateReqEnvelope {
    pub name: Option<String>,
    pub description: Option<String>,
    pub image_url: Option<String>,
    pub share: Option<bool>,
}

/// What creating a bot sends (under the key `bot`).
pub struct BotsCreateReqEnvelope {
    pub group_id: String,
    pub name: String,
    pub avatar_url: Option<String>,
    pub callback_url: Option<String>,
}

/// What destroying a bot sends.
pub struct BotsDestroyReqEnvelope {
    pub bot_id: String,
}

/// The bots endpoint.
pub struct Bots;

impl Bots {
    pub fn index() -> (r: ApiRequest)
        ensures
            request_is(r, Method::Get, api_url(), seq!["bots"@], seq![], Reply::Envelope),
    {
        request(Method::Get, api_base(), segs1("bots"), no_query(), Reply::Envelope)
    }

    pub fn create() -> (r: ApiRequest)
        ensures
            request_is(r, Method::Post, api_url(), seq!["bots"@], seq![], Reply::Envelope),
    {
        request(Method::Post, api_base(), segs1("bots"), no_query(), Reply::Envelope)
    }

    pub fn destroy() -> (r: ApiRequest)
        ensures
            request_is(r, Method::Post, api_url(), seq!["bots"@, "destroy"@], seq![], Reply::Envelope),
    {
        request(Method::Post, api_base(), segs2("bots", "destroy"), no_query(), Reply::Envelope)
    }

    /// Posting as a bot; the reply is empty.
    pub fn post() -> (r: ApiRequest)
        ensures
            request_is(r, Method::Post, api_url(), seq!["bots"@, "post"@], seq![], Reply::Empty),
    {
        request(Method::Post, api_base(), segs2("bots", "post"), no_query(), Reply::Empty)
    }
}

/// The users endpoint.
pub struct Users;

impl Users {
    pub fn me() -> (r: ApiRequest)
        ensures
            request_is(r, Method::Get, api_url(), seq!["users"@, "me"@], seq![], Reply::Envelope),
    {
        request(Method::Get, api_base(), segs2("users", "me"), no_query(), Reply::Envelope)
    }
}

/// The image service.
pub struct Images;

impl Images {
    pub fn create() -> (r: ApiRequest)
        ensures
            request_is(r, Method::Post, image_api_url(), seq!["pictures"@], seq![], Reply::Payload),
    {
        request(Method::Post, image_api_base(), segs1("pictures"), no_query(), Reply::Payload)
    }
}

/// A GroupMe user.
#[derive(Debug)]
pub struct User {
    pub user_id: String,
    pub created_at: u64,
    pub updated_at: u64,
    pub id: String,
    pub name: String,
    pub email: Option<String>,
    pub phone_number: Option<String>,
    pub image_url: Option<String>,
    pub sms: Option<bool>,
}

impl User {
    /// The request that fetches the calling user.
    pub fn get() -> (r: ApiRequest)
        ensures
            request_is(r, Method::Get, api_url(), seq!["users"@, "me"@], seq![], Reply::Envelope),
    {
        Users::me()
    }
}

} // verus!
