//! Decisions taken by the listing routes (`/index`, `/code/{vanity}`,
//! `/bots/{id}`, `/search`). The handlers around them read the request,
//! query the database and send the reply; what they query and what they
//! answer is decided here.

use vstd::prelude::*;
use crate::text::chars_eq;

verus! {

/// The status of a reply.
#[derive(PartialEq, Eq, Structural, Clone, Copy, Debug)]
pub enum Status {
    /// 200
    Success,
    /// 400
    BadRequest,
    /// 403
    Forbidden,
    /// 404
    NotFound,
}

impl Status {
    /// The HTTP status code.
    pub open spec fn spec_code(self) -> u16 {
        match self {
            Status::Success => 200,
            Status::BadRequest => 400,
            Status::Forbidden => 403,
            Status::NotFound => 404,
        }
    }

    /// The HTTP status code.
    pub fn code(&self) -> (c: u16)
        ensures
            c == self.spec_code(),
    {
        match self {
            Status::Success => 200,
            Status::BadRequest => 400,
            Status::Forbidden => 403,
            Status::NotFound => 404,
        }
    }
}

/// `opt`'s text, or `default` where there is none.
pub open spec fn text_or(opt: Option<String>, default: Seq<char>) -> Seq<char> {
    match opt {
        Some(s) => s@,
        None => default,
    }
}

fn owned_or(opt: &Option<String>, default: &str) -> (res: String)
    ensures
        res@ == text_or(*opt, default@),
{
    match opt {
        Some(s) => s.clone(),
        None => String::from_str(default),
    }
}

/// Which listing a request is about.
#[derive(PartialEq, Eq, Structural, Clone, Copy, Debug)]
pub enum ListKind {
    Bot,
    Server,
}

/// A part of the index page, each filled by one database query.
#[derive(PartialEq, Eq, Structural, Clone, Copy, Debug)]
pub enum IndexSection {
    TopVoted,
    Certified,
    Tags,
    New,
    Features,
}

/// What the index route fetches: for which listing, and which sections in
/// which order.
pub struct IndexPlan {
    pub kind: ListKind,
    pub sections: Vec<IndexSection>,
}

/// The index is that of the bots unless a target type other than `bot` is given.
pub open spec fn index_kind(target_type: Option<String>) -> ListKind {
    if text_or(target_type, "bot"@) == "bot"@ {
        ListKind::Bot
    } else {
        ListKind::Server
    }
}

/// The sections of the index of a listing, in the order they are queried.
/// Servers have no features section: it stays empty.
pub open spec fn index_sections(kind: ListKind) -> Seq<IndexSection> {
    match kind {
        ListKind::Bot => seq![
            IndexSection::TopVoted,
            IndexSection::Certified,
            IndexSection::Tags,
            IndexSection::New,
            IndexSection::Features,
        ],
        ListKind::Server => seq![
            IndexSection::TopVoted,
            IndexSection::Certified,
            IndexSection::New,
            IndexSection::Tags,
        ],
    }
}

/// What `GET /index` fetches, given its optional `target_type` query parameter.
pub fn index_plan(target_type: &Option<String>) -> (plan: IndexPlan)
    ensures
        plan.kind == index_kind(*target_type),
        plan.sections@ == index_sections(plan.kind),
{
    let target = owned_or(target_type, "bot");
    if chars_eq(target.as_str(), "bot") {
        let sections = vec![
            IndexSection::TopVoted,
            IndexSection::Certified,
            IndexSection::Tags,
            IndexSection::New,
            IndexSection::Features,
        ];
        IndexPlan { kind: ListKind::Bot, sections }
    } else {
        let sections = vec![
            IndexSection::TopVoted,
            IndexSection::Certified,
            IndexSection::New,
            IndexSection::Tags,
        ];
        IndexPlan { kind: ListKind::Server, sections }
    }
}

/// A vanity code that begins with `_` is reserved and never resolved.
pub open spec fn is_reserved_code(code: Seq<char>) -> bool {
    code.len() > 0 && code[0] == '_'
}

/// What a lookup route does next.
#[derive(PartialEq, Eq, Structural, Clone, Copy, Debug)]
pub enum LookupAction {
    /// Look the item up in the database.
    Lookup,
    /// Answer at once with this status.
    Respond(Status),
}

/// What `GET /code/{vanity}` does with its code: a reserved code is
/// answered 404 without a lookup; any other is resolved.
pub fn vanity_request(code: &str) -> (action: LookupAction)
    ensures
        is_reserved_code(code@) ==> action == LookupAction::Respond(Status::NotFound),
        !is_reserved_code(code@) ==> action == LookupAction::Lookup,
{
    if code.unicode_len() > 0 && code.get_char(0) == '_' {
        LookupAction::Respond(Status::NotFound)
    } else {
        LookupAction::Lookup
    }
}

/// The status of a reply to a lookup: 200 with the item when it was found,
/// 404 when not.
pub fn lookup_status(found: bool) -> (status: Status)
    ensures
        found ==> status == Status::Success,
        !found ==> status == Status::NotFound,
{
    if found {
        Status::Success
    } else {
        Status::NotFound
    }
}

/// What `GET /bots/{id}` does after it read the cache.
pub enum BotAction {
    /// Answer 200 with the cached bot.
    RespondCached,
    /// Fetch the bot from the database, in this language.
    Fetch { lang: String },
}

/// The language a bot is fetched in: the `lang` query parameter, `en` by default.
pub open spec fn bot_lang(lang: Option<String>) -> Seq<char> {
    text_or(lang, "en"@)
}

/// What `GET /bots/{id}` does after it read the cache: a cached bot is
/// answered at once; otherwise the bot is fetched in the requested language.
pub fn get_bot_after_cache(cache_hit: bool, lang: &Option<String>) -> (action: BotAction)
    ensures
        cache_hit ==> action is RespondCached,
        !cache_hit ==> (action matches BotAction::Fetch { lang: l } && l@ == bot_lang(*lang)),
{
    if cache_hit {
        BotAction::RespondCached
    } else {
        BotAction::Fetch { lang: owned_or(lang, "en") }
    }
}

/// The text searched for: the `q` query parameter, `fates` by default.
pub open spec fn search_text(q: Option<String>) -> Seq<char> {
    text_or(q, "fates"@)
}

/// The query of `GET /search`, which is looked up in the cache and, where
/// it is not there, searched for.
pub fn search_query(q: &Option<String>) -> (query: String)
    ensures
        query@ == search_text(*q),
{
    owned_or(q, "fates")
}

/// The listing routes' defaults and choices: the index is that of the bots
/// when no target type or `bot` is given and that of the servers for any
/// other; both indexes query the top voted then the certified entries, and
/// only the bot index queries features; a bot is fetched in the requested
/// language, `en` by default; the search text is `q`, `fates` by default.
pub proof fn law_listing_defaults(target_type: String, lang: String, q: String)
    ensures
        index_kind(None) == ListKind::Bot,
        (index_kind(Some(target_type)) == ListKind::Bot) == (target_type@ == "bot"@),
        index_sections(ListKind::Bot).contains(IndexSection::Features),
        !index_sections(ListKind::Server).contains(IndexSection::Features),
        forall|k: ListKind|
            #![trigger index_sections(k)]
            index_sections(k)[0] == IndexSection::TopVoted && index_sections(k)[1]
                == IndexSection::Certified && index_sections(k).contains(IndexSection::New)
                && index_sections(k).contains(IndexSection::Tags),
        bot_lang(None) == "en"@,
        bot_lang(Some(lang)) == lang@,
        search_text(None) == "fates"@,
        search_text(Some(q)) == q@,
{
    assert(index_sections(ListKind::Bot)[4] == IndexSection::Features);
    assert forall|k: ListKind|
        #![trigger index_sections(k)]
        index_sections(k)[0] == IndexSection::TopVoted && index_sections(k)[1]
            == IndexSection::Certified && index_sections(k).contains(IndexSection::New)
            && index_sections(k).contains(IndexSection::Tags) by {
        match k {
            ListKind::Bot => {
                assert(index_sections(k)[3] == IndexSection::New);
                assert(index_sections(k)[2] == IndexSection::Tags);
            },
            ListKind::Server => {
                assert(index_sections(k)[2] == IndexSection::New);
                assert(index_sections(k)[3] == IndexSection::Tags);
            },
        }
    }
    let srv = index_sections(ListKind::Server);
    assert forall|j: int| 0 <= j < srv.len() implies srv[j] != IndexSection::Features by {}
}

/// A reserved vanity code is one that starts with an underscore; the
/// status codes of the replies are distinct, and each is the HTTP code its
/// name says.
pub proof fn law_vanity_and_status(code: Seq<char>)
    ensures
        is_reserved_code(code) == (code.len() > 0 && code[0] == '_'),
        Status::Success.spec_code() == 200,
        Status::BadRequest.spec_code() == 400,
        Status::Forbidden.spec_code() == 403,
        Status::NotFound.spec_code() == 404,
{
}

} // verus!
