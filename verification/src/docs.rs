//! Markdown documentation of the API v3 routes.
//!
//! Examples of request and response bodies are JSON texts and the parameters
//! of a route are described field by field: both are produced outside this
//! module from the route's model types and handed in as plain values.

use vstd::prelude::*;
use vstd::utf8::encode_utf8;
use crate::text::{
    decimal, digits_value, law_signed_decimal, push_signed_decimal, replace_all, replaced,
    signed_decimal,
};

verus! {

/// Opening lines of the generated documentation.
pub const DOCS_HEADER: &'static str = "# API v3\n**API URL**: ``https://next.fateslist.xyz`` (for now, can change in future)\n";

/// The section on authorization schemes.
pub const AUTHORIZATION_SECTION: &'static str = r#"
## Authorization

- **Bot:** These endpoints require a bot token. 
You can get this from Bot Settings. Make sure to keep this safe and in 
a .gitignore/.env. A prefix of `Bot` before the bot token such as 
`Bot abcdef` is supported and can be used to avoid ambiguity but is not 
required. The default auth scheme if no prefix is given depends on the
endpoint: Endpoints which have only one auth scheme will use that auth 
scheme while endpoints with multiple will always use `Bot` for 
backward compatibility

- **Server:** These endpoints require a server
token which you can get using ``/get API Token`` in your server. 
Same warnings and information from the other authentication types 
apply here. A prefix of ``Server`` before the server token is 
supported and can be used to avoid ambiguity but is not required.

- **User:** These endpoints require a user token. You can get this 
from your profile under the User Token section. If you are using this 
for voting, make sure to allow users to opt out! A prefix of `User` 
before the user token such as `User abcdef` is supported and can be 
used to avoid ambiguity but is not required outside of endpoints that 
have both a user and a bot authentication option such as Get Votes. 
In such endpoints, the default will always be a bot auth unless 
you prefix the token with `User`
"#;

/// Description of the Get Bot route.
pub const GET_BOT_DESCRIPTION: &'static str = r#"
Fetches bot information given a bot ID. If not found, 404 will be returned. 

This endpoint handles both bot IDs and client IDs

Differences from API v2:

- Unlike API v2, this does not support compact or no_cache. Owner order is also guaranteed
- *``long_description/css`` is sanitized with ammonia by default, use `long_description_raw` if you want the unsanitized version*
- All responses are cached for a short period of time. There is *no* way to opt out unlike API v2
- Some fields have been renamed or removed (such as ``promos`` which may be readded at a later date)

**Set the Frostpaw header if you are a custom client**
"#;

/// Description of the Random Bot route.
pub const RANDOM_BOT_DESCRIPTION: &'static str = r#"
Fetches a random bot on the list

Example:
```py
import requests

def random_bot():
    res = requests.get(api_url"/random-bot")
    json = res.json()
    if res.status != 200:
        # Handle an error in the api
        ...
    return json
```
"#;

/// What a reflected field holds, as far as the documentation reads it.
pub enum FieldValue {
    /// A field of type `Option<String>` with its value.
    OptionalString(Option<String>),
    /// A field of type `Option<i64>` with its value.
    OptionalI64(Option<i64>),
    /// A field of any other type.
    Other,
}

/// One field of a parameter struct: its name, the full name of its type
/// (its full path, as Rust names it at run time) and its value.
pub struct FieldInfo {
    pub name: String,
    pub field_type: String,
    pub value: FieldValue,
}

/// The parameters of a route: their fields and an example of them in JSON.
pub struct ParamsExample {
    pub fields: Vec<FieldInfo>,
    pub json: String,
}

/// What the documentation of a route shows of its model types.
pub struct RouteExample {
    pub path_params: ParamsExample,
    pub query_params: ParamsExample,
    /// Example request body, in JSON.
    pub request_body: String,
    /// Example response body, in JSON.
    pub response_body: String,
}

/// A route to document.
pub struct Route {
    pub title: String,
    pub method: String,
    pub path: String,
    pub description: String,
    pub equiv_v2_route: String,
    pub example: RouteExample,
}

/// The examples of every documented route.
pub struct RouteExamples {
    pub index: RouteExample,
    pub resolve_vanity: RouteExample,
    pub get_bot: RouteExample,
    pub search_list: RouteExample,
    pub random_bot: RouteExample,
}

/// The number of bytes of the UTF-8 encoding of `s`, as `str::len` reports it.
pub open spec fn byte_len(s: Seq<char>) -> usize {
    encode_utf8(s).len() as usize
}

/// The type of a field as the documentation names it: `core::option::Option`
/// becomes `Optional ` and the `alloc::string::` prefix is dropped.
pub open spec fn shown_field_type(field_type: Seq<char>) -> Seq<char> {
    replaced(
        replaced(field_type, "core::option::Option"@, "Optional "@),
        "alloc::string::"@,
        ""@,
    )
}

/// The text that documents a field's type, with its default value where the
/// field is an optional string or integer that holds one.
pub open spec fn field_type_text(field_type: Seq<char>, value: FieldValue) -> Seq<char> {
    match value {
        FieldValue::OptionalString(Some(v)) => "String? "@ + "| default = "@ + v@,
        FieldValue::OptionalI64(Some(v)) => "i64? "@ + "| default = "@ + signed_decimal(v as int),
        _ => shown_field_type(field_type),
    }
}

/// The bracketed type note written after a field's name.
pub open spec fn value_note(field_type: Seq<char>, value: FieldValue) -> Seq<char> {
    "["@ + field_type_text(field_type, value) + " (type info may be incomplete, see example)]"@
}

/// The Markdown line that documents one field.
pub open spec fn param_line(f: FieldInfo) -> Seq<char> {
    "- **"@ + f.name@ + "** "@ + value_note(f.field_type@, f.value) + "\n"@
}

/// The Markdown list that documents the fields, one line per field, in order.
pub open spec fn params_text(fields: Seq<FieldInfo>) -> Seq<char>
    decreases fields.len(),
{
    if fields.len() == 0 {
        Seq::empty()
    } else {
        params_text(fields.drop_last()) + param_line(fields.last())
    }
}

/// The list of a route's parameters followed by their JSON example.
pub open spec fn params_section(p: ParamsExample) -> Seq<char> {
    params_text(p.fields@) + "\n\n**Example**\n\n```json\n"@ + p.json@ + "\n```"@
}

/// The documentation of one route.
pub open spec fn doc_text(
    title: Seq<char>,
    method: Seq<char>,
    path: Seq<char>,
    description: Seq<char>,
    equiv_v2_route: Seq<char>,
    ex: RouteExample,
) -> Seq<char> {
    let head = "## "@ + title + "\n### "@ + method + " "@ + path + "\n\n"@ + description
        + "\n\n**API v2 analogue:** "@ + equiv_v2_route;
    let with_path = if byte_len(ex.path_params.json@) > 2 {
        head + "\n\n**Path parameters**\n\n"@ + params_section(ex.path_params)
    } else {
        head
    };
    let with_query = if byte_len(ex.query_params.json@) > 2 {
        with_path + "\n\n**Query parameters**\n\n"@ + params_section(ex.query_params)
    } else {
        with_path
    };
    with_query + "\n\n**Request Body**\n\n```json\n"@ + ex.request_body@
        + "\n```\n\n**Response Body**\n\n```json\n"@ + ex.response_body@ + "\n```\n\n\n"@
}

/// The documentation of a route value.
pub open spec fn route_doc(r: Route) -> Seq<char> {
    doc_text(r.title@, r.method@, r.path@, r.description@, r.equiv_v2_route@, r.example)
}

/// The complete documentation of API v3, given the JSON example of the base
/// API response and the examples of every route.
pub open spec fn documentation(base_response: Seq<char>, ex: RouteExamples) -> Seq<char> {
    DOCS_HEADER@ + AUTHORIZATION_SECTION@
        + "\n## Base Response\n\nA default API Response will be of the below format:\n\n```json\n"@
        + base_response + "\n```\n\n"@
        + doc_text("Index"@, "GET"@, "/index"@, "Returns the index for bots and servers"@,
            "(no longer working) [Get Index](https://api.fateslist.xyz/docs/redoc#operation/get_index)"@,
            ex.index)
        + doc_text("Resolve Vanity"@, "GET"@, "/code/{code}"@,
            "Resolves the vanity for a bot/server in the list"@,
            "(no longer working) [Get Vanity](https://api.fateslist.xyz/docs/redoc#operation/get_vanity)"@,
            ex.resolve_vanity)
        + doc_text("Get Bot"@, "GET"@, "/bots/{id}"@, GET_BOT_DESCRIPTION@,
            "[Fetch Bot](https://api.fateslist.xyz/docs/redoc#operation/fetch_bot)"@,
            ex.get_bot)
        + doc_text("Search List"@, "GET"@, "/search?q={query}"@,
            "Searches the list based on a query named ``q``"@,
            "(no longer working) [Fetch Bot](https://api.fateslist.xyz/docs/redoc#operation/search_list)"@,
            ex.search_list)
        + doc_text("Random Bot"@, "GET"@, "/random-bot"@, RANDOM_BOT_DESCRIPTION@,
            "(no longer working) [Fetch Random Bot](https://api.fateslist.xyz/api/docs/redoc#operation/fetch_random_bot)"@,
            ex.random_bot)
}

/// Documenting the fields of two lists one after the other gives the
/// documentation of the first list followed by that of the second.
pub proof fn law_params_concat(a: Seq<FieldInfo>, b: Seq<FieldInfo>)
    ensures
        params_text(a + b) == params_text(a) + params_text(b),
    decreases b.len(),
{
    if b.len() == 0 {
        assert(a + b =~= a);
        assert(params_text(a) + params_text(b) =~= params_text(a));
    } else {
        law_params_concat(a, b.drop_last());
        assert((a + b).drop_last() =~= a + b.drop_last());
        assert((a + b).last() == b.last());
        assert(params_text(a) + params_text(b.drop_last()) + param_line(b.last()) =~= params_text(a)
            + (params_text(b.drop_last()) + param_line(b.last())));
    }
}

/// The note on a field's type is always bracketed: it opens with `[` and
/// closes with ` (type info may be incomplete, see example)]`.
pub proof fn law_value_note_bracketed(field_type: Seq<char>, value: FieldValue)
    ensures
        value_note(field_type, value).len() > 0,
        value_note(field_type, value)[0] == '[',
        value_note(field_type, value).subrange(
            value_note(field_type, value).len() - " (type info may be incomplete, see example)]"@.len(),
            value_note(field_type, value).len() as int,
        ) == " (type info may be incomplete, see example)]"@,
{
    reveal_strlit("[");
    let mid = "["@ + field_type_text(field_type, value);
    let suffix = " (type info may be incomplete, see example)]"@;
    let note = value_note(field_type, value);
    assert(note == mid + suffix);
    assert(note.subrange(mid.len() as int, note.len() as int) =~= suffix);
    assert(note[0] == mid[0]);
}

/// Adding a field at the end of a list adds exactly one line at the end of
/// its documentation: `- **name** ` then the field's type note (that of
/// [`_get_value_from`]) and a newline, whatever the field holds.
pub proof fn law_params_push(fields: Seq<FieldInfo>, f: FieldInfo)
    ensures
        params_text(fields.push(f)) == params_text(fields) + ("- **"@ + f.name@ + "** "@
            + value_note(f.field_type@, f.value) + "\n"@),
{
    assert(fields.push(f).drop_last() =~= fields);
    assert(fields.push(f).last() == f);
}

/// The documentation of a single field is its one line.
pub proof fn law_params_single(f: FieldInfo)
    ensures
        params_text(seq![f]) == "- **"@ + f.name@ + "** "@ + value_note(f.field_type@, f.value)
            + "\n"@,
{
    law_params_push(Seq::empty(), f);
    assert(Seq::<FieldInfo>::empty().push(f) =~= seq![f]);
    assert(params_text(Seq::<FieldInfo>::empty()) == Seq::<char>::empty());
    let line = "- **"@ + f.name@ + "** "@ + value_note(f.field_type@, f.value) + "\n"@;
    assert(Seq::<char>::empty() + line =~= line);
}

/// An optional integer field that holds a value shows that value, in
/// decimal as `Display` writes an `i64`, as its default, whatever its sign.
pub proof fn law_value_note_integer_default(field_type: Seq<char>, v: i64)
    ensures
        value_note(field_type, FieldValue::OptionalI64(Some(v))) == "["@ + ("i64? "@
            + "| default = "@ + signed_decimal(v as int))
            + " (type info may be incomplete, see example)]"@,
        v >= 0 ==> digits_value(
            (value_note(field_type, FieldValue::OptionalI64(Some(v)))).subrange(
                ("["@ + "i64? "@ + "| default = "@).len() as int,
                (("["@ + "i64? "@ + "| default = "@).len() + decimal(v as nat).len()) as int,
            ),
        ) == v,
{
    let pre = "["@ + "i64? "@ + "| default = "@;
    let dec = signed_decimal(v as int);
    let suffix = " (type info may be incomplete, see example)]"@;
    let note = value_note(field_type, FieldValue::OptionalI64(Some(v)));
    assert(note =~= pre + dec + suffix);
    law_signed_decimal(v as int);
    if v >= 0 {
        assert(note.subrange(pre.len() as int, (pre.len() + dec.len()) as int) =~= dec);
    }
}

/// An optional string field that holds a value shows that value as its default.
pub proof fn law_value_note_string_default(field_type: Seq<char>, v: String)
    ensures
        value_note(field_type, FieldValue::OptionalString(Some(v))) == "["@ + ("String? "@
            + "| default = "@ + v@) + " (type info may be incomplete, see example)]"@,
{
}

/// A field without a default value to show is documented by its type name
/// alone, with `core::option::Option` shown as `Optional ` and the
/// `alloc::string::` prefix dropped.
pub proof fn law_value_note_without_default(field_type: Seq<char>, value: FieldValue)
    requires
        !(value matches FieldValue::OptionalString(Some(_))),
        !(value matches FieldValue::OptionalI64(Some(_))),
    ensures
        value_note(field_type, value) == "["@ + replaced(
            replaced(field_type, "core::option::Option"@, "Optional "@),
            "alloc::string::"@,
            ""@,
        ) + " (type info may be incomplete, see example)]"@,
{
}

/// The documentation of a route is its heading, method, path, description
/// and API v2 analogue; then the path-parameter section exactly when the
/// path parameters' JSON example is longer than two bytes; then, on its own
/// condition, the query-parameter section exactly when the query
/// parameters' JSON example is longer than two bytes; then the request and
/// response bodies. Each parameter section lists the fields (as
/// [`_get_params`] does) followed by the JSON example.
pub proof fn law_doc_sections(
    title: Seq<char>,
    method: Seq<char>,
    path: Seq<char>,
    description: Seq<char>,
    equiv_v2_route: Seq<char>,
    ex: RouteExample,
)
    ensures
        doc_text(title, method, path, description, equiv_v2_route, ex) == ("## "@ + title
            + "\n### "@ + method + " "@ + path + "\n\n"@ + description
            + "\n\n**API v2 analogue:** "@ + equiv_v2_route) + (if byte_len(
            ex.path_params.json@,
        ) > 2 {
            "\n\n**Path parameters**\n\n"@ + params_text(ex.path_params.fields@)
                + "\n\n**Example**\n\n```json\n"@ + ex.path_params.json@ + "\n```"@
        } else {
            Seq::empty()
        }) + (if byte_len(ex.query_params.json@) > 2 {
            "\n\n**Query parameters**\n\n"@ + params_text(ex.query_params.fields@)
                + "\n\n**Example**\n\n```json\n"@ + ex.query_params.json@ + "\n```"@
        } else {
            Seq::empty()
        }) + ("\n\n**Request Body**\n\n```json\n"@ + ex.request_body@
            + "\n```\n\n**Response Body**\n\n```json\n"@ + ex.response_body@
            + "\n```\n\n\n"@),
{
    let head = "## "@ + title + "\n### "@ + method + " "@ + path + "\n\n"@ + description
        + "\n\n**API v2 analogue:** "@ + equiv_v2_route;
    let ps = "\n\n**Path parameters**\n\n"@ + params_text(ex.path_params.fields@)
        + "\n\n**Example**\n\n```json\n"@ + ex.path_params.json@ + "\n```"@;
    let qs = "\n\n**Query parameters**\n\n"@ + params_text(ex.query_params.fields@)
        + "\n\n**Example**\n\n```json\n"@ + ex.query_params.json@ + "\n```"@;
    let tail = "\n\n**Request Body**\n\n```json\n"@ + ex.request_body@
        + "\n```\n\n**Response Body**\n\n```json\n"@ + ex.response_body@ + "\n```\n\n\n"@;
    let p = if byte_len(ex.path_params.json@) > 2 { ps } else { Seq::empty() };
    let q = if byte_len(ex.query_params.json@) > 2 { qs } else { Seq::empty() };
    assert(params_section(ex.path_params) =~= params_text(ex.path_params.fields@)
        + "\n\n**Example**\n\n```json\n"@ + ex.path_params.json@ + "\n```"@);
    assert(params_section(ex.query_params) =~= params_text(ex.query_params.fields@)
        + "\n\n**Example**\n\n```json\n"@ + ex.query_params.json@ + "\n```"@);
    assert("\n\n**Path parameters**\n\n"@ + params_section(ex.path_params) =~= ps);
    assert("\n\n**Query parameters**\n\n"@ + params_section(ex.query_params) =~= qs);
    assert(doc_text(title, method, path, description, equiv_v2_route, ex) =~= head + p + q + tail);
}

/// Whenever the query parameters' JSON example is longer than two bytes,
/// the documentation of the route holds the query-parameter heading, the
/// list of the query fields and their JSON example, whatever the path
/// parameters are.
pub proof fn law_doc_lists_query_parameters(
    title: Seq<char>,
    method: Seq<char>,
    path: Seq<char>,
    description: Seq<char>,
    equiv_v2_route: Seq<char>,
    ex: RouteExample,
)
    requires
        byte_len(ex.query_params.json@) > 2,
    ensures
        ({
            let d = doc_text(title, method, path, description, equiv_v2_route, ex);
            let section = "\n\n**Query parameters**\n\n"@ + params_text(ex.query_params.fields@)
                + "\n\n**Example**\n\n```json\n"@ + ex.query_params.json@ + "\n```"@;
            exists|i: int| 0 <= i && i + section.len() <= d.len() && #[trigger] d.subrange(
                i,
                i + section.len(),
            ) == section
        }),
{
    law_doc_sections(title, method, path, description, equiv_v2_route, ex);
    let head = "## "@ + title + "\n### "@ + method + " "@ + path + "\n\n"@ + description
        + "\n\n**API v2 analogue:** "@ + equiv_v2_route;
    let p = if byte_len(ex.path_params.json@) > 2 {
        "\n\n**Path parameters**\n\n"@ + params_text(ex.path_params.fields@)
            + "\n\n**Example**\n\n```json\n"@ + ex.path_params.json@ + "\n```"@
    } else {
        Seq::empty()
    };
    let section = "\n\n**Query parameters**\n\n"@ + params_text(ex.query_params.fields@)
        + "\n\n**Example**\n\n```json\n"@ + ex.query_params.json@ + "\n```"@;
    let tail = "\n\n**Request Body**\n\n```json\n"@ + ex.request_body@
        + "\n```\n\n**Response Body**\n\n```json\n"@ + ex.response_body@ + "\n```\n\n\n"@;
    let d = doc_text(title, method, path, description, equiv_v2_route, ex);
    let a = head + p;
    assert(d == a + section + tail);
    assert(d.subrange(a.len() as int, (a.len() + section.len()) as int) =~= section);
}

/// The documentation of every route is built from the example given for
/// that same route: after the base response come, in order, the Index
/// route with `examples.index`, Resolve Vanity with
/// `examples.resolve_vanity`, Get Bot with `examples.get_bot`, Search List
/// with `examples.search_list` and Random Bot with `examples.random_bot`,
/// each documented as [`doc`] documents a route.
pub proof fn law_document_routes_uses_each_routes_example(
    base_response: Seq<char>,
    examples: RouteExamples,
)
    ensures
        ({
            let preamble = DOCS_HEADER@ + AUTHORIZATION_SECTION@
                + "\n## Base Response\n\nA default API Response will be of the below format:\n\n```json\n"@
                + base_response + "\n```\n\n"@;
            let index = doc_text("Index"@, "GET"@, "/index"@,
                "Returns the index for bots and servers"@,
                "(no longer working) [Get Index](https://api.fateslist.xyz/docs/redoc#operation/get_index)"@,
                examples.index);
            let vanity = doc_text("Resolve Vanity"@, "GET"@, "/code/{code}"@,
                "Resolves the vanity for a bot/server in the list"@,
                "(no longer working) [Get Vanity](https://api.fateslist.xyz/docs/redoc#operation/get_vanity)"@,
                examples.resolve_vanity);
            let bot = doc_text("Get Bot"@, "GET"@, "/bots/{id}"@, GET_BOT_DESCRIPTION@,
                "[Fetch Bot](https://api.fateslist.xyz/docs/redoc#operation/fetch_bot)"@,
                examples.get_bot);
            let search = doc_text("Search List"@, "GET"@, "/search?q={query}"@,
                "Searches the list based on a query named ``q``"@,
                "(no longer working) [Fetch Bot](https://api.fateslist.xyz/docs/redoc#operation/search_list)"@,
                examples.search_list);
            let random = doc_text("Random Bot"@, "GET"@, "/random-bot"@, RANDOM_BOT_DESCRIPTION@,
                "(no longer working) [Fetch Random Bot](https://api.fateslist.xyz/api/docs/redoc#operation/fetch_random_bot)"@,
                examples.random_bot);
            let d = documentation(base_response, examples);
            &&& d == preamble + index + vanity + bot + search + random
            &&& d.subrange(preamble.len() as int, (preamble.len() + index.len()) as int) == index
            &&& d.subrange(
                (preamble.len() + index.len() + vanity.len() + bot.len()) as int,
                (preamble.len() + index.len() + vanity.len() + bot.len() + search.len()) as int,
            ) == search
        }),
{
    let preamble = DOCS_HEADER@ + AUTHORIZATION_SECTION@
        + "\n## Base Response\n\nA default API Response will be of the below format:\n\n```json\n"@
        + base_response + "\n```\n\n"@;
    let index = doc_text("Index"@, "GET"@, "/index"@,
        "Returns the index for bots and servers"@,
        "(no longer working) [Get Index](https://api.fateslist.xyz/docs/redoc#operation/get_index)"@,
        examples.index);
    let vanity = doc_text("Resolve Vanity"@, "GET"@, "/code/{code}"@,
        "Resolves the vanity for a bot/server in the list"@,
        "(no longer working) [Get Vanity](https://api.fateslist.xyz/docs/redoc#operation/get_vanity)"@,
        examples.resolve_vanity);
    let bot = doc_text("Get Bot"@, "GET"@, "/bots/{id}"@, GET_BOT_DESCRIPTION@,
        "[Fetch Bot](https://api.fateslist.xyz/docs/redoc#operation/fetch_bot)"@,
        examples.get_bot);
    let search = doc_text("Search List"@, "GET"@, "/search?q={query}"@,
        "Searches the list based on a query named ``q``"@,
        "(no longer working) [Fetch Bot](https://api.fateslist.xyz/docs/redoc#operation/search_list)"@,
        examples.search_list);
    let random = doc_text("Random Bot"@, "GET"@, "/random-bot"@, RANDOM_BOT_DESCRIPTION@,
        "(no longer working) [Fetch Random Bot](https://api.fateslist.xyz/api/docs/redoc#operation/fetch_random_bot)"@,
        examples.random_bot);
    let d = documentation(base_response, examples);
    assert(d == preamble + index + vanity + bot + search + random);
    assert(d.subrange(preamble.len() as int, (preamble.len() + index.len()) as int) =~= index);
    assert(d.subrange(
        (preamble.len() + index.len() + vanity.len() + bot.len()) as int,
        (preamble.len() + index.len() + vanity.len() + bot.len() + search.len()) as int,
    ) =~= search);
}

/// The bracketed note that documents a field's type: the type name with
/// `core::option::Option` shown as `Optional ` and `alloc::string::` dropped,
/// or, for an optional string or integer that holds a value, that value as
/// its default.
pub fn _get_value_from(field_type: &str, value: &FieldValue) -> (res: String)
    ensures
        res@ == value_note(field_type@, *value),
{
    proof {
        reveal_strlit("core::option::Option");
        reveal_strlit("alloc::string::");
    }
    let shown = replace_all(field_type, "core::option::Option", "Optional ");
    let mut field_name_ext = replace_all(shown.as_str(), "alloc::string::", "");
    match value {
        FieldValue::OptionalString(Some(v)) => {
            field_name_ext = String::from_str("String? ");
            field_name_ext.append("| default = ");
            field_name_ext.append(v.as_str());
        },
        FieldValue::OptionalI64(Some(v)) => {
            field_name_ext = String::from_str("i64? ");
            field_name_ext.append("| default = ");
            push_signed_decimal(&mut field_name_ext, *v);
        },
        _ => {},
    }
    let mut res = String::from_str("[");
    res.append(field_name_ext.as_str());
    res.append(" (type info may be incomplete, see example)]");
    res
}

/// The Markdown list of the given fields: for each field in order, a line
/// `- **name** note` where the note is that of [`_get_value_from`].
pub fn _get_params(fields: &Vec<FieldInfo>) -> (res: String)
    ensures
        res@ == params_text(fields@),
{
    let mut params_string = String::new();
    let n = fields.len();
    for i in 0..n
        invariant
            n == fields@.len(),
            params_string@ == params_text(fields@.take(i as int)),
    {
        let f = &fields[i];
        params_string.append("- **");
        params_string.append(f.name.as_str());
        params_string.append("** ");
        let field_value = _get_value_from(f.field_type.as_str(), &f.value);
        params_string.append(field_value.as_str());
        params_string.append("\n");
        assert(fields@.take(i + 1).drop_last() =~= fields@.take(i as int));
    }
    assert(fields@.take(n as int) =~= fields@);
    params_string
}

fn params_doc(p: &ParamsExample) -> (res: String)
    ensures
        res@ == params_section(*p),
{
    let mut s = _get_params(&p.fields);
    s.append("\n\n**Example**\n\n```json\n");
    s.append(p.json.as_str());
    s.append("\n```");
    s
}

/// The Markdown documentation of one route: its title, method and path, its
/// description and API v2 analogue, its path and query parameters where
/// their JSON example is longer than two bytes (longer than `{}`), then its
/// request and response bodies.
pub fn doc(route: &Route) -> (res: String)
    ensures
        res@ == route_doc(*route),
{
    let ex = &route.example;
    let query_params_str = params_doc(&ex.query_params);
    let path_params_str = params_doc(&ex.path_params);
    let mut base_doc = String::from_str("## ");
    base_doc.append(route.title.as_str());
    base_doc.append("\n### ");
    base_doc.append(route.method.as_str());
    base_doc.append(" ");
    base_doc.append(route.path.as_str());
    base_doc.append("\n\n");
    base_doc.append(route.description.as_str());
    base_doc.append("\n\n**API v2 analogue:** ");
    base_doc.append(route.equiv_v2_route.as_str());
    if ex.path_params.json.as_str().len() > 2 {
        base_doc.append("\n\n**Path parameters**\n\n");
        base_doc.append(path_params_str.as_str());
    }
    if ex.query_params.json.as_str().len() > 2 {
        base_doc.append("\n\n**Query parameters**\n\n");
        base_doc.append(query_params_str.as_str());
    }
    base_doc.append("\n\n**Request Body**\n\n```json\n");
    base_doc.append(ex.request_body.as_str());
    base_doc.append("\n```\n\n**Response Body**\n\n```json\n");
    base_doc.append(ex.response_body.as_str());
    base_doc.append("\n```\n\n\n");
    base_doc
}

fn append_route_doc(
    docs: &mut String,
    title: &str,
    method: &str,
    path: &str,
    description: &str,
    equiv_v2_route: &str,
    example: RouteExample,
)
    ensures
        final(docs)@ == old(docs)@ + doc_text(
            title@,
            method@,
            path@,
            description@,
            equiv_v2_route@,
            example,
        ),
{
    let route = Route {
        title: String::from_str(title),
        method: String::from_str(method),
        path: String::from_str(path),
        description: String::from_str(description),
        equiv_v2_route: String::from_str(equiv_v2_route),
        example,
    };
    let d = doc(&route);
    docs.append(d.as_str());
}

/// The complete Markdown documentation of API v3: a header, the
/// authorization schemes, the base API response (whose JSON example is
/// `base_response`), then the Index, Resolve Vanity, Get Bot, Search List and
/// Random Bot routes with their examples.
pub fn document_routes(base_response: &str, examples: RouteExamples) -> (res: String)
    ensures
        res@ == documentation(base_response@, examples),
{
    let ghost ex = examples;
    let mut docs = String::from_str(DOCS_HEADER);
    docs.append(AUTHORIZATION_SECTION);
    docs.append(
        "\n## Base Response\n\nA default API Response will be of the below format:\n\n```json\n",
    );
    docs.append(base_response);
    docs.append("\n```\n\n");
    let RouteExamples { index, resolve_vanity, get_bot, search_list, random_bot } = examples;
    append_route_doc(&mut docs, "Index", "GET", "/index", "Returns the index for bots and servers",
        "(no longer working) [Get Index](https://api.fateslist.xyz/docs/redoc#operation/get_index)",
        index);
    append_route_doc(&mut docs, "Resolve Vanity", "GET", "/code/{code}",
        "Resolves the vanity for a bot/server in the list",
        "(no longer working) [Get Vanity](https://api.fateslist.xyz/docs/redoc#operation/get_vanity)",
        resolve_vanity);
    append_route_doc(&mut docs, "Get Bot", "GET", "/bots/{id}", GET_BOT_DESCRIPTION,
        "[Fetch Bot](https://api.fateslist.xyz/docs/redoc#operation/fetch_bot)", get_bot);
    append_route_doc(&mut docs, "Search List", "GET", "/search?q={query}",
        "Searches the list based on a query named ``q``",
        "(no longer working) [Fetch Bot](https://api.fateslist.xyz/docs/redoc#operation/search_list)",
        search_list);
    append_route_doc(&mut docs, "Random Bot", "GET", "/random-bot", RANDOM_BOT_DESCRIPTION,
        "(no longer working) [Fetch Random Bot](https://api.fateslist.xyz/api/docs/redoc#operation/fetch_random_bot)",
        random_bot);
    docs
}

} // verus!
