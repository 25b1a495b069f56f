use fates_api::docs::{
    _get_params, _get_value_from, doc, document_routes, FieldInfo, FieldValue, ParamsExample,
    Route, RouteExample, RouteExamples, AUTHORIZATION_SECTION, DOCS_HEADER, GET_BOT_DESCRIPTION,
    RANDOM_BOT_DESCRIPTION,
};

const NOTE_END: &str = " (type info may be incomplete, see example)]";

fn field(name: &str, field_type: &str, value: FieldValue) -> FieldInfo {
    FieldInfo { name: name.to_string(), field_type: field_type.to_string(), value }
}

fn no_params() -> ParamsExample {
    ParamsExample { fields: vec![], json: "{}".to_string() }
}

fn empty_example() -> RouteExample {
    RouteExample {
        path_params: no_params(),
        query_params: no_params(),
        request_body: "{}".to_string(),
        response_body: "{}".to_string(),
    }
}

#[test]
fn value_note_renames_types() {
    assert_eq!(
        _get_value_from("core::option::Option<alloc::string::String>", &FieldValue::OptionalString(None)),
        format!("[Optional <String>{}", NOTE_END)
    );
    assert_eq!(_get_value_from("alloc::string::String", &FieldValue::Other), format!("[String{}", NOTE_END));
    assert_eq!(_get_value_from("i64", &FieldValue::Other), format!("[i64{}", NOTE_END));
    assert_eq!(
        _get_value_from("core::option::Option<i64>", &FieldValue::OptionalI64(None)),
        format!("[Optional <i64>{}", NOTE_END)
    );
}

#[test]
fn value_note_shows_string_default() {
    assert_eq!(
        _get_value_from(
            "core::option::Option<alloc::string::String>",
            &FieldValue::OptionalString(Some("bot".to_string()))
        ),
        format!("[String? | default = bot{}", NOTE_END)
    );
}

#[test]
fn value_note_shows_integer_default() {
    assert_eq!(
        _get_value_from("core::option::Option<i64>", &FieldValue::OptionalI64(Some(-42))),
        format!("[i64? | default = -42{}", NOTE_END)
    );
    assert_eq!(
        _get_value_from("core::option::Option<i64>", &FieldValue::OptionalI64(Some(i64::MIN))),
        format!("[i64? | default = -9223372036854775808{}", NOTE_END)
    );
}

#[test]
fn params_list_has_one_line_per_field() {
    let fields = vec![
        field("id", "i64", FieldValue::Other),
        field("lang", "core::option::Option<alloc::string::String>", FieldValue::OptionalString(Some("en".to_string()))),
    ];
    assert_eq!(
        _get_params(&fields),
        format!("- **id** [i64{}\n- **lang** [String? | default = en{}\n", NOTE_END, NOTE_END)
    );
    assert_eq!(_get_params(&vec![]), "");
}

#[test]
fn params_of_concatenated_lists_concatenate() {
    let a = vec![field("a", "u8", FieldValue::Other)];
    let b = vec![field("b", "bool", FieldValue::Other), field("c", "i64", FieldValue::OptionalI64(Some(3)))];
    let both = vec![
        field("a", "u8", FieldValue::Other),
        field("b", "bool", FieldValue::Other),
        field("c", "i64", FieldValue::OptionalI64(Some(3))),
    ];
    assert_eq!(_get_params(&both), _get_params(&a) + &_get_params(&b));
}

#[test]
fn doc_without_parameters_has_no_parameter_sections() {
    let route = Route {
        title: "Random Bot".to_string(),
        method: "GET".to_string(),
        path: "/random-bot".to_string(),
        description: "desc".to_string(),
        equiv_v2_route: "v2".to_string(),
        example: RouteExample { response_body: "{\n    \"a\": 1\n}".to_string(), ..empty_example() },
    };
    assert_eq!(
        doc(&route),
        "## Random Bot\n### GET /random-bot\n\ndesc\n\n**API v2 analogue:** v2\n\n**Request Body**\n\n```json\n{}\n```\n\n**Response Body**\n\n```json\n{\n    \"a\": 1\n}\n```\n\n\n"
    );
}

#[test]
fn doc_with_parameters_lists_them_with_example() {
    let path_json = "{\n    \"code\": \"my-vanity\"\n}".to_string();
    let query_json = "{\n    \"q\": \"mew\"\n}".to_string();
    let route = Route {
        title: "T".to_string(),
        method: "GET".to_string(),
        path: "/p".to_string(),
        description: "d".to_string(),
        equiv_v2_route: "e".to_string(),
        example: RouteExample {
            path_params: ParamsExample {
                fields: vec![field("code", "alloc::string::String", FieldValue::Other)],
                json: path_json.clone(),
            },
            query_params: ParamsExample {
                fields: vec![field(
                    "q",
                    "core::option::Option<alloc::string::String>",
                    FieldValue::OptionalString(Some("mew".to_string())),
                )],
                json: query_json.clone(),
            },
            request_body: "{}".to_string(),
            response_body: "{}".to_string(),
        },
    };
    let expected = format!(
        "## T\n### GET /p\n\nd\n\n**API v2 analogue:** e\n\n**Path parameters**\n\n- **code** [String{}\n\n\n**Example**\n\n```json\n{}\n```\n\n**Query parameters**\n\n- **q** [String? | default = mew{}\n\n\n**Example**\n\n```json\n{}\n```\n\n**Request Body**\n\n```json\n{{}}\n```\n\n**Response Body**\n\n```json\n{{}}\n```\n\n\n",
        NOTE_END, path_json, NOTE_END, query_json
    );
    assert_eq!(doc(&route), expected);
}

#[test]
fn short_parameter_json_hides_the_section() {
    // two bytes or fewer: the section is left out even when fields are listed
    let route = Route {
        title: "T".to_string(),
        method: "GET".to_string(),
        path: "/p".to_string(),
        description: "d".to_string(),
        equiv_v2_route: "e".to_string(),
        example: RouteExample {
            path_params: ParamsExample { fields: vec![field("x", "i64", FieldValue::Other)], json: "{}".to_string() },
            ..empty_example()
        },
    };
    assert!(!doc(&route).contains("**Path parameters**"));
    // three bytes, one character: byte length decides
    let route = Route {
        example: RouteExample {
            path_params: ParamsExample { fields: vec![], json: "€".to_string() },
            ..empty_example()
        },
        ..route
    };
    assert!(doc(&route).contains("**Path parameters**"));
}

fn route(title: &str, path: &str, description: &str, equiv: &str) -> Route {
    Route {
        title: title.to_string(),
        method: "GET".to_string(),
        path: path.to_string(),
        description: description.to_string(),
        equiv_v2_route: equiv.to_string(),
        example: empty_example(),
    }
}

#[test]
fn document_routes_documents_every_route_in_order() {
    let examples = RouteExamples {
        index: empty_example(),
        resolve_vanity: empty_example(),
        get_bot: empty_example(),
        search_list: empty_example(),
        random_bot: empty_example(),
    };
    let base = "{\n    \"done\": true\n}";
    let docs = document_routes(base, examples);
    let mut expected = String::from(DOCS_HEADER);
    expected += AUTHORIZATION_SECTION;
    expected += "\n## Base Response\n\nA default API Response will be of the below format:\n\n```json\n";
    expected += base;
    expected += "\n```\n\n";
    expected += &doc(&route("Index", "/index", "Returns the index for bots and servers", "(no longer working) [Get Index](https://api.fateslist.xyz/docs/redoc#operation/get_index)"));
    expected += &doc(&route("Resolve Vanity", "/code/{code}", "Resolves the vanity for a bot/server in the list", "(no longer working) [Get Vanity](https://api.fateslist.xyz/docs/redoc#operation/get_vanity)"));
    expected += &doc(&route("Get Bot", "/bots/{id}", GET_BOT_DESCRIPTION, "[Fetch Bot](https://api.fateslist.xyz/docs/redoc#operation/fetch_bot)"));
    expected += &doc(&route("Search List", "/search?q={query}", "Searches the list based on a query named ``q``", "(no longer working) [Fetch Bot](https://api.fateslist.xyz/docs/redoc#operation/search_list)"));
    expected += &doc(&route("Random Bot", "/random-bot", RANDOM_BOT_DESCRIPTION, "(no longer working) [Fetch Random Bot](https://api.fateslist.xyz/api/docs/redoc#operation/fetch_random_bot)"));
    assert_eq!(docs, expected);
    assert!(docs.starts_with("# API v3\n**API URL**: ``https://next.fateslist.xyz`` (for now, can change in future)\n\n## Authorization\n\n- **Bot:** These endpoints require a bot token. \n"));
    assert!(docs.contains("\n## Index\n### GET /index\n\nReturns the index for bots and servers\n\n**API v2 analogue:** "));
    assert!(docs.ends_with("## Random Bot\n### GET /random-bot\n\n\nFetches a random bot on the list\n\nExample:\n```py\nimport requests\n\ndef random_bot():\n    res = requests.get(api_url\"/random-bot\")\n    json = res.json()\n    if res.status != 200:\n        # Handle an error in the api\n        ...\n    return json\n```\n\n\n**API v2 analogue:** (no longer working) [Fetch Random Bot](https://api.fateslist.xyz/api/docs/redoc#operation/fetch_random_bot)\n\n**Request Body**\n\n```json\n{}\n```\n\n**Response Body**\n\n```json\n{}\n```\n\n\n"));
}
