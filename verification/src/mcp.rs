//! The MCP JSON-RPC server: the tool catalog, the policy and budget gates,
//! request dispatch, and the exact text of every reply line. Reading the
//! request's JSON goes through the opaque accessors of `outside`; every
//! decision and every reply built from plain values is verified.

use vstd::prelude::*;

use crate::json::{
    json_text, lemma_emit_fields_1, lemma_emit_fields_2, lemma_emit_fields_3, lemma_emit_fields_4,
    lemma_emit_fields_6, lemma_emit_items_1, lemma_emit_items_2, lemma_emit_items_3,
    lemma_emit_items_4, lemma_emit_items_6, spec_emit, spec_emit_field, spec_emit_fields,
    spec_emit_items, spec_escape, Json,
};
use crate::outside;
use crate::policy::{
    is_allowed, policy_as_str, remaining_cents, spec_is_allowed, spec_policy_str,
    spec_remaining_cents, BudgetState, PolicyMode,
};
use crate::text::{
    concat2, concat3, dec_rep, dec_rep_int, money_rep, replace_char, spec_replace, str_eq_str,
    strip_trailing, strip_trailing_str, trim_seq, u64_to_string,
};

verus! {

/// One block of a tool reply.
pub struct MCPContent {
    pub content_type: String,
    pub text: String,
}

/// One entry of the tool catalog.
pub struct MCPTool {
    pub name: String,
    pub description: String,
    pub input_schema: Json,
}

/// The server: its policy mode, whether the budget gate is armed, and
/// where the external cost and reliability trackers live.
pub struct MCPServer {
    pub initialized: bool,
    pub policy_mode: PolicyMode,
    pub enforce_budget: bool,
    pub costs_path: String,
    pub reliability_path: String,
}

/// The declared tool names, in catalog order.
pub open spec fn spec_tool_names() -> Seq<Seq<char>> {
    seq![
        "xint_search"@,
        "xint_profile"@,
        "xint_thread"@,
        "xint_tweet"@,
        "xint_trends"@,
        "xint_xsearch"@,
        "xint_collections_list"@,
        "xint_analyze"@,
        "xint_article"@,
        "xint_collections_search"@,
        "xint_bookmarks"@,
        "xint_package_create"@,
        "xint_package_status"@,
        "xint_package_query"@,
        "xint_package_refresh"@,
        "xint_package_search"@,
        "xint_package_publish"@,
        "xint_cache_clear"@,
        "xint_watch"@,
        "xint_diff"@,
        "xint_report"@,
        "xint_sentiment"@,
        "xint_costs"@,
    ]
}

/// The policy level a tool demands: engagement for the tools that act on
/// the caller's behalf, read-only for the rest.
pub open spec fn spec_tool_required_policy(name: Seq<char>) -> PolicyMode {
    if name == "xint_bookmarks"@ || name == "xint_diff"@ || name == "xint_package_publish"@ {
        PolicyMode::Engagement
    } else {
        PolicyMode::ReadOnly
    }
}

/// Whether a tool's work is metered against the daily budget.
pub open spec fn spec_tool_budget_guarded(name: Seq<char>) -> bool {
    ||| name == "xint_search"@
    ||| name == "xint_profile"@
    ||| name == "xint_thread"@
    ||| name == "xint_tweet"@
    ||| name == "xint_trends"@
    ||| name == "xint_xsearch"@
    ||| name == "xint_collections_list"@
    ||| name == "xint_collections_search"@
    ||| name == "xint_analyze"@
    ||| name == "xint_article"@
    ||| name == "xint_bookmarks"@
    ||| name == "xint_watch"@
    ||| name == "xint_diff"@
    ||| name == "xint_report"@
    ||| name == "xint_sentiment"@
    ||| name == "xint_package_create"@
    ||| name == "xint_package_query"@
    ||| name == "xint_package_refresh"@
    ||| name == "xint_package_search"@
    ||| name == "xint_package_publish"@
}

/// How the two gates rule on a call.
pub ghost enum GateModel {
    Allowed,
    PolicyDenied,
    BudgetDenied,
}

/// The gates in order: policy first, whatever the budget holds; then, for
/// metered tools under an armed guard, the budget.
pub open spec fn spec_gate(
    mode: PolicyMode,
    enforce: bool,
    budget: BudgetState,
    name: Seq<char>,
) -> GateModel {
    if !spec_is_allowed(mode, spec_tool_required_policy(name)) {
        GateModel::PolicyDenied
    } else if enforce && spec_tool_budget_guarded(name) && !budget.allowed {
        GateModel::BudgetDenied
    } else {
        GateModel::Allowed
    }
}

/// Policy gate law: a tool whose required mode is stricter than the
/// configured mode is always denied, whatever the budget says.
pub proof fn lemma_policy_gate_unconditional(
    mode: PolicyMode,
    enforce: bool,
    budget: BudgetState,
    name: Seq<char>,
)
    requires
        crate::policy::policy_rank(spec_tool_required_policy(name)) > crate::policy::policy_rank(
            mode,
        ),
    ensures
        spec_gate(mode, enforce, budget, name) is PolicyDenied,
{
}

/// Budget gate law: a metered tool within policy but over budget is denied
/// on the budget, and the remaining amount it reports is the limit minus
/// the spend, clamped, never negative.
pub proof fn lemma_budget_gate_reports_clamped(
    mode: PolicyMode,
    budget: BudgetState,
    name: Seq<char>,
)
    requires
        spec_is_allowed(mode, spec_tool_required_policy(name)),
        spec_tool_budget_guarded(name),
        !budget.allowed,
    ensures
        spec_gate(mode, true, budget, name) is BudgetDenied,
        spec_remaining_cents(budget) >= 0,
        budget.limit_cents >= budget.spent_cents ==> spec_remaining_cents(budget)
            == budget.limit_cents - budget.spent_cents,
        budget.limit_cents < budget.spent_cents ==> spec_remaining_cents(budget) == 0,
{
}

/// The text of a JSON string literal holding `s`.
pub open spec fn str_text(s: Seq<char>) -> Seq<char> {
    seq!['"'] + spec_escape(s) + seq!['"']
}

/// A string value rendered as a JSON string literal.
pub fn json_string(s: &str) -> (r: String)
    ensures
        r@ == str_text(s@),
{
    let v = Json::Str(s.to_owned());
    json_text(&v)
}

/// The `POLICY_DENIED` payload: which tool was refused, under which mode,
/// and which mode it needs.
pub open spec fn spec_policy_denied(mode: PolicyMode, name: Seq<char>) -> Seq<char> {
    let req = spec_policy_str(spec_tool_required_policy(name));
    "{\"code\":\"POLICY_DENIED\",\"message\":"@ + str_text(
        "MCP tool '"@ + name + "' requires '"@ + req + "' policy mode"@,
    ) + ",\"policy_mode\":\""@ + spec_policy_str(mode) + "\",\"required_mode\":\""@ + req
        + "\",\"tool\":"@ + str_text(name) + "}"@
}

pub fn policy_denied_payload(mode: PolicyMode, name: &str) -> (r: String)
    ensures
        r@ == spec_policy_denied(mode, name@),
{
    let required = tool_required_policy_name(name);
    let msg = {
        let mut m = String::from_str("MCP tool '");
        m.append(name);
        m.append("' requires '");
        m.append(policy_as_str(required));
        m.append("' policy mode");
        m
    };
    let mut out = String::from_str("{\"code\":\"POLICY_DENIED\",\"message\":");
    let ms = json_string(msg.as_str());
    out.append(ms.as_str());
    out.append(",\"policy_mode\":\"");
    out.append(policy_as_str(mode));
    out.append("\",\"required_mode\":\"");
    out.append(policy_as_str(required));
    out.append("\",\"tool\":");
    let ns = json_string(name);
    out.append(ns.as_str());
    out.append("}");
    out
}

fn tool_required_policy_name(name: &str) -> (r: PolicyMode)
    ensures
        r == spec_tool_required_policy(name@),
{
    if str_eq_str(name, "xint_bookmarks") || str_eq_str(name, "xint_diff") || str_eq_str(
        name,
        "xint_package_publish",
    ) {
        PolicyMode::Engagement
    } else {
        PolicyMode::ReadOnly
    }
}

/// The `BUDGET_DENIED` payload: the day's spend against its limit, and
/// what remains, clamped at zero.
pub open spec fn spec_budget_denied(budget: BudgetState, name: Seq<char>) -> Seq<char> {
    "{\"code\":\"BUDGET_DENIED\",\"limit_usd\":"@ + money_rep(budget.limit_cents as nat)
        + ",\"message\":"@ + str_text(
        "Daily budget exceeded ($"@ + money_rep(budget.spent_cents as nat) + " / $"@ + money_rep(
            budget.limit_cents as nat,
        ) + ")"@,
    ) + ",\"remaining_usd\":"@ + money_rep(spec_remaining_cents(budget) as nat)
        + ",\"spent_usd\":"@ + money_rep(budget.spent_cents as nat) + ",\"tool\":"@ + str_text(
        name,
    ) + "}"@
}

pub fn budget_denied_payload(budget: &BudgetState, name: &str) -> (r: String)
    ensures
        r@ == spec_budget_denied(*budget, name@),
{
    let spent = crate::text::cents_to_string(budget.spent_cents);
    let limit = crate::text::cents_to_string(budget.limit_cents);
    let rem = crate::text::cents_to_string(remaining_cents(budget));
    let msg = {
        let mut m = String::from_str("Daily budget exceeded ($");
        m.append(spent.as_str());
        m.append(" / $");
        m.append(limit.as_str());
        m.append(")");
        m
    };
    let mut out = String::from_str("{\"code\":\"BUDGET_DENIED\",\"limit_usd\":");
    out.append(limit.as_str());
    out.append(",\"message\":");
    let ms = json_string(msg.as_str());
    out.append(ms.as_str());
    out.append(",\"remaining_usd\":");
    out.append(rem.as_str());
    out.append(",\"spent_usd\":");
    out.append(spent.as_str());
    out.append(",\"tool\":");
    let ns = json_string(name);
    out.append(ns.as_str());
    out.append("}");
    out
}

/// The text of a reply that carries a result.
pub open spec fn spec_rpc_ok(id: Seq<char>, result: Seq<char>) -> Seq<char> {
    "{\"id\":"@ + id + ",\"jsonrpc\":\"2.0\",\"result\":"@ + result + "}"@
}

pub fn rpc_ok(id_text: &str, result: &str) -> (r: String)
    ensures
        r@ == spec_rpc_ok(id_text@, result@),
{
    let mut out = String::from_str("{\"id\":");
    out.append(id_text);
    out.append(",\"jsonrpc\":\"2.0\",\"result\":");
    out.append(result);
    out.append("}");
    out
}

/// The text of a reply that carries an error object.
pub open spec fn spec_rpc_err(id: Seq<char>, code: int, message: Seq<char>) -> Seq<char> {
    "{\"error\":{\"code\":"@ + dec_rep_int(code) + ",\"message\":"@ + str_text(message)
        + "},\"id\":"@ + id + ",\"jsonrpc\":\"2.0\"}"@
}

pub fn rpc_err(id_text: &str, code: i64, message: &str) -> (r: String)
    ensures
        r@ == spec_rpc_err(id_text@, code as int, message@),
{
    let mut out = String::from_str("{\"error\":{\"code\":");
    let c = crate::text::i64_to_string(code);
    out.append(c.as_str());
    out.append(",\"message\":");
    let ms = json_string(message);
    out.append(ms.as_str());
    out.append("},\"id\":");
    out.append(id_text);
    out.append(",\"jsonrpc\":\"2.0\"}");
    out
}

/// The error line written when a message cannot be handled at all: no id,
/// the internal-error code.
pub open spec fn spec_error_line(message: Seq<char>) -> Seq<char> {
    "{\"error\":{\"code\":-32603,\"message\":"@ + str_text(message) + "},\"jsonrpc\":\"2.0\"}"@
}

pub fn error_line(message: &str) -> (r: String)
    ensures
        r@ == spec_error_line(message@),
{
    let mut out = String::from_str("{\"error\":{\"code\":-32603,\"message\":");
    let ms = json_string(message);
    out.append(ms.as_str());
    out.append("},\"jsonrpc\":\"2.0\"}");
    out
}


/// Where a name stands in the catalog, or a step past its end when it does
/// not.
pub open spec fn tool_index(n: Seq<char>) -> int {
    if n == "xint_search"@ {
        0int
    } else if n == "xint_profile"@ {
        1int
    } else if n == "xint_thread"@ {
        2int
    } else if n == "xint_tweet"@ {
        3int
    } else if n == "xint_trends"@ {
        4int
    } else if n == "xint_xsearch"@ {
        5int
    } else if n == "xint_collections_list"@ {
        6int
    } else if n == "xint_analyze"@ {
        7int
    } else if n == "xint_article"@ {
        8int
    } else if n == "xint_collections_search"@ {
        9int
    } else if n == "xint_bookmarks"@ {
        10int
    } else if n == "xint_package_create"@ {
        11int
    } else if n == "xint_package_status"@ {
        12int
    } else if n == "xint_package_query"@ {
        13int
    } else if n == "xint_package_refresh"@ {
        14int
    } else if n == "xint_package_search"@ {
        15int
    } else if n == "xint_package_publish"@ {
        16int
    } else if n == "xint_cache_clear"@ {
        17int
    } else if n == "xint_watch"@ {
        18int
    } else if n == "xint_diff"@ {
        19int
    } else if n == "xint_report"@ {
        20int
    } else if n == "xint_sentiment"@ {
        21int
    } else if n == "xint_costs"@ {
        22int
    } else {
        23int
    }
}

proof fn lemma_tool_index_of(i: int)
    requires
        0 <= i < spec_tool_names().len(),
    ensures
        tool_index(spec_tool_names()[i]) == i,
{
    // Ground the lengths, and one distinguishing character per same-length
    // pair, so each name resolves its own place in the chain.
    reveal_strlit("xint_search");
    reveal_strlit("xint_profile");
    reveal_strlit("xint_thread");
    reveal_strlit("xint_tweet");
    reveal_strlit("xint_trends");
    reveal_strlit("xint_xsearch");
    reveal_strlit("xint_collections_list");
    reveal_strlit("xint_analyze");
    reveal_strlit("xint_article");
    reveal_strlit("xint_collections_search");
    reveal_strlit("xint_bookmarks");
    reveal_strlit("xint_package_create");
    reveal_strlit("xint_package_status");
    reveal_strlit("xint_package_query");
    reveal_strlit("xint_package_refresh");
    reveal_strlit("xint_package_search");
    reveal_strlit("xint_package_publish");
    reveal_strlit("xint_cache_clear");
    reveal_strlit("xint_watch");
    reveal_strlit("xint_diff");
    reveal_strlit("xint_report");
    reveal_strlit("xint_sentiment");
    reveal_strlit("xint_costs");
    assert("xint_search"@.len() == 11);
    assert("xint_profile"@.len() == 12);
    assert("xint_thread"@.len() == 11);
    assert("xint_tweet"@.len() == 10);
    assert("xint_trends"@.len() == 11);
    assert("xint_xsearch"@.len() == 12);
    assert("xint_collections_list"@.len() == 21);
    assert("xint_analyze"@.len() == 12);
    assert("xint_article"@.len() == 12);
    assert("xint_collections_search"@.len() == 23);
    assert("xint_bookmarks"@.len() == 14);
    assert("xint_package_create"@.len() == 19);
    assert("xint_package_status"@.len() == 19);
    assert("xint_package_query"@.len() == 18);
    assert("xint_package_refresh"@.len() == 20);
    assert("xint_package_search"@.len() == 19);
    assert("xint_package_publish"@.len() == 20);
    assert("xint_cache_clear"@.len() == 16);
    assert("xint_watch"@.len() == 10);
    assert("xint_diff"@.len() == 9);
    assert("xint_report"@.len() == 11);
    assert("xint_sentiment"@.len() == 14);
    assert("xint_costs"@.len() == 10);
    assert("xint_search"@[5] == 's');
    assert("xint_thread"@[5] == 't');
    assert("xint_trends"@[5] == 't');
    assert("xint_report"@[5] == 'r');
    assert("xint_profile"@[5] == 'p');
    assert("xint_xsearch"@[5] == 'x');
    assert("xint_analyze"@[5] == 'a');
    assert("xint_article"@[5] == 'a');
    assert("xint_thread"@[6] == 'h');
    assert("xint_trends"@[6] == 'r');
    assert("xint_tweet"@[5] == 't');
    assert("xint_watch"@[5] == 'w');
    assert("xint_costs"@[5] == 'c');
    assert("xint_analyze"@[6] == 'n');
    assert("xint_article"@[6] == 'r');
    assert("xint_bookmarks"@[5] == 'b');
    assert("xint_sentiment"@[5] == 's');
    assert("xint_package_create"@[13] == 'c');
    assert("xint_package_status"@[13] == 's');
    assert("xint_package_search"@[13] == 's');
    assert("xint_package_status"@[14] == 't');
    assert("xint_package_search"@[14] == 'e');
    assert("xint_package_refresh"@[13] == 'r');
    assert("xint_package_publish"@[13] == 'p');
    if i == 0 {
        assert(tool_index(spec_tool_names()[0]) == 0);
    } else if i == 1 {
        assert(tool_index(spec_tool_names()[1]) == 1);
    } else if i == 2 {
        assert(tool_index(spec_tool_names()[2]) == 2);
    } else if i == 3 {
        assert(tool_index(spec_tool_names()[3]) == 3);
    } else if i == 4 {
        assert(tool_index(spec_tool_names()[4]) == 4);
    } else if i == 5 {
        assert(tool_index(spec_tool_names()[5]) == 5);
    } else if i == 6 {
        assert(tool_index(spec_tool_names()[6]) == 6);
    } else if i == 7 {
        assert(tool_index(spec_tool_names()[7]) == 7);
    } else if i == 8 {
        assert(tool_index(spec_tool_names()[8]) == 8);
    } else if i == 9 {
        assert(tool_index(spec_tool_names()[9]) == 9);
    } else if i == 10 {
        assert(tool_index(spec_tool_names()[10]) == 10);
    } else if i == 11 {
        assert(tool_index(spec_tool_names()[11]) == 11);
    } else if i == 12 {
        assert(tool_index(spec_tool_names()[12]) == 12);
    } else if i == 13 {
        assert(tool_index(spec_tool_names()[13]) == 13);
    } else if i == 14 {
        assert(tool_index(spec_tool_names()[14]) == 14);
    } else if i == 15 {
        assert(tool_index(spec_tool_names()[15]) == 15);
    } else if i == 16 {
        assert(tool_index(spec_tool_names()[16]) == 16);
    } else if i == 17 {
        assert(tool_index(spec_tool_names()[17]) == 17);
    } else if i == 18 {
        assert(tool_index(spec_tool_names()[18]) == 18);
    } else if i == 19 {
        assert(tool_index(spec_tool_names()[19]) == 19);
    } else if i == 20 {
        assert(tool_index(spec_tool_names()[20]) == 20);
    } else if i == 21 {
        assert(tool_index(spec_tool_names()[21]) == 21);
    } else if i == 22 {
        assert(tool_index(spec_tool_names()[22]) == 22);
    }
}

/// Catalog law: the declared tool names are pairwise distinct — each is the
/// only one at its index — so the catalog, and with it the `tools/list`
/// reply, names every tool exactly once.
pub proof fn lemma_tool_names_distinct()
    ensures
        forall|i: int, j: int|
            0 <= i < spec_tool_names().len() && 0 <= j < spec_tool_names().len() && i != j
                ==> spec_tool_names()[i] != spec_tool_names()[j],
{
    assert forall|i: int, j: int|
        0 <= i < spec_tool_names().len() && 0 <= j < spec_tool_names().len() && i != j implies
        spec_tool_names()[i] != spec_tool_names()[j] by {
        lemma_tool_index_of(i);
        lemma_tool_index_of(j);
    }
}

/// One object field's text: the key as a JSON string, a colon, the
/// value's text.
pub open spec fn sfield(k: Seq<char>, vtext: Seq<char>) -> Seq<char> {
    seq!['"'] + spec_escape(k) + seq!['"', ':'] + vtext
}

/// An object's text around its comma-joined fields.
pub open spec fn obj_text(fields_text: Seq<char>) -> Seq<char> {
    seq!['{'] + fields_text + seq!['}']
}

/// An array's text around its comma-joined elements.
pub open spec fn arr_text(items_text: Seq<char>) -> Seq<char> {
    seq!['['] + items_text + seq![']']
}

/// A schema property of the given primitive type.
pub open spec fn prop_text(desc: Seq<char>, ty: Seq<char>) -> Seq<char> {
    obj_text(
        sfield("description"@, str_text(desc)) + seq![','] + sfield("type"@, str_text(ty)),
    )
}

/// A string schema property restricted to the given choices.
pub open spec fn enum_prop_text(desc: Seq<char>, opts_text: Seq<char>) -> Seq<char> {
    obj_text(
        sfield("description"@, str_text(desc)) + seq![','] + sfield("enum"@, arr_text(opts_text))
            + seq![','] + sfield("type"@, str_text("string"@)),
    )
}

/// A string schema property restricted to the given choices, with no
/// description of its own.
pub open spec fn enum_bare_text(opts_text: Seq<char>) -> Seq<char> {
    obj_text(
        sfield("enum"@, arr_text(opts_text)) + seq![','] + sfield("type"@, str_text("string"@)),
    )
}

/// A date-time string schema property.
pub open spec fn datetime_prop_text() -> Seq<char> {
    obj_text(
        sfield("format"@, str_text("date-time"@)) + seq![','] + sfield(
            "type"@,
            str_text("string"@),
        ),
    )
}

/// An object schema over its properties, with no required list.
pub open spec fn schema_text(props_text: Seq<char>) -> Seq<char> {
    obj_text(
        sfield("properties"@, obj_text(props_text)) + seq![','] + sfield(
            "type"@,
            str_text("object"@),
        ),
    )
}

/// An object schema over its properties and its required names.
pub open spec fn schema_req_text(props_text: Seq<char>, req_text: Seq<char>) -> Seq<char> {
    obj_text(
        sfield("properties"@, obj_text(props_text)) + seq![','] + sfield(
            "required"@,
            arr_text(req_text),
        ) + seq![','] + sfield("type"@, str_text("object"@)),
    )
}

/// The declared input schema of the search tool, as text.
#[verifier::opaque]
pub open spec fn spec_schema_search() -> Seq<char> {
    schema_req_text(sfield("limit"@, prop_text("Max results (default: 15)"@, "number"@)) + seq![','] + sfield("query"@, prop_text("Search query"@, "string"@)) + seq![','] + sfield("since"@, prop_text("Time filter: 1h, 1d, 7d"@, "string"@)) + seq![','] + sfield("sort"@, enum_prop_text("Sort order"@, str_text("likes"@) + seq![','] + str_text("retweets"@) + seq![','] + str_text("recent"@))), str_text("query"@))
}

/// The declared input schema of the profile tool, as text.
#[verifier::opaque]
pub open spec fn spec_schema_profile() -> Seq<char> {
    schema_req_text(sfield("count"@, prop_text("Number of tweets (default: 20)"@, "number"@)) + seq![','] + sfield("username"@, prop_text("Twitter username (without @)"@, "string"@)), str_text("username"@))
}

/// The declared input schema of the thread tool, as text.
#[verifier::opaque]
pub open spec fn spec_schema_thread() -> Seq<char> {
    schema_req_text(sfield("pages"@, prop_text("Pages to fetch (default: 2)"@, "number"@)) + seq![','] + sfield("tweet_id"@, prop_text("Tweet ID or URL"@, "string"@)), str_text("tweet_id"@))
}

/// The declared input schema of the tweet tool, as text.
#[verifier::opaque]
pub open spec fn spec_schema_tweet() -> Seq<char> {
    schema_req_text(sfield("tweet_id"@, prop_text("Tweet ID or URL"@, "string"@)), str_text("tweet_id"@))
}

/// The declared input schema of the trends tool, as text.
#[verifier::opaque]
pub open spec fn spec_schema_trends() -> Seq<char> {
    schema_text(sfield("limit"@, prop_text("Number of trends (default: 20)"@, "number"@)) + seq![','] + sfield("location"@, prop_text("Location or WOEID (default: worldwide)"@, "string"@)))
}

/// The declared input schema of the xsearch tool, as text.
#[verifier::opaque]
pub open spec fn spec_schema_xsearch() -> Seq<char> {
    schema_req_text(sfield("limit"@, prop_text("Max results (default: 10)"@, "number"@)) + seq![','] + sfield("query"@, prop_text("Search query"@, "string"@)), str_text("query"@))
}

/// The declared input schema of the collections list tool, as text.
#[verifier::opaque]
pub open spec fn spec_schema_collections_list() -> Seq<char> {
    schema_text(Seq::<char>::empty())
}

/// The declared input schema of the analyze tool, as text.
#[verifier::opaque]
pub open spec fn spec_schema_analyze() -> Seq<char> {
    schema_req_text(sfield("model"@, prop_text("Grok model (grok-3-mini, grok-3)"@, "string"@)) + seq![','] + sfield("query"@, prop_text("Question or analysis request"@, "string"@)), str_text("query"@))
}

/// The declared input schema of the article tool, as text.
#[verifier::opaque]
pub open spec fn spec_schema_article() -> Seq<char> {
    schema_req_text(sfield("ai_prompt"@, prop_text("Analyze article with Grok AI - ask a question about the content"@, "string"@)) + seq![','] + sfield("full"@, prop_text("Fetch full content (default: false)"@, "boolean"@)) + seq![','] + sfield("url"@, prop_text("Article URL or X tweet URL to fetch"@, "string"@)), str_text("url"@))
}

/// The declared input schema of the collections search tool, as text.
#[verifier::opaque]
pub open spec fn spec_schema_collections_search() -> Seq<char> {
    schema_req_text(sfield("collection_id"@, prop_text("Collection ID to search in"@, "string"@)) + seq![','] + sfield("limit"@, prop_text("Max results (default: 5)"@, "number"@)) + seq![','] + sfield("query"@, prop_text("Search query"@, "string"@)), str_text("collection_id"@) + seq![','] + str_text("query"@))
}

/// The declared input schema of the bookmarks tool, as text.
#[verifier::opaque]
pub open spec fn spec_schema_bookmarks() -> Seq<char> {
    schema_text(sfield("limit"@, prop_text("Max bookmarks (default: 20)"@, "number"@)) + seq![','] + sfield("since"@, prop_text("Filter by recency: 1h, 1d, 7d"@, "string"@)))
}

/// The declared input schema of the package create tool, as text.
#[verifier::opaque]
pub open spec fn spec_schema_package_create() -> Seq<char> {
    schema_req_text(
        sfield(
            "analysis_profile"@,
            enum_bare_text(
                str_text("summary"@) + seq![','] + str_text("analyst"@) + seq![','] + str_text(
                    "forensic"@,
                ),
            ),
        ) + seq![','] + sfield("name"@, prop_text("Human-readable package name"@, "string"@))
            + seq![','] + sfield(
            "policy"@,
            enum_bare_text(str_text("private"@) + seq![','] + str_text("shared_candidate"@)),
        ) + seq![','] + sfield(
            "sources"@,
            obj_text(
                sfield("description"@, str_text("Data sources to ingest"@)) + seq![','] + sfield(
                    "items"@,
                    enum_bare_text(
                        str_text("x_api_v2"@) + seq![','] + str_text("xai_search"@) + seq![',']
                            + str_text("web_article"@),
                    ),
                ) + seq![','] + sfield("type"@, str_text("array"@)),
            ),
        ) + seq![','] + sfield(
            "time_window"@,
            schema_req_text(
                sfield("from"@, datetime_prop_text()) + seq![','] + sfield(
                    "to"@,
                    datetime_prop_text(),
                ),
                str_text("from"@) + seq![','] + str_text("to"@),
            ),
        ) + seq![','] + sfield(
            "topic_query"@,
            prop_text("Topic query used for ingest and refresh"@, "string"@),
        ),
        str_text("name"@) + seq![','] + str_text("topic_query"@) + seq![','] + str_text(
            "sources"@,
        ) + seq![','] + str_text("time_window"@) + seq![','] + str_text("policy"@) + seq![',']
            + str_text("analysis_profile"@),
    )
}

/// The declared input schema of the package status tool, as text.
#[verifier::opaque]
pub open spec fn spec_schema_package_status() -> Seq<char> {
    schema_req_text(sfield("package_id"@, prop_text("Package identifier (pkg_*)"@, "string"@)), str_text("package_id"@))
}

/// The declared input schema of the package query tool, as text.
#[verifier::opaque]
pub open spec fn spec_schema_package_query() -> Seq<char> {
    schema_req_text(sfield("max_claims"@, prop_text("Maximum number of claims (default: 10)"@, "number"@)) + seq![','] + sfield("package_ids"@, obj_text(sfield("description"@, str_text("Package IDs included in retrieval scope"@)) + seq![','] + sfield("items"@, obj_text(sfield("type"@, str_text("string"@)))) + seq![','] + sfield("type"@, str_text("array"@)))) + seq![','] + sfield("query"@, prop_text("Question to ask over package memory"@, "string"@)) + seq![','] + sfield("require_citations"@, prop_text("Require citations in response (default: true)"@, "boolean"@)), str_text("query"@) + seq![','] + str_text("package_ids"@))
}

/// The declared input schema of the package refresh tool, as text.
#[verifier::opaque]
pub open spec fn spec_schema_package_refresh() -> Seq<char> {
    schema_req_text(
        sfield("package_id"@, prop_text("Package identifier"@, "string"@)) + seq![','] + sfield(
            "reason"@,
            enum_bare_text(
                str_text("ttl"@) + seq![','] + str_text("manual"@) + seq![','] + str_text(
                    "event"@,
                ),
            ),
        ),
        str_text("package_id"@) + seq![','] + str_text("reason"@),
    )
}

/// The declared input schema of the package search tool, as text.
#[verifier::opaque]
pub open spec fn spec_schema_package_search() -> Seq<char> {
    schema_req_text(sfield("limit"@, prop_text("Max packages to return (default: 20)"@, "number"@)) + seq![','] + sfield("query"@, prop_text("Search query for package catalog"@, "string"@)), str_text("query"@))
}

/// The declared input schema of the package publish tool, as text.
#[verifier::opaque]
pub open spec fn spec_schema_package_publish() -> Seq<char> {
    schema_req_text(sfield("package_id"@, prop_text("Package identifier"@, "string"@)) + seq![','] + sfield("snapshot_version"@, prop_text("Snapshot version to publish"@, "number"@)), str_text("package_id"@) + seq![','] + str_text("snapshot_version"@))
}

/// The declared input schema of the cache clear tool, as text.
#[verifier::opaque]
pub open spec fn spec_schema_cache_clear() -> Seq<char> {
    schema_text(Seq::<char>::empty())
}

/// The declared input schema of the watch tool, as text.
#[verifier::opaque]
pub open spec fn spec_schema_watch() -> Seq<char> {
    schema_req_text(sfield("limit"@, prop_text("Max tweets per check (default: 10)"@, "number"@)) + seq![','] + sfield("query"@, prop_text("Search query to monitor"@, "string"@)) + seq![','] + sfield("since"@, prop_text("Time window: 1h, 1d (default: 1h)"@, "string"@)), str_text("query"@))
}

/// The declared input schema of the diff tool, as text.
#[verifier::opaque]
pub open spec fn spec_schema_diff() -> Seq<char> {
    schema_req_text(sfield("following"@, prop_text("Track following instead of followers (default: false)"@, "boolean"@)) + seq![','] + sfield("username"@, prop_text("Twitter username to track"@, "string"@)), str_text("username"@))
}

/// The declared input schema of the report tool, as text.
#[verifier::opaque]
pub open spec fn spec_schema_report() -> Seq<char> {
    schema_req_text(sfield("model"@, prop_text("Grok model (default: grok-3-mini)"@, "string"@)) + seq![','] + sfield("pages"@, prop_text("Search pages (default: 2)"@, "number"@)) + seq![','] + sfield("sentiment"@, prop_text("Include sentiment analysis (default: false)"@, "boolean"@)) + seq![','] + sfield("topic"@, prop_text("Report topic or query"@, "string"@)), str_text("topic"@))
}

/// The declared input schema of the sentiment tool, as text.
#[verifier::opaque]
pub open spec fn spec_schema_sentiment() -> Seq<char> {
    schema_req_text(sfield("tweets"@, obj_text(sfield("description"@, str_text("Array of tweets to analyze"@)) + seq![','] + sfield("type"@, str_text("array"@)))), str_text("tweets"@))
}

/// The declared input schema of the costs tool, as text.
#[verifier::opaque]
pub open spec fn spec_schema_costs() -> Seq<char> {
    schema_text(sfield("period"@, enum_prop_text("Time period (default: today)"@, str_text("today"@) + seq![','] + str_text("week"@) + seq![','] + str_text("month"@) + seq![','] + str_text("all"@))))
}

/// The declared tool descriptions, in catalog order.
pub open spec fn spec_tool_descriptions() -> Seq<Seq<char>> {
    seq![
        "Search recent tweets on X/Twitter with advanced filters"@,
        "Get recent tweets from a specific X/Twitter user"@,
        "Get full conversation thread from a tweet"@,
        "Get a single tweet by ID"@,
        "Get trending topics on X"@,
        "Search X using xAI's Grok x-search for AI-powered results"@,
        "List all xAI Collections knowledge base collections"@,
        "Analyze tweets or answer questions using Grok AI"@,
        "Fetch and extract content from a URL article. Also supports X tweet URLs - extracts linked article automatically. Use ai_prompt to analyze with Grok."@,
        "Search within an xAI Collections knowledge base"@,
        "Get your bookmarked tweets (requires OAuth)"@,
        "Create an agent memory package ingest job (v1 draft contract)"@,
        "Get package metadata and freshness (v1 draft contract)"@,
        "Query one or more packages and return claims with citations (v1 draft contract)"@,
        "Trigger package refresh and create a new snapshot (v1 draft contract)"@,
        "Search private and shared package catalog (v1 draft contract)"@,
        "Publish a package snapshot to shared catalog (v1 draft contract)"@,
        "Clear the xint search cache"@,
        "Monitor X in real-time with polling. Returns new tweets since last check."@,
        "Track follower/following changes for a user"@,
        "Generate an AI-powered intelligence report on a topic"@,
        "Analyze sentiment of tweets"@,
        "Get API cost tracking information"@,
    ]
}

/// The declared input schemas, in catalog order, as emitted text.
pub open spec fn spec_tool_schemas() -> Seq<Seq<char>> {
    seq![
        spec_schema_search(),
        spec_schema_profile(),
        spec_schema_thread(),
        spec_schema_tweet(),
        spec_schema_trends(),
        spec_schema_xsearch(),
        spec_schema_collections_list(),
        spec_schema_analyze(),
        spec_schema_article(),
        spec_schema_collections_search(),
        spec_schema_bookmarks(),
        spec_schema_package_create(),
        spec_schema_package_status(),
        spec_schema_package_query(),
        spec_schema_package_refresh(),
        spec_schema_package_search(),
        spec_schema_package_publish(),
        spec_schema_cache_clear(),
        spec_schema_watch(),
        spec_schema_diff(),
        spec_schema_report(),
        spec_schema_sentiment(),
        spec_schema_costs(),
    ]
}

fn kv(k: &str, v: Json) -> (r: (String, Json))
    ensures
        r.0@ == k@,
        r.1 == v,
        spec_emit_field(r) == sfield(k@, spec_emit(v)),
{
    (k.to_owned(), v)
}

fn jstr(s: &str) -> (r: Json)
    ensures
        spec_emit(r) == str_text(s@),
{
    Json::Str(s.to_owned())
}

fn prop(desc: &str, ty: &str) -> (r: Json)
    ensures
        spec_emit(r) == prop_text(desc@, ty@),
{
    let fields = vec![kv("description", jstr(desc)), kv("type", jstr(ty))];
    proof {
        lemma_emit_fields_2(fields@);
    }
    Json::Obj(fields)
}

fn prop_s(desc: &str) -> (r: Json)
    ensures
        spec_emit(r) == prop_text(desc@, "string"@),
{
    prop(desc, "string")
}

fn prop_n(desc: &str) -> (r: Json)
    ensures
        spec_emit(r) == prop_text(desc@, "number"@),
{
    prop(desc, "number")
}

fn prop_b(desc: &str) -> (r: Json)
    ensures
        spec_emit(r) == prop_text(desc@, "boolean"@),
{
    prop(desc, "boolean")
}

fn prop_enum(desc: &str, opts: Vec<Json>) -> (r: Json)
    ensures
        spec_emit(r) == enum_prop_text(desc@, spec_emit_items(opts@)),
{
    let ghost ov = opts@;
    let fields = vec![
        kv("description", jstr(desc)),
        kv("enum", Json::Arr(opts)),
        kv("type", jstr("string")),
    ];
    proof {
        lemma_emit_fields_3(fields@);
    }
    Json::Obj(fields)
}

fn prop_enum_bare(opts: Vec<Json>) -> (r: Json)
    ensures
        spec_emit(r) == enum_bare_text(spec_emit_items(opts@)),
{
    let ghost ov = opts@;
    let fields = vec![kv("enum", Json::Arr(opts)), kv("type", jstr("string"))];
    proof {
        lemma_emit_fields_2(fields@);
    }
    Json::Obj(fields)
}

fn prop_datetime() -> (r: Json)
    ensures
        spec_emit(r) == datetime_prop_text(),
{
    let fields = vec![kv("format", jstr("date-time")), kv("type", jstr("string"))];
    proof {
        lemma_emit_fields_2(fields@);
    }
    Json::Obj(fields)
}

fn schema_of(props: Vec<(String, Json)>) -> (r: Json)
    ensures
        spec_emit(r) == schema_text(spec_emit_fields(props@)),
{
    let ghost pv = props@;
    let fields = vec![kv("properties", Json::Obj(props)), kv("type", jstr("object"))];
    proof {
        lemma_emit_fields_2(fields@);
    }
    Json::Obj(fields)
}

fn schema_req(props: Vec<(String, Json)>, required: Vec<Json>) -> (r: Json)
    ensures
        spec_emit(r) == schema_req_text(spec_emit_fields(props@), spec_emit_items(required@)),
{
    let ghost pv = props@;
    let ghost rv = required@;
    let fields = vec![
        kv("properties", Json::Obj(props)),
        kv("required", Json::Arr(required)),
        kv("type", jstr("object")),
    ];
    proof {
        lemma_emit_fields_3(fields@);
    }
    Json::Obj(fields)
}

fn tool(name: &str, description: &str, input_schema: Json) -> (t: MCPTool)
    ensures
        t.name@ == name@,
        t.description@ == description@,
        t.input_schema == input_schema,
{
    MCPTool { name: name.to_owned(), description: description.to_owned(), input_schema }
}

fn tool_search() -> (t: MCPTool)
    ensures
        t.name@ == "xint_search"@,
        t.description@ == "Search recent tweets on X/Twitter with advanced filters"@,
        spec_emit(t.input_schema) == spec_schema_search(),
{
    proof { reveal(spec_schema_search); }
    let opts_sort = vec![jstr("likes"), jstr("retweets"), jstr("recent")];
    proof { lemma_emit_items_3(opts_sort@); }
    let props = vec![
        kv("limit", prop_n("Max results (default: 15)")),
        kv("query", prop_s("Search query")),
        kv("since", prop_s("Time filter: 1h, 1d, 7d")),
        kv("sort", prop_enum("Sort order", opts_sort)),
    ];
    proof { lemma_emit_fields_4(props@); }
    let req = vec![jstr("query")];
    proof { lemma_emit_items_1(req@); }
    tool("xint_search", "Search recent tweets on X/Twitter with advanced filters", schema_req(props, req))
}

fn tool_profile() -> (t: MCPTool)
    ensures
        t.name@ == "xint_profile"@,
        t.description@ == "Get recent tweets from a specific X/Twitter user"@,
        spec_emit(t.input_schema) == spec_schema_profile(),
{
    proof { reveal(spec_schema_profile); }
    let props = vec![
        kv("count", prop_n("Number of tweets (default: 20)")),
        kv("username", prop_s("Twitter username (without @)")),
    ];
    proof { lemma_emit_fields_2(props@); }
    let req = vec![jstr("username")];
    proof { lemma_emit_items_1(req@); }
    tool("xint_profile", "Get recent tweets from a specific X/Twitter user", schema_req(props, req))
}

fn tool_thread() -> (t: MCPTool)
    ensures
        t.name@ == "xint_thread"@,
        t.description@ == "Get full conversation thread from a tweet"@,
        spec_emit(t.input_schema) == spec_schema_thread(),
{
    proof { reveal(spec_schema_thread); }
    let props = vec![
        kv("pages", prop_n("Pages to fetch (default: 2)")),
        kv("tweet_id", prop_s("Tweet ID or URL")),
    ];
    proof { lemma_emit_fields_2(props@); }
    let req = vec![jstr("tweet_id")];
    proof { lemma_emit_items_1(req@); }
    tool("xint_thread", "Get full conversation thread from a tweet", schema_req(props, req))
}

fn tool_tweet() -> (t: MCPTool)
    ensures
        t.name@ == "xint_tweet"@,
        t.description@ == "Get a single tweet by ID"@,
        spec_emit(t.input_schema) == spec_schema_tweet(),
{
    proof { reveal(spec_schema_tweet); }
    let props = vec![
        kv("tweet_id", prop_s("Tweet ID or URL")),
    ];
    proof { lemma_emit_fields_1(props@); }
    let req = vec![jstr("tweet_id")];
    proof { lemma_emit_items_1(req@); }
    tool("xint_tweet", "Get a single tweet by ID", schema_req(props, req))
}

fn tool_trends() -> (t: MCPTool)
    ensures
        t.name@ == "xint_trends"@,
        t.description@ == "Get trending topics on X"@,
        spec_emit(t.input_schema) == spec_schema_trends(),
{
    proof { reveal(spec_schema_trends); }
    let props = vec![
        kv("limit", prop_n("Number of trends (default: 20)")),
        kv("location", prop_s("Location or WOEID (default: worldwide)")),
    ];
    proof { lemma_emit_fields_2(props@); }
    tool("xint_trends", "Get trending topics on X", schema_of(props))
}

fn tool_xsearch() -> (t: MCPTool)
    ensures
        t.name@ == "xint_xsearch"@,
        t.description@ == "Search X using xAI's Grok x-search for AI-powered results"@,
        spec_emit(t.input_schema) == spec_schema_xsearch(),
{
    proof { reveal(spec_schema_xsearch); }
    let props = vec![
        kv("limit", prop_n("Max results (default: 10)")),
        kv("query", prop_s("Search query")),
    ];
    proof { lemma_emit_fields_2(props@); }
    let req = vec![jstr("query")];
    proof { lemma_emit_items_1(req@); }
    tool("xint_xsearch", "Search X using xAI's Grok x-search for AI-powered results", schema_req(props, req))
}

fn tool_collections_list() -> (t: MCPTool)
    ensures
        t.name@ == "xint_collections_list"@,
        t.description@ == "List all xAI Collections knowledge base collections"@,
        spec_emit(t.input_schema) == spec_schema_collections_list(),
{
    proof { reveal(spec_schema_collections_list); }
    let props: Vec<(String, Json)> = Vec::new();
    proof { assert(props@ =~= Seq::<(String, Json)>::empty()); }
    tool("xint_collections_list", "List all xAI Collections knowledge base collections", schema_of(props))
}

fn tool_analyze() -> (t: MCPTool)
    ensures
        t.name@ == "xint_analyze"@,
        t.description@ == "Analyze tweets or answer questions using Grok AI"@,
        spec_emit(t.input_schema) == spec_schema_analyze(),
{
    proof { reveal(spec_schema_analyze); }
    let props = vec![
        kv("model", prop_s("Grok model (grok-3-mini, grok-3)")),
        kv("query", prop_s("Question or analysis request")),
    ];
    proof { lemma_emit_fields_2(props@); }
    let req = vec![jstr("query")];
    proof { lemma_emit_items_1(req@); }
    tool("xint_analyze", "Analyze tweets or answer questions using Grok AI", schema_req(props, req))
}

fn tool_article() -> (t: MCPTool)
    ensures
        t.name@ == "xint_article"@,
        t.description@ == "Fetch and extract content from a URL article. Also supports X tweet URLs - extracts linked article automatically. Use ai_prompt to analyze with Grok."@,
        spec_emit(t.input_schema) == spec_schema_article(),
{
    proof { reveal(spec_schema_article); }
    let props = vec![
        kv("ai_prompt", prop_s("Analyze article with Grok AI - ask a question about the content")),
        kv("full", prop_b("Fetch full content (default: false)")),
        kv("url", prop_s("Article URL or X tweet URL to fetch")),
    ];
    proof { lemma_emit_fields_3(props@); }
    let req = vec![jstr("url")];
    proof { lemma_emit_items_1(req@); }
    tool("xint_article", "Fetch and extract content from a URL article. Also supports X tweet URLs - extracts linked article automatically. Use ai_prompt to analyze with Grok.", schema_req(props, req))
}

fn tool_collections_search() -> (t: MCPTool)
    ensures
        t.name@ == "xint_collections_search"@,
        t.description@ == "Search within an xAI Collections knowledge base"@,
        spec_emit(t.input_schema) == spec_schema_collections_search(),
{
    proof { reveal(spec_schema_collections_search); }
    let props = vec![
        kv("collection_id", prop_s("Collection ID to search in")),
        kv("limit", prop_n("Max results (default: 5)")),
        kv("query", prop_s("Search query")),
    ];
    proof { lemma_emit_fields_3(props@); }
    let req = vec![jstr("collection_id"), jstr("query")];
    proof { lemma_emit_items_2(req@); }
    tool("xint_collections_search", "Search within an xAI Collections knowledge base", schema_req(props, req))
}

fn tool_bookmarks() -> (t: MCPTool)
    ensures
        t.name@ == "xint_bookmarks"@,
        t.description@ == "Get your bookmarked tweets (requires OAuth)"@,
        spec_emit(t.input_schema) == spec_schema_bookmarks(),
{
    proof { reveal(spec_schema_bookmarks); }
    let props = vec![
        kv("limit", prop_n("Max bookmarks (default: 20)")),
        kv("since", prop_s("Filter by recency: 1h, 1d, 7d")),
    ];
    proof { lemma_emit_fields_2(props@); }
    tool("xint_bookmarks", "Get your bookmarked tweets (requires OAuth)", schema_of(props))
}

fn tool_package_create() -> (t: MCPTool)
    ensures
        t.name@ == "xint_package_create"@,
        t.description@ == "Create an agent memory package ingest job (v1 draft contract)"@,
        spec_emit(t.input_schema) == spec_schema_package_create(),
{
    proof { reveal(spec_schema_package_create); }
    let opts_analysis_profile = vec![jstr("summary"), jstr("analyst"), jstr("forensic")];
    proof { lemma_emit_items_3(opts_analysis_profile@); }
    let opts_policy = vec![jstr("private"), jstr("shared_candidate")];
    proof { lemma_emit_items_2(opts_policy@); }
    let src_opts = vec![jstr("x_api_v2"), jstr("xai_search"), jstr("web_article")];
    proof { lemma_emit_items_3(src_opts@); }
    let src_fields = vec![
        kv("description", jstr("Data sources to ingest")),
        kv("items", prop_enum_bare(src_opts)),
        kv("type", jstr("array")),
    ];
    proof { lemma_emit_fields_3(src_fields@); }
    let sources_prop = Json::Obj(src_fields);
    let win_props = vec![
        kv("from", prop_datetime()),
        kv("to", prop_datetime()),
    ];
    proof { lemma_emit_fields_2(win_props@); }
    let win_req = vec![jstr("from"), jstr("to")];
    proof { lemma_emit_items_2(win_req@); }
    let window_prop = schema_req(win_props, win_req);
    let props = vec![
        kv("analysis_profile", prop_enum_bare(opts_analysis_profile)),
        kv("name", prop_s("Human-readable package name")),
        kv("policy", prop_enum_bare(opts_policy)),
        kv("sources", sources_prop),
        kv("time_window", window_prop),
        kv("topic_query", prop_s("Topic query used for ingest and refresh")),
    ];
    proof { lemma_emit_fields_6(props@); }
    let req = vec![jstr("name"), jstr("topic_query"), jstr("sources"), jstr("time_window"), jstr("policy"), jstr("analysis_profile")];
    proof { lemma_emit_items_6(req@); }
    tool("xint_package_create", "Create an agent memory package ingest job (v1 draft contract)", schema_req(props, req))
}

fn tool_package_status() -> (t: MCPTool)
    ensures
        t.name@ == "xint_package_status"@,
        t.description@ == "Get package metadata and freshness (v1 draft contract)"@,
        spec_emit(t.input_schema) == spec_schema_package_status(),
{
    proof { reveal(spec_schema_package_status); }
    let props = vec![
        kv("package_id", prop_s("Package identifier (pkg_*)")),
    ];
    proof { lemma_emit_fields_1(props@); }
    let req = vec![jstr("package_id")];
    proof { lemma_emit_items_1(req@); }
    tool("xint_package_status", "Get package metadata and freshness (v1 draft contract)", schema_req(props, req))
}

fn tool_package_query() -> (t: MCPTool)
    ensures
        t.name@ == "xint_package_query"@,
        t.description@ == "Query one or more packages and return claims with citations (v1 draft contract)"@,
        spec_emit(t.input_schema) == spec_schema_package_query(),
{
    proof { reveal(spec_schema_package_query); }
    let ids_item = vec![kv("type", jstr("string"))];
    proof { lemma_emit_fields_1(ids_item@); }
    let ids_fields = vec![
        kv("description", jstr("Package IDs included in retrieval scope")),
        kv("items", Json::Obj(ids_item)),
        kv("type", jstr("array")),
    ];
    proof { lemma_emit_fields_3(ids_fields@); }
    let ids_prop = Json::Obj(ids_fields);
    let props = vec![
        kv("max_claims", prop_n("Maximum number of claims (default: 10)")),
        kv("package_ids", ids_prop),
        kv("query", prop_s("Question to ask over package memory")),
        kv("require_citations", prop_b("Require citations in response (default: true)")),
    ];
    proof { lemma_emit_fields_4(props@); }
    let req = vec![jstr("query"), jstr("package_ids")];
    proof { lemma_emit_items_2(req@); }
    tool("xint_package_query", "Query one or more packages and return claims with citations (v1 draft contract)", schema_req(props, req))
}

fn tool_package_refresh() -> (t: MCPTool)
    ensures
        t.name@ == "xint_package_refresh"@,
        t.description@ == "Trigger package refresh and create a new snapshot (v1 draft contract)"@,
        spec_emit(t.input_schema) == spec_schema_package_refresh(),
{
    proof { reveal(spec_schema_package_refresh); }
    let opts_reason = vec![jstr("ttl"), jstr("manual"), jstr("event")];
    proof { lemma_emit_items_3(opts_reason@); }
    let props = vec![
        kv("package_id", prop_s("Package identifier")),
        kv("reason", prop_enum_bare(opts_reason)),
    ];
    proof { lemma_emit_fields_2(props@); }
    let req = vec![jstr("package_id"), jstr("reason")];
    proof { lemma_emit_items_2(req@); }
    tool("xint_package_refresh", "Trigger package refresh and create a new snapshot (v1 draft contract)", schema_req(props, req))
}

fn tool_package_search() -> (t: MCPTool)
    ensures
        t.name@ == "xint_package_search"@,
        t.description@ == "Search private and shared package catalog (v1 draft contract)"@,
        spec_emit(t.input_schema) == spec_schema_package_search(),
{
    proof { reveal(spec_schema_package_search); }
    let props = vec![
        kv("limit", prop_n("Max packages to return (default: 20)")),
        kv("query", prop_s("Search query for package catalog")),
    ];
    proof { lemma_emit_fields_2(props@); }
    let req = vec![jstr("query")];
    proof { lemma_emit_items_1(req@); }
    tool("xint_package_search", "Search private and shared package catalog (v1 draft contract)", schema_req(props, req))
}

fn tool_package_publish() -> (t: MCPTool)
    ensures
        t.name@ == "xint_package_publish"@,
        t.description@ == "Publish a package snapshot to shared catalog (v1 draft contract)"@,
        spec_emit(t.input_schema) == spec_schema_package_publish(),
{
    proof { reveal(spec_schema_package_publish); }
    let props = vec![
        kv("package_id", prop_s("Package identifier")),
        kv("snapshot_version", prop_n("Snapshot version to publish")),
    ];
    proof { lemma_emit_fields_2(props@); }
    let req = vec![jstr("package_id"), jstr("snapshot_version")];
    proof { lemma_emit_items_2(req@); }
    tool("xint_package_publish", "Publish a package snapshot to shared catalog (v1 draft contract)", schema_req(props, req))
}

fn tool_cache_clear() -> (t: MCPTool)
    ensures
        t.name@ == "xint_cache_clear"@,
        t.description@ == "Clear the xint search cache"@,
        spec_emit(t.input_schema) == spec_schema_cache_clear(),
{
    proof { reveal(spec_schema_cache_clear); }
    let props: Vec<(String, Json)> = Vec::new();
    proof { assert(props@ =~= Seq::<(String, Json)>::empty()); }
    tool("xint_cache_clear", "Clear the xint search cache", schema_of(props))
}

fn tool_watch() -> (t: MCPTool)
    ensures
        t.name@ == "xint_watch"@,
        t.description@ == "Monitor X in real-time with polling. Returns new tweets since last check."@,
        spec_emit(t.input_schema) == spec_schema_watch(),
{
    proof { reveal(spec_schema_watch); }
    let props = vec![
        kv("limit", prop_n("Max tweets per check (default: 10)")),
        kv("query", prop_s("Search query to monitor")),
        kv("since", prop_s("Time window: 1h, 1d (default: 1h)")),
    ];
    proof { lemma_emit_fields_3(props@); }
    let req = vec![jstr("query")];
    proof { lemma_emit_items_1(req@); }
    tool("xint_watch", "Monitor X in real-time with polling. Returns new tweets since last check.", schema_req(props, req))
}

fn tool_diff() -> (t: MCPTool)
    ensures
        t.name@ == "xint_diff"@,
        t.description@ == "Track follower/following changes for a user"@,
        spec_emit(t.input_schema) == spec_schema_diff(),
{
    proof { reveal(spec_schema_diff); }
    let props = vec![
        kv("following", prop_b("Track following instead of followers (default: false)")),
        kv("username", prop_s("Twitter username to track")),
    ];
    proof { lemma_emit_fields_2(props@); }
    let req = vec![jstr("username")];
    proof { lemma_emit_items_1(req@); }
    tool("xint_diff", "Track follower/following changes for a user", schema_req(props, req))
}

fn tool_report() -> (t: MCPTool)
    ensures
        t.name@ == "xint_report"@,
        t.description@ == "Generate an AI-powered intelligence report on a topic"@,
        spec_emit(t.input_schema) == spec_schema_report(),
{
    proof { reveal(spec_schema_report); }
    let props = vec![
        kv("model", prop_s("Grok model (default: grok-3-mini)")),
        kv("pages", prop_n("Search pages (default: 2)")),
        kv("sentiment", prop_b("Include sentiment analysis (default: false)")),
        kv("topic", prop_s("Report topic or query")),
    ];
    proof { lemma_emit_fields_4(props@); }
    let req = vec![jstr("topic")];
    proof { lemma_emit_items_1(req@); }
    tool("xint_report", "Generate an AI-powered intelligence report on a topic", schema_req(props, req))
}

fn tool_sentiment() -> (t: MCPTool)
    ensures
        t.name@ == "xint_sentiment"@,
        t.description@ == "Analyze sentiment of tweets"@,
        spec_emit(t.input_schema) == spec_schema_sentiment(),
{
    proof { reveal(spec_schema_sentiment); }
    let tw_fields = vec![
        kv("description", jstr("Array of tweets to analyze")),
        kv("type", jstr("array")),
    ];
    proof { lemma_emit_fields_2(tw_fields@); }
    let tweets_prop = Json::Obj(tw_fields);
    let props = vec![
        kv("tweets", tweets_prop),
    ];
    proof { lemma_emit_fields_1(props@); }
    let req = vec![jstr("tweets")];
    proof { lemma_emit_items_1(req@); }
    tool("xint_sentiment", "Analyze sentiment of tweets", schema_req(props, req))
}

fn tool_costs() -> (t: MCPTool)
    ensures
        t.name@ == "xint_costs"@,
        t.description@ == "Get API cost tracking information"@,
        spec_emit(t.input_schema) == spec_schema_costs(),
{
    proof { reveal(spec_schema_costs); }
    let opts_period = vec![jstr("today"), jstr("week"), jstr("month"), jstr("all")];
    proof { lemma_emit_items_4(opts_period@); }
    let props = vec![
        kv("period", prop_enum("Time period (default: today)", opts_period)),
    ];
    proof { lemma_emit_fields_1(props@); }
    tool("xint_costs", "Get API cost tracking information", schema_of(props))
}

impl MCPServer {
    /// A server that has not yet seen `initialize`, with the given policy
    /// mode and budget arming, and the tracker locations the caller reads
    /// budgets from.
    pub fn new(
        policy_mode: PolicyMode,
        enforce_budget: bool,
        costs_path: String,
        reliability_path: String,
    ) -> (s: Self)
        ensures
            !s.initialized,
            s.policy_mode == policy_mode,
            s.enforce_budget == enforce_budget,
            s.costs_path == costs_path,
            s.reliability_path == reliability_path,
    {
        MCPServer { initialized: false, policy_mode, enforce_budget, costs_path, reliability_path }
    }

    /// The policy level a tool demands.
    pub fn tool_required_policy(name: &str) -> (r: PolicyMode)
        ensures
            r == spec_tool_required_policy(name@),
    {
        tool_required_policy_name(name)
    }

    /// Whether a tool's work is metered against the daily budget.
    pub fn tool_budget_guarded(name: &str) -> (r: bool)
        ensures
            r == spec_tool_budget_guarded(name@),
    {
        str_eq_str(name, "xint_search") || str_eq_str(name, "xint_profile") || str_eq_str(
            name,
            "xint_thread",
        ) || str_eq_str(name, "xint_tweet") || str_eq_str(name, "xint_trends") || str_eq_str(
            name,
            "xint_xsearch",
        ) || str_eq_str(name, "xint_collections_list") || str_eq_str(
            name,
            "xint_collections_search",
        ) || str_eq_str(name, "xint_analyze") || str_eq_str(name, "xint_article") || str_eq_str(
            name,
            "xint_bookmarks",
        ) || str_eq_str(name, "xint_watch") || str_eq_str(name, "xint_diff") || str_eq_str(
            name,
            "xint_report",
        ) || str_eq_str(name, "xint_sentiment") || str_eq_str(name, "xint_package_create")
            || str_eq_str(name, "xint_package_query") || str_eq_str(name, "xint_package_refresh")
            || str_eq_str(name, "xint_package_search") || str_eq_str(name, "xint_package_publish")
    }

    /// The policy gate: a tool demanding a stricter mode than the server's
    /// is refused with the exact denial payload.
    pub fn ensure_tool_allowed(&self, name: &str) -> (r: Result<(), String>)
        ensures
            (r is Ok) <==> spec_is_allowed(self.policy_mode, spec_tool_required_policy(name@)),
            r matches Err(p) ==> p@ == spec_policy_denied(self.policy_mode, name@),
    {
        let required = tool_required_policy_name(name);
        if is_allowed(self.policy_mode, required) {
            Ok(())
        } else {
            Err(policy_denied_payload(self.policy_mode, name))
        }
    }

    /// The budget gate: with the guard armed, a metered tool is refused
    /// while the day's budget is spent, with the exact denial payload.
    pub fn ensure_budget_allowed(&self, name: &str, budget: &BudgetState) -> (r: Result<
        (),
        String,
    >)
        ensures
            (r is Ok) <==> !(self.enforce_budget && spec_tool_budget_guarded(name@)
                && !budget.allowed),
            r matches Err(p) ==> p@ == spec_budget_denied(*budget, name@),
    {
        if self.enforce_budget && MCPServer::tool_budget_guarded(name) && !budget.allowed {
            Err(budget_denied_payload(budget, name))
        } else {
            Ok(())
        }
    }

    /// Which gate refuses the call, if one does; the refusal carries the
    /// exact denial payload that becomes the error message.
    pub fn gate_tool(&self, budget: &BudgetState, name: &str) -> (g: Option<String>)
        ensures
            (g is None) <==> (spec_gate(self.policy_mode, self.enforce_budget, *budget, name@)
                is Allowed),
            spec_gate(self.policy_mode, self.enforce_budget, *budget, name@) is PolicyDenied ==> (
            g matches Some(p) && p@ == spec_policy_denied(self.policy_mode, name@)),
            spec_gate(self.policy_mode, self.enforce_budget, *budget, name@) is BudgetDenied ==> (
            g matches Some(p) && p@ == spec_budget_denied(*budget, name@)),
    {
        match self.ensure_tool_allowed(name) {
            Err(p) => Some(p),
            Ok(()) => match self.ensure_budget_allowed(name, budget) {
                Err(p) => Some(p),
                Ok(()) => None,
            },
        }
    }

    /// The declared tool catalog, in order: every entry's name,
    /// description and emitted input schema is pinned to the spec catalog.
    #[verifier::rlimit(100)]
    #[verifier::spinoff_prover]
    pub fn get_tools() -> (v: Vec<MCPTool>)
        ensures
            v@.len() == spec_tool_names().len(),
            forall|i: int| 0 <= i < v@.len() ==> (#[trigger] v@[i]).name@ == spec_tool_names()[i],
            forall|i: int|
                0 <= i < v@.len() ==> (#[trigger] v@[i]).description@
                    == spec_tool_descriptions()[i],
            forall|i: int|
                0 <= i < v@.len() ==> spec_emit((#[trigger] v@[i]).input_schema)
                    == spec_tool_schemas()[i],
    {
        let mut v: Vec<MCPTool> = Vec::new();
        v.push(tool_search());
        v.push(tool_profile());
        v.push(tool_thread());
        v.push(tool_tweet());
        v.push(tool_trends());
        v.push(tool_xsearch());
        v.push(tool_collections_list());
        v.push(tool_analyze());
        v.push(tool_article());
        v.push(tool_collections_search());
        v.push(tool_bookmarks());
        v.push(tool_package_create());
        v.push(tool_package_status());
        v.push(tool_package_query());
        v.push(tool_package_refresh());
        v.push(tool_package_search());
        v.push(tool_package_publish());
        v.push(tool_cache_clear());
        v.push(tool_watch());
        v.push(tool_diff());
        v.push(tool_report());
        v.push(tool_sentiment());
        v.push(tool_costs());
        proof {
            assert(spec_tool_schemas()[0] == spec_schema_search());
            assert(v@[0].name@ == spec_tool_names()[0] && v@[0].description@
                == spec_tool_descriptions()[0] && spec_emit(v@[0].input_schema)
                == spec_tool_schemas()[0]);
            assert(spec_tool_schemas()[1] == spec_schema_profile());
            assert(v@[1].name@ == spec_tool_names()[1] && v@[1].description@
                == spec_tool_descriptions()[1] && spec_emit(v@[1].input_schema)
                == spec_tool_schemas()[1]);
            assert(spec_tool_schemas()[2] == spec_schema_thread());
            assert(v@[2].name@ == spec_tool_names()[2] && v@[2].description@
                == spec_tool_descriptions()[2] && spec_emit(v@[2].input_schema)
                == spec_tool_schemas()[2]);
            assert(spec_tool_schemas()[3] == spec_schema_tweet());
            assert(v@[3].name@ == spec_tool_names()[3] && v@[3].description@
                == spec_tool_descriptions()[3] && spec_emit(v@[3].input_schema)
                == spec_tool_schemas()[3]);
            assert(spec_tool_schemas()[4] == spec_schema_trends());
            assert(v@[4].name@ == spec_tool_names()[4] && v@[4].description@
                == spec_tool_descriptions()[4] && spec_emit(v@[4].input_schema)
                == spec_tool_schemas()[4]);
            assert(spec_tool_schemas()[5] == spec_schema_xsearch());
            assert(v@[5].name@ == spec_tool_names()[5] && v@[5].description@
                == spec_tool_descriptions()[5] && spec_emit(v@[5].input_schema)
                == spec_tool_schemas()[5]);
            assert(spec_tool_schemas()[6] == spec_schema_collections_list());
            assert(v@[6].name@ == spec_tool_names()[6] && v@[6].description@
                == spec_tool_descriptions()[6] && spec_emit(v@[6].input_schema)
                == spec_tool_schemas()[6]);
            assert(spec_tool_schemas()[7] == spec_schema_analyze());
            assert(v@[7].name@ == spec_tool_names()[7] && v@[7].description@
                == spec_tool_descriptions()[7] && spec_emit(v@[7].input_schema)
                == spec_tool_schemas()[7]);
            assert(spec_tool_schemas()[8] == spec_schema_article());
            assert(v@[8].name@ == spec_tool_names()[8] && v@[8].description@
                == spec_tool_descriptions()[8] && spec_emit(v@[8].input_schema)
                == spec_tool_schemas()[8]);
            assert(spec_tool_schemas()[9] == spec_schema_collections_search());
            assert(v@[9].name@ == spec_tool_names()[9] && v@[9].description@
                == spec_tool_descriptions()[9] && spec_emit(v@[9].input_schema)
                == spec_tool_schemas()[9]);
            assert(spec_tool_schemas()[10] == spec_schema_bookmarks());
            assert(v@[10].name@ == spec_tool_names()[10] && v@[10].description@
                == spec_tool_descriptions()[10] && spec_emit(v@[10].input_schema)
                == spec_tool_schemas()[10]);
            assert(spec_tool_schemas()[11] == spec_schema_package_create());
            assert(v@[11].name@ == spec_tool_names()[11] && v@[11].description@
                == spec_tool_descriptions()[11] && spec_emit(v@[11].input_schema)
                == spec_tool_schemas()[11]);
            assert(spec_tool_schemas()[12] == spec_schema_package_status());
            assert(v@[12].name@ == spec_tool_names()[12] && v@[12].description@
                == spec_tool_descriptions()[12] && spec_emit(v@[12].input_schema)
                == spec_tool_schemas()[12]);
            assert(spec_tool_schemas()[13] == spec_schema_package_query());
            assert(v@[13].name@ == spec_tool_names()[13] && v@[13].description@
                == spec_tool_descriptions()[13] && spec_emit(v@[13].input_schema)
                == spec_tool_schemas()[13]);
            assert(spec_tool_schemas()[14] == spec_schema_package_refresh());
            assert(v@[14].name@ == spec_tool_names()[14] && v@[14].description@
                == spec_tool_descriptions()[14] && spec_emit(v@[14].input_schema)
                == spec_tool_schemas()[14]);
            assert(spec_tool_schemas()[15] == spec_schema_package_search());
            assert(v@[15].name@ == spec_tool_names()[15] && v@[15].description@
                == spec_tool_descriptions()[15] && spec_emit(v@[15].input_schema)
                == spec_tool_schemas()[15]);
            assert(spec_tool_schemas()[16] == spec_schema_package_publish());
            assert(v@[16].name@ == spec_tool_names()[16] && v@[16].description@
                == spec_tool_descriptions()[16] && spec_emit(v@[16].input_schema)
                == spec_tool_schemas()[16]);
            assert(spec_tool_schemas()[17] == spec_schema_cache_clear());
            assert(v@[17].name@ == spec_tool_names()[17] && v@[17].description@
                == spec_tool_descriptions()[17] && spec_emit(v@[17].input_schema)
                == spec_tool_schemas()[17]);
            assert(spec_tool_schemas()[18] == spec_schema_watch());
            assert(v@[18].name@ == spec_tool_names()[18] && v@[18].description@
                == spec_tool_descriptions()[18] && spec_emit(v@[18].input_schema)
                == spec_tool_schemas()[18]);
            assert(spec_tool_schemas()[19] == spec_schema_diff());
            assert(v@[19].name@ == spec_tool_names()[19] && v@[19].description@
                == spec_tool_descriptions()[19] && spec_emit(v@[19].input_schema)
                == spec_tool_schemas()[19]);
            assert(spec_tool_schemas()[20] == spec_schema_report());
            assert(v@[20].name@ == spec_tool_names()[20] && v@[20].description@
                == spec_tool_descriptions()[20] && spec_emit(v@[20].input_schema)
                == spec_tool_schemas()[20]);
            assert(spec_tool_schemas()[21] == spec_schema_sentiment());
            assert(v@[21].name@ == spec_tool_names()[21] && v@[21].description@
                == spec_tool_descriptions()[21] && spec_emit(v@[21].input_schema)
                == spec_tool_schemas()[21]);
            assert(spec_tool_schemas()[22] == spec_schema_costs());
            assert(v@[22].name@ == spec_tool_names()[22] && v@[22].description@
                == spec_tool_descriptions()[22] && spec_emit(v@[22].input_schema)
                == spec_tool_schemas()[22]);
        }
        v
    }
}


/// A tool name the catalog declares.
pub open spec fn known_tool(name: Seq<char>) -> bool {
    ||| name == "xint_search"@
    ||| name == "xint_profile"@
    ||| name == "xint_thread"@
    ||| name == "xint_tweet"@
    ||| name == "xint_trends"@
    ||| name == "xint_xsearch"@
    ||| name == "xint_collections_list"@
    ||| name == "xint_analyze"@
    ||| name == "xint_article"@
    ||| name == "xint_collections_search"@
    ||| name == "xint_bookmarks"@
    ||| name == "xint_package_create"@
    ||| name == "xint_package_status"@
    ||| name == "xint_package_query"@
    ||| name == "xint_package_refresh"@
    ||| name == "xint_package_search"@
    ||| name == "xint_package_publish"@
    ||| name == "xint_cache_clear"@
    ||| name == "xint_watch"@
    ||| name == "xint_diff"@
    ||| name == "xint_report"@
    ||| name == "xint_sentiment"@
    ||| name == "xint_costs"@
}


/// The flat list of known tool names is exactly the catalog's: a call is
/// dispatched if and only if its name stands in the catalog.
pub proof fn lemma_known_tool_matches_catalog(name: Seq<char>)
    ensures
        known_tool(name) <==> spec_tool_names().contains(name),
{
    let s = spec_tool_names();
    assert(s[0] == "xint_search"@);
    assert(s[1] == "xint_profile"@);
    assert(s[2] == "xint_thread"@);
    assert(s[3] == "xint_tweet"@);
    assert(s[4] == "xint_trends"@);
    assert(s[5] == "xint_xsearch"@);
    assert(s[6] == "xint_collections_list"@);
    assert(s[7] == "xint_analyze"@);
    assert(s[8] == "xint_article"@);
    assert(s[9] == "xint_collections_search"@);
    assert(s[10] == "xint_bookmarks"@);
    assert(s[11] == "xint_package_create"@);
    assert(s[12] == "xint_package_status"@);
    assert(s[13] == "xint_package_query"@);
    assert(s[14] == "xint_package_refresh"@);
    assert(s[15] == "xint_package_search"@);
    assert(s[16] == "xint_package_publish"@);
    assert(s[17] == "xint_cache_clear"@);
    assert(s[18] == "xint_watch"@);
    assert(s[19] == "xint_diff"@);
    assert(s[20] == "xint_report"@);
    assert(s[21] == "xint_sentiment"@);
    assert(s[22] == "xint_costs"@);
    if known_tool(name) {
        assert(s.contains(name));
    }
    if s.contains(name) {
        let k = choose|k: int| 0 <= k < s.len() && s[k] == name;
        lemma_tool_index_of(k);
        assert(tool_index(name) == k);
        assert(known_tool(name));
    }
}

/// A tool name that forwards to the package API.
pub open spec fn package_tool(name: Seq<char>) -> bool {
    ||| name == "xint_package_create"@
    ||| name == "xint_package_status"@
    ||| name == "xint_package_query"@
    ||| name == "xint_package_refresh"@
    ||| name == "xint_package_search"@
    ||| name == "xint_package_publish"@
}



/// An HTTP method of the package API.
pub enum HttpMethod {
    Get,
    Post,
}

/// One request the caller must make of the package API.
pub struct ApiRequest {
    pub method: HttpMethod,
    pub path: String,
    pub body: Option<String>,
}

/// A `tools/call` waiting on the package API.
pub struct PendingCall {
    pub id_text: String,
    pub name: String,
}

/// What came back from the package API, or why nothing could.
pub enum ApiOutcome {
    /// A reply arrived, whatever its status.
    Response { status: u16, body: String },
    /// The base URL is not configured.
    NoBaseUrl,
    /// The request never completed; the transport's description.
    SendFailed(String),
    /// The reply's body could not be read; the transport's description.
    BodyFailed(String),
}

/// What one tool call comes to.
pub enum ToolOutcome {
    /// The reply's content blocks.
    Content(Vec<MCPContent>),
    /// The package API must be asked first.
    Api(ApiRequest),
    /// The tool call failed with this message.
    Fail(String),
}

/// One tool call's outcome, for the reliability tracker the caller feeds:
/// the operation key and whether the call succeeded.
pub struct CallRecord {
    pub op: String,
    pub success: bool,
}

/// The reliability key under which a tool's outcomes are recorded.
pub fn reliability_op(name: &str) -> (r: String)
    ensures
        r@ == "mcp:"@ + name@,
{
    concat2("mcp:", name)
}

/// What the event loop must do with one request line.
pub enum ServerStep {
    /// Write this reply line.
    Reply(String),
    /// Write this reply line to a tool call, and record its outcome.
    ToolReply(String, CallRecord),
    /// Write nothing.
    Silent,
    /// Perform the API request, then finish with `finish_package_call`.
    CallApi(ApiRequest, PendingCall),
}

/// The text of one content block with the given type tag and text.
pub open spec fn spec_content_kv(ty: Seq<char>, text: Seq<char>) -> Seq<char> {
    "{\"type\":"@ + str_text(ty) + ",\"text\":"@ + str_text(text) + "}"@
}

/// The text of one content block.
pub open spec fn spec_content_text(c: MCPContent) -> Seq<char> {
    spec_content_kv(c.content_type@, c.text@)
}

/// The result object of a reply that carries one text block.
pub open spec fn spec_one_text_result(text: Seq<char>) -> Seq<char> {
    "{\"content\":["@ + spec_content_kv("text"@, text) + "]}"@
}

/// The comma-separated texts of the content blocks.
pub open spec fn spec_contents_text(items: Seq<MCPContent>) -> Seq<char>
    decreases items,
{
    if items.len() == 0 {
        Seq::empty()
    } else if items.len() == 1 {
        spec_content_text(items.last())
    } else {
        spec_contents_text(items.drop_last()) + seq![','] + spec_content_text(items.last())
    }
}

/// The result object of a successful tool call.
pub open spec fn spec_contents_result(items: Seq<MCPContent>) -> Seq<char> {
    "{\"content\":["@ + spec_contents_text(items) + "]}"@
}

fn content_text(c: &MCPContent) -> (r: String)
    ensures
        r@ == spec_content_text(*c),
{
    let mut out = String::from_str("{\"type\":");
    let t = json_string(c.content_type.as_str());
    out.append(t.as_str());
    out.append(",\"text\":");
    let x = json_string(c.text.as_str());
    out.append(x.as_str());
    out.append("}");
    out
}

/// The result object of a successful tool call, as text.
pub fn contents_result(items: &Vec<MCPContent>) -> (r: String)
    ensures
        r@ == spec_contents_result(items@),
{
    let mut out = String::from_str("{\"content\":[");
    let mut i: usize = 0;
    while i < items.len()
        invariant
            i <= items@.len(),
            out@ == "{\"content\":["@ + spec_contents_text(items@.take(i as int)),
        decreases items@.len() - i,
    {
        if i > 0 {
            out.append(",");
        }
        let t = content_text(&items[i]);
        out.append(t.as_str());
        proof {
            reveal_strlit(",");
            assert(","@ =~= seq![',']);
            assert(items@.take(i + 1).drop_last() =~= items@.take(i as int));
            assert(items@.take(i + 1).last() == items@[i as int]);
            assert(out@ =~= "{\"content\":["@ + spec_contents_text(items@.take(i + 1)));
        }
        i = i + 1;
    }
    out.append("]}");
    proof {
        assert(items@.take(items@.len() as int) =~= items@);
        assert(out@ =~= spec_contents_result(items@));
    }
    out
}

/// The text of one catalog entry.
pub open spec fn spec_tool_text(t: MCPTool) -> Seq<char> {
    "{\"name\":"@ + str_text(t.name@) + ",\"description\":"@ + str_text(t.description@)
        + ",\"inputSchema\":"@ + spec_emit(t.input_schema) + "}"@
}

/// The comma-separated texts of the catalog.
pub open spec fn spec_tools_text(tools: Seq<MCPTool>) -> Seq<char>
    decreases tools,
{
    if tools.len() == 0 {
        Seq::empty()
    } else if tools.len() == 1 {
        spec_tool_text(tools.last())
    } else {
        spec_tools_text(tools.drop_last()) + seq![','] + spec_tool_text(tools.last())
    }
}

fn tool_text(t: &MCPTool) -> (r: String)
    ensures
        r@ == spec_tool_text(*t),
{
    let mut out = String::from_str("{\"name\":");
    let n = json_string(t.name.as_str());
    out.append(n.as_str());
    out.append(",\"description\":");
    let d = json_string(t.description.as_str());
    out.append(d.as_str());
    out.append(",\"inputSchema\":");
    let sch = json_text(&t.input_schema);
    out.append(sch.as_str());
    out.append("}");
    out
}

/// The `tools/list` result object, listing the whole catalog in order.
pub fn tools_result_text(tools: &Vec<MCPTool>) -> (r: String)
    ensures
        r@ == "{\"tools\":["@ + spec_tools_text(tools@) + "]}"@,
{
    let mut out = String::from_str("{\"tools\":[");
    let mut i: usize = 0;
    while i < tools.len()
        invariant
            i <= tools@.len(),
            out@ == "{\"tools\":["@ + spec_tools_text(tools@.take(i as int)),
        decreases tools@.len() - i,
    {
        if i > 0 {
            out.append(",");
        }
        let t = tool_text(&tools[i]);
        out.append(t.as_str());
        proof {
            reveal_strlit(",");
            assert(","@ =~= seq![',']);
            assert(tools@.take(i + 1).drop_last() =~= tools@.take(i as int));
            assert(tools@.take(i + 1).last() == tools@[i as int]);
            assert(out@ =~= "{\"tools\":["@ + spec_tools_text(tools@.take(i + 1)));
        }
        i = i + 1;
    }
    out.append("]}");
    proof {
        assert(tools@.take(tools@.len() as int) =~= tools@);
    }
    out
}

/// The `initialize` result object.
pub open spec fn spec_init_result() -> Seq<char> {
    "{\"capabilities\":{\"tools\":{}},\"protocolVersion\":\"2024-11-05\",\"serverInfo\":{\"name\":\"xint\",\"version\":\"1.0.0\"}}"@
}

fn init_result_text() -> (r: String)
    ensures
        r@ == spec_init_result(),
{
    String::from_str(
        "{\"capabilities\":{\"tools\":{}},\"protocolVersion\":\"2024-11-05\",\"serverInfo\":{\"name\":\"xint\",\"version\":\"1.0.0\"}}",
    )
}

/// One text content block.
fn text_content(text: String) -> (r: Vec<MCPContent>)
    ensures
        r@.len() == 1,
        r@[0].content_type@ == "text"@,
        r@[0].text@ == text@,
{
    let mut v: Vec<MCPContent> = Vec::new();
    v.push(MCPContent { content_type: "text".to_owned(), text });
    v
}

/// The catalog's names, entry by entry.
pub proof fn lemma_tool_names_catalog()
    ensures
        spec_tool_names()[0] == "xint_search"@,
        spec_tool_names()[1] == "xint_profile"@,
        spec_tool_names()[2] == "xint_thread"@,
        spec_tool_names()[3] == "xint_tweet"@,
        spec_tool_names()[4] == "xint_trends"@,
        spec_tool_names()[5] == "xint_xsearch"@,
        spec_tool_names()[6] == "xint_collections_list"@,
        spec_tool_names()[7] == "xint_analyze"@,
        spec_tool_names()[8] == "xint_article"@,
        spec_tool_names()[9] == "xint_collections_search"@,
        spec_tool_names()[10] == "xint_bookmarks"@,
        spec_tool_names()[11] == "xint_package_create"@,
        spec_tool_names()[12] == "xint_package_status"@,
        spec_tool_names()[13] == "xint_package_query"@,
        spec_tool_names()[14] == "xint_package_refresh"@,
        spec_tool_names()[15] == "xint_package_search"@,
        spec_tool_names()[16] == "xint_package_publish"@,
        spec_tool_names()[17] == "xint_cache_clear"@,
        spec_tool_names()[18] == "xint_watch"@,
        spec_tool_names()[19] == "xint_diff"@,
        spec_tool_names()[20] == "xint_report"@,
        spec_tool_names()[21] == "xint_sentiment"@,
        spec_tool_names()[22] == "xint_costs"@,
{
}

/// The outcome is exactly one text content block holding `text`.
pub open spec fn one_text_reply(r: ToolOutcome, text: Seq<char>) -> bool {
    match r {
        ToolOutcome::Content(items) => items@.len() == 1 && items@[0].content_type@ == "text"@
            && items@[0].text@ == text,
        _ => false,
    }
}

/// The outcome is a failure carrying exactly this message.
pub open spec fn fails_with(r: ToolOutcome, m: Seq<char>) -> bool {
    match r {
        ToolOutcome::Fail(msg) => msg@ == m,
        _ => false,
    }
}

/// One text content block as a tool's whole reply.
fn text_reply(text: String) -> (r: ToolOutcome)
    ensures
        r matches ToolOutcome::Content(items) && items@.len() == 1 && items@[0].content_type@
            == "text"@ && items@[0].text@ == text@,
{
    ToolOutcome::Content(text_content(text))
}

/// The search stub's reply: the query is required, the limit defaults to
/// fifteen.
pub fn stub_search(query: Option<String>, limit: Option<u64>) -> (r: ToolOutcome)
    ensures
        query is None ==> (r matches ToolOutcome::Fail(m) && m@ == "Missing query"@),
        query matches Some(q) ==> (r matches ToolOutcome::Content(items) && items@.len() == 1
            && items@[0].content_type@ == "text"@ && items@[0].text@ == "Search: "@ + q@
            + " (limit: "@ + dec_rep(
            (match limit {
                Some(l) => l,
                None => 15,
            }) as nat,
        ) + ")"@),
{
    match query {
        None => ToolOutcome::Fail("Missing query".to_owned()),
        Some(q) => {
            let l = match limit {
                Some(l) => l,
                None => 15,
            };
            let mut text = String::from_str("Search: ");
            text.append(q.as_str());
            text.append(" (limit: ");
            let ls = u64_to_string(l);
            text.append(ls.as_str());
            text.append(")");
            text_reply(text)
        }
    }
}

/// The profile stub's reply: the username is required.
pub fn stub_profile(username: Option<String>) -> (r: ToolOutcome)
    ensures
        username is None ==> (r matches ToolOutcome::Fail(m) && m@ == "Missing username"@),
        username matches Some(u) ==> (r matches ToolOutcome::Content(items) && items@.len() == 1
            && items@[0].content_type@ == "text"@ && items@[0].text@ == "Profile: @"@ + u@),
{
    match username {
        None => ToolOutcome::Fail("Missing username".to_owned()),
        Some(u) => text_reply(concat2("Profile: @", u.as_str())),
    }
}

/// The thread stub's reply: the tweet reference is required.
pub fn stub_thread(tweet_id: Option<String>) -> (r: ToolOutcome)
    ensures
        tweet_id is None ==> (r matches ToolOutcome::Fail(m) && m@ == "Missing tweet_id"@),
        tweet_id matches Some(t) ==> (r matches ToolOutcome::Content(items) && items@.len() == 1
            && items@[0].content_type@ == "text"@ && items@[0].text@ == "Thread for tweet: "@
            + t@),
{
    match tweet_id {
        None => ToolOutcome::Fail("Missing tweet_id".to_owned()),
        Some(t) => text_reply(concat2("Thread for tweet: ", t.as_str())),
    }
}

/// The single-tweet stub's reply: the tweet reference is required.
pub fn stub_tweet(tweet_id: Option<String>) -> (r: ToolOutcome)
    ensures
        tweet_id is None ==> (r matches ToolOutcome::Fail(m) && m@ == "Missing tweet_id"@),
        tweet_id matches Some(t) ==> (r matches ToolOutcome::Content(items) && items@.len() == 1
            && items@[0].content_type@ == "text"@ && items@[0].text@ == "Tweet: "@ + t@),
{
    match tweet_id {
        None => ToolOutcome::Fail("Missing tweet_id".to_owned()),
        Some(t) => text_reply(concat2("Tweet: ", t.as_str())),
    }
}

/// The trends stub's reply: the location defaults to worldwide.
pub fn stub_trends(location: Option<String>) -> (r: ToolOutcome)
    ensures
        r matches ToolOutcome::Content(items) && items@.len() == 1 && items@[0].content_type@
            == "text"@ && items@[0].text@ == "Trends for: "@ + (match location {
            Some(l) => l@,
            None => "worldwide"@,
        }),
{
    match location {
        Some(l) => text_reply(concat2("Trends for: ", l.as_str())),
        None => text_reply(concat2("Trends for: ", "worldwide")),
    }
}

/// The AI-search stub's reply: the query is required.
pub fn stub_xsearch(query: Option<String>) -> (r: ToolOutcome)
    ensures
        query is None ==> (r matches ToolOutcome::Fail(m) && m@ == "Missing query"@),
        query matches Some(q) ==> (r matches ToolOutcome::Content(items) && items@.len() == 1
            && items@[0].content_type@ == "text"@ && items@[0].text@ == "X-Search: "@ + q@),
{
    match query {
        None => ToolOutcome::Fail("Missing query".to_owned()),
        Some(q) => text_reply(concat2("X-Search: ", q.as_str())),
    }
}

/// The analysis stub's reply: the query is required.
pub fn stub_analyze(query: Option<String>) -> (r: ToolOutcome)
    ensures
        query is None ==> (r matches ToolOutcome::Fail(m) && m@ == "Missing query"@),
        query matches Some(q) ==> (r matches ToolOutcome::Content(items) && items@.len() == 1
            && items@[0].content_type@ == "text"@ && items@[0].text@ == "Analysis: "@ + q@),
{
    match query {
        None => ToolOutcome::Fail("Missing query".to_owned()),
        Some(q) => text_reply(concat2("Analysis: ", q.as_str())),
    }
}

/// The article stub's reply: the URL is required.
pub fn stub_article(url: Option<String>) -> (r: ToolOutcome)
    ensures
        url is None ==> (r matches ToolOutcome::Fail(m) && m@ == "Missing url"@),
        url matches Some(u) ==> (r matches ToolOutcome::Content(items) && items@.len() == 1
            && items@[0].content_type@ == "text"@ && items@[0].text@ == "Article: "@ + u@),
{
    match url {
        None => ToolOutcome::Fail("Missing url".to_owned()),
        Some(u) => text_reply(concat2("Article: ", u.as_str())),
    }
}

/// The collections-search stub's reply: the collection and the query are
/// required, in that order.
pub fn stub_collections_search(collection_id: Option<String>, query: Option<String>) -> (r:
    ToolOutcome)
    ensures
        collection_id is None ==> (r matches ToolOutcome::Fail(m) && m@
            == "Missing collection_id"@),
        collection_id is Some && query is None ==> (r matches ToolOutcome::Fail(m) && m@
            == "Missing query"@),
        collection_id matches Some(c) ==> (query matches Some(q) ==> (r matches
            ToolOutcome::Content(items) && items@.len() == 1 && items@[0].content_type@ == "text"@
            && items@[0].text@ == "Collections search in "@ + c@ + ": "@ + q@)),
{
    match collection_id {
        None => ToolOutcome::Fail("Missing collection_id".to_owned()),
        Some(c) => match query {
            None => ToolOutcome::Fail("Missing query".to_owned()),
            Some(q) => {
                let mut text = String::from_str("Collections search in ");
                text.append(c.as_str());
                text.append(": ");
                text.append(q.as_str());
                text_reply(text)
            }
        },
    }
}

/// The watch stub's reply: the query is required.
pub fn stub_watch(query: Option<String>) -> (r: ToolOutcome)
    ensures
        query is None ==> (r matches ToolOutcome::Fail(m) && m@ == "Missing query"@),
        query matches Some(q) ==> (r matches ToolOutcome::Content(items) && items@.len() == 1
            && items@[0].content_type@ == "text"@ && items@[0].text@ == "Watch: "@ + q@
            + " (use CLI for real-time monitoring)"@),
{
    match query {
        None => ToolOutcome::Fail("Missing query".to_owned()),
        Some(q) => text_reply(concat3("Watch: ", q.as_str(), " (use CLI for real-time monitoring)")),
    }
}

/// The follower-diff stub's reply: the username is required.
pub fn stub_diff(username: Option<String>) -> (r: ToolOutcome)
    ensures
        username is None ==> (r matches ToolOutcome::Fail(m) && m@ == "Missing username"@),
        username matches Some(u) ==> (r matches ToolOutcome::Content(items) && items@.len() == 1
            && items@[0].content_type@ == "text"@ && items@[0].text@ == "Diff tracking for @"@
            + u@),
{
    match username {
        None => ToolOutcome::Fail("Missing username".to_owned()),
        Some(u) => text_reply(concat2("Diff tracking for @", u.as_str())),
    }
}

/// The report stub's reply: the topic is required.
pub fn stub_report(topic: Option<String>) -> (r: ToolOutcome)
    ensures
        topic is None ==> (r matches ToolOutcome::Fail(m) && m@ == "Missing topic"@),
        topic matches Some(t) ==> (r matches ToolOutcome::Content(items) && items@.len() == 1
            && items@[0].content_type@ == "text"@ && items@[0].text@ == "Report on: "@ + t@
            + " (requires XAI_API_KEY)"@),
{
    match topic {
        None => ToolOutcome::Fail("Missing topic".to_owned()),
        Some(t) => text_reply(concat3("Report on: ", t.as_str(), " (requires XAI_API_KEY)")),
    }
}

/// The cost-tracking stub's reply: the period defaults to today.
pub fn stub_costs(period: Option<String>) -> (r: ToolOutcome)
    ensures
        r matches ToolOutcome::Content(items) && items@.len() == 1 && items@[0].content_type@
            == "text"@ && items@[0].text@ == "Cost tracking for period: "@ + (match period {
            Some(p) => p@,
            None => "today"@,
        }),
{
    match period {
        Some(p) => text_reply(concat2("Cost tracking for period: ", p.as_str())),
        None => text_reply(concat2("Cost tracking for period: ", "today")),
    }
}

/// The payload sent to `POST /query`.
pub open spec fn spec_query_payload(
    query: Seq<char>,
    ids_text: Seq<char>,
    max_claims: u64,
    require_citations: bool,
) -> Seq<char> {
    "{\"max_claims\":"@ + dec_rep(max_claims as nat) + ",\"package_ids\":"@ + ids_text
        + ",\"query\":"@ + str_text(query) + ",\"require_citations\":"@ + (if require_citations {
        "true"@
    } else {
        "false"@
    }) + "}"@
}

/// Plan the package-query tool: the query is required; an empty package
/// list is refused here, before any request is made; otherwise the exact
/// query payload goes to the API, with ten claims and required citations by
/// default.
pub fn plan_package_query(
    query: Option<String>,
    ids_text: String,
    ids_empty: bool,
    max_claims: Option<u64>,
    require_citations: Option<bool>,
) -> (r: ToolOutcome)
    ensures
        query is None ==> (r matches ToolOutcome::Fail(m) && m@ == "Missing query"@),
        query is Some && ids_empty ==> (r matches ToolOutcome::Fail(m) && m@
            == "Missing package_ids"@),
        !ids_empty ==> (query matches Some(q) ==> (r matches ToolOutcome::Api(req) && req.method
            is Post && req.path@ == "/query"@ && (req.body matches Some(b) && b@
            == spec_query_payload(
            q@,
            ids_text@,
            match max_claims {
                Some(m) => m,
                None => 10,
            },
            match require_citations {
                Some(c) => c,
                None => true,
            },
        )))),
{
    let q = match query {
        None => {
            return ToolOutcome::Fail("Missing query".to_owned());
        }
        Some(q) => q,
    };
    if ids_empty {
        return ToolOutcome::Fail("Missing package_ids".to_owned());
    }
    let mc = match max_claims {
        Some(m) => m,
        None => 10,
    };
    let rc = match require_citations {
        Some(c) => c,
        None => true,
    };
    let mut body = String::from_str("{\"max_claims\":");
    let mcs = u64_to_string(mc);
    body.append(mcs.as_str());
    body.append(",\"package_ids\":");
    body.append(ids_text.as_str());
    body.append(",\"query\":");
    let qs = json_string(q.as_str());
    body.append(qs.as_str());
    body.append(",\"require_citations\":");
    if rc {
        body.append("true");
    } else {
        body.append("false");
    }
    body.append("}");
    ToolOutcome::Api(
        ApiRequest { method: HttpMethod::Post, path: "/query".to_owned(), body: Some(body) },
    )
}

/// Plan the package-status tool: the package identifier is required; its
/// record is fetched.
pub fn plan_package_status(package_id: Option<String>) -> (r: ToolOutcome)
    ensures
        package_id is None ==> (r matches ToolOutcome::Fail(m) && m@ == "Missing package_id"@),
        package_id matches Some(p) ==> (r matches ToolOutcome::Api(req) && req.method is Get
            && req.path@ == "/packages/"@ + p@ && req.body is None),
{
    match package_id {
        None => ToolOutcome::Fail("Missing package_id".to_owned()),
        Some(p) => {
            let path = concat2("/packages/", p.as_str());
            ToolOutcome::Api(ApiRequest { method: HttpMethod::Get, path, body: None })
        }
    }
}

/// Plan the package-refresh tool: the package identifier and the reason are
/// required, in that order; a new snapshot is asked for.
pub fn plan_package_refresh(package_id: Option<String>, reason: Option<String>) -> (r: ToolOutcome)
    ensures
        package_id is None ==> (r matches ToolOutcome::Fail(m) && m@ == "Missing package_id"@),
        package_id is Some && reason is None ==> (r matches ToolOutcome::Fail(m) && m@
            == "Missing reason"@),
        package_id matches Some(p) ==> (reason matches Some(why) ==> (r matches ToolOutcome::Api(
            req,
        ) && req.method is Post && req.path@ == "/packages/"@ + p@ + "/refresh"@ && (req.body
            matches Some(b) && b@ == "{\"reason\":"@ + str_text(why@) + "}"@))),
{
    let p = match package_id {
        None => {
            return ToolOutcome::Fail("Missing package_id".to_owned());
        }
        Some(p) => p,
    };
    let why = match reason {
        None => {
            return ToolOutcome::Fail("Missing reason".to_owned());
        }
        Some(why) => why,
    };
    let path = concat3("/packages/", p.as_str(), "/refresh");
    let mut body = String::from_str("{\"reason\":");
    let rs = json_string(why.as_str());
    body.append(rs.as_str());
    body.append("}");
    ToolOutcome::Api(ApiRequest { method: HttpMethod::Post, path, body: Some(body) })
}

/// Plan the package-search tool: the query is required; spaces in it are
/// URL-encoded into the catalog search path; the limit defaults to twenty.
pub fn plan_package_search(query: Option<String>, limit: Option<u64>) -> (r: ToolOutcome)
    ensures
        query is None ==> (r matches ToolOutcome::Fail(m) && m@ == "Missing query"@),
        query matches Some(q) ==> (r matches ToolOutcome::Api(req) && req.method is Get
            && req.path@ == "/packages/search?q="@ + spec_replace(q@, ' ', "%20"@) + "&limit="@
            + dec_rep(
            (match limit {
                Some(l) => l,
                None => 20,
            }) as nat,
        ) && req.body is None),
{
    let q = match query {
        None => {
            return ToolOutcome::Fail("Missing query".to_owned());
        }
        Some(q) => q,
    };
    let l = match limit {
        Some(l) => l,
        None => 20,
    };
    let encoded = replace_char(q.as_str(), ' ', "%20");
    let mut path = String::from_str("/packages/search?q=");
    path.append(encoded.as_str());
    path.append("&limit=");
    let ls = u64_to_string(l);
    path.append(ls.as_str());
    ToolOutcome::Api(ApiRequest { method: HttpMethod::Get, path, body: None })
}

/// Plan the package-publish tool: the package identifier and the snapshot
/// version are required, in that order.
pub fn plan_package_publish(package_id: Option<String>, snapshot_version: Option<u64>) -> (r:
    ToolOutcome)
    ensures
        package_id is None ==> (r matches ToolOutcome::Fail(m) && m@ == "Missing package_id"@),
        package_id is Some && snapshot_version is None ==> (r matches ToolOutcome::Fail(m) && m@
            == "Missing snapshot_version"@),
        package_id matches Some(p) ==> (snapshot_version matches Some(sv) ==> (r matches
            ToolOutcome::Api(req) && req.method is Post && req.path@ == "/packages/"@ + p@
            + "/publish"@ && (req.body matches Some(b) && b@ == "{\"snapshot_version\":"@ + dec_rep(
            sv as nat,
        ) + "}"@))),
{
    let p = match package_id {
        None => {
            return ToolOutcome::Fail("Missing package_id".to_owned());
        }
        Some(p) => p,
    };
    let sv = match snapshot_version {
        None => {
            return ToolOutcome::Fail("Missing snapshot_version".to_owned());
        }
        Some(sv) => sv,
    };
    let path = concat3("/packages/", p.as_str(), "/publish");
    let mut body = String::from_str("{\"snapshot_version\":");
    let svs = u64_to_string(sv);
    body.append(svs.as_str());
    body.append("}");
    ToolOutcome::Api(ApiRequest { method: HttpMethod::Post, path, body: Some(body) })
}

/// The ingest payload of the package-create tool over its resolved pieces.
pub open spec fn spec_create_payload(
    name: Seq<char>,
    topic_query: Seq<char>,
    sources_text: Seq<char>,
    time_window_text: Seq<char>,
    policy_text: Seq<char>,
    analysis_profile: Seq<char>,
) -> Seq<char> {
    "{\"analysis_profile\":"@ + str_text(analysis_profile) + ",\"name\":"@ + str_text(name)
        + ",\"policy\":"@ + str_text(policy_text) + ",\"sources\":"@ + sources_text
        + ",\"time_window\":"@ + time_window_text + ",\"topic_query\":"@ + str_text(topic_query)
        + "}"@
}

/// Plan the package-create tool: absent fields fall back to an empty name
/// and topic, a private policy and the summary profile; the sources array
/// and time window are embedded as given.
pub fn plan_package_create(
    name: Option<String>,
    topic_query: Option<String>,
    sources_text: String,
    time_window_text: String,
    policy_text: Option<String>,
    analysis_profile: Option<String>,
) -> (r: ToolOutcome)
    ensures
        r matches ToolOutcome::Api(req) && req.method is Post && req.path@ == "/packages"@ && (
        req.body matches Some(b) && b@ == spec_create_payload(
            match name {
                Some(n) => n@,
                None => Seq::empty(),
            },
            match topic_query {
                Some(t) => t@,
                None => Seq::empty(),
            },
            sources_text@,
            time_window_text@,
            match policy_text {
                Some(p) => p@,
                None => "private"@,
            },
            match analysis_profile {
                Some(a) => a@,
                None => "summary"@,
            },
        )),
{
    let n = match name {
        Some(n) => n,
        None => String::new(),
    };
    let t = match topic_query {
        Some(t) => t,
        None => String::new(),
    };
    let pol = match policy_text {
        Some(p) => p,
        None => "private".to_owned(),
    };
    let prof = match analysis_profile {
        Some(a) => a,
        None => "summary".to_owned(),
    };
    let mut body = String::from_str("{\"analysis_profile\":");
    let profs = json_string(prof.as_str());
    body.append(profs.as_str());
    body.append(",\"name\":");
    let ns = json_string(n.as_str());
    body.append(ns.as_str());
    body.append(",\"policy\":");
    let pols = json_string(pol.as_str());
    body.append(pols.as_str());
    body.append(",\"sources\":");
    body.append(sources_text.as_str());
    body.append(",\"time_window\":");
    body.append(time_window_text.as_str());
    body.append(",\"topic_query\":");
    let ts = json_string(t.as_str());
    body.append(ts.as_str());
    body.append("}");
    ToolOutcome::Api(
        ApiRequest { method: HttpMethod::Post, path: "/packages".to_owned(), body: Some(body) },
    )
}

/// The string under `key`, when the arguments hold one.
fn arg_str(args: Option<&serde_json::Value>, key: &str) -> (r: Option<String>)
    ensures
        args is None ==> r is None,
{
    match args {
        Some(a) => match outside::value_get(a, key) {
            Some(v) => outside::value_as_str(v),
            None => None,
        },
        None => None,
    }
}

/// The number under `key`, when the arguments hold one.
fn arg_u64(args: Option<&serde_json::Value>, key: &str) -> (r: Option<u64>)
    ensures
        args is None ==> r is None,
{
    match args {
        Some(a) => match outside::value_get(a, key) {
            Some(v) => outside::value_as_u64(v),
            None => None,
        },
        None => None,
    }
}

/// The boolean under `key`, when the arguments hold one.
fn arg_bool(args: Option<&serde_json::Value>, key: &str) -> (r: Option<bool>)
    ensures
        args is None ==> r is None,
{
    match args {
        Some(a) => match outside::value_get(a, key) {
            Some(v) => outside::value_as_bool(v),
            None => None,
        },
        None => None,
    }
}

/// A time window written as an object with its two bounds.
pub open spec fn spec_window_text(from: Seq<char>, to: Seq<char>) -> Seq<char> {
    "{\"from\":"@ + str_text(from) + ",\"to\":"@ + str_text(to) + "}"@
}

/// A window ending now and starting a day earlier, used when package
/// creation names none; only the window's shape can be promised, as its
/// bounds come from the clock.
fn default_time_window() -> (r: String)
    ensures
        exists|f: Seq<char>, t: Seq<char>|
            r@ == #[trigger] spec_window_text(f, t),
{
    let now = outside::now_utc();
    let to_text = outside::rfc3339_text(&now);
    let from_dt = match outside::datetime_minus(&now, outside::one_day()) {
        Some(d) => d,
        None => outside::now_utc(),
    };
    let from_text = outside::rfc3339_text(&from_dt);
    let mut out = String::from_str("{\"from\":");
    let f = json_string(from_text.as_str());
    out.append(f.as_str());
    out.append(",\"to\":");
    let t = json_string(to_text.as_str());
    out.append(t.as_str());
    out.append("}");
    proof {
        assert(out@ == spec_window_text(from_text@, to_text@));
    }
    out
}

impl MCPServer {
    /// Run one tool call, as far as it can go without the network: most
    /// tools answer at once through their stubs, package tools hand back
    /// the API request to make, and a name outside the catalog fails with
    /// the exact message. With no arguments at all, every tool's outcome is
    /// pinned below; with arguments, the stubs and planners pin the outcome
    /// over the extracted values.
    pub fn execute_tool(&self, name: &str, args: Option<&serde_json::Value>) -> (r: ToolOutcome)
        ensures
            !known_tool(name@) ==> (r matches ToolOutcome::Fail(m) && m@ == "Unknown tool: "@
                + name@),
            r is Api ==> package_tool(name@),
            name@ == "xint_collections_list"@ ==> one_text_reply(r, "Collections: []"@),
            name@ == "xint_bookmarks"@ ==> one_text_reply(r, "Bookmarks: OAuth required"@),
            name@ == "xint_cache_clear"@ ==> one_text_reply(r, "Cache cleared"@),
            name@ == "xint_sentiment"@ ==> one_text_reply(
                r,
                "Sentiment analysis (requires XAI_API_KEY)"@,
            ),
            args is None && name@ == "xint_trends"@ ==> one_text_reply(
                r,
                "Trends for: "@ + "worldwide"@,
            ),
            args is None && name@ == "xint_costs"@ ==> one_text_reply(
                r,
                "Cost tracking for period: "@ + "today"@,
            ),
            args is None && (name@ == "xint_search"@ || name@ == "xint_xsearch"@ || name@
                == "xint_analyze"@ || name@ == "xint_watch"@ || name@ == "xint_package_query"@
                || name@ == "xint_package_search"@) ==> fails_with(r, "Missing query"@),
            args is None && (name@ == "xint_profile"@ || name@ == "xint_diff"@) ==> fails_with(
                r,
                "Missing username"@,
            ),
            args is None && (name@ == "xint_thread"@ || name@ == "xint_tweet"@) ==> fails_with(
                r,
                "Missing tweet_id"@,
            ),
            args is None && name@ == "xint_article"@ ==> fails_with(r, "Missing url"@),
            args is None && name@ == "xint_collections_search"@ ==> fails_with(
                r,
                "Missing collection_id"@,
            ),
            args is None && name@ == "xint_report"@ ==> fails_with(r, "Missing topic"@),
            args is None && (name@ == "xint_package_status"@ || name@ == "xint_package_refresh"@
                || name@ == "xint_package_publish"@) ==> fails_with(r, "Missing package_id"@),
            args is None && name@ == "xint_package_create"@ ==> (r matches ToolOutcome::Api(req)
                && req.method is Post && req.path@ == "/packages"@ && (req.body matches Some(b)
                && exists|f: Seq<char>, t: Seq<char>|
                b@ == spec_create_payload(
                    Seq::empty(),
                    Seq::empty(),
                    "[]"@,
                    #[trigger] spec_window_text(f, t),
                    "private"@,
                    "summary"@,
                ))),
    {
        proof {
            // Every branch below must see that the other tool names differ
            // from the one it matched.
            lemma_tool_names_catalog();
            lemma_tool_names_distinct();
        }
        if str_eq_str(name, "xint_search") {
            stub_search(arg_str(args, "query"), arg_u64(args, "limit"))
        } else if str_eq_str(name, "xint_profile") {
            stub_profile(arg_str(args, "username"))
        } else if str_eq_str(name, "xint_thread") {
            stub_thread(arg_str(args, "tweet_id"))
        } else if str_eq_str(name, "xint_tweet") {
            stub_tweet(arg_str(args, "tweet_id"))
        } else if str_eq_str(name, "xint_trends") {
            stub_trends(arg_str(args, "location"))
        } else if str_eq_str(name, "xint_xsearch") {
            stub_xsearch(arg_str(args, "query"))
        } else if str_eq_str(name, "xint_collections_list") {
            text_reply("Collections: []".to_owned())
        } else if str_eq_str(name, "xint_analyze") {
            stub_analyze(arg_str(args, "query"))
        } else if str_eq_str(name, "xint_article") {
            stub_article(arg_str(args, "url"))
        } else if str_eq_str(name, "xint_collections_search") {
            stub_collections_search(arg_str(args, "collection_id"), arg_str(args, "query"))
        } else if str_eq_str(name, "xint_bookmarks") {
            text_reply("Bookmarks: OAuth required".to_owned())
        } else if str_eq_str(name, "xint_package_create") {
            let sources_text = match args {
                Some(a) => match outside::value_get(a, "sources") {
                    Some(v) => match outside::value_as_array(v) {
                        Some(_) => outside::value_to_text(v),
                        None => "[]".to_owned(),
                    },
                    None => "[]".to_owned(),
                },
                None => "[]".to_owned(),
            };
            let time_window_text = match args {
                Some(a) => match outside::value_get(a, "time_window") {
                    Some(v) => outside::value_to_text(v),
                    None => default_time_window(),
                },
                None => default_time_window(),
            };
            plan_package_create(
                arg_str(args, "name"),
                arg_str(args, "topic_query"),
                sources_text,
                time_window_text,
                arg_str(args, "policy"),
                arg_str(args, "analysis_profile"),
            )
        } else if str_eq_str(name, "xint_package_status") {
            plan_package_status(arg_str(args, "package_id"))
        } else if str_eq_str(name, "xint_package_query") {
            let ids = match args {
                Some(a) => outside::value_get(a, "package_ids"),
                None => None,
            };
            let (ids_text, ids_empty) = match ids {
                Some(v) => match outside::value_as_array(v) {
                    Some(arr) => (outside::value_to_text(v), arr.len() == 0),
                    None => ("[]".to_owned(), true),
                },
                None => ("[]".to_owned(), true),
            };
            plan_package_query(
                arg_str(args, "query"),
                ids_text,
                ids_empty,
                arg_u64(args, "max_claims"),
                arg_bool(args, "require_citations"),
            )
        } else if str_eq_str(name, "xint_package_refresh") {
            plan_package_refresh(arg_str(args, "package_id"), arg_str(args, "reason"))
        } else if str_eq_str(name, "xint_package_search") {
            plan_package_search(arg_str(args, "query"), arg_u64(args, "limit"))
        } else if str_eq_str(name, "xint_package_publish") {
            plan_package_publish(arg_str(args, "package_id"), arg_u64(args, "snapshot_version"))
        } else if str_eq_str(name, "xint_cache_clear") {
            text_reply("Cache cleared".to_owned())
        } else if str_eq_str(name, "xint_watch") {
            stub_watch(arg_str(args, "query"))
        } else if str_eq_str(name, "xint_diff") {
            stub_diff(arg_str(args, "username"))
        } else if str_eq_str(name, "xint_report") {
            stub_report(arg_str(args, "topic"))
        } else if str_eq_str(name, "xint_sentiment") {
            text_reply("Sentiment analysis (requires XAI_API_KEY)".to_owned())
        } else if str_eq_str(name, "xint_costs") {
            stub_costs(arg_str(args, "period"))
        } else {
            ToolOutcome::Fail(concat2("Unknown tool: ", name))
        }
    }

    /// Dispatch one request whose method and id are in hand: `initialize`
    /// is acknowledged and remembered, `initialized` is silent,
    /// `tools/list` replies with the whole catalog, `tools/call` runs the
    /// gates and then the tool and reports the outcome for the reliability
    /// tracker, and any other method is refused with the method-not-found
    /// error.
    pub fn dispatch(
        &mut self,
        method: &str,
        id_text: &str,
        params: Option<&serde_json::Value>,
        budget: &BudgetState,
    ) -> (r: Result<ServerStep, String>)
        ensures
            final(self).policy_mode == old(self).policy_mode,
            final(self).enforce_budget == old(self).enforce_budget,
            final(self).costs_path == old(self).costs_path,
            final(self).reliability_path == old(self).reliability_path,
            old(self).initialized ==> final(self).initialized,
            method@ == "initialize"@ ==> final(self).initialized && (r matches Ok(
                ServerStep::Reply(line),
            ) && line@ == spec_rpc_ok(id_text@, spec_init_result())),
            method@ == "initialized"@ ==> r matches Ok(ServerStep::Silent),
            method@ == "tools/list"@ ==> (r matches Ok(ServerStep::Reply(line)) && exists|
                ts: Seq<MCPTool>,
            |
                {
                    &&& ts.len() == spec_tool_names().len()
                    &&& (forall|i: int|
                        0 <= i < ts.len() ==> (#[trigger] ts[i]).name@ == spec_tool_names()[i])
                    &&& (forall|i: int|
                        0 <= i < ts.len() ==> (#[trigger] ts[i]).description@
                            == spec_tool_descriptions()[i])
                    &&& (forall|i: int|
                        0 <= i < ts.len() ==> spec_emit((#[trigger] ts[i]).input_schema)
                            == spec_tool_schemas()[i])
                    &&& line@ == spec_rpc_ok(
                        id_text@,
                        "{\"tools\":["@ + spec_tools_text(ts) + "]}"@,
                    )
                }),
            method@ != "initialize"@ && method@ != "initialized"@ && method@ != "tools/list"@
                && method@ != "tools/call"@ ==> (r matches Ok(ServerStep::Reply(line)) && line@
                == spec_rpc_err(id_text@, -32601, "Method not found: "@ + method@)),
            method@ != "initialize"@ ==> final(self).initialized == old(self).initialized,
            method@ != "tools/call"@ ==> r is Ok,
            r matches Err(e) ==> (e@ == "Missing params"@ || e@ == "Missing tool name"@),
            r matches Ok(ServerStep::CallApi(req, pending)) ==> {
                &&& spec_gate(
                    old(self).policy_mode,
                    old(self).enforce_budget,
                    *budget,
                    pending.name@,
                ) is Allowed
                &&& package_tool(pending.name@)
                &&& pending.id_text@ == id_text@
            },
    {
        proof {
            reveal_strlit("initialize");
            reveal_strlit("initialized");
            reveal_strlit("tools/list");
            reveal_strlit("tools/call");
            assert("initialize"@.len() == 10);
            assert("initialized"@.len() == 11);
            assert("tools/list"@.len() == 10);
            assert("tools/call"@.len() == 10);
            assert("initialize"@[0] == 'i' && "tools/list"@[0] == 't' && "tools/call"@[0] == 't');
            assert("tools/list"@[6] == 'l' && "tools/call"@[6] == 'c');
        }
        if str_eq_str(method, "initialize") {
            self.initialized = true;
            let result = init_result_text();
            Ok(ServerStep::Reply(rpc_ok(id_text, result.as_str())))
        } else if str_eq_str(method, "initialized") {
            Ok(ServerStep::Silent)
        } else if str_eq_str(method, "tools/list") {
            let tools = MCPServer::get_tools();
            let result = tools_result_text(&tools);
            let line = rpc_ok(id_text, result.as_str());
            proof {
                assert(tools@.len() == spec_tool_names().len() && (forall|i: int|
                    0 <= i < tools@.len() ==> (#[trigger] tools@[i]).name@ == spec_tool_names()[i])
                    && (forall|i: int|
                    0 <= i < tools@.len() ==> (#[trigger] tools@[i]).description@
                        == spec_tool_descriptions()[i]) && (forall|i: int|
                    0 <= i < tools@.len() ==> spec_emit((#[trigger] tools@[i]).input_schema)
                        == spec_tool_schemas()[i]) && line@ == spec_rpc_ok(
                    id_text@,
                    "{\"tools\":["@ + spec_tools_text(tools@) + "]}"@,
                ));
            }
            Ok(ServerStep::Reply(line))
        } else if str_eq_str(method, "tools/call") {
            let params_v = match params {
                Some(p) => p,
                None => {
                    return Err("Missing params".to_owned());
                }
            };
            let name = match outside::value_get(params_v, "name") {
                Some(v) => match outside::value_as_str(v) {
                    Some(s) => s,
                    None => {
                        return Err("Missing tool name".to_owned());
                    }
                },
                None => {
                    return Err("Missing tool name".to_owned());
                }
            };
            let arguments = outside::value_get(params_v, "arguments");
            if let Some(payload) = self.gate_tool(budget, name.as_str()) {
                let record = CallRecord { op: reliability_op(name.as_str()), success: false };
                return Ok(
                    ServerStep::ToolReply(rpc_err(id_text, -32603, payload.as_str()), record),
                );
            }
            match self.execute_tool(name.as_str(), arguments) {
                ToolOutcome::Content(items) => {
                    let result = contents_result(&items);
                    let record = CallRecord { op: reliability_op(name.as_str()), success: true };
                    Ok(ServerStep::ToolReply(rpc_ok(id_text, result.as_str()), record))
                }
                ToolOutcome::Fail(m) => {
                    let record = CallRecord { op: reliability_op(name.as_str()), success: false };
                    Ok(ServerStep::ToolReply(rpc_err(id_text, -32603, m.as_str()), record))
                }
                ToolOutcome::Api(req) => Ok(
                    ServerStep::CallApi(
                        req,
                        PendingCall { id_text: id_text.to_owned(), name },
                    ),
                ),
            }
        } else {
            let msg = concat2("Method not found: ", method);
            Ok(ServerStep::Reply(rpc_err(id_text, -32601, msg.as_str())))
        }
    }

    /// Handle one line of the JSON-RPC stream: parse it, pull out the
    /// method, id and parameters, and dispatch. A line that is not JSON, or
    /// has no method, is an error the caller reports without an id.
    pub fn handle_message(&mut self, msg: &str, budget: &BudgetState) -> (r: Result<
        ServerStep,
        String,
    >)
        ensures
            final(self).policy_mode == old(self).policy_mode,
            final(self).enforce_budget == old(self).enforce_budget,
            final(self).costs_path == old(self).costs_path,
            final(self).reliability_path == old(self).reliability_path,
            old(self).initialized ==> final(self).initialized,
            r is Err ==> *final(self) == *old(self),
            !crate::outside::json_parses(msg@) ==> (r matches Err(e) && e@.take(22)
                == "Failed to parse JSON: "@),
            r matches Err(e) ==> {
                ||| e@.take(22) == "Failed to parse JSON: "@
                ||| e@ == "Missing method field"@
                ||| e@ == "Missing params"@
                ||| e@ == "Missing tool name"@
            },
            crate::outside::json_parses(msg@) ==> (r matches Err(e) ==> {
                ||| e@ == "Missing method field"@
                ||| e@ == "Missing params"@
                ||| e@ == "Missing tool name"@
            }),
            r matches Ok(ServerStep::CallApi(req, pending)) ==> spec_gate(
                old(self).policy_mode,
                old(self).enforce_budget,
                *budget,
                pending.name@,
            ) is Allowed && package_tool(pending.name@),
    {
        let parsed = match outside::parse_json(msg) {
            Ok(v) => v,
            Err(e) => {
                let et = outside::json_error_text(&e);
                let msg_text = concat2("Failed to parse JSON: ", et.as_str());
                proof {
                    reveal_strlit("Failed to parse JSON: ");
                    assert("Failed to parse JSON: "@.len() == 22);
                    assert(msg_text@.take(22) =~= "Failed to parse JSON: "@);
                }
                return Err(msg_text);
            }
        };
        let method = match outside::value_get(&parsed, "method") {
            Some(v) => match outside::value_as_str(v) {
                Some(s) => s,
                None => {
                    return Err("Missing method field".to_owned());
                }
            },
            None => {
                return Err("Missing method field".to_owned());
            }
        };
        let id_text = match outside::value_get(&parsed, "id") {
            Some(v) => outside::value_to_text(v),
            None => "null".to_owned(),
        };
        let params = outside::value_get(&parsed, "params");
        self.dispatch(method.as_str(), id_text.as_str(), params, budget)
    }
}

/// The message shown when the package API's base URL is not configured.
pub fn no_base_url_message() -> (r: String)
    ensures
        r@ == "XINT_PACKAGE_API_BASE_URL not set. Start local API with `xint package-api-server --port=8080` and set XINT_PACKAGE_API_BASE_URL=http://localhost:8080/v1"@,
{
    String::from_str(
        "XINT_PACKAGE_API_BASE_URL not set. Start local API with `xint package-api-server --port=8080` and set XINT_PACKAGE_API_BASE_URL=http://localhost:8080/v1",
    )
}

/// The full URL of one API request: the base, shorn of trailing slashes,
/// then the path.
pub fn join_url(base: &str, path: &str) -> (r: String)
    ensures
        r@ == strip_trailing(base@, '/') + path@,
{
    let head = strip_trailing_str(base, '/');
    concat2(head.as_str(), path)
}

/// At most the first three hundred characters of an API reply, quoted in
/// its error message.
pub open spec fn spec_body_snippet(body: Seq<char>) -> Seq<char> {
    if body.len() <= 300 {
        body
    } else {
        body.take(300)
    }
}

/// The reply line for a pending tool call, given what the package API did,
/// and the outcome to record for it. Every failure becomes the exact error
/// message the protocol promises; a successful reply's JSON is relayed
/// pretty-printed, an empty one as an empty object, and an unreadable one
/// as a decode failure.
pub fn finish_package_call(pending: &PendingCall, outcome: ApiOutcome) -> (r: (String, CallRecord))
    ensures
        r.1.op@ == "mcp:"@ + pending.name@,
        outcome matches ApiOutcome::NoBaseUrl ==> !r.1.success && r.0@ == spec_rpc_err(
            pending.id_text@,
            -32603,
            "XINT_PACKAGE_API_BASE_URL not set. Start local API with `xint package-api-server --port=8080` and set XINT_PACKAGE_API_BASE_URL=http://localhost:8080/v1"@,
        ),
        outcome matches ApiOutcome::SendFailed(e) ==> !r.1.success && r.0@ == spec_rpc_err(
            pending.id_text@,
            -32603,
            "Package API request failed: "@ + e@,
        ),
        outcome matches ApiOutcome::BodyFailed(e) ==> !r.1.success && r.0@ == spec_rpc_err(
            pending.id_text@,
            -32603,
            "Package API body read failed: "@ + e@,
        ),
        outcome matches ApiOutcome::Response { status, body } ==> r.1.success == (200 <= status
            < 300 && (trim_seq(body@).len() == 0 || crate::outside::json_parses(body@))),
        outcome matches ApiOutcome::Response { status, body } ==> (!(200 <= status < 300) ==> r.0@
            == spec_rpc_err(
            pending.id_text@,
            -32603,
            "Package API "@ + dec_rep(status as nat) + ": "@ + spec_body_snippet(body@),
        )),
        outcome matches ApiOutcome::Response { status, body } ==> ((200 <= status < 300
            && trim_seq(body@).len() == 0) ==> r.0@ == spec_rpc_ok(
            pending.id_text@,
            spec_one_text_result("{}"@),
        )),
        outcome matches ApiOutcome::Response { status, body } ==> ((200 <= status < 300
            && trim_seq(body@).len() > 0 && crate::outside::json_parses(body@)) ==> exists|
            t: Seq<char>,
        | r.0@ == spec_rpc_ok(pending.id_text@, #[trigger] spec_one_text_result(t))),
        outcome matches ApiOutcome::Response { status, body } ==> ((200 <= status < 300
            && trim_seq(body@).len() > 0 && !crate::outside::json_parses(body@)) ==> exists|
            m: Seq<char>,
        | r.0@ == #[trigger] spec_rpc_err(
            pending.id_text@,
            -32603,
            "Package API JSON decode failed: "@ + m,
        )),
{
    let op = reliability_op(pending.name.as_str());
    match outcome {
        ApiOutcome::NoBaseUrl => {
            let msg = no_base_url_message();
            (
                rpc_err(pending.id_text.as_str(), -32603, msg.as_str()),
                CallRecord { op, success: false },
            )
        }
        ApiOutcome::SendFailed(e) => {
            let msg = concat2("Package API request failed: ", e.as_str());
            (
                rpc_err(pending.id_text.as_str(), -32603, msg.as_str()),
                CallRecord { op, success: false },
            )
        }
        ApiOutcome::BodyFailed(e) => {
            let msg = concat2("Package API body read failed: ", e.as_str());
            (
                rpc_err(pending.id_text.as_str(), -32603, msg.as_str()),
                CallRecord { op, success: false },
            )
        }
        ApiOutcome::Response { status, body } => {
            if !(200 <= status && status < 300) {
                let snippet = crate::text::prefix_chars(body.as_str(), 300);
                let code = u64_to_string(status as u64);
                let mut msg = String::from_str("Package API ");
                msg.append(code.as_str());
                msg.append(": ");
                msg.append(snippet.as_str());
                return (
                    rpc_err(pending.id_text.as_str(), -32603, msg.as_str()),
                    CallRecord { op, success: false },
                );
            }
            let trimmed = crate::text::trim_str(body.as_str());
            if trimmed.as_str().unicode_len() == 0 {
                let items = text_content("{}".to_owned());
                let result = contents_result(&items);
                proof {
                    assert(items@.drop_last() =~= Seq::<MCPContent>::empty());
                    assert(result@ =~= spec_one_text_result("{}"@));
                }
                return (
                    rpc_ok(pending.id_text.as_str(), result.as_str()),
                    CallRecord { op, success: true },
                );
            }
            match outside::parse_json(body.as_str()) {
                Ok(v) => {
                    let pretty = outside::value_to_pretty_text(&v);
                    let items = text_content(pretty);
                    let result = contents_result(&items);
                    proof {
                        assert(items@.drop_last() =~= Seq::<MCPContent>::empty());
                        assert(result@ =~= spec_one_text_result(items@[0].text@));
                    }
                    (
                        rpc_ok(pending.id_text.as_str(), result.as_str()),
                        CallRecord { op, success: true },
                    )
                }
                Err(e) => {
                    let et = outside::json_error_text(&e);
                    let msg = concat2("Package API JSON decode failed: ", et.as_str());
                    (
                        rpc_err(pending.id_text.as_str(), -32603, msg.as_str()),
                        CallRecord { op, success: false },
                    )
                }
            }
        }
    }
}

/// The banner printed when the server starts.
pub fn startup_banner(sse: bool, port: u16, mode: PolicyMode, enforce_budget: bool) -> (r: String)
    ensures
        r@ == "Starting xint MCP server (sse: "@ + (if sse {
            "true"@
        } else {
            "false"@
        }) + ", port: "@ + dec_rep(port as nat) + ", policy: "@ + spec_policy_str(mode)
            + ", budget_guard: "@ + (if enforce_budget {
            "enabled"@
        } else {
            "disabled"@
        }) + ")..."@,
{
    let mut out = String::from_str("Starting xint MCP server (sse: ");
    if sse {
        out.append("true");
    } else {
        out.append("false");
    }
    out.append(", port: ");
    let p = u64_to_string(port as u64);
    out.append(p.as_str());
    out.append(", policy: ");
    out.append(policy_as_str(mode));
    out.append(", budget_guard: ");
    if enforce_budget {
        out.append("enabled");
    } else {
        out.append("disabled");
    }
    out.append(")...");
    out
}

} // verus!
