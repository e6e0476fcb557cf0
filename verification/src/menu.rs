//! The dashboard's command menu: the static option table, strict key and
//! alias resolution, per-command metadata, and the palette's fuzzy scorer.

use vstd::prelude::*;

use crate::text::{
    contains_seq, fold_chars, fold_trimmed, is_space, lemma_trim_seq_no_space, lower_char,
    lower_seq, starts_with_seq, str_contains_ci, str_eq_chars, str_eq_ci, str_eq_str,
    str_starts_with_ci, trim_seq,
};

verus! {

/// One entry of the command menu.
pub struct MenuOption {
    pub key: String,
    pub label: String,
    pub aliases: Vec<String>,
    pub hint: String,
}

/// The mathematical shape of a menu entry.
pub ghost struct OptionModel {
    pub key: Seq<char>,
    pub label: Seq<char>,
    pub aliases: Seq<Seq<char>>,
    pub hint: Seq<char>,
}

pub open spec fn view_option(o: MenuOption) -> OptionModel {
    OptionModel {
        key: o.key@,
        label: o.label@,
        aliases: o.aliases@.map_values(|a: String| a@),
        hint: o.hint@,
    }
}

/// The declared menu, in display order.
pub open spec fn spec_menu() -> Seq<OptionModel> {
    seq![
        OptionModel {
            key: "1"@,
            label: "Search"@,
            aliases: seq!["search"@, "s"@],
            hint: "keyword, topic, or boolean query"@,
        },
        OptionModel {
            key: "2"@,
            label: "Trends"@,
            aliases: seq!["trends"@, "trend"@, "t"@],
            hint: "location name or blank for global"@,
        },
        OptionModel {
            key: "3"@,
            label: "Profile"@,
            aliases: seq!["profile"@, "user"@, "p"@],
            hint: "username (without @)"@,
        },
        OptionModel {
            key: "4"@,
            label: "Thread"@,
            aliases: seq!["thread"@, "th"@],
            hint: "tweet id or tweet url"@,
        },
        OptionModel {
            key: "5"@,
            label: "Article"@,
            aliases: seq!["article"@, "a"@],
            hint: "article url or tweet url"@,
        },
        OptionModel {
            key: "6"@,
            label: "Help"@,
            aliases: seq!["help"@, "h"@, "?"@],
            hint: "show full CLI help"@,
        },
        OptionModel {
            key: "0"@,
            label: "Exit"@,
            aliases: seq!["exit"@, "quit"@, "q"@],
            hint: "close interactive mode"@,
        },
    ]
}

fn option_entry(key: &str, label: &str, hint: &str) -> (o: MenuOption)
    ensures
        o.key@ == key@,
        o.label@ == label@,
        o.hint@ == hint@,
        o.aliases@.len() == 0,
{
    MenuOption {
        key: key.to_owned(),
        label: label.to_owned(),
        aliases: Vec::new(),
        hint: hint.to_owned(),
    }
}

/// The menu as executable data; its entries are exactly `spec_menu`.
pub fn menu_options() -> (v: Vec<MenuOption>)
    ensures
        v@.len() == spec_menu().len(),
        forall|i: int| 0 <= i < v@.len() ==> view_option(#[trigger] v@[i]) == spec_menu()[i],
{
    let mut v: Vec<MenuOption> = Vec::new();

    let mut o = option_entry("1", "Search", "keyword, topic, or boolean query");
    o.aliases.push("search".to_owned());
    o.aliases.push("s".to_owned());
    proof {
        assert(view_option(o).aliases =~= spec_menu()[0].aliases);
        assert(view_option(o) == spec_menu()[0]);
    }
    v.push(o);

    let mut o = option_entry("2", "Trends", "location name or blank for global");
    o.aliases.push("trends".to_owned());
    o.aliases.push("trend".to_owned());
    o.aliases.push("t".to_owned());
    proof {
        assert(view_option(o).aliases =~= spec_menu()[1].aliases);
        assert(view_option(o) == spec_menu()[1]);
    }
    v.push(o);

    let mut o = option_entry("3", "Profile", "username (without @)");
    o.aliases.push("profile".to_owned());
    o.aliases.push("user".to_owned());
    o.aliases.push("p".to_owned());
    proof {
        assert(view_option(o).aliases =~= spec_menu()[2].aliases);
        assert(view_option(o) == spec_menu()[2]);
    }
    v.push(o);

    let mut o = option_entry("4", "Thread", "tweet id or tweet url");
    o.aliases.push("thread".to_owned());
    o.aliases.push("th".to_owned());
    proof {
        assert(view_option(o).aliases =~= spec_menu()[3].aliases);
        assert(view_option(o) == spec_menu()[3]);
    }
    v.push(o);

    let mut o = option_entry("5", "Article", "article url or tweet url");
    o.aliases.push("article".to_owned());
    o.aliases.push("a".to_owned());
    proof {
        assert(view_option(o).aliases =~= spec_menu()[4].aliases);
        assert(view_option(o) == spec_menu()[4]);
    }
    v.push(o);

    let mut o = option_entry("6", "Help", "show full CLI help");
    o.aliases.push("help".to_owned());
    o.aliases.push("h".to_owned());
    o.aliases.push("?".to_owned());
    proof {
        assert(view_option(o).aliases =~= spec_menu()[5].aliases);
        assert(view_option(o) == spec_menu()[5]);
    }
    v.push(o);

    let mut o = option_entry("0", "Exit", "close interactive mode");
    o.aliases.push("exit".to_owned());
    o.aliases.push("quit".to_owned());
    o.aliases.push("q".to_owned());
    proof {
        assert(view_option(o).aliases =~= spec_menu()[6].aliases);
        assert(view_option(o) == spec_menu()[6]);
    }
    v.push(o);

    v
}

/// The normalized form of free-text input: trimmed, then ASCII-lowercased.
pub open spec fn normalized(raw: Seq<char>) -> Seq<char> {
    lower_seq(trim_seq(raw))
}

/// `v` equals the option's key or one of its aliases.
pub open spec fn option_hits(o: OptionModel, v: Seq<char>) -> bool {
    o.key == v || o.aliases.contains(v)
}

/// The key of the first option that `v` hits.
pub open spec fn first_hit(menu: Seq<OptionModel>, v: Seq<char>) -> Option<Seq<char>>
    decreases menu.len(),
{
    if menu.len() == 0 {
        None
    } else if option_hits(menu[0], v) {
        Some(menu[0].key)
    } else {
        first_hit(menu.skip(1), v)
    }
}

/// What strict resolution returns: the canonical key of the first option
/// whose key or alias equals the normalized input; nothing for empty or
/// unknown input.
pub open spec fn spec_normalize_choice(raw: Seq<char>) -> Option<Seq<char>> {
    let v = normalized(raw);
    if v.len() == 0 {
        None
    } else {
        first_hit(spec_menu(), v)
    }
}

pub open spec fn option_str_view(o: Option<String>) -> Option<Seq<char>> {
    match o {
        Some(s) => Some(s@),
        None => None,
    }
}

proof fn lemma_first_hit_at(menu: Seq<OptionModel>, v: Seq<char>, i: int)
    requires
        0 <= i < menu.len(),
        option_hits(menu[i], v),
        forall|j: int| 0 <= j < i ==> !option_hits(#[trigger] menu[j], v),
    ensures
        first_hit(menu, v) == Some(menu[i].key),
    decreases i,
{
    if i > 0 {
        lemma_first_hit_at(menu.skip(1), v, i - 1);
    }
}

proof fn lemma_first_hit_none(menu: Seq<OptionModel>, v: Seq<char>)
    requires
        forall|j: int| 0 <= j < menu.len() ==> !option_hits(#[trigger] menu[j], v),
    ensures
        first_hit(menu, v) is None,
    decreases menu.len(),
{
    if menu.len() > 0 {
        lemma_first_hit_none(menu.skip(1), v);
    }
}

fn lookup_folded(value: &Vec<char>) -> (r: Option<String>)
    ensures
        value@.len() == 0 ==> r is None,
        value@.len() > 0 ==> option_str_view(r) == first_hit(spec_menu(), value@),
{
    if value.len() == 0 {
        return None;
    }
    let menu = menu_options();
    let ghost v = value@;
    let mut i: usize = 0;
    while i < menu.len()
        invariant
            menu@.len() == spec_menu().len(),
            forall|k: int|
                0 <= k < menu@.len() ==> view_option(#[trigger] menu@[k]) == spec_menu()[k],
            i <= menu@.len(),
            value@ == v,
            v.len() > 0,
            forall|j: int| 0 <= j < i ==> !option_hits(#[trigger] spec_menu()[j], v),
        decreases menu@.len() - i,
    {
        let option = &menu[i];
        if str_eq_chars(option.key.as_str(), &value) {
            proof {
                lemma_first_hit_at(spec_menu(), v, i as int);
            }
            return Some(option.key.clone());
        }
        let mut hit = false;
        let mut j: usize = 0;
        while j < option.aliases.len()
            invariant
                view_option(*option) == spec_menu()[i as int],
                i < spec_menu().len(),
                j <= option.aliases@.len(),
                value@ == v,
                !hit ==> forall|k: int|
                    0 <= k < j ==> spec_menu()[i as int].aliases[k] != v,
                hit ==> spec_menu()[i as int].aliases.contains(v),
            decreases option.aliases@.len() - j,
        {
            if str_eq_chars(option.aliases[j].as_str(), &value) {
                proof {
                    assert(spec_menu()[i as int].aliases[j as int] == option.aliases@[j as int]@);
                }
                hit = true;
            }
            j = j + 1;
        }
        if hit {
            proof {
                lemma_first_hit_at(spec_menu(), v, i as int);
            }
            return Some(option.key.clone());
        }
        proof {
            let ghost oi = spec_menu()[i as int];
            assert forall|k: int| 0 <= k < oi.aliases.len() implies oi.aliases[k] != v by {}
            assert(!oi.aliases.contains(v));
            assert(!option_hits(spec_menu()[i as int], v));
        }
        i = i + 1;
    }
    proof {
        lemma_first_hit_none(spec_menu(), v);
    }
    None
}

/// Strict lookup: trim and lowercase the input, then return the key of the
/// first option matched exactly by key or alias.
pub fn normalize_choice(raw: &str) -> (r: Option<String>)
    ensures
        option_str_view(r) == spec_normalize_choice(raw@),
{
    let value = fold_trimmed(raw);
    lookup_folded(&value)
}

proof fn lemma_normalized_single(c: char)
    ensures
        normalized(seq![c]) == if is_space(c) {
            Seq::<char>::empty()
        } else {
            seq![lower_char(c)]
        },
{
    let s = seq![c];
    assert(s.skip(1) =~= Seq::<char>::empty());
    if is_space(c) {
        assert(crate::text::leading_spaces(Seq::<char>::empty()) == 0);
        assert(crate::text::leading_spaces(s) == 1);
        assert(trim_seq(s) =~= Seq::<char>::empty());
        assert(lower_seq(Seq::<char>::empty()) =~= Seq::<char>::empty());
    } else {
        assert(crate::text::leading_spaces(s) == 0);
        assert(s.take(0) =~= Seq::<char>::empty());
        assert(crate::text::trailing_spaces(s) == 0);
        assert(trim_seq(s) =~= s);
        assert(lower_seq(s) =~= seq![lower_char(c)]);
    }
}

/// Strict lookup for a single typed character.
pub fn normalize_choice_char(ch: char) -> (r: Option<String>)
    ensures
        option_str_view(r) == spec_normalize_choice(seq![ch]),
{
    proof {
        lemma_normalized_single(ch);
    }
    let mut value: Vec<char> = Vec::new();
    if !crate::text::is_space_char(ch) {
        value.push(crate::text::lower_char_exec(ch));
        proof {
            assert(value@ =~= seq![lower_char(ch)]);
        }
    }
    lookup_folded(&value)
}

/// Some alias of `o`, lowercased, equals `q`.
pub open spec fn alias_eq(o: OptionModel, q: Seq<char>) -> bool {
    exists|k: int| 0 <= k < o.aliases.len() && lower_seq(#[trigger] o.aliases[k]) == q
}

/// Some alias of `o`, lowercased, starts with `q`.
pub open spec fn alias_pre(o: OptionModel, q: Seq<char>) -> bool {
    exists|k: int| 0 <= k < o.aliases.len() && starts_with_seq(lower_seq(#[trigger] o.aliases[k]), q)
}

/// The palette score of option `o` against the already-lowercase query `q`:
/// the sum of the weights of every kind of match, strongest first — exact
/// key, exact label, exact alias, label prefix, alias prefix, label
/// substring, hint substring. An empty query scores nothing.
pub open spec fn spec_score_low(o: OptionModel, q: Seq<char>) -> int {
    if q.len() == 0 {
        0
    } else {
        (if o.key == q { 100int } else { 0int }) + (if lower_seq(o.label) == q { 90int } else { 0int })
            + (if alias_eq(o, q) { 80int } else { 0int })
            + (if starts_with_seq(lower_seq(o.label), q) { 70int } else { 0int })
            + (if alias_pre(o, q) { 60int } else { 0int })
            + (if contains_seq(lower_seq(o.label), q) { 40int } else { 0int })
            + (if contains_seq(lower_seq(o.hint), q) { 20int } else { 0int })
    }
}

/// The palette score of `o` against free-text `raw`, which is lowercased
/// before matching.
pub open spec fn spec_score(o: OptionModel, raw: Seq<char>) -> int {
    spec_score_low(o, lower_seq(raw))
}

fn any_alias_eq(option: &MenuOption, q: &Vec<char>) -> (r: bool)
    ensures
        r == alias_eq(view_option(*option), q@),
{
    let ghost m = view_option(*option);
    let mut j: usize = 0;
    while j < option.aliases.len()
        invariant
            m == view_option(*option),
            j <= option.aliases@.len(),
            forall|k: int| 0 <= k < j ==> lower_seq(#[trigger] m.aliases[k]) != q@,
        decreases option.aliases@.len() - j,
    {
        if str_eq_ci(option.aliases[j].as_str(), q) {
            proof {
                assert(lower_seq(m.aliases[j as int]) == q@);
            }
            return true;
        }
        j = j + 1;
    }
    false
}

fn any_alias_pre(option: &MenuOption, q: &Vec<char>) -> (r: bool)
    ensures
        r == alias_pre(view_option(*option), q@),
{
    let ghost m = view_option(*option);
    let mut j: usize = 0;
    while j < option.aliases.len()
        invariant
            m == view_option(*option),
            j <= option.aliases@.len(),
            forall|k: int| 0 <= k < j ==> !starts_with_seq(lower_seq(#[trigger] m.aliases[k]), q@),
        decreases option.aliases@.len() - j,
    {
        if str_starts_with_ci(option.aliases[j].as_str(), q) {
            proof {
                assert(starts_with_seq(lower_seq(m.aliases[j as int]), q@));
            }
            return true;
        }
        j = j + 1;
    }
    false
}

fn score_from(option: &MenuOption, q: &Vec<char>) -> (s: usize)
    ensures
        s == spec_score_low(view_option(*option), q@),
        s <= 460,
{
    if q.len() == 0 {
        return 0;
    }
    let mut score: usize = 0;
    if str_eq_chars(option.key.as_str(), q) {
        score = score + 100;
    }
    if str_eq_ci(option.label.as_str(), q) {
        score = score + 90;
    }
    if any_alias_eq(option, q) {
        score = score + 80;
    }
    if str_starts_with_ci(option.label.as_str(), q) {
        score = score + 70;
    }
    if any_alias_pre(option, q) {
        score = score + 60;
    }
    if str_contains_ci(option.label.as_str(), q) {
        score = score + 40;
    }
    if str_contains_ci(option.hint.as_str(), q) {
        score = score + 20;
    }
    score
}

/// Palette score of one option against a free-text query, which is
/// lowercased (not trimmed) before matching.
pub fn score_option(option: &MenuOption, query: &str) -> (s: usize)
    ensures
        s == spec_score(view_option(*option), query@),
{
    let q = fold_chars(query);
    score_from(option, &q)
}

/// Palette lookup over the declared menu: the first option with the
/// strictly highest positive score against the trimmed query wins; a blank
/// query or one that matches nothing selects no option.
pub fn match_palette(query: &str) -> (r: Option<usize>)
    ensures
        r is None ==> forall|j: int|
            0 <= j < spec_menu().len() ==> spec_score_low(
                #[trigger] spec_menu()[j],
                normalized(query@),
            ) == 0,
        r matches Some(i) ==> {
            &&& 0 <= i < spec_menu().len()
            &&& spec_score_low(spec_menu()[i as int], normalized(query@)) > 0
            &&& forall|j: int|
                0 <= j < i ==> spec_score_low(#[trigger] spec_menu()[j], normalized(query@))
                    < spec_score_low(spec_menu()[i as int], normalized(query@))
            &&& forall|j: int|
                0 <= j < spec_menu().len() ==> spec_score_low(
                    #[trigger] spec_menu()[j],
                    normalized(query@),
                ) <= spec_score_low(spec_menu()[i as int], normalized(query@))
        },
{
    let q = fold_trimmed(query);
    let ghost nq = normalized(query@);
    if q.len() == 0 {
        proof {
            assert forall|j: int| 0 <= j < spec_menu().len() implies spec_score_low(
                #[trigger] spec_menu()[j],
                nq,
            ) == 0 by {}
        }
        return None;
    }
    let menu = menu_options();
    let mut best_index: Option<usize> = None;
    let mut best_score: usize = 0;
    let mut i: usize = 0;
    while i < menu.len()
        invariant
            menu@.len() == spec_menu().len(),
            forall|k: int|
                0 <= k < menu@.len() ==> view_option(#[trigger] menu@[k]) == spec_menu()[k],
            q@ == nq,
            i <= menu@.len(),
            best_score <= 460,
            best_index is None ==> best_score == 0 && forall|j: int|
                0 <= j < i ==> spec_score_low(#[trigger] spec_menu()[j], nq) == 0,
            best_index matches Some(b) ==> {
                &&& b < i
                &&& best_score > 0
                &&& spec_score_low(spec_menu()[b as int], nq) == best_score
                &&& forall|j: int|
                    0 <= j < b ==> spec_score_low(#[trigger] spec_menu()[j], nq) < best_score
                &&& forall|j: int|
                    0 <= j < i ==> spec_score_low(#[trigger] spec_menu()[j], nq) <= best_score
            },
        decreases menu@.len() - i,
    {
        let score = score_from(&menu[i], &q);
        if score > best_score {
            best_score = score;
            best_index = Some(i);
        }
        i = i + 1;
    }
    if best_score > 0 {
        best_index
    } else {
        None
    }
}

/// Reference text shown for one command.
pub struct CommandMeta {
    pub summary: String,
    pub example: String,
    pub cost_hint: String,
}

/// The mathematical shape of a command's reference text.
pub ghost struct MetaModel {
    pub summary: Seq<char>,
    pub example: Seq<char>,
    pub cost_hint: Seq<char>,
}

pub open spec fn view_meta(m: CommandMeta) -> MetaModel {
    MetaModel { summary: m.summary@, example: m.example@, cost_hint: m.cost_hint@ }
}

/// The reference text declared for each menu key; unknown keys get the
/// placeholder entry.
pub open spec fn spec_command_meta(key: Seq<char>) -> MetaModel {
    if key == "1"@ {
        MetaModel {
            summary: "Discover relevant posts with ranked result quality."@,
            example: "xint search \"open-source ai agents\""@,
            cost_hint: "Low-medium (depends on query depth)"@,
        }
    } else if key == "2"@ {
        MetaModel {
            summary: "Surface current trend clusters globally or by location."@,
            example: "xint trends \"San Francisco\""@,
            cost_hint: "Low"@,
        }
    } else if key == "3"@ {
        MetaModel {
            summary: "Inspect profile metadata and recent activity context."@,
            example: "xint profile 0xNyk"@,
            cost_hint: "Low"@,
        }
    } else if key == "4"@ {
        MetaModel {
            summary: "Expand a tweet into threaded conversation context."@,
            example: "xint thread https://x.com/.../status/..."@,
            cost_hint: "Medium"@,
        }
    } else if key == "5"@ {
        MetaModel {
            summary: "Fetch article content from URL or tweet-linked article."@,
            example: "xint article https://x.com/.../status/..."@,
            cost_hint: "Medium-high (fetch + parse)"@,
        }
    } else if key == "6"@ {
        MetaModel {
            summary: "Display full command reference and flags."@,
            example: "xint --help"@,
            cost_hint: "None"@,
        }
    } else if key == "0"@ {
        MetaModel {
            summary: "Exit interactive dashboard."@,
            example: "q"@,
            cost_hint: "None"@,
        }
    } else {
        MetaModel { summary: "No metadata available."@, example: "-"@, cost_hint: "Unknown"@ }
    }
}

fn meta_entry(summary: &str, example: &str, cost_hint: &str) -> (m: CommandMeta)
    ensures
        m.summary@ == summary@,
        m.example@ == example@,
        m.cost_hint@ == cost_hint@,
{
    CommandMeta {
        summary: summary.to_owned(),
        example: example.to_owned(),
        cost_hint: cost_hint.to_owned(),
    }
}

/// The reference text for one menu key.
pub fn command_meta(key: &str) -> (m: CommandMeta)
    ensures
        view_meta(m) == spec_command_meta(key@),
{
    if str_eq_str(key, "1") {
        meta_entry(
            "Discover relevant posts with ranked result quality.",
            "xint search \"open-source ai agents\"",
            "Low-medium (depends on query depth)",
        )
    } else if str_eq_str(key, "2") {
        meta_entry(
            "Surface current trend clusters globally or by location.",
            "xint trends \"San Francisco\"",
            "Low",
        )
    } else if str_eq_str(key, "3") {
        meta_entry(
            "Inspect profile metadata and recent activity context.",
            "xint profile 0xNyk",
            "Low",
        )
    } else if str_eq_str(key, "4") {
        meta_entry(
            "Expand a tweet into threaded conversation context.",
            "xint thread https://x.com/.../status/...",
            "Medium",
        )
    } else if str_eq_str(key, "5") {
        meta_entry(
            "Fetch article content from URL or tweet-linked article.",
            "xint article https://x.com/.../status/...",
            "Medium-high (fetch + parse)",
        )
    } else if str_eq_str(key, "6") {
        meta_entry("Display full command reference and flags.", "xint --help", "None")
    } else if str_eq_str(key, "0") {
        meta_entry("Exit interactive dashboard.", "q", "None")
    } else {
        meta_entry("No metadata available.", "-", "Unknown")
    }
}

/// Exact and alias lookup law: any input whose trimmed, lowercased form is
/// a declared option's key or one of its aliases resolves to exactly that
/// option's canonical key.
pub proof fn lemma_option_input_resolves(i: int, w: Seq<char>)
    requires
        0 <= i < spec_menu().len(),
        option_hits(spec_menu()[i], normalized(w)),
    ensures
        spec_normalize_choice(w) == Some(spec_menu()[i].key),
{
    let v = normalized(w);
    // Ground the lengths and characters of every key and alias, so the
    // solver can tell any two of them apart and evaluate the lookup.
    reveal_strlit("1");
    reveal_strlit("2");
    reveal_strlit("3");
    reveal_strlit("4");
    reveal_strlit("5");
    reveal_strlit("6");
    reveal_strlit("0");
    reveal_strlit("search");
    reveal_strlit("s");
    reveal_strlit("trends");
    reveal_strlit("trend");
    reveal_strlit("t");
    reveal_strlit("profile");
    reveal_strlit("user");
    reveal_strlit("p");
    reveal_strlit("thread");
    reveal_strlit("th");
    reveal_strlit("article");
    reveal_strlit("a");
    reveal_strlit("help");
    reveal_strlit("h");
    reveal_strlit("?");
    reveal_strlit("exit");
    reveal_strlit("quit");
    reveal_strlit("q");
    assert("1"@.len() == 1);
    assert("1"@[0] == '1');
    assert("2"@.len() == 1);
    assert("2"@[0] == '2');
    assert("3"@.len() == 1);
    assert("3"@[0] == '3');
    assert("4"@.len() == 1);
    assert("4"@[0] == '4');
    assert("5"@.len() == 1);
    assert("5"@[0] == '5');
    assert("6"@.len() == 1);
    assert("6"@[0] == '6');
    assert("0"@.len() == 1);
    assert("0"@[0] == '0');
    assert("search"@.len() == 6);
    assert("search"@[0] == 's');
    assert("s"@.len() == 1);
    assert("s"@[0] == 's');
    assert("trends"@.len() == 6);
    assert("trends"@[0] == 't');
    assert("trend"@.len() == 5);
    assert("trend"@[0] == 't');
    assert("t"@.len() == 1);
    assert("t"@[0] == 't');
    assert("profile"@.len() == 7);
    assert("profile"@[0] == 'p');
    assert("user"@.len() == 4);
    assert("user"@[0] == 'u');
    assert("p"@.len() == 1);
    assert("p"@[0] == 'p');
    assert("thread"@.len() == 6);
    assert("thread"@[0] == 't');
    assert("th"@.len() == 2);
    assert("th"@[0] == 't');
    assert("article"@.len() == 7);
    assert("article"@[0] == 'a');
    assert("a"@.len() == 1);
    assert("a"@[0] == 'a');
    assert("help"@.len() == 4);
    assert("help"@[0] == 'h');
    assert("h"@.len() == 1);
    assert("h"@[0] == 'h');
    assert("?"@.len() == 1);
    assert("?"@[0] == '?');
    assert("exit"@.len() == 4);
    assert("exit"@[0] == 'e');
    assert("quit"@.len() == 4);
    assert("quit"@[0] == 'q');
    assert("q"@.len() == 1);
    assert("q"@[0] == 'q');
    assert("trends"@[1] == 'r');
    assert("thread"@[1] == 'h');
    let o = spec_menu()[i];
    if o.aliases.contains(v) {
        let k = choose|k: int| 0 <= k < o.aliases.len() && o.aliases[k] == v;
        assert(o.aliases[k] == v);
    } else {
        assert(v == o.key);
    }
    if i == 0 {
        assert(v == "1"@ || v == "search"@ || v == "s"@);
        assert forall|j: int| 0 <= j < i implies !option_hits(#[trigger] spec_menu()[j], v) by {}
    } else if i == 1 {
        assert(v == "2"@ || v == "trends"@ || v == "trend"@ || v == "t"@);
        assert forall|j: int| 0 <= j < i implies !option_hits(#[trigger] spec_menu()[j], v) by {}
    } else if i == 2 {
        assert(v == "3"@ || v == "profile"@ || v == "user"@ || v == "p"@);
        assert forall|j: int| 0 <= j < i implies !option_hits(#[trigger] spec_menu()[j], v) by {}
    } else if i == 3 {
        assert(v == "4"@ || v == "thread"@ || v == "th"@);
        assert forall|j: int| 0 <= j < i implies !option_hits(#[trigger] spec_menu()[j], v) by {}
    } else if i == 4 {
        assert(v == "5"@ || v == "article"@ || v == "a"@);
        assert forall|j: int| 0 <= j < i implies !option_hits(#[trigger] spec_menu()[j], v) by {}
    } else if i == 5 {
        assert(v == "6"@ || v == "help"@ || v == "h"@ || v == "?"@);
        assert forall|j: int| 0 <= j < i implies !option_hits(#[trigger] spec_menu()[j], v) by {}
    } else {
        assert(v == "0"@ || v == "exit"@ || v == "quit"@ || v == "q"@);
        assert forall|j: int| 0 <= j < i implies !option_hits(#[trigger] spec_menu()[j], v) by {}
    }
    assert(v.len() > 0);
    assert(forall|j: int| 0 <= j < i ==> !option_hits(#[trigger] spec_menu()[j], v));
    lemma_first_hit_at(spec_menu(), v, i);
}

/// Lookup law: input that trims to nothing resolves to no option.
pub proof fn lemma_blank_input_resolves_to_nothing(w: Seq<char>)
    requires
        trim_seq(w).len() == 0,
    ensures
        spec_normalize_choice(w) is None,
{
}

/// Lookup law: input whose normal form matches no declared key or alias
/// resolves to no option.
pub proof fn lemma_unknown_input_resolves_to_nothing(w: Seq<char>)
    requires
        forall|i: int|
            0 <= i < spec_menu().len() ==> !option_hits(#[trigger] spec_menu()[i], normalized(w)),
    ensures
        spec_normalize_choice(w) is None,
{
    lemma_first_hit_none(spec_menu(), normalized(w));
}

/// Palette ranking law: an exact key match always outranks an option whose
/// only overlap with the query is a substring of its hint, whatever that
/// hint holds.
pub proof fn lemma_key_match_outranks_hint_match(o1: OptionModel, o2: OptionModel, q: Seq<char>)
    requires
        q.len() > 0,
        o1.key == q,
        o2.key != q,
        lower_seq(o2.label) != q,
        !alias_eq(o2, q),
        !starts_with_seq(lower_seq(o2.label), q),
        !alias_pre(o2, q),
        !contains_seq(lower_seq(o2.label), q),
    ensures
        spec_score_low(o1, q) > spec_score_low(o2, q),
{
}

} // verus!

