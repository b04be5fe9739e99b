//! Chat messages: the JSON text components that the server sends, and the
//! text that they display.
use crate::text::{push_char, str_eq};
use vstd::prelude::*;
use vstd::string::StringExecFns;

verus! {

// ---------------------------------------------------------------------------
// JSON values.

/// A JSON value, as chat messages are written in it.
#[derive(Debug)]
pub enum Json {
    Null,
    Bool(bool),
    /// A number, kept as the text that writes it.
    Number(String),
    String(String),
    Array(Vec<Json>),
    /// The members of an object in order; a later member shadows an earlier
    /// one of the same name.
    Object(Vec<(String, Json)>),
}

/// What a `Json` holds.
pub enum JsonView {
    Null,
    Bool(bool),
    Number(Seq<char>),
    String(Seq<char>),
    Array(Seq<JsonView>),
    Object(Seq<(Seq<char>, JsonView)>),
}

/// What a JSON value holds.
pub open spec fn json_view(j: Json) -> JsonView
    decreases j,
{
    match j {
        Json::Null => JsonView::Null,
        Json::Bool(b) => JsonView::Bool(b),
        Json::Number(n) => JsonView::Number(n@),
        Json::String(s) => JsonView::String(s@),
        Json::Array(items) => JsonView::Array(jsons_view(items@)),
        Json::Object(members) => JsonView::Object(members_view(members@)),
    }
}

/// What a sequence of JSON values holds.
pub open spec fn jsons_view(js: Seq<Json>) -> Seq<JsonView>
    decreases js,
{
    if js.len() == 0 {
        Seq::empty()
    } else {
        jsons_view(js.drop_last()).push(json_view(js.last()))
    }
}

/// What the members of an object hold.
pub open spec fn members_view(ms: Seq<(String, Json)>) -> Seq<(Seq<char>, JsonView)>
    decreases ms,
{
    if ms.len() == 0 {
        Seq::empty()
    } else {
        members_view(ms.drop_last()).push((ms.last().0@, json_view(ms.last().1)))
    }
}

/// The value of the member `key` of an object: the last one of that name.
pub open spec fn members_lookup(ms: Seq<(Seq<char>, JsonView)>, key: Seq<char>) -> Option<JsonView>
    decreases ms.len(),
{
    if ms.len() == 0 {
        None
    } else if ms.last().0 == key {
        Some(ms.last().1)
    } else {
        members_lookup(ms.drop_last(), key)
    }
}

/// The member `key` of a value; `None` when the value is not an object or
/// has no such member.
pub open spec fn member(v: JsonView, key: Seq<char>) -> Option<JsonView> {
    match v {
        JsonView::Object(ms) => members_lookup(ms, key),
        _ => None,
    }
}

/// How deeply arrays and objects nest in a value.
pub open spec fn json_depth(v: JsonView) -> nat
    decreases v,
{
    match v {
        JsonView::Array(items) => 1 + items_depth(items),
        JsonView::Object(ms) => 1 + members_depth(ms),
        _ => 0,
    }
}

/// The deepest nesting among some values.
pub open spec fn items_depth(items: Seq<JsonView>) -> nat
    decreases items,
{
    if items.len() == 0 {
        0
    } else {
        let a = items_depth(items.drop_last());
        let b = json_depth(items.last());
        if a < b {
            b
        } else {
            a
        }
    }
}

/// The deepest nesting among the values of some members.
pub open spec fn members_depth(ms: Seq<(Seq<char>, JsonView)>) -> nat
    decreases ms,
{
    if ms.len() == 0 {
        0
    } else {
        let a = members_depth(ms.drop_last());
        let b = json_depth(ms.last().1);
        if a < b {
            b
        } else {
            a
        }
    }
}

proof fn lemma_items_depth(items: Seq<JsonView>, i: int)
    requires
        0 <= i < items.len(),
    ensures
        json_depth(items[i]) <= items_depth(items),
    decreases items.len(),
{
    if i < items.len() - 1 {
        lemma_items_depth(items.drop_last(), i);
    }
}

proof fn lemma_members_depth(ms: Seq<(Seq<char>, JsonView)>, key: Seq<char>)
    ensures
        members_lookup(ms, key) matches Some(v) ==> json_depth(v) <= members_depth(ms),
    decreases ms.len(),
{
    if ms.len() > 0 {
        lemma_members_depth(ms.drop_last(), key);
    }
}

proof fn lemma_jsons_view(js: Seq<Json>)
    ensures
        jsons_view(js).len() == js.len(),
        forall|i: int| 0 <= i < js.len() ==> #[trigger] jsons_view(js)[i] == json_view(js[i]),
    decreases js.len(),
{
    if js.len() > 0 {
        lemma_jsons_view(js.drop_last());
        assert forall|i: int| 0 <= i < js.len() implies #[trigger] jsons_view(js)[i] == json_view(js[i]) by {
            if i < js.len() - 1 {
                assert(js.drop_last()[i] == js[i]);
            }
        }
    }
}

/// The member `key` of `j`, as `member` describes it.
pub fn json_get<'a>(j: &'a Json, key: &str) -> (res: Option<&'a Json>)
    ensures
        match member(json_view(*j), key@) {
            Some(v) => (res matches Some(r) && json_view(*r) == v),
            None => res is None,
        },
{
    match j {
        Json::Object(ms) => {
            let mut i: usize = ms.len();
            assert(ms@.take(i as int) =~= ms@);
            while i > 0
                invariant
                    i <= ms@.len(),
                    json_view(*j) == JsonView::Object(members_view(ms@)),
                    members_lookup(members_view(ms@), key@) == members_lookup(
                        members_view(ms@.take(i as int)),
                        key@,
                    ),
                decreases i,
            {
                let ghost prefix = ms@.take(i as int);
                assert(prefix.drop_last() =~= ms@.take(i - 1));
                let ghost pv = members_view(prefix);
                assert(pv == members_view(prefix.drop_last()).push((prefix.last().0@, json_view(prefix.last().1))));
                assert(pv.drop_last() =~= members_view(prefix.drop_last()));
                if str_eq(ms[i - 1].0.as_str(), key) {
                    return Some(&ms[i - 1].1);
                }
                i = i - 1;
            }
            None
        },
        _ => None,
    }
}

// ---------------------------------------------------------------------------
// Chat components.

/// A chat component: text followed by more components, or a translated
/// message whose `%s` placeholders are filled with components.
#[derive(Debug)]
pub enum ChatComponent {
    Text { text: String, extra: Vec<ChatComponent> },
    Translate { format: &'static str, with: Vec<ChatComponent> },
}

/// What a `ChatComponent` holds.
pub enum ChatView {
    Text { text: Seq<char>, extra: Seq<ChatView> },
    Translate { format: Seq<char>, with: Seq<ChatView> },
}

/// What a chat component holds.
pub open spec fn chat_view(c: ChatComponent) -> ChatView
    decreases c,
{
    match c {
        ChatComponent::Text { text, extra } => ChatView::Text { text: text@, extra: chats_view(extra@) },
        ChatComponent::Translate { format, with } => ChatView::Translate {
            format: format@,
            with: chats_view(with@),
        },
    }
}

/// What a sequence of chat components holds.
pub open spec fn chats_view(cs: Seq<ChatComponent>) -> Seq<ChatView>
    decreases cs,
{
    if cs.len() == 0 {
        Seq::empty()
    } else {
        chats_view(cs.drop_last()).push(chat_view(cs.last()))
    }
}

/// Why a JSON value is not read as a chat component.
#[derive(Debug, Clone, PartialEq, Eq)]
pub enum ChatError {
    /// `translate` or `text` is not a string.
    ExpectedString,
    /// A translation of this name is not known.
    UnknownTranslation(String),
    /// `with` is not an array.
    ExpectedArray,
    /// `extra` is not an array.
    ExpectedArrayForExtra,
    /// A translation's format has `expected` placeholders but `found` values
    /// are given.
    WrongCaptures { expected: usize, found: usize },
    /// A shape that components are never written in: neither an object with
    /// `translate` or `text`, nor a string.
    Unsupported,
    /// The text is not JSON.
    NotJson,
}

/// What a `ChatError` holds.
pub enum ChatErrorView {
    ExpectedString,
    UnknownTranslation(Seq<char>),
    ExpectedArray,
    ExpectedArrayForExtra,
    WrongCaptures { expected: nat, found: nat },
    Unsupported,
    NotJson,
}

/// What a chat error holds.
pub open spec fn chat_error_view(e: ChatError) -> ChatErrorView {
    match e {
        ChatError::ExpectedString => ChatErrorView::ExpectedString,
        ChatError::UnknownTranslation(name) => ChatErrorView::UnknownTranslation(name@),
        ChatError::ExpectedArray => ChatErrorView::ExpectedArray,
        ChatError::ExpectedArrayForExtra => ChatErrorView::ExpectedArrayForExtra,
        ChatError::WrongCaptures { expected, found } => ChatErrorView::WrongCaptures {
            expected: expected as nat,
            found: found as nat,
        },
        ChatError::Unsupported => ChatErrorView::Unsupported,
        ChatError::NotJson => ChatErrorView::NotJson,
    }
}

/// The known translations: the format of each and how many `%s` it has.
pub open spec fn lang_format(name: Seq<char>) -> Option<(Seq<char>, nat)> {
    if name == "chat.type.text"@ {
        Some(("<%s> %s"@, 2))
    } else if name == "chat.type.announcement"@ {
        Some(("[%s] %s"@, 2))
    } else if name == "multiplayer.player.joined"@ {
        Some(("%s joined the game"@, 1))
    } else if name == "multiplayer.player.left"@ {
        Some(("%s left the game"@, 1))
    } else if name == "block.minecraft.set_spawn"@ {
        Some(("Respawn point set"@, 0))
    } else if name == "sleep.skipping_night"@ {
        Some(("Sleeping through this night"@, 0))
    } else {
        None
    }
}

fn find_lang_format(name: &str) -> (res: Option<(&'static str, usize)>)
    ensures
        match lang_format(name@) {
            Some((f, n)) => (res matches Some((rf, rn)) && rf@ == f && rn == n),
            None => res is None,
        },
{
    if str_eq(name, "chat.type.text") {
        Some(("<%s> %s", 2))
    } else if str_eq(name, "chat.type.announcement") {
        Some(("[%s] %s", 2))
    } else if str_eq(name, "multiplayer.player.joined") {
        Some(("%s joined the game", 1))
    } else if str_eq(name, "multiplayer.player.left") {
        Some(("%s left the game", 1))
    } else if str_eq(name, "block.minecraft.set_spawn") {
        Some(("Respawn point set", 0))
    } else if str_eq(name, "sleep.skipping_night") {
        Some(("Sleeping through this night", 0))
    } else {
        None
    }
}

/// Text without the old formatting codes: a `§` and the character after it
/// are dropped.
pub open spec fn strip_control(s: Seq<char>) -> Seq<char>
    decreases s.len(),
{
    if s.len() == 0 {
        Seq::empty()
    } else if s[0] == '§' {
        if s.len() >= 2 {
            strip_control(s.skip(2))
        } else {
            Seq::empty()
        }
    } else {
        seq![s[0]] + strip_control(s.skip(1))
    }
}

/// What is left of `t` once the character that a pending `§` drops is
/// dropped.
pub open spec fn strip_after(t: Seq<char>, drop_first: bool) -> Seq<char> {
    if drop_first {
        if t.len() > 0 {
            strip_control(t.skip(1))
        } else {
            Seq::empty()
        }
    } else {
        strip_control(t)
    }
}

/// Removes the old formatting codes from `x`, as `strip_control` describes.
pub fn strip_old_control(x: &str) -> (res: String)
    ensures
        res@ == strip_control(x@),
{
    let mut res = String::new();
    let n = x.unicode_len();
    let mut last_is_control = false;
    let mut i: usize = 0;
    assert(x@.skip(0) =~= x@);
    assert(res@ + strip_control(x@) =~= strip_control(x@));
    while i < n
        invariant
            i <= n,
            n == x@.len(),
            res@ + strip_after(x@.skip(i as int), last_is_control) == strip_control(x@),
        decreases n - i,
    {
        let c = x.get_char(i);
        let ghost t = x@.skip(i as int);
        assert(t.skip(1) =~= x@.skip(i + 1));
        if i + 1 < n {
            assert(t.skip(2) =~= x@.skip(i + 1).skip(1));
        }
        if last_is_control {
            last_is_control = false;
        } else if c == '§' {
            last_is_control = true;
        } else {
            let ghost before = res@;
            push_char(&mut res, c);
            assert(before + (seq![c] + strip_control(t.skip(1))) =~= res@ + strip_control(x@.skip(i + 1)));
        }
        i = i + 1;
    }
    assert(x@.skip(n as int) =~= Seq::<char>::empty());
    assert(res@ + Seq::<char>::empty() =~= res@);
    res
}

/// The component that a JSON value describes, reading values nested at most
/// `fuel - 1` deep: an object with `translate` is a translation (its `with`
/// array holds as many components as the format has placeholders), an
/// object with `text` is text (its `extra` array holds more components), a
/// string is plain text.
pub open spec fn spec_component(v: JsonView, fuel: nat) -> Result<ChatView, ChatErrorView>
    decreases fuel, 0nat,
{
    if fuel == 0 {
        Err(ChatErrorView::Unsupported)
    } else if member(v, "translate"@) is Some {
        match member(v, "translate"@) {
            Some(JsonView::String(name)) => match lang_format(name) {
                Some((format, n)) => match member(v, "with"@) {
                    None => if n == 0 {
                        Ok(ChatView::Translate { format, with: Seq::empty() })
                    } else {
                        Err(ChatErrorView::WrongCaptures { expected: n, found: 0 })
                    },
                    Some(JsonView::Array(items)) => if items.len() != n {
                        Err(ChatErrorView::WrongCaptures { expected: n, found: items.len() })
                    } else {
                        match spec_components(items, (fuel - 1) as nat) {
                            Ok(cs) => Ok(ChatView::Translate { format, with: cs }),
                            Err(e) => Err(e),
                        }
                    },
                    Some(_) => Err(ChatErrorView::ExpectedArray),
                },
                None => Err(ChatErrorView::UnknownTranslation(name)),
            },
            _ => Err(ChatErrorView::ExpectedString),
        }
    } else if member(v, "text"@) is Some {
        match member(v, "text"@) {
            Some(JsonView::String(t)) => match member(v, "extra"@) {
                None => Ok(ChatView::Text { text: strip_control(t), extra: Seq::empty() }),
                Some(JsonView::Array(items)) => match spec_components(items, (fuel - 1) as nat) {
                    Ok(cs) => Ok(ChatView::Text { text: strip_control(t), extra: cs }),
                    Err(e) => Err(e),
                },
                Some(_) => Err(ChatErrorView::ExpectedArrayForExtra),
            },
            _ => Err(ChatErrorView::ExpectedString),
        }
    } else {
        match v {
            JsonView::String(s) => Ok(ChatView::Text { text: strip_control(s), extra: Seq::empty() }),
            _ => Err(ChatErrorView::Unsupported),
        }
    }
}

/// The components that some JSON values describe, read in order; the first
/// value that is not read decides the error.
pub open spec fn spec_components(items: Seq<JsonView>, fuel: nat) -> Result<Seq<ChatView>, ChatErrorView>
    decreases fuel, items.len(),
{
    if items.len() == 0 {
        Ok(Seq::empty())
    } else {
        match spec_components(items.drop_last(), fuel) {
            Ok(cs) => match spec_component(items.last(), fuel) {
                Ok(c) => Ok(cs.push(c)),
                Err(e) => Err(e),
            },
            Err(e) => Err(e),
        }
    }
}

/// The component that a JSON value describes.
pub open spec fn spec_parse_component(v: JsonView) -> Result<ChatView, ChatErrorView> {
    spec_component(v, json_depth(v) + 1)
}

fn parse_components(items: &Vec<Json>, Ghost(fuel): Ghost<nat>) -> (res: Result<Vec<ChatComponent>, ChatError>)
    requires
        forall|i: int| 0 <= i < items@.len() ==> json_depth(json_view(#[trigger] items@[i])) < fuel,
    ensures
        match spec_components(jsons_view(items@), fuel) {
            Ok(cs) => (res matches Ok(v) && chats_view(v@) == cs),
            Err(e) => (res matches Err(x) && chat_error_view(x) == e),
        },
    decreases fuel, 1nat,
{
    proof {
        lemma_jsons_view(items@);
    }
    let mut out: Vec<ChatComponent> = Vec::new();
    let mut i: usize = 0;
    while i < items.len()
        invariant
            i <= items@.len(),
            forall|k: int| 0 <= k < items@.len() ==> json_depth(json_view(#[trigger] items@[k])) < fuel,
            jsons_view(items@).len() == items@.len(),
            forall|k: int| 0 <= k < items@.len() ==> #[trigger] jsons_view(items@)[k] == json_view(items@[k]),
            spec_components(jsons_view(items@).take(i as int), fuel) == Ok::<Seq<ChatView>, ChatErrorView>(
                chats_view(out@),
            ),
        decreases items@.len() - i,
    {
        let ghost all = jsons_view(items@);
        assert(all.take(i + 1).drop_last() =~= all.take(i as int));
        assert(all.take(i + 1).last() == json_view(items@[i as int]));
        let c = parse_component_fuel(&items[i], Ghost(fuel));
        match c {
            Ok(c) => {
                let ghost before = out@;
                out.push(c);
                assert(out@.drop_last() =~= before);
            },
            Err(e) => {
                proof {
                    lemma_components_prefix(all, i + 1, fuel);
                }
                return Err(e);
            },
        }
        i = i + 1;
    }
    assert(jsons_view(items@).take(i as int) =~= jsons_view(items@));
    Ok(out)
}

/// When reading stops with an error in a prefix, reading all stops with the
/// same error.
proof fn lemma_components_prefix(items: Seq<JsonView>, n: int, fuel: nat)
    requires
        0 <= n <= items.len(),
        spec_components(items.take(n), fuel) is Err,
    ensures
        spec_components(items, fuel) == spec_components(items.take(n), fuel),
    decreases items.len() - n,
{
    if n < items.len() {
        assert(items.take(n + 1).drop_last() =~= items.take(n));
        lemma_components_prefix(items, n + 1, fuel);
    } else {
        assert(items.take(n) =~= items);
    }
}

fn parse_component_fuel(input: &Json, Ghost(fuel): Ghost<nat>) -> (res: Result<ChatComponent, ChatError>)
    requires
        json_depth(json_view(*input)) < fuel,
    ensures
        match spec_component(json_view(*input), fuel) {
            Ok(c) => (res matches Ok(x) && chat_view(x) == c),
            Err(e) => (res matches Err(x) && chat_error_view(x) == e),
        },
    decreases fuel, 0nat,
{
    let ghost v = json_view(*input);
    proof {
        if let JsonView::Object(ms) = v {
            lemma_members_depth(ms, "translate"@);
            lemma_members_depth(ms, "with"@);
            lemma_members_depth(ms, "text"@);
            lemma_members_depth(ms, "extra"@);
        }
    }
    if let Some(t) = json_get(input, "translate") {
        let name = match t {
            Json::String(name) => name,
            _ => {
                return Err(ChatError::ExpectedString);
            },
        };
        let (format, n) = match find_lang_format(name.as_str()) {
            Some(x) => x,
            None => {
                return Err(ChatError::UnknownTranslation(String::from_str(name.as_str())));
            },
        };
        match json_get(input, "with") {
            None => {
                if n == 0 {
                    let with: Vec<ChatComponent> = Vec::new();
                    assert(chats_view(with@) =~= Seq::<ChatView>::empty());
                    Ok(ChatComponent::Translate { format, with })
                } else {
                    Err(ChatError::WrongCaptures { expected: n, found: 0 })
                }
            },
            Some(Json::Array(items)) => {
                proof {
                    lemma_jsons_view(items@);
                    assert forall|i: int| 0 <= i < items@.len() implies json_depth(
                        json_view(#[trigger] items@[i]),
                    ) < fuel - 1 by {
                        lemma_items_depth(jsons_view(items@), i);
                    }
                }
                if items.len() != n {
                    return Err(ChatError::WrongCaptures { expected: n, found: items.len() });
                }
                match parse_components(items, Ghost((fuel - 1) as nat)) {
                    Ok(with) => Ok(ChatComponent::Translate { format, with }),
                    Err(e) => Err(e),
                }
            },
            Some(_) => Err(ChatError::ExpectedArray),
        }
    } else if let Some(t) = json_get(input, "text") {
        let text = match t {
            Json::String(text) => text,
            _ => {
                return Err(ChatError::ExpectedString);
            },
        };
        match json_get(input, "extra") {
            None => {
                let extra: Vec<ChatComponent> = Vec::new();
                assert(chats_view(extra@) =~= Seq::<ChatView>::empty());
                Ok(ChatComponent::Text { text: strip_old_control(text.as_str()), extra })
            },
            Some(Json::Array(items)) => {
                proof {
                    lemma_jsons_view(items@);
                    assert forall|i: int| 0 <= i < items@.len() implies json_depth(
                        json_view(#[trigger] items@[i]),
                    ) < fuel - 1 by {
                        lemma_items_depth(jsons_view(items@), i);
                    }
                }
                match parse_components(items, Ghost((fuel - 1) as nat)) {
                    Ok(extra) => Ok(ChatComponent::Text { text: strip_old_control(text.as_str()), extra }),
                    Err(e) => Err(e),
                }
            },
            Some(_) => Err(ChatError::ExpectedArrayForExtra),
        }
    } else {
        match input {
            Json::String(s) => {
                let extra: Vec<ChatComponent> = Vec::new();
                assert(chats_view(extra@) =~= Seq::<ChatView>::empty());
                Ok(ChatComponent::Text { text: strip_old_control(s.as_str()), extra })
            },
            _ => Err(ChatError::Unsupported),
        }
    }
}

/// Reads the chat component that a JSON value describes.
pub fn parse_component(input: &Json) -> (res: Result<ChatComponent, ChatError>)
    ensures
        match spec_parse_component(json_view(*input)) {
            Ok(c) => (res matches Ok(x) && chat_view(x) == c),
            Err(e) => (res matches Err(x) && chat_error_view(x) == e),
        },
{
    parse_component_fuel(input, Ghost(json_depth(json_view(*input)) + 1))
}

// ---------------------------------------------------------------------------
// Chat messages as JSON text.

#[verifier::external_type_specification]
#[verifier::external_body]
pub struct ExValue(serde_json::Value);

/// What serde_json reads from `text` as a JSON value (`serde_json::from_str`
/// into `serde_json::Value`, each value then taken one for one as a `Json`,
/// a number as the text that serde_json writes for it); `None` when the text
/// is not JSON.
pub uninterp spec fn json_parsed(text: Seq<char>) -> Option<JsonView>;

/// `serde_json::from_str` into a `serde_json::Value`, converted to a `Json`.
/// The contract claims only that the outcome depends on the text alone
/// (`json_parsed`).
#[verifier::external_body]
fn parse_json(text: &str) -> (res: Option<Json>)
    ensures
        match json_parsed(text@) {
            Some(v) => (res matches Some(j) && json_view(j) == v),
            None => res is None,
        },
{
    match serde_json::from_str::<serde_json::Value>(text) {
        Ok(value) => Some(value_to_json(&value)),
        Err(_) => None,
    }
}

/// A serde_json value as a `Json`, variant for variant.
#[verifier::external_body]
fn value_to_json(value: &serde_json::Value) -> Json {
    match value {
        serde_json::Value::Null => Json::Null,
        serde_json::Value::Bool(b) => Json::Bool(*b),
        serde_json::Value::Number(n) => Json::Number(n.to_string()),
        serde_json::Value::String(s) => Json::String(s.clone()),
        serde_json::Value::Array(items) => Json::Array(items.iter().map(value_to_json).collect()),
        serde_json::Value::Object(members) => Json::Object(
            members.iter().map(|(k, v)| (k.clone(), value_to_json(v))).collect(),
        ),
    }
}

/// Reads a chat message written as JSON text: the component that the JSON
/// value describes, or `NotJson` when the text is not JSON.
pub fn parse_chat(input: &str) -> (res: Result<ChatComponent, ChatError>)
    ensures
        match json_parsed(input@) {
            Some(v) => match spec_parse_component(v) {
                Ok(c) => (res matches Ok(x) && chat_view(x) == c),
                Err(e) => (res matches Err(x) && chat_error_view(x) == e),
            },
            None => (res matches Err(ChatError::NotJson)),
        },
{
    match parse_json(input) {
        Some(j) => parse_component(&j),
        None => Err(ChatError::NotJson),
    }
}

// ---------------------------------------------------------------------------
// The text that components display.

/// The text that a component displays: text followed by the text of its
/// extra components, or a translation's format with `%%` shown as `%` and
/// each `%s` replaced by the text of the next value. `None` where a format
/// has a `%` followed by another character, or more `%s` than values.
pub open spec fn chat_text(c: ChatView) -> Option<Seq<char>>
    decreases c, 0nat,
{
    match c {
        ChatView::Text { text, extra } => match chat_texts(extra) {
            Some(t) => Some(text + t),
            None => None,
        },
        ChatView::Translate { format, with } => format_text(format, with, 0, false),
    }
}

/// The texts of some components, one after another.
pub open spec fn chat_texts(cs: Seq<ChatView>) -> Option<Seq<char>>
    decreases cs, cs.len(),
{
    if cs.len() == 0 {
        Some(Seq::empty())
    } else {
        match chat_texts(cs.drop_last()) {
            Some(a) => match chat_text(cs.last()) {
                Some(b) => Some(a + b),
                None => None,
            },
            None => None,
        }
    }
}

/// The text of the rest `format` of a translation's format, whose next
/// placeholder takes value number `offset` of `with`, right after a `%` when
/// `after_percent`.
pub open spec fn format_text(format: Seq<char>, with: Seq<ChatView>, offset: int, after_percent: bool) -> Option<
    Seq<char>,
>
    decreases with, format.len(),
{
    if format.len() == 0 {
        Some(Seq::empty())
    } else {
        let c = format[0];
        let rest = format.drop_first();
        if after_percent {
            if c == '%' {
                match format_text(rest, with, offset, false) {
                    Some(r) => Some(seq!['%'] + r),
                    None => None,
                }
            } else if c == 's' {
                if 0 <= offset < with.len() {
                    match chat_text(with[offset]) {
                        Some(t) => match format_text(rest, with, offset + 1, false) {
                            Some(r) => Some(t + r),
                            None => None,
                        },
                        None => None,
                    }
                } else {
                    None
                }
            } else {
                None
            }
        } else if c == '%' {
            format_text(rest, with, offset, true)
        } else {
            match format_text(rest, with, offset, false) {
                Some(r) => Some(seq![c] + r),
                None => None,
            }
        }
    }
}

proof fn lemma_chats_view(cs: Seq<ChatComponent>)
    ensures
        chats_view(cs).len() == cs.len(),
        forall|i: int| 0 <= i < cs.len() ==> #[trigger] chats_view(cs)[i] == chat_view(cs[i]),
    decreases cs.len(),
{
    if cs.len() > 0 {
        lemma_chats_view(cs.drop_last());
        assert forall|i: int| 0 <= i < cs.len() implies #[trigger] chats_view(cs)[i] == chat_view(cs[i]) by {
            if i < cs.len() - 1 {
                assert(cs.drop_last()[i] == cs[i]);
            }
        }
    }
}

proof fn lemma_chat_texts_prefix(cs: Seq<ChatComponent>, n: int)
    requires
        0 <= n <= cs.len(),
        chat_texts(chats_view(cs.take(n))) is None,
    ensures
        chat_texts(chats_view(cs)) is None,
    decreases cs.len() - n,
{
    if n < cs.len() {
        assert(cs.take(n + 1).drop_last() =~= cs.take(n));
        assert(chats_view(cs.take(n + 1)).drop_last() =~= chats_view(cs.take(n)));
        lemma_chat_texts_prefix(cs, n + 1);
    } else {
        assert(cs.take(n) =~= cs);
    }
}

impl ChatComponent {
    /// The text that this component displays, as `chat_text` describes it;
    /// `None` where a translation's format cannot be filled.
    pub fn to_text(&self) -> (res: Option<String>)
        ensures
            match chat_text(chat_view(*self)) {
                Some(t) => (res matches Some(s) && s@ == t),
                None => res is None,
            },
        decreases self,
    {
        match self {
            ChatComponent::Text { text, extra } => {
                let mut out = text.clone();
                let ghost start = out@;
                let mut i: usize = 0;
                assert(chats_view(extra@.take(0)) =~= Seq::<ChatView>::empty());
                assert(start + Seq::<char>::empty() =~= start);
                while i < extra.len()
                    invariant
                        i <= extra@.len(),
                        start == text@,
                        *self == (ChatComponent::Text { text: *text, extra: *extra }),
                        chat_texts(chats_view(extra@.take(i as int))) matches Some(t) && out@ == start + t,
                    decreases extra@.len() - i,
                {
                    let ghost prefix = extra@.take(i + 1);
                    assert(prefix.drop_last() =~= extra@.take(i as int));
                    assert(prefix.last() == extra@[i as int]);
                    assert(chats_view(prefix).drop_last() =~= chats_view(extra@.take(i as int)));
                    assert(chats_view(prefix).last() == chat_view(extra@[i as int]));
                    let ghost before = out@;
                    match extra[i].to_text() {
                        Some(t) => {
                            out.append(t.as_str());
                            proof {
                                let a = chat_texts(chats_view(extra@.take(i as int)))->0;
                                assert(start + (a + t@) =~= before + t@);
                            }
                        },
                        None => {
                            proof {
                                lemma_chat_texts_prefix(extra@, i + 1);
                            }
                            return None;
                        },
                    }
                    i = i + 1;
                }
                assert(extra@.take(i as int) =~= extra@);
                Some(out)
            },
            ChatComponent::Translate { format, with } => {
                let ghost w = chats_view(with@);
                proof {
                    lemma_chats_view(with@);
                }
                let n = format.unicode_len();
                let mut out = String::new();
                let mut offset: usize = 0;
                let mut after_percent = false;
                let mut i: usize = 0;
                assert(format@.skip(0) =~= format@);
                assert(Seq::<char>::empty() + format_text(format@, w, 0, false)->0 =~= format_text(format@, w, 0, false)->0);
                while i < n
                    invariant
                        i <= n,
                        n == format@.len(),
                        w == chats_view(with@),
                        w.len() == with@.len(),
                        forall|k: int| 0 <= k < with@.len() ==> #[trigger] w[k] == chat_view(with@[k]),
                        *self == (ChatComponent::Translate { format: *format, with: *with }),
                        format_text(format@, w, 0, false) == match format_text(format@.skip(i as int), w, offset as int, after_percent) {
                            Some(r) => Some(out@ + r),
                            None => None,
                        },
                    decreases n - i,
                {
                    let c = format.get_char(i);
                    let ghost t = format@.skip(i as int);
                    assert(t.drop_first() =~= format@.skip(i + 1));
                    let ghost before = out@;
                    if after_percent {
                        if c == '%' {
                            push_char(&mut out, '%');
                            proof {
                                match format_text(format@.skip(i + 1), w, offset as int, false) {
                                    Some(r) => {
                                        assert(before + (seq!['%'] + r) =~= out@ + r);
                                    },
                                    None => {},
                                }
                            }
                        } else if c == 's' {
                            if offset >= with.len() {
                                return None;
                            }
                            match with[offset].to_text() {
                                Some(s) => {
                                    out.append(s.as_str());
                                    proof {
                                        match format_text(format@.skip(i + 1), w, offset + 1, false) {
                                            Some(r) => {
                                                assert(before + (s@ + r) =~= out@ + r);
                                            },
                                            None => {},
                                        }
                                    }
                                },
                                None => {
                                    return None;
                                },
                            }
                            offset = offset + 1;
                        } else {
                            return None;
                        }
                        after_percent = false;
                    } else if c == '%' {
                        after_percent = true;
                    } else {
                        push_char(&mut out, c);
                        proof {
                            match format_text(format@.skip(i + 1), w, offset as int, false) {
                                Some(r) => {
                                    assert(before + (seq![c] + r) =~= out@ + r);
                                },
                                None => {},
                            }
                        }
                    }
                    i = i + 1;
                }
                assert(format@.skip(n as int).len() == 0);
                assert(out@ + Seq::<char>::empty() =~= out@);
                Some(out)
            },
        }
    }
}

// ---------------------------------------------------------------------------
// Parsed components always display.

/// Whether a format (from a point right after a `%` when `after_percent`)
/// can be filled with `slots` values: each `%` is followed by `%` or by `s`,
/// and there are at most `slots` of the latter.
pub open spec fn format_fits(format: Seq<char>, slots: int, after_percent: bool) -> bool
    decreases format.len(),
{
    if format.len() == 0 {
        true
    } else if after_percent {
        if format[0] == '%' {
            format_fits(format.drop_first(), slots, false)
        } else if format[0] == 's' {
            slots > 0 && format_fits(format.drop_first(), slots - 1, false)
        } else {
            false
        }
    } else if format[0] == '%' {
        format_fits(format.drop_first(), slots, true)
    } else {
        format_fits(format.drop_first(), slots, false)
    }
}

proof fn lemma_format_fits(format: Seq<char>, with: Seq<ChatView>, offset: int, after_percent: bool)
    requires
        0 <= offset <= with.len(),
        format_fits(format, with.len() - offset, after_percent),
        forall|i: int| offset <= i < with.len() ==> (#[trigger] chat_text(with[i])) is Some,
    ensures
        format_text(format, with, offset, after_percent) is Some,
    decreases format.len(),
{
    if format.len() > 0 {
        if after_percent {
            if format[0] == '%' {
                lemma_format_fits(format.drop_first(), with, offset, false);
            } else {
                assert(chat_text(with[offset]) is Some);
                lemma_format_fits(format.drop_first(), with, offset + 1, false);
            }
        } else if format[0] == '%' {
            lemma_format_fits(format.drop_first(), with, offset, true);
        } else {
            lemma_format_fits(format.drop_first(), with, offset, false);
        }
    }
}

proof fn lemma_lang_formats_fit(name: Seq<char>)
    ensures
        lang_format(name) matches Some((f, n)) ==> format_fits(f, n as int, false),
{
    assert(format_fits("<%s> %s"@, 2, false)) by {
        reveal_strlit("<%s> %s");
        reveal_with_fuel(format_fits, 8);
    }
    assert(format_fits("[%s] %s"@, 2, false)) by {
        reveal_strlit("[%s] %s");
        reveal_with_fuel(format_fits, 8);
    }
    assert(format_fits("%s joined the game"@, 1, false)) by {
        reveal_strlit("%s joined the game");
        reveal_with_fuel(format_fits, 19);
    }
    assert(format_fits("%s left the game"@, 1, false)) by {
        reveal_strlit("%s left the game");
        reveal_with_fuel(format_fits, 17);
    }
    assert(format_fits("Respawn point set"@, 0, false)) by {
        reveal_strlit("Respawn point set");
        reveal_with_fuel(format_fits, 18);
    }
    assert(format_fits("Sleeping through this night"@, 0, false)) by {
        reveal_strlit("Sleeping through this night");
        reveal_with_fuel(format_fits, 28);
    }
}

proof fn lemma_component_displays(v: JsonView, fuel: nat)
    ensures
        spec_component(v, fuel) matches Ok(c) ==> chat_text(c) is Some,
    decreases fuel, 0nat,
{
    if fuel > 0 {
        if member(v, "translate"@) is Some {
            if let Some(JsonView::String(name)) = member(v, "translate"@) {
                lemma_lang_formats_fit(name);
                if let Some((format, n)) = lang_format(name) {
                    match member(v, "with"@) {
                        None => {
                            if n == 0 {
                                lemma_format_fits(format, Seq::empty(), 0, false);
                            }
                        },
                        Some(JsonView::Array(items)) => {
                            lemma_components_display(items, (fuel - 1) as nat);
                            if let Ok(cs) = spec_components(items, (fuel - 1) as nat) {
                                if items.len() == n {
                                    lemma_format_fits(format, cs, 0, false);
                                }
                            }
                        },
                        Some(_) => {},
                    }
                }
            }
        } else if member(v, "text"@) is Some {
            if let Some(JsonView::String(t)) = member(v, "text"@) {
                if let Some(JsonView::Array(items)) = member(v, "extra"@) {
                    lemma_components_display(items, (fuel - 1) as nat);
                }
            }
        }
    }
}

proof fn lemma_components_display(items: Seq<JsonView>, fuel: nat)
    ensures
        spec_components(items, fuel) matches Ok(cs) ==> {
            &&& cs.len() == items.len()
            &&& chat_texts(cs) is Some
            &&& forall|i: int| 0 <= i < cs.len() ==> (#[trigger] chat_text(cs[i])) is Some
        },
    decreases fuel, items.len(),
{
    if items.len() > 0 {
        lemma_components_display(items.drop_last(), fuel);
        lemma_component_displays(items.last(), fuel);
        if let Ok(cs) = spec_components(items, fuel) {
            let prev = spec_components(items.drop_last(), fuel)->Ok_0;
            assert(cs.drop_last() =~= prev);
            assert forall|i: int| 0 <= i < cs.len() implies (#[trigger] chat_text(cs[i])) is Some by {
                if i < cs.len() - 1 {
                    assert(cs[i] == prev[i]);
                }
            }
        }
    }
}

/// A component read from JSON always displays: the formats of its
/// translations have exactly as many placeholders as it holds values, so
/// `to_text` gives its text.
pub proof fn lemma_parsed_component_displays(v: JsonView)
    ensures
        spec_parse_component(v) matches Ok(c) ==> chat_text(c) is Some,
{
    lemma_component_displays(v, json_depth(v) + 1);
}

/// The text without formatting codes holds no `§`.
pub proof fn lemma_strip_control_removes_codes(s: Seq<char>)
    ensures
        !strip_control(s).contains('§'),
    decreases s.len(),
{
    if s.len() > 0 {
        if s[0] == '§' {
            if s.len() >= 2 {
                lemma_strip_control_removes_codes(s.skip(2));
            }
        } else {
            lemma_strip_control_removes_codes(s.skip(1));
            let r = strip_control(s.skip(1));
            assert forall|i: int| 0 <= i < (seq![s[0]] + r).len() implies (seq![s[0]] + r)[i] != '§' by {
                if i > 0 {
                    assert((seq![s[0]] + r)[i] == r[i - 1]);
                }
            }
        }
    }
}

// ---------------------------------------------------------------------------
// What the known translations display.

/// The text that a translation with key `key` and values `with` displays: a
/// known key with as many values as its format has placeholders.
pub open spec fn translated(key: Seq<char>, with: Seq<ChatView>) -> Option<Seq<char>> {
    match lang_format(key) {
        Some((format, n)) => if with.len() == n {
            chat_text(ChatView::Translate { format, with })
        } else {
            None
        },
        None => None,
    }
}

/// Text without `%` reads as itself before what follows it.
proof fn lemma_format_plain_prefix(p: Seq<char>, rest: Seq<char>, with: Seq<ChatView>, offset: int)
    requires
        forall|i: int| 0 <= i < p.len() ==> p[i] != '%',
    ensures
        format_text(p + rest, with, offset, false) == match format_text(rest, with, offset, false) {
            Some(r) => Some(p + r),
            None => None,
        },
    decreases p.len(),
{
    if p.len() > 0 {
        assert((p + rest)[0] == p[0]);
        assert((p + rest).drop_first() =~= p.drop_first() + rest);
        lemma_format_plain_prefix(p.drop_first(), rest, with, offset);
        match format_text(rest, with, offset, false) {
            Some(r) => {
                assert(seq![p[0]] + (p.drop_first() + r) =~= p + r);
            },
            None => {},
        }
    } else {
        assert(p + rest =~= rest);
        assert(p + Seq::<char>::empty() =~= p);
        match format_text(rest, with, offset, false) {
            Some(r) => {
                assert(p + r =~= r);
            },
            None => {},
        }
    }
}

/// A `%s` reads as the text of the next value.
proof fn lemma_format_slot(rest: Seq<char>, with: Seq<ChatView>, offset: int)
    requires
        0 <= offset < with.len(),
    ensures
        format_text(seq!['%', 's'] + rest, with, offset, false) == match chat_text(with[offset]) {
            Some(t) => match format_text(rest, with, offset + 1, false) {
                Some(r) => Some(t + r),
                None => None,
            },
            None => None,
        },
{
    let f = seq!['%', 's'] + rest;
    assert(f[0] == '%');
    assert(f.drop_first() =~= seq!['s'] + rest);
    assert(f.drop_first()[0] == 's');
    assert(f.drop_first().drop_first() =~= rest);
    assert(format_text(f, with, offset, false) == format_text(f.drop_first(), with, offset, true));
    assert(format_text(f.drop_first(), with, offset, true) == match chat_text(with[offset]) {
        Some(t) => match format_text(rest, with, offset + 1, false) {
            Some(r) => Some(t + r),
            None => None,
        },
        None => None,
    });
}

/// A `chat.type.text` translation with two values displays `<%s> %s`, each `%s` being the text of the next value.
pub proof fn lemma_chat_type_text_display(a: ChatView, b: ChatView)
    ensures
        translated("chat.type.text"@, seq![a, b]) == match (chat_text(a), chat_text(b)) {
            (Some(ta), Some(tb)) => Some("<"@ + ta + "> "@ + tb),
            _ => None,
        },
{
    let with: Seq<ChatView> = seq![a, b];
    reveal_strlit("chat.type.text");
    reveal_strlit("<%s> %s");
    reveal_strlit("<");
    reveal_strlit("> ");
    assert("chat.type.text"@.len() == 14);
    assert(lang_format("chat.type.text"@) == Some(("<%s> %s"@, 2nat)));
    assert("<%s> %s"@ =~= ("<"@ + (seq!['%', 's'] + ("> "@ + (seq!['%', 's'] + Seq::<char>::empty())))));
    lemma_format_plain_prefix("<"@, (seq!['%', 's'] + ("> "@ + (seq!['%', 's'] + Seq::<char>::empty()))), with, 0);
    lemma_format_slot(("> "@ + (seq!['%', 's'] + Seq::<char>::empty())), with, 0);
    lemma_format_plain_prefix("> "@, (seq!['%', 's'] + Seq::<char>::empty()), with, 1);
    lemma_format_slot(Seq::<char>::empty(), with, 1);
    assert(format_text(Seq::<char>::empty(), with, 2, false) == Some(Seq::<char>::empty()));
    if let (Some(ta), Some(tb)) = (chat_text(a), chat_text(b)) {
        assert(with[0] == a);
        assert(with[1] == b);
        assert(("<"@ + (ta + ("> "@ + (tb + Seq::<char>::empty())))) =~= "<"@ + ta + "> "@ + tb);
    }
    assert(with[0] == a);
    assert(with[1] == b);
}

/// A `chat.type.announcement` translation with two values displays `[%s] %s`, each `%s` being the text of the next value.
pub proof fn lemma_chat_type_announcement_display(a: ChatView, b: ChatView)
    ensures
        translated("chat.type.announcement"@, seq![a, b]) == match (chat_text(a), chat_text(b)) {
            (Some(ta), Some(tb)) => Some("["@ + ta + "] "@ + tb),
            _ => None,
        },
{
    let with: Seq<ChatView> = seq![a, b];
    reveal_strlit("chat.type.text");
    reveal_strlit("chat.type.announcement");
    reveal_strlit("[%s] %s");
    reveal_strlit("] ");
    reveal_strlit("[");
    assert("chat.type.text"@.len() == 14);
    assert("chat.type.announcement"@.len() == 22);
    assert(lang_format("chat.type.announcement"@) == Some(("[%s] %s"@, 2nat)));
    assert("[%s] %s"@ =~= ("["@ + (seq!['%', 's'] + ("] "@ + (seq!['%', 's'] + Seq::<char>::empty())))));
    lemma_format_plain_prefix("["@, (seq!['%', 's'] + ("] "@ + (seq!['%', 's'] + Seq::<char>::empty()))), with, 0);
    lemma_format_slot(("] "@ + (seq!['%', 's'] + Seq::<char>::empty())), with, 0);
    lemma_format_plain_prefix("] "@, (seq!['%', 's'] + Seq::<char>::empty()), with, 1);
    lemma_format_slot(Seq::<char>::empty(), with, 1);
    assert(format_text(Seq::<char>::empty(), with, 2, false) == Some(Seq::<char>::empty()));
    if let (Some(ta), Some(tb)) = (chat_text(a), chat_text(b)) {
        assert(with[0] == a);
        assert(with[1] == b);
        assert(("["@ + (ta + ("] "@ + (tb + Seq::<char>::empty())))) =~= "["@ + ta + "] "@ + tb);
    }
    assert(with[0] == a);
    assert(with[1] == b);
}

/// A `multiplayer.player.joined` translation with one value displays `%s joined the game`, each `%s` being the text of the next value.
pub proof fn lemma_player_joined_display(a: ChatView)
    ensures
        translated("multiplayer.player.joined"@, seq![a]) == match chat_text(a) {
            Some(ta) => Some(ta + " joined the game"@),
            None => None,
        },
{
    let with: Seq<ChatView> = seq![a];
    reveal_strlit("chat.type.text");
    reveal_strlit("chat.type.announcement");
    reveal_strlit("multiplayer.player.joined");
    reveal_strlit("%s joined the game");
    reveal_strlit(" joined the game");
    assert("chat.type.text"@.len() == 14);
    assert("chat.type.announcement"@.len() == 22);
    assert("multiplayer.player.joined"@.len() == 25);
    assert(lang_format("multiplayer.player.joined"@) == Some(("%s joined the game"@, 1nat)));
    assert("%s joined the game"@ =~= (seq!['%', 's'] + (" joined the game"@ + Seq::<char>::empty())));
    lemma_format_slot((" joined the game"@ + Seq::<char>::empty()), with, 0);
    lemma_format_plain_prefix(" joined the game"@, Seq::<char>::empty(), with, 1);
    assert(format_text(Seq::<char>::empty(), with, 1, false) == Some(Seq::<char>::empty()));
    if let Some(ta) = chat_text(a) {
        assert(with[0] == a);
        assert((ta + (" joined the game"@ + Seq::<char>::empty())) =~= ta + " joined the game"@);
    }
    assert(with[0] == a);
}

/// A `multiplayer.player.left` translation with one value displays `%s left the game`, each `%s` being the text of the next value.
pub proof fn lemma_player_left_display(a: ChatView)
    ensures
        translated("multiplayer.player.left"@, seq![a]) == match chat_text(a) {
            Some(ta) => Some(ta + " left the game"@),
            None => None,
        },
{
    let with: Seq<ChatView> = seq![a];
    reveal_strlit("chat.type.text");
    reveal_strlit("chat.type.announcement");
    reveal_strlit("multiplayer.player.joined");
    reveal_strlit("multiplayer.player.left");
    reveal_strlit("%s left the game");
    reveal_strlit(" left the game");
    assert("chat.type.text"@.len() == 14);
    assert("chat.type.announcement"@.len() == 22);
    assert("multiplayer.player.joined"@.len() == 25);
    assert("multiplayer.player.left"@.len() == 23);
    assert(lang_format("multiplayer.player.left"@) == Some(("%s left the game"@, 1nat)));
    assert("%s left the game"@ =~= (seq!['%', 's'] + (" left the game"@ + Seq::<char>::empty())));
    lemma_format_slot((" left the game"@ + Seq::<char>::empty()), with, 0);
    lemma_format_plain_prefix(" left the game"@, Seq::<char>::empty(), with, 1);
    assert(format_text(Seq::<char>::empty(), with, 1, false) == Some(Seq::<char>::empty()));
    if let Some(ta) = chat_text(a) {
        assert(with[0] == a);
        assert((ta + (" left the game"@ + Seq::<char>::empty())) =~= ta + " left the game"@);
    }
    assert(with[0] == a);
}

/// A `block.minecraft.set_spawn` translation with no values displays `Respawn point set`.
pub proof fn lemma_set_spawn_display()
    ensures
        translated("block.minecraft.set_spawn"@, Seq::empty()) == Some("Respawn point set"@),
{
    let with: Seq<ChatView> = Seq::<ChatView>::empty();
    reveal_strlit("chat.type.text");
    reveal_strlit("chat.type.announcement");
    reveal_strlit("multiplayer.player.joined");
    reveal_strlit("multiplayer.player.left");
    reveal_strlit("block.minecraft.set_spawn");
    assert("block.minecraft.set_spawn"@[0] != "multiplayer.player.joined"@[0]);
    reveal_strlit("Respawn point set");
    reveal_strlit("Respawn point set");
    assert("chat.type.text"@.len() == 14);
    assert("chat.type.announcement"@.len() == 22);
    assert("multiplayer.player.joined"@.len() == 25);
    assert("multiplayer.player.left"@.len() == 23);
    assert("block.minecraft.set_spawn"@.len() == 25);
    assert(lang_format("block.minecraft.set_spawn"@) == Some(("Respawn point set"@, 0nat)));
    assert("Respawn point set"@ =~= ("Respawn point set"@ + Seq::<char>::empty()));
    lemma_format_plain_prefix("Respawn point set"@, Seq::<char>::empty(), with, 0);
    assert(format_text(Seq::<char>::empty(), with, 0, false) == Some(Seq::<char>::empty()));
    assert("Respawn point set"@ + Seq::<char>::empty() =~= "Respawn point set"@);
}

/// A `sleep.skipping_night` translation with no values displays `Sleeping through this night`.
pub proof fn lemma_skipping_night_display()
    ensures
        translated("sleep.skipping_night"@, Seq::empty()) == Some("Sleeping through this night"@),
{
    let with: Seq<ChatView> = Seq::<ChatView>::empty();
    reveal_strlit("chat.type.text");
    reveal_strlit("chat.type.announcement");
    reveal_strlit("multiplayer.player.joined");
    reveal_strlit("multiplayer.player.left");
    reveal_strlit("block.minecraft.set_spawn");
    reveal_strlit("sleep.skipping_night");
    reveal_strlit("Sleeping through this night");
    reveal_strlit("Sleeping through this night");
    assert("chat.type.text"@.len() == 14);
    assert("chat.type.announcement"@.len() == 22);
    assert("multiplayer.player.joined"@.len() == 25);
    assert("multiplayer.player.left"@.len() == 23);
    assert("block.minecraft.set_spawn"@.len() == 25);
    assert("sleep.skipping_night"@.len() == 20);
    assert(lang_format("sleep.skipping_night"@) == Some(("Sleeping through this night"@, 0nat)));
    assert("Sleeping through this night"@ =~= ("Sleeping through this night"@ + Seq::<char>::empty()));
    lemma_format_plain_prefix("Sleeping through this night"@, Seq::<char>::empty(), with, 0);
    assert(format_text(Seq::<char>::empty(), with, 0, false) == Some(Seq::<char>::empty()));
    assert("Sleeping through this night"@ + Seq::<char>::empty() =~= "Sleeping through this night"@);
}

} // verus!
