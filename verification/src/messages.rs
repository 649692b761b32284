//! The texts of the control messages: JSON objects with a `"type"` tag that ride
//! inside the encrypted plaintext.

use vstd::prelude::*;

use crate::json::{
    add_field, is_flat, json_fields, json_text, json_value, object_text, opt_item, opt_text_item,
    out_view, plain_fields, raws_are_flat, raws_are_json, reads_back, Item, ItemView,
};
use crate::text::{clone_texts, opt_str, texts};

verus! {

/// The fields that every control message begins with: its kind and the node it
/// speaks for.
pub open spec fn tagged(kind: Seq<char>, me: Seq<char>) -> Seq<(Seq<char>, ItemView)> {
    seq![("type"@, ItemView::Text(kind)), ("from"@, ItemView::Text(me))]
}

/// The fields of a message with nothing but its kind and its sender: a ping, a
/// pong, a request.
pub open spec fn bare_text(kind: Seq<char>, me: Seq<char>) -> Seq<char> {
    json_text(tagged(kind, me))
}

pub open spec fn clipboard_fields(kind: Seq<char>, me: Seq<char>, content: Seq<char>) -> Seq<
    (Seq<char>, ItemView),
> {
    tagged(kind, me).push(("content"@, ItemView::Text(content)))
}

/// The text of a message that carries a clipboard.
pub open spec fn clipboard_text(kind: Seq<char>, me: Seq<char>, content: Seq<char>) -> Seq<char> {
    json_text(clipboard_fields(kind, me, content))
}

pub open spec fn notification_fields(
    me: Seq<char>,
    title: Seq<char>,
    body: Seq<char>,
    app: Option<Seq<char>>,
) -> Seq<(Seq<char>, ItemView)> {
    tagged("notification"@, me).push(("title"@, ItemView::Text(title))).push(
        ("body"@, ItemView::Text(body)),
    ).push(("app"@, opt_item(app)))
}

/// The text of a shared notification.
pub open spec fn notification_text(
    me: Seq<char>,
    title: Seq<char>,
    body: Seq<char>,
    app: Option<Seq<char>>,
) -> Seq<char> {
    json_text(notification_fields(me, title, body, app))
}

pub open spec fn call_fields(
    me: Seq<char>,
    caller: Seq<char>,
    number: Option<Seq<char>>,
    state: Seq<char>,
) -> Seq<(Seq<char>, ItemView)> {
    tagged("call_notification"@, me).push(("caller"@, ItemView::Text(caller))).push(
        ("number"@, opt_item(number)),
    ).push(("state"@, ItemView::Text(state)))
}

/// The text of a shared call notification.
pub open spec fn call_text(
    me: Seq<char>,
    caller: Seq<char>,
    number: Option<Seq<char>>,
    state: Seq<char>,
) -> Seq<char> {
    json_text(call_fields(me, caller, number, state))
}

/// JSON text where it is JSON, else the given value.
pub open spec fn json_or(text: Seq<char>, default: ItemView) -> ItemView {
    if json_fields(text) is Some {
        ItemView::Raw(text)
    } else {
        default
    }
}

/// Whether a text, put into a message, leaves one that can be read: it is no JSON, so that
/// another value takes its place, or it is a string or an array of strings.
pub open spec fn surely_readable(text: Seq<char>) -> bool {
    json_value(text) is None || is_flat(text)
}

pub open spec fn history_fields(me: Seq<char>, entries: Seq<char>) -> Seq<(Seq<char>, ItemView)> {
    tagged("call_history"@, me).push(("entries"@, json_or(entries, ItemView::Null)))
}

/// The text of shared call-history entries; what is no JSON becomes `null`.
pub open spec fn history_text(me: Seq<char>, entries: Seq<char>) -> Seq<char> {
    json_text(history_fields(me, entries))
}

/// The empty list.
pub open spec fn empty_list() -> ItemView {
    ItemView::Texts(Seq::empty())
}

pub open spec fn subscribe_fields(me: Seq<char>, apps: Seq<char>) -> Seq<(Seq<char>, ItemView)> {
    tagged("subscribe_apps"@, me).push(("apps"@, json_or(apps, empty_list())))
}

/// The text of a subscription; what is no JSON becomes the empty list.
pub open spec fn subscribe_text(me: Seq<char>, apps: Seq<char>) -> Seq<char> {
    json_text(subscribe_fields(me, apps))
}

pub open spec fn apps_list_fields(
    me: Seq<char>,
    installed: Seq<char>,
    subscribed: Seq<Seq<char>>,
) -> Seq<(Seq<char>, ItemView)> {
    tagged("apps_list"@, me).push(("apps"@, json_or(installed, empty_list()))).push(
        ("subscribed"@, ItemView::Texts(subscribed)),
    )
}

/// The text of a producer's answer: its app list (the empty list if what the host
/// set is no JSON) and the packages the requester is subscribed to.
pub open spec fn apps_list_text(
    me: Seq<char>,
    installed: Seq<char>,
    subscribed: Seq<Seq<char>>,
) -> Seq<char> {
    json_text(apps_list_fields(me, installed, subscribed))
}

/// The keys of the control messages differ from one another.
proof fn lemma_keys_differ()
    ensures
        "type"@ != "from"@,
        "type"@ != "content"@ && "from"@ != "content"@,
        "type"@ != "title"@ && "type"@ != "body"@ && "type"@ != "app"@,
        "from"@ != "title"@ && "from"@ != "body"@ && "from"@ != "app"@,
        "title"@ != "body"@ && "title"@ != "app"@ && "body"@ != "app"@,
        "type"@ != "caller"@ && "type"@ != "number"@ && "type"@ != "state"@,
        "from"@ != "caller"@ && "from"@ != "number"@ && "from"@ != "state"@,
        "caller"@ != "number"@ && "caller"@ != "state"@ && "number"@ != "state"@,
        "type"@ != "entries"@ && "from"@ != "entries"@,
        "type"@ != "apps"@ && "type"@ != "subscribed"@,
        "from"@ != "apps"@ && "from"@ != "subscribed"@ && "apps"@ != "subscribed"@,
{
    reveal_strlit("type");
    reveal_strlit("from");
    reveal_strlit("content");
    reveal_strlit("title");
    reveal_strlit("body");
    reveal_strlit("app");
    reveal_strlit("caller");
    reveal_strlit("number");
    reveal_strlit("state");
    reveal_strlit("entries");
    reveal_strlit("apps");
    reveal_strlit("subscribed");
    assert("entries"@.len() == 7 && "apps"@.len() == 4 && "subscribed"@.len() == 10);
    assert("apps"@[0] == 'a');
    assert("type"@.len() == 4 && "from"@.len() == 4 && "body"@.len() == 4);
    assert("title"@.len() == 5 && "state"@.len() == 5 && "app"@.len() == 3);
    assert("content"@.len() == 7 && "caller"@.len() == 6 && "number"@.len() == 6);
    assert("type"@[0] == 't' && "from"@[0] == 'f' && "body"@[0] == 'b');
    assert("caller"@[0] == 'c' && "number"@[0] == 'n');
}

fn tag(kind: &str, me: &str) -> (r: Vec<(String, Item)>)
    ensures
        out_view(r@) == tagged(kind@, me@),
{
    let mut r: Vec<(String, Item)> = Vec::new();
    r.push(("type".to_owned(), Item::Text(kind.to_owned())));
    r.push(("from".to_owned(), Item::Text(me.to_owned())));
    assert(out_view(r@) =~= tagged(kind@, me@));
    r
}

/// Of a tagged message with one value given as text, it is that text which decides
/// whether all such values are JSON, and whether they are flat.
proof fn lemma_one_raw(fields: Seq<(Seq<char>, ItemView)>, text: Seq<char>)
    requires
        fields.len() >= 3,
        fields[2].1 == ItemView::Raw(text),
        forall|i: int| 0 <= i < fields.len() && i != 2 ==> !((#[trigger] fields[i]).1 is Raw),
    ensures
        raws_are_json(fields) <==> json_fields(text) is Some,
        raws_are_flat(fields) <==> is_flat(text),
{
    if raws_are_json(fields) {
        assert(fields[2].1 matches ItemView::Raw(t) ==> json_fields(t) is Some);
    }
    if raws_are_flat(fields) {
        assert(fields[2].1 matches ItemView::Raw(t) ==> is_flat(t));
    }
}

fn write_plain(fields: &Vec<(String, Item)>) -> (r: String)
    requires
        plain_fields(out_view(fields@)),
    ensures
        r@ == json_text(out_view(fields@)),
        reads_back(json_fields(r@), out_view(fields@)),
{
    match object_text(fields) {
        Some(s) => s,
        None => String::new(),
    }
}

/// A message with nothing but its kind and its sender. A reader finds both.
pub fn bare_message(kind: &str, me: &str) -> (r: String)
    ensures
        r@ == bare_text(kind@, me@),
        reads_back(json_fields(r@), tagged(kind@, me@)),
{
    let fields = tag(kind, me);
    proof {
        lemma_keys_differ();
    }
    write_plain(&fields)
}

/// A message that carries a clipboard. A reader finds kind, sender and content.
pub fn clipboard_message(kind: &str, me: &str, content: &str) -> (r: String)
    ensures
        r@ == clipboard_text(kind@, me@, content@),
        reads_back(json_fields(r@), clipboard_fields(kind@, me@, content@)),
{
    let mut fields = tag(kind, me);
    add_field(&mut fields, "content", Item::Text(content.to_owned()));
    proof {
        lemma_keys_differ();
    }
    write_plain(&fields)
}

/// A shared notification. A reader finds each of its fields.
pub fn notification_message(me: &str, title: &str, body: &str, app: Option<&str>) -> (r: String)
    ensures
        r@ == notification_text(me@, title@, body@, opt_str(app)),
        reads_back(json_fields(r@), notification_fields(me@, title@, body@, opt_str(app))),
{
    let mut fields = tag("notification", me);
    add_field(&mut fields, "title", Item::Text(title.to_owned()));
    add_field(&mut fields, "body", Item::Text(body.to_owned()));
    add_field(&mut fields, "app", opt_text_item(app));
    proof {
        lemma_keys_differ();
    }
    write_plain(&fields)
}

/// A shared call notification. A reader finds each of its fields.
pub fn call_message(me: &str, caller: &str, number: Option<&str>, state: &str) -> (r: String)
    ensures
        r@ == call_text(me@, caller@, opt_str(number), state@),
        reads_back(json_fields(r@), call_fields(me@, caller@, opt_str(number), state@)),
{
    let mut fields = tag("call_notification", me);
    add_field(&mut fields, "caller", Item::Text(caller.to_owned()));
    add_field(&mut fields, "number", opt_text_item(number));
    add_field(&mut fields, "state", Item::Text(state.to_owned()));
    proof {
        lemma_keys_differ();
    }
    write_plain(&fields)
}

/// Shared call-history entries. A reader finds kind, sender and entries, where the message
/// can be read at all.
pub fn history_message(me: &str, entries: &str) -> (r: String)
    ensures
        r@ == history_text(me@, entries@),
        surely_readable(entries@) ==> json_fields(r@) is Some,
        json_fields(r@) is Some ==> reads_back(json_fields(r@), history_fields(me@, entries@)),
{
    let mut fields = tag("call_history", me);
    add_field(&mut fields, "entries", Item::Raw(entries.to_owned()));
    proof {
        lemma_one_raw(out_view(fields@), entries@);
        lemma_keys_differ();
    }
    match object_text(&fields) {
        Some(s) => s,
        None => {
            let mut fields = tag("call_history", me);
            add_field(&mut fields, "entries", Item::Null);
            write_plain(&fields)
        },
    }
}

/// A subscription to the given packages (JSON array text). A reader finds kind, sender and
/// packages, where the message can be read at all.
pub fn subscribe_message(me: &str, apps: &str) -> (r: String)
    ensures
        r@ == subscribe_text(me@, apps@),
        surely_readable(apps@) ==> json_fields(r@) is Some,
        json_fields(r@) is Some ==> reads_back(json_fields(r@), subscribe_fields(me@, apps@)),
{
    let mut fields = tag("subscribe_apps", me);
    add_field(&mut fields, "apps", Item::Raw(apps.to_owned()));
    proof {
        lemma_one_raw(out_view(fields@), apps@);
        lemma_keys_differ();
    }
    match object_text(&fields) {
        Some(s) => s,
        None => {
            let mut fields = tag("subscribe_apps", me);
            let none: Vec<String> = Vec::new();
            assert(texts(none@) =~= Seq::<Seq<char>>::empty());
            add_field(&mut fields, "apps", Item::Texts(none));
            write_plain(&fields)
        },
    }
}

/// A producer's answer to a request for its apps. A reader finds each of its fields, where
/// the message can be read at all.
pub fn apps_list_message(me: &str, installed: &str, subscribed: &Vec<String>) -> (r: String)
    ensures
        r@ == apps_list_text(me@, installed@, texts(subscribed@)),
        surely_readable(installed@) ==> json_fields(r@) is Some,
        json_fields(r@) is Some ==> reads_back(
            json_fields(r@),
            apps_list_fields(me@, installed@, texts(subscribed@)),
        ),
{
    let mut fields = tag("apps_list", me);
    add_field(&mut fields, "apps", Item::Raw(installed.to_owned()));
    add_field(&mut fields, "subscribed", Item::Texts(clone_texts(subscribed)));
    proof {
        lemma_one_raw(out_view(fields@), installed@);
        lemma_keys_differ();
    }
    match object_text(&fields) {
        Some(s) => s,
        None => {
            let mut fields = tag("apps_list", me);
            let none: Vec<String> = Vec::new();
            assert(texts(none@) =~= Seq::<Seq<char>>::empty());
            add_field(&mut fields, "apps", Item::Texts(none));
            add_field(&mut fields, "subscribed", Item::Texts(clone_texts(subscribed)));
            write_plain(&fields)
        },
    }
}

} // verus!
