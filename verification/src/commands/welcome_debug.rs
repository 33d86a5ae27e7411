use vstd::prelude::*;

use crate::command::CommandHandler;
use crate::ui::{CommandSpec, OptionKind, OptionSpec};

verus! {

/// serde_json's parse error, carried through without looking inside.
#[verifier::external_type_specification]
#[verifier::external_body]
pub struct ExJsonError(serde_json::Error);

/// serenity's description of an embed, carried through without looking inside.
#[verifier::external_type_specification]
#[verifier::external_body]
pub struct ExEmbed(serenity::all::Embed);

/// `text` is a JSON object whose values are all well-formed JSON values (its
/// numbers in range among them).
pub uninterp spec fn json_sections_parse(text: Seq<char>) -> bool;

/// `text`, read as a JSON value, describes an embed as Discord does.
pub uninterp spec fn embed_decodes(text: Seq<char>) -> bool;

/// The embed that `text`, read as a JSON value, describes (meaningful where
/// `embed_decodes(text)`).
pub uninterp spec fn embed_of(text: Seq<char>) -> serenity::all::Embed;

/// The members of the JSON object that `text` holds, as (key, raw JSON text
/// of the value) pairs in the order of their keys; `None` where `text` is not
/// a JSON object. A key given twice keeps its last value.
pub uninterp spec fn json_object_members(text: Seq<char>) -> Option<Seq<(Seq<char>, Seq<char>)>>;

/// The raw JSON texts of the elements of the JSON array that `text` holds;
/// `None` where `text` is not a JSON array.
pub uninterp spec fn json_array_elements(text: Seq<char>) -> Option<Seq<Seq<char>>>;

/// The pairs of `members`, by their views.
pub open spec fn pairs_view(members: Seq<(String, String)>) -> Seq<(Seq<char>, Seq<char>)> {
    members.map_values(|p: (String, String)| (p.0@, p.1@))
}

/// The texts of `items`, by their views.
pub open spec fn texts_view(items: Seq<String>) -> Seq<Seq<char>> {
    items.map_values(|s: String| s@)
}

/// Calls `serde_json::from_str` to read `text` as a `HashMap` from keys to
/// `serde_json::Value`s, and keeps only whether that succeeded. Claimed: the
/// outcome depends on `text` alone, and is the one named by
/// `json_sections_parse`.
#[verifier::external_body]
fn check_json_sections(text: &str) -> (res: Result<(), serde_json::Error>)
    ensures
        res is Ok <==> json_sections_parse(text@),
{
    serde_json::from_str::<std::collections::HashMap<String, serde_json::Value>>(text).map(|_| ())
}

/// Reads `text` as a `serde_json::Value` (`serde_json::from_str`) and that
/// value as a serenity `Embed` (`serde_json::from_value`), the way an element
/// of a parsed JSON array becomes an embed (a key given twice keeps its last
/// value). Claimed: the outcome depends on `text` alone; it succeeds exactly
/// where `embed_decodes` holds, and the embed is the one named by `embed_of`.
#[verifier::external_body]
fn parse_embed(text: &str) -> (res: Result<serenity::all::Embed, serde_json::Error>)
    ensures
        res is Ok <==> embed_decodes(text@),
        res matches Ok(e) ==> e == embed_of(text@),
{
    serde_json::from_value(serde_json::from_str::<serde_json::Value>(text)?)
}

/// Calls `serde_json::from_str` to read `text` as a JSON object into a
/// `BTreeMap` from keys to `RawValue`s, and hands back its entries (in key
/// order) with each raw value as its text (`RawValue::get` reads the text the
/// value holds). Claimed: the outcome depends on `text` alone, and is the one
/// named by `json_object_members`; nothing is claimed of which texts parse.
#[verifier::external_body]
fn parse_json_object(text: &str) -> (res: Result<Vec<(String, String)>, serde_json::Error>)
    ensures
        res is Ok <==> json_object_members(text@) is Some,
        res matches Ok(members) ==> json_object_members(text@) == Some(pairs_view(members@)),
{
    let members: std::collections::BTreeMap<String, Box<serde_json::value::RawValue>> =
        serde_json::from_str(text)?;
    Ok(members.into_iter().map(|(k, v)| (k, v.get().to_string())).collect())
}

/// Calls `serde_json::from_str` to read `text` as a JSON array of
/// `RawValue`s, and hands back each element as its text (`RawValue::get`).
/// Claimed: the outcome depends on `text` alone, and is the one named by
/// `json_array_elements`; nothing is claimed of which texts parse.
#[verifier::external_body]
fn parse_json_array(text: &str) -> (res: Result<Vec<String>, serde_json::Error>)
    ensures
        res is Ok <==> json_array_elements(text@) is Some,
        res matches Ok(items) ==> json_array_elements(text@) == Some(texts_view(items@)),
{
    let items: Vec<Box<serde_json::value::RawValue>> = serde_json::from_str(text)?;
    Ok(items.into_iter().map(|v| v.get().to_string()).collect())
}

/// The value of the first member of `members` whose key is `key`.
pub open spec fn member_value(members: Seq<(Seq<char>, Seq<char>)>, key: Seq<char>) -> Option<
    Seq<char>,
>
    decreases members.len(),
{
    if members.len() == 0 {
        None
    } else if members[0].0 == key {
        Some(members[0].1)
    } else {
        member_value(members.drop_first(), key)
    }
}

/// Why the welcome embeds could not be read.
#[derive(Clone, Copy, Debug, PartialEq, Eq, Structural)]
pub enum WelcomeError {
    /// The text is not a JSON object.
    InvalidJson,
    /// The object has no `embeds` member.
    MissingEmbeds,
    /// The `embeds` member is not an array.
    NotAnArray,
    /// An element of the `embeds` array is not an embed.
    InvalidEmbed,
}

/// The raw JSON texts of the embeds that the welcome template `text` holds:
/// the elements of the array under its `embeds` key.
pub open spec fn welcome_embeds(text: Seq<char>) -> Result<Seq<Seq<char>>, WelcomeError> {
    if !json_sections_parse(text) {
        Err(WelcomeError::InvalidJson)
    } else {
        match json_object_members(text) {
            None => Err(WelcomeError::InvalidJson),
            Some(members) => match member_value(members, "embeds"@) {
                None => Err(WelcomeError::MissingEmbeds),
                Some(section) => match json_array_elements(section) {
                    None => Err(WelcomeError::NotAnArray),
                    Some(items) => Ok(items),
                },
            },
        }
    }
}

/// Decodes each of the embed texts `items`, in order; fails with
/// `InvalidEmbed` where one of them is not an embed.
pub fn decode_embeds(items: &Vec<String>) -> (res: Result<Vec<serenity::all::Embed>, WelcomeError>)
    ensures
        res is Ok <==> forall|i: int| 0 <= i < items@.len() ==> embed_decodes(#[trigger] items@[i]@),
        res matches Ok(v) ==> v@.len() == items@.len() && forall|i: int|
            0 <= i < items@.len() ==> #[trigger] v@[i] == embed_of(items@[i]@),
        res is Err ==> res == Err::<Vec<serenity::all::Embed>, WelcomeError>(WelcomeError::InvalidEmbed),
{
    let mut embeds: Vec<serenity::all::Embed> = Vec::new();
    let mut i: usize = 0;
    while i < items.len()
        invariant
            i <= items@.len(),
            embeds@.len() == i,
            forall|j: int| 0 <= j < i ==> embed_decodes(#[trigger] items@[j]@),
            forall|j: int| 0 <= j < i ==> #[trigger] embeds@[j] == embed_of(items@[j]@),
        decreases items@.len() - i,
    {
        match parse_embed(items[i].as_str()) {
            Ok(embed) => {
                embeds.push(embed);
            },
            Err(_) => {
                return Err(WelcomeError::InvalidEmbed);
            },
        }
        i = i + 1;
    }
    Ok(embeds)
}

/// The first member whose key is `key`, at position `i`, is the one
/// `member_value` gives.
proof fn member_value_at(members: Seq<(Seq<char>, Seq<char>)>, key: Seq<char>, i: int)
    requires
        0 <= i < members.len(),
        members[i].0 == key,
        forall|j: int| 0 <= j < i ==> #[trigger] members[j].0 != key,
    ensures
        member_value(members, key) == Some(members[i].1),
    decreases i,
{
    if i > 0 {
        let rest = members.drop_first();
        assert forall|j: int| 0 <= j < i - 1 implies #[trigger] rest[j].0 != key by {
            assert(rest[j] == members[j + 1]);
        }
        member_value_at(rest, key, i - 1);
    }
}

/// No member's key is `key`: `member_value` finds nothing.
proof fn member_value_absent(members: Seq<(Seq<char>, Seq<char>)>, key: Seq<char>)
    requires
        forall|j: int| 0 <= j < members.len() ==> #[trigger] members[j].0 != key,
    ensures
        member_value(members, key) is None,
    decreases members.len(),
{
    if members.len() > 0 {
        let rest = members.drop_first();
        assert forall|j: int| 0 <= j < rest.len() implies #[trigger] rest[j].0 != key by {
            assert(rest[j] == members[j + 1]);
        }
        member_value_absent(rest, key);
    }
}

/// The embeds of a well-formed template are all the elements of the array
/// under its `embeds` key, in the array's order, none left out: when the
/// template's first member keyed `embeds` (at position `i`) is an array of
/// `items`, the result is exactly `items`, as many embeds as elements.
pub proof fn welcome_embeds_are_the_whole_array(
    text: Seq<char>,
    members: Seq<(Seq<char>, Seq<char>)>,
    i: int,
    items: Seq<Seq<char>>,
)
    requires
        json_sections_parse(text),
        json_object_members(text) == Some(members),
        0 <= i < members.len(),
        members[i].0 == "embeds"@,
        forall|j: int| 0 <= j < i ==> #[trigger] members[j].0 != "embeds"@,
        json_array_elements(members[i].1) == Some(items),
    ensures
        welcome_embeds(text) == Ok::<Seq<Seq<char>>, WelcomeError>(items),
        welcome_embeds(text)->Ok_0.len() == items.len(),
{
    member_value_at(members, "embeds"@, i);
}

/// A template that parses but has no member keyed `embeds` is refused as
/// missing its embeds; one that does not parse is refused as invalid.
pub proof fn welcome_embeds_refusals(text: Seq<char>, members: Seq<(Seq<char>, Seq<char>)>)
    ensures
        !json_sections_parse(text) ==> welcome_embeds(text) == Err::<Seq<Seq<char>>, WelcomeError>(
            WelcomeError::InvalidJson,
        ),
        json_sections_parse(text) && json_object_members(text) == Some(members) && (forall|j: int|
            0 <= j < members.len() ==> #[trigger] members[j].0 != "embeds"@) ==> welcome_embeds(text)
            == Err::<Seq<Seq<char>>, WelcomeError>(WelcomeError::MissingEmbeds),
{
    if forall|j: int| 0 <= j < members.len() ==> #[trigger] members[j].0 != "embeds"@ {
        member_value_absent(members, "embeds"@);
    }
}

/// The value of the first member of `members` whose key is `key`.
pub fn find_member<'a>(members: &'a Vec<(String, String)>, key: &str) -> (r: Option<&'a String>)
    ensures
        match r {
            Some(v) => member_value(pairs_view(members@), key@) == Some(v@),
            None => member_value(pairs_view(members@), key@) is None,
        },
{
    let ghost all = pairs_view(members@);
    let wanted = String::from_str(key);
    let mut i: usize = 0;
    assert(all.skip(0) =~= all);
    while i < members.len()
        invariant
            i <= members@.len(),
            all == pairs_view(members@),
            wanted@ == key@,
            member_value(all, key@) == member_value(all.skip(i as int), key@),
        decreases members@.len() - i,
    {
        assert(all.skip(i as int)[0] == all[i as int]);
        if members[i].0 == wanted {
            return Some(&members[i].1);
        }
        assert(all.skip(i as int).drop_first() =~= all.skip(i + 1));
        i = i + 1;
    }
    None
}

/// The `/debug` command: shows the welcome embeds of a template file.
pub struct DebugWelcomeCommand;

/// How `/debug` is registered: one optional user option.
pub open spec fn debug_command() -> (
    Seq<char>,
    Seq<char>,
    Seq<(OptionKind, Seq<char>, Seq<char>, Option<u64>, Option<u64>, bool)>,
    Option<bool>,
) {
    (
        "debug"@,
        "Debug command for printing welcome embeds"@,
        seq![(OptionKind::User, "user"@, "The user to test the welcome embed"@, None, None, false)],
        None,
    )
}

impl CommandHandler for DebugWelcomeCommand {
    fn register(&self) -> (spec: CommandSpec)
        ensures
            spec@ == debug_command(),
    {
        let mut options: Vec<OptionSpec> = Vec::new();
        options.push(
            OptionSpec {
                kind: OptionKind::User,
                name: String::from_str("user"),
                description: String::from_str("The user to test the welcome embed"),
                min_int: None,
                max_int: None,
                required: false,
            },
        );
        let spec = CommandSpec {
            name: String::from_str("debug"),
            description: String::from_str("Debug command for printing welcome embeds"),
            options,
            dm_permission: None,
        };
        assert(spec@.2 =~= debug_command().2);
        spec
    }
}

impl DebugWelcomeCommand {
    /// The embeds of the welcome template `json`.
    pub fn embeds(&self, json: &str) -> (res: Result<Vec<serenity::all::Embed>, WelcomeError>)
        ensures
            welcome_embeds(json@) matches Err(e) ==> res == Err::<Vec<serenity::all::Embed>, WelcomeError>(e),
            welcome_embeds(json@) matches Ok(items) ==> {
                &&& res is Ok <==> forall|i: int| 0 <= i < items.len() ==> embed_decodes(#[trigger] items[i])
                &&& res matches Ok(v) ==> v@.len() == items.len() && forall|i: int|
                    0 <= i < items.len() ==> #[trigger] v@[i] == embed_of(items[i])
                &&& res is Err ==> res == Err::<Vec<serenity::all::Embed>, WelcomeError>(WelcomeError::InvalidEmbed)
            },
    {
        let texts = match self.embed_texts(json) {
            Ok(texts) => texts,
            Err(e) => {
                return Err(e);
            },
        };
        let res = decode_embeds(&texts);
        proof {
            let items = texts_view(texts@);
            assert forall|i: int| 0 <= i < items.len() implies (embed_decodes(#[trigger] items[i])
                <==> embed_decodes(texts@[i]@)) by {}
            if res is Ok {
                assert forall|i: int| 0 <= i < items.len() implies embed_decodes(#[trigger] items[i]) by {
                    assert(embed_decodes(texts@[i]@));
                }
                let v = res->Ok_0;
                assert forall|i: int| 0 <= i < items.len() implies #[trigger] v@[i] == embed_of(items[i]) by {
                    assert(v@[i] == embed_of(texts@[i]@));
                }
            } else {
                let k = choose|k: int| 0 <= k < texts@.len() && !embed_decodes(#[trigger] texts@[k]@);
                assert(!embed_decodes(items[k]));
            }
        }
        res
    }

    /// The raw JSON texts of the embeds of the welcome template `json`.
    pub fn embed_texts(&self, json: &str) -> (res: Result<Vec<String>, WelcomeError>)
        ensures
            match res {
                Ok(items) => welcome_embeds(json@) == Ok::<Seq<Seq<char>>, WelcomeError>(
                    texts_view(items@),
                ),
                Err(e) => welcome_embeds(json@) == Err::<Seq<Seq<char>>, WelcomeError>(e),
            },
    {
        if check_json_sections(json).is_err() {
            return Err(WelcomeError::InvalidJson);
        }
        let members = match parse_json_object(json) {
            Ok(members) => members,
            Err(_) => {
                return Err(WelcomeError::InvalidJson);
            },
        };
        let section = match find_member(&members, "embeds") {
            Some(section) => section,
            None => {
                return Err(WelcomeError::MissingEmbeds);
            },
        };
        match parse_json_array(section.as_str()) {
            Ok(items) => Ok(items),
            Err(_) => Err(WelcomeError::NotAnArray),
        }
    }
}

} // verus!
