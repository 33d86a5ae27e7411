use std::str::FromStr;

use discordbot::command::CommandHandler;
use discordbot::commands::embed_creator::{
    EmbedButton, EmbedButtonCallback, EmbedCreatorCommand,
};
use discordbot::commands::purge::{
    unwrap_guild_channel, ChannelInfo, GuildChannelInfo, PurgeCommand, PurgeStep,
};
use discordbot::commands::startup_commands;
use discordbot::commands::welcome_debug::{decode_embeds, find_member, DebugWelcomeCommand, WelcomeError};
use discordbot::component::ComponentRegistry;
use discordbot::text::decimal_text;
use discordbot::ui::{ButtonStyle, InputStyle, OptionKind};

#[test]
fn button_names_parse_in_any_case() {
    assert_eq!(EmbedButton::parse("author"), Ok(EmbedButton::Author));
    assert_eq!(EmbedButton::parse("AUTHOR"), Ok(EmbedButton::Author));
    assert_eq!(EmbedButton::parse("Description"), Ok(EmbedButton::Description));
    assert_eq!(EmbedButton::parse("tHuMbNaIl"), Ok(EmbedButton::Thumbnail));
    assert_eq!(EmbedButton::parse("Cancel"), Ok(EmbedButton::Cancel));
    assert_eq!(EmbedButton::parse("submit"), Ok(EmbedButton::Submit));
    assert_eq!(EmbedButton::parse("footer"), Ok(EmbedButton::Footer));
    assert_eq!(EmbedButton::parse("Image"), Ok(EmbedButton::Image));
    assert_eq!(EmbedButton::parse("COLOR"), Ok(EmbedButton::Color));
    assert_eq!(EmbedButton::parse("Title"), Ok(EmbedButton::Title));
}

#[test]
fn unknown_button_names_are_refused() {
    assert_eq!(EmbedButton::parse("desc"), Err(()));
    assert_eq!(EmbedButton::parse(""), Err(()));
    assert_eq!(EmbedButton::parse("authors"), Err(()));
    assert_eq!(EmbedButton::parse(" author"), Err(()));
    assert_eq!(EmbedButton::parse("colour"), Err(()));
}

#[test]
fn from_str_agrees_with_parse() {
    assert_eq!(EmbedButton::from_str("Footer"), Ok(EmbedButton::Footer));
    assert_eq!(EmbedButton::from_str("nothing"), Err(()));
}

#[test]
fn test_parses_author() {
    discordbot::commands::embed_creator::test();
}

#[test]
fn author_and_title_buttons_open_modals() {
    let cb = EmbedButtonCallback;
    assert!(cb.has_modal("author"));
    assert!(cb.has_modal("title"));
    assert!(!cb.has_modal("desc"));
    assert!(!cb.has_modal("Author"));

    let m = cb.run("author");
    assert_eq!(m.custom_id, "modal:author");
    assert_eq!(m.title, "Test modal");
    assert_eq!(m.inputs.len(), 1);
    assert_eq!(m.inputs[0].style, InputStyle::Short);
    assert_eq!(m.inputs[0].label, "Set embed author");
    assert_eq!(m.inputs[0].custom_id, "embed:author");

    let m = cb.run("title");
    assert_eq!(m.custom_id, "modal:title");
    assert_eq!(m.title, "Test modal");
    assert_eq!(m.inputs.len(), 1);
    assert_eq!(m.inputs[0].label, "Set embed title");
    assert_eq!(m.inputs[0].custom_id, "embed:title");
}

#[test]
fn embed_creator_shows_three_rows_of_buttons() {
    let mut comps: ComponentRegistry<u8> = ComponentRegistry::new();
    let msg = EmbedCreatorCommand.run(&mut comps, 3);
    assert!(msg.ephemeral);
    let ids: Vec<Vec<&str>> = msg
        .rows
        .iter()
        .map(|r| r.iter().map(|b| b.custom_id.as_str()).collect())
        .collect();
    assert_eq!(
        ids,
        vec![
            vec!["author", "title", "desc", "color"],
            vec!["image", "thumbnail", "footer"],
            vec!["cancel", "submit"],
        ]
    );
    assert_eq!(msg.rows[0][2].label, "Set Description");
    assert_eq!(msg.rows[1][1].label, "Set Thumbnail");
    assert_eq!(msg.rows[0][0].style, ButtonStyle::Secondary);
    assert_eq!(msg.rows[2][0].label, "Cancel");
    assert_eq!(msg.rows[2][0].style, ButtonStyle::Danger);
    assert_eq!(msg.rows[2][1].label, "Submit");
    assert_eq!(msg.rows[2][1].style, ButtonStyle::Success);
    assert_eq!(comps.get_component_handle("author"), Some(&3));
    assert_eq!(comps.get_component_handle("title"), None);
}

#[test]
fn commands_register_as_declared() {
    let embed = EmbedCreatorCommand.register();
    assert_eq!(embed.name, "embed");
    assert_eq!(embed.description, "Create an embed template");
    assert!(embed.options.is_empty());
    assert_eq!(embed.dm_permission, Some(false));

    let purge = PurgeCommand.register();
    assert_eq!(purge.name, "purge");
    assert_eq!(
        purge.description,
        "Delete a mass number of messages at a time. Can't delete messages older than 2 weeks."
    );
    assert_eq!(purge.options.len(), 1);
    assert_eq!(purge.options[0].kind, OptionKind::Integer);
    assert_eq!(purge.options[0].name, "messages");
    assert_eq!(purge.options[0].description, "Number of messages to delete");
    assert_eq!(purge.options[0].min_int, Some(1));
    assert_eq!(purge.options[0].max_int, Some(100));
    assert!(purge.options[0].required);
    assert_eq!(purge.dm_permission, Some(false));

    let debug = DebugWelcomeCommand.register();
    assert_eq!(debug.name, "debug");
    assert_eq!(debug.description, "Debug command for printing welcome embeds");
    assert_eq!(debug.options.len(), 1);
    assert_eq!(debug.options[0].kind, OptionKind::User);
    assert_eq!(debug.options[0].name, "user");
    assert_eq!(debug.options[0].description, "The user to test the welcome embed");
    assert!(!debug.options[0].required);
    assert_eq!(debug.dm_permission, None);
}

#[test]
fn purge_fetches_one_less_than_asked() {
    let p = PurgeCommand;
    assert_eq!(p.plan(Some(5), Some(42)), PurgeStep::Fetch { before: 42, limit: 4 });
    assert_eq!(p.plan(Some(1), Some(7)), PurgeStep::Fetch { before: 7, limit: 0 });
    assert_eq!(p.plan(Some(100), Some(7)), PurgeStep::Fetch { before: 7, limit: 99 });
}

#[test]
fn purge_limit_wraps_outside_the_registered_range() {
    let p = PurgeCommand;
    assert_eq!(p.plan(Some(0), Some(7)), PurgeStep::Fetch { before: 7, limit: 255 });
    assert_eq!(p.plan(Some(258), Some(7)), PurgeStep::Fetch { before: 7, limit: 1 });
}

#[test]
fn purge_without_messages_or_argument_does_nothing() {
    let p = PurgeCommand;
    assert_eq!(p.plan(Some(5), None), PurgeStep::NothingToPurge);
    assert_eq!(p.plan(None, Some(42)), PurgeStep::IncorrectArgument);
    assert_eq!(p.plan(None, None), PurgeStep::IncorrectArgument);
    assert_eq!(p.plan(Some(i64::MIN), None), PurgeStep::NothingToPurge);
}

#[test]
fn purge_deletes_fetched_and_newest() {
    let p = PurgeCommand;
    assert_eq!(p.targets(vec![3, 2, 1], 4), vec![3, 2, 1, 4]);
    assert_eq!(p.targets(vec![], 9), vec![9]);
}

#[test]
fn purge_reply_counts_messages() {
    let p = PurgeCommand;
    assert_eq!(p.reply(4), "Deleted 4 messages");
    assert_eq!(p.reply(100), "Deleted 100 messages");
    assert_eq!(p.reply(0), "Deleted 0 messages");
}

#[test]
fn decimal_text_writes_numbers() {
    assert_eq!(decimal_text(0), "0");
    assert_eq!(decimal_text(7), "7");
    assert_eq!(decimal_text(10), "10");
    assert_eq!(decimal_text(1234567890), "1234567890");
    assert_eq!(decimal_text(u64::MAX), "18446744073709551615");
}

#[test]
fn guild_channel_is_unwrapped() {
    let g = GuildChannelInfo { last_message_id: Some(11) };
    assert_eq!(unwrap_guild_channel(ChannelInfo::Guild(g)), g);
}

#[test]
fn welcome_embed_texts_are_read_from_the_template() {
    let json = r#"{"content": "hi", "embeds": [{"title": "Welcome"}, {"description": "x"}]}"#;
    let embeds = DebugWelcomeCommand.embed_texts(json).unwrap();
    assert_eq!(embeds, vec![r#"{"title": "Welcome"}"#.to_string(), r#"{"description": "x"}"#.to_string()]);
}

#[test]
fn welcome_embeds_are_decoded() {
    let json = r#"{"content": "hi", "embeds": [{"title": "Welcome"}, {"description": "x"}]}"#;
    let embeds = DebugWelcomeCommand.embeds(json).unwrap();
    assert_eq!(embeds.len(), 2);
    assert_eq!(embeds[0].title.as_deref(), Some("Welcome"));
    assert_eq!(embeds[1].description.as_deref(), Some("x"));
}

#[test]
fn welcome_template_with_empty_embeds() {
    assert_eq!(DebugWelcomeCommand.embed_texts(r#"{"embeds": []}"#), Ok(vec![]));
    assert_eq!(DebugWelcomeCommand.embeds(r#"{"embeds": []}"#).unwrap().len(), 0);
}

#[test]
fn welcome_template_errors() {
    assert_eq!(DebugWelcomeCommand.embeds("not json").unwrap_err(), WelcomeError::InvalidJson);
    assert_eq!(DebugWelcomeCommand.embeds("[1, 2]").unwrap_err(), WelcomeError::InvalidJson);
    assert_eq!(DebugWelcomeCommand.embeds(r#"{"content": "hi"}"#).unwrap_err(), WelcomeError::MissingEmbeds);
    assert_eq!(DebugWelcomeCommand.embeds(r#"{"embeds": {"title": "a"}}"#).unwrap_err(), WelcomeError::NotAnArray);
    assert_eq!(DebugWelcomeCommand.embeds(r#"{"embeds": [{"title": "a"}, 2]}"#).unwrap_err(), WelcomeError::InvalidEmbed);
    assert_eq!(DebugWelcomeCommand.embeds(r#"{"embeds": [{"title": 5}]}"#).unwrap_err(), WelcomeError::InvalidEmbed);
}

#[test]
fn welcome_template_with_out_of_range_number_is_invalid() {
    assert_eq!(DebugWelcomeCommand.embeds(r#"{"v": 1e400, "embeds": []}"#).unwrap_err(), WelcomeError::InvalidJson);
    assert_eq!(DebugWelcomeCommand.embed_texts(r#"{"v": 1e400, "embeds": []}"#), Err(WelcomeError::InvalidJson));
}

#[test]
fn repeated_embed_key_keeps_its_last_value() {
    let embeds = DebugWelcomeCommand.embeds(r#"{"embeds":[{"title":"a","title":"b"}]}"#).unwrap();
    assert_eq!(embeds.len(), 1);
    assert_eq!(embeds[0].title.as_deref(), Some("b"));
}

#[test]
fn decode_embeds_keeps_order_and_refuses_non_embeds() {
    let ok = decode_embeds(&vec![r#"{"title": "a"}"#.to_string(), r#"{"title": "b"}"#.to_string()]).unwrap();
    assert_eq!(ok[0].title.as_deref(), Some("a"));
    assert_eq!(ok[1].title.as_deref(), Some("b"));
    assert_eq!(decode_embeds(&vec!["3".to_string()]).unwrap_err(), WelcomeError::InvalidEmbed);
    assert_eq!(decode_embeds(&vec![]).unwrap().len(), 0);
}

#[test]
fn startup_registers_debug_purge_embed_in_order() {
    let commands = startup_commands(1u8, 2u8, 3u8);
    let names: Vec<(String, u8)> = commands.into_iter().map(|(c, h)| (c.name, h)).collect();
    assert_eq!(
        names,
        vec![("debug".to_string(), 1), ("purge".to_string(), 2), ("embed".to_string(), 3)]
    );
}

#[test]
fn find_member_gives_first_match() {
    let members = vec![
        ("a".to_string(), "1".to_string()),
        ("embeds".to_string(), "[]".to_string()),
        ("z".to_string(), "3".to_string()),
    ];
    assert_eq!(find_member(&members, "embeds"), Some(&"[]".to_string()));
    assert_eq!(find_member(&members, "missing"), None);
}
