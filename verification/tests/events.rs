use discordbot::bot::BotData;
use discordbot::events::{message_log_line, route_interaction, InteractionEvent, Reaction};

fn bot_with_purge() -> BotData<&'static str, u8> {
    let mut bot: BotData<&'static str, u8> = BotData::new();
    let res: Result<(), ()> = bot.register_global_command(Ok("purge".to_string()), "purge handler");
    assert_eq!(res, Ok(()));
    bot
}

#[test]
fn known_command_runs_its_handler() {
    let bot = bot_with_purge();
    let event = InteractionEvent::Command { name: "purge".to_string() };
    match route_interaction(&bot, &event) {
        Reaction::Run(h) => assert_eq!(*h, "purge handler"),
        _ => panic!("expected the purge handler"),
    }
}

#[test]
fn unknown_command_is_reported() {
    let bot = bot_with_purge();
    let event = InteractionEvent::Command { name: "embed".to_string() };
    assert!(matches!(route_interaction(&bot, &event), Reaction::UnrecognizedCommand));
}

#[test]
fn modal_submission_is_acknowledged() {
    let bot = bot_with_purge();
    assert!(matches!(route_interaction(&bot, &InteractionEvent::ModalSubmit), Reaction::Acknowledge));
    assert!(matches!(route_interaction(&bot, &InteractionEvent::Other), Reaction::Ignore));
}

#[test]
fn button_click_opens_its_modal() {
    let bot = bot_with_purge();
    let event = InteractionEvent::Component { custom_id: "title".to_string() };
    match route_interaction(&bot, &event) {
        Reaction::ShowModal(m) => {
            assert_eq!(m.custom_id, "modal:title");
            assert_eq!(m.inputs[0].custom_id, "embed:title");
        },
        _ => panic!("expected a modal"),
    }
}

#[test]
fn message_log_line_names_author_and_channel() {
    assert_eq!(
        message_log_line("alice", 1234, "hello", "general"),
        "alice(1234) said: \"hello\" in channel general"
    );
    assert_eq!(message_log_line("", 0, "", ""), "(0) said: \"\" in channel ");
}
