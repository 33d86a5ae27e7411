use discordbot::bot::BotData;
use discordbot::command::CommandRegistry;
use discordbot::component::ComponentRegistry;
use discordbot::registry::Registry;

#[test]
fn empty_registry_finds_nothing() {
    let r: Registry<u32> = Registry::new();
    assert!(r.get("purge").is_none());
    assert!(r.get("").is_none());
}

#[test]
fn registered_name_is_found_again() {
    let mut r: Registry<u32> = Registry::new();
    r.insert("purge".to_string(), 1);
    r.insert("embed".to_string(), 2);
    assert_eq!(r.get("purge"), Some(&1));
    assert_eq!(r.get("embed"), Some(&2));
    assert_eq!(r.get("debug"), None);
}

#[test]
fn registering_again_replaces_the_handler() {
    let mut r: Registry<u32> = Registry::new();
    r.insert("purge".to_string(), 1);
    r.insert("embed".to_string(), 2);
    r.insert("purge".to_string(), 3);
    assert_eq!(r.get("purge"), Some(&3));
    assert_eq!(r.get("embed"), Some(&2));
}

#[test]
fn lookups_are_case_sensitive() {
    let mut r: Registry<u32> = Registry::new();
    r.insert("purge".to_string(), 1);
    assert_eq!(r.get("Purge"), None);
    assert_eq!(r.get("purge "), None);
}

#[test]
fn command_registered_by_discord_is_found() {
    let mut cmds: CommandRegistry<&str> = CommandRegistry::new();
    let res: Result<(), String> = cmds.register_global(Ok("purge".to_string()), "purge handler");
    assert_eq!(res, Ok(()));
    assert_eq!(cmds.get_command_handler("purge"), Some(&"purge handler"));
    assert_eq!(cmds.get_command_handler("embed"), None);
}

#[test]
fn refused_command_is_not_registered() {
    let mut cmds: CommandRegistry<&str> = CommandRegistry::default();
    let res = cmds.register_global(Err("rate limited".to_string()), "purge handler");
    assert_eq!(res, Err("rate limited".to_string()));
    assert_eq!(cmds.get_command_handler("purge"), None);
}

#[test]
fn component_callbacks_are_found_by_id() {
    let mut comps: ComponentRegistry<u8> = ComponentRegistry::new();
    assert_eq!(comps.get_component_handle("author"), None);
    comps.register_component("author", 7);
    assert_eq!(comps.get_component_handle("author"), Some(&7));
    assert_eq!(comps.get_component_handle("title"), None);
    comps.register_component("author", 9);
    assert_eq!(comps.get_component_handle("author"), Some(&9));
}

#[test]
fn bot_registers_commands_without_touching_components() {
    let mut bot: BotData<u8, u8> = BotData::new();
    bot.components.register_component("author", 5);
    let res: Result<(), ()> = bot.register_global_command(Ok("embed".to_string()), 1);
    assert_eq!(res, Ok(()));
    assert_eq!(bot.cmds.get_command_handler("embed"), Some(&1));
    assert_eq!(bot.get_component_handle("author"), Some(&5));
    let res = bot.register_global_command(Err(()), 2);
    assert_eq!(res, Err(()));
    assert_eq!(bot.cmds.get_command_handler("embed"), Some(&1));
}

#[test]
fn default_bot_is_empty() {
    let bot: BotData<u8, u8> = BotData::default();
    assert_eq!(bot.cmds.get_command_handler("embed"), None);
    assert_eq!(bot.get_component_handle("author"), None);
}
