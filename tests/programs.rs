use kindling::code_line::CodeLine;
use kindling::params::ParamBuilder;
use kindling::program::Program;
use kindling::statements::Statement;
use kindling::values::{Location, Selector, Tag, Text, Value};

#[test]
fn test_empty() {
    let p = Program::new_from(vec![]);
    assert_eq!(p.compile_program(), Vec::<String>::new());
}

#[test]
fn test_simple() {
    let p = Program::new_from(vec![
        CodeLine::new_from(vec![ Statement::PlayerEvent(String::from("Join")) ])
    ]);
    for l in p.compile_program() {
        println!("{}", l);
    }
}

#[test]
fn test_simple2() {
    let p = Program::new_from(vec![
        CodeLine::new_from(vec![
            Statement::PlayerEvent(String::from("Join")),
            Statement::PlayerAction { action: String::from("SendMessage"), parameters: [Some(Value::Text(Text(String::from("§a%default joined!")))), None, None, None, None, None, None, None, None, None, None, None, None, None, None, None, None, None, None, None, None, None, None, None, None, None, None], selector: Selector::AllPlayers },
        ])
    ]);
    for l in p.compile_program() {
        println!("{}", l);
    }
}

#[test]
fn test_recode() {
    let p = Program::new_from(vec![
        CodeLine::new_from(vec![
            Statement::PlayerEvent(String::from("Join")),
            Statement::PlayerAction { action: String::from("SendMessage"), parameters: [Some(Value::Text(Text(String::from("§a%default joined!")))), None, None, None, None, None, None, None, None, None, None, None, None, None, None, None, None, None, None, None, None, None, None, None, None, None, None], selector: Selector::AllPlayers },
        ])
    ]);
    let messages = p.relay_messages();
    assert_eq!(messages.len(), 1);
}

#[test]
fn test_recode2() {
    let p = Program::new_from(vec![
        CodeLine::new_from(vec![
            Statement::PlayerEvent(String::from("Join")),
            Statement::IfPlayer { action: String::from("HasPermission"), parameters: ParamBuilder::new().tag(Tag{name: String::from("Permission"), option: String::from("Developer"), var: None}).complete_unchecked(), selector: Selector::Default, not: false },
            Statement::PlayerAction { action: String::from("SendMessage"), parameters: ParamBuilder::new().param(Value::Text(Text(String::from("§e[DEV] §a%default joined!")))).complete_unchecked(), selector: Selector::AllPlayers },
            Statement::Close,
            Statement::Else,
            Statement::PlayerAction { action: String::from("SendMessage"), parameters: ParamBuilder::new().param(Value::Text(Text(String::from("§a%default joined!")))).complete_unchecked(), selector: Selector::AllPlayers },
            Statement::Close
        ])
    ]);
    let messages = p.relay_messages();
    assert_eq!(messages.len(), 1);
}

#[test]
fn test_recode3() {
    let p = Program::new_from(vec![
        CodeLine::new_from(vec![
            Statement::PlayerEvent(String::from("Join")),
            Statement::IfPlayer { action: String::from("HasPermission"), parameters: ParamBuilder::new().tag(Tag{name: String::from("Permission"), option: String::from("Developer"), var: None}).complete_unchecked(), selector: Selector::Default, not: false },
            Statement::PlayerAction { action: String::from("SendMessage"), parameters: ParamBuilder::new().param(Value::Text(Text(String::from("§e[DEV] §a%default joined!")))).complete_unchecked(), selector: Selector::AllPlayers },
            Statement::Close,
            Statement::Else,
            Statement::PlayerAction { action: String::from("SendMessage"), parameters: ParamBuilder::new().param(Value::Text(Text(String::from("§a%default joined!")))).complete_unchecked(), selector: Selector::AllPlayers },
            Statement::Close
        ]),
        CodeLine::new_from(vec![
            Statement::PlayerEvent(String::from("RightClick")),
            Statement::IfPlayer { action: String::from("IsLookingAt"), parameters: ParamBuilder::new().tag(Tag{name: String::from("Fluid Mode"), option: String::from("Ignore fluids"), var: None}).param(Value::Location(Location { x: 25f32.to_string(), y: 49f32.to_string(), z: 27f32.to_string(), pitch: 0f32.to_string(), yaw: 0f32.to_string() })).complete_unchecked(), selector: Selector::Default, not: false },
            Statement::PlayerAction { action: String::from("SendMessage"), parameters: ParamBuilder::new().param(Value::Text(Text(String::from("§6Let's go!")))).complete_unchecked(), selector: Selector::Default },
            Statement::Close,
        ]),
    ]);
    let messages = p.relay_messages();
    assert_eq!(messages.len(), 2);
}
