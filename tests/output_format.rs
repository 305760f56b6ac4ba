use kindling::code_line::CodeLine;
use kindling::params::{empty_slots, ParamBuilder};
use kindling::payload::{pack, unpack};
use kindling::program::{give_command, Program};
use kindling::serialization::{DFSerializable, DFSerializableStatementContext};
use kindling::statements::Statement;
use kindling::text::{push_decimal, push_signed_decimal};
use kindling::values::{
    GameValue, Number, Potion, PotionEffect, Selector, Sound, Tag, Text, Value, Variable,
    VariableScope, Vector,
};

fn text(s: &str) -> Value {
    Value::Text(Text(String::from(s)))
}

fn tag(name: &str, option: &str) -> Tag {
    Tag { name: String::from(name), option: String::from(option), var: None }
}

fn text_of(v: &Option<Value>) -> Option<String> {
    match v {
        Some(Value::Text(Text(t))) => Some(t.clone()),
        _ => None,
    }
}

fn tag_name_of(v: &Option<Value>) -> Option<String> {
    match v {
        Some(Value::Tag(t)) => Some(t.name.clone()),
        _ => None,
    }
}

#[test]
fn slots_take_params_forward_and_tags_backward() {
    let slots = ParamBuilder::new()
        .param(text("a"))
        .tag(tag("first", "x"))
        .param(text("b"))
        .tag(tag("second", "y"))
        .tag(tag("third", "z"))
        .complete()
        .unwrap();
    assert_eq!(text_of(&slots[0]), Some(String::from("a")));
    assert_eq!(text_of(&slots[1]), Some(String::from("b")));
    for i in 2..24 {
        assert!(slots[i].is_none());
    }
    assert_eq!(tag_name_of(&slots[26]), Some(String::from("third")));
    assert_eq!(tag_name_of(&slots[25]), Some(String::from("second")));
    assert_eq!(tag_name_of(&slots[24]), Some(String::from("first")));
}

#[test]
fn slots_fill_exactly_at_capacity() {
    let mut b = ParamBuilder::new();
    for i in 0..20 {
        b = b.param(text(&i.to_string()));
    }
    for i in 0..7 {
        b = b.tag(tag(&i.to_string(), "o"));
    }
    let slots = b.complete().unwrap();
    assert_eq!(text_of(&slots[19]), Some(String::from("19")));
    assert_eq!(tag_name_of(&slots[20]), Some(String::from("0")));
    assert_eq!(tag_name_of(&slots[26]), Some(String::from("6")));
}

#[test]
fn slots_refuse_more_than_capacity() {
    let mut b = ParamBuilder::new();
    for i in 0..20 {
        b = b.param(text(&i.to_string()));
    }
    for i in 0..8 {
        b = b.tag(tag(&i.to_string(), "o"));
    }
    assert!(b.complete().is_none());
    let mut only_tags = ParamBuilder::new();
    for i in 0..28 {
        only_tags = only_tags.tag(tag(&i.to_string(), "o"));
    }
    assert!(only_tags.complete().is_none());
}

#[test]
fn empty_builder_gives_empty_slots() {
    let slots = ParamBuilder::new().complete_unchecked();
    assert!(slots.iter().all(|s| s.is_none()));
    assert!(empty_slots().iter().all(|s| s.is_none()));
}

#[test]
fn compiled_line_reads_back_to_its_block_list() {
    let line = CodeLine::new_from(vec![
        Statement::PlayerEvent(String::from("Join")),
        Statement::PlayerAction {
            action: String::from("SendMessage"),
            parameters: ParamBuilder::new().param(text("§a%default joined!")).complete_unchecked(),
            selector: Selector::AllPlayers,
        },
    ]);
    let payload = line.compile();
    assert_ne!(payload, line.serialize());
    assert!(payload.starts_with("H4sI"));
    assert_eq!(CodeLine::decompile(&payload), Some(line.serialize()));
}

#[test]
fn pack_and_unpack_are_inverse() {
    let packed = pack("hello");
    assert_ne!(packed, "hello");
    assert_eq!(unpack(&packed), Some(String::from("hello")));
    assert_eq!(unpack("not a payload!"), None);
    assert_eq!(unpack("aGVsbG8="), None);
}

#[test]
fn empty_program_compiles_to_nothing() {
    let p = Program::new();
    assert!(p.compile_program().is_empty());
    assert!(p.relay_messages().is_empty());
}

#[test]
fn join_event_line() {
    let line = CodeLine::new_from(vec![Statement::PlayerEvent(String::from("Join"))]);
    assert_eq!(
        line.serialize(),
        r#"{"blocks":[{"id":"block","block":"event","args":{"items":[]},"action":"Join"}]}"#
    );
    assert_eq!(line.name(), "Player Event: Join");
}

#[test]
fn tag_takes_its_statement_as_context() {
    let line = CodeLine::new_from(vec![Statement::PlayerAction {
        action: String::from("SendMessage"),
        parameters: ParamBuilder::new().tag(tag("Alignment", "Centered")).complete_unchecked(),
        selector: Selector::Default,
    }]);
    let json = line.serialize();
    assert!(json.contains(r#""action":"SendMessage","block":"player_action""#));
    assert_eq!(
        json,
        r#"{"blocks":[{"id":"block","block":"player_action","args":{"items":[{"item":{"id":"bl_tag","data":{"option":"Centered","tag":"Alignment","action":"SendMessage","block":"player_action"}},"slot":26}]},"action":"SendMessage","target":"Default"}]}"#
    );
}

#[test]
fn tag_context_of_other_statements() {
    let t = Value::Tag(Tag {
        name: String::from("T"),
        option: String::from("O"),
        var: Some(Variable { name: String::from("v"), scope: VariableScope::Saved }),
    });
    let call = Statement::CallFunction { name: String::from("f"), parameters: empty_slots() };
    assert_eq!(
        t.serialize_slot(3, &call),
        r#"{"item":{"id":"bl_tag","data":{"option":"O","tag":"T","action":"dynamic","block":"call_func","variable":{"id":"var","data":{"name":"v","scope":"saved"}}}},"slot":3}"#
    );
    let repeat = Statement::Repeat {
        action: String::from("While"),
        subaction: Some(String::from("IsNear")),
        parameters: empty_slots(),
        not: false,
    };
    assert!(t.serialize_slot(0, &repeat).contains(r#""action":"IsNear","block":"repeat""#));
    let select = Statement::SelectObject {
        action: String::from("AllPlayers"),
        subaction: None,
        parameters: empty_slots(),
        not: true,
    };
    assert!(t.serialize_slot(0, &select).contains(r#""action":"AllPlayers","block":"select_obj""#));
    assert!(t.serialize_slot(0, &Statement::CloseRepeat).contains(r#""action":"close_repeat","block":"bracket""#));
}

#[test]
fn conditional_opens_and_close_closes() {
    let line = CodeLine::new_from(vec![
        Statement::IfPlayer {
            action: String::from("HasPermission"),
            parameters: empty_slots(),
            selector: Selector::Default,
            not: false,
        },
        Statement::PlayerAction {
            action: String::from("SendMessage"),
            parameters: empty_slots(),
            selector: Selector::AllPlayers,
        },
        Statement::Close,
    ]);
    let json = line.serialize();
    assert_eq!(
        json,
        r#"{"blocks":[{"id":"block","block":"if_player","args":{"items":[]},"action":"HasPermission","inverted":"","target":"Default"},{"id":"bracket","direct":"open","type":"norm"},{"id":"block","block":"player_action","args":{"items":[]},"action":"SendMessage","target":"AllPlayers"},{"id":"bracket","direct":"close","type":"norm"}]}"#
    );
    assert_eq!(json.matches(r#"{"id":"#).count(), 4);
}

#[test]
fn else_repeat_and_close_repeat() {
    assert_eq!(
        Statement::Else.serialize(),
        r#"{"id":"block","block":"else"},{"id":"bracket","direct":"open","type":"norm"}"#
    );
    assert_eq!(Statement::CloseRepeat.serialize(), r#"{"id":"bracket","direct":"close","type":"repeat"}"#);
    let repeat = Statement::Repeat {
        action: String::from("Multiple"),
        subaction: None,
        parameters: ParamBuilder::new().param(Value::Number(Number(String::from("5")))).complete_unchecked(),
        not: true,
    };
    assert_eq!(
        repeat.serialize(),
        r#"{"id":"block","block":"repeat","args":{"items":[{"item":{"id":"num","data":{"name": "5"}},"slot":0}]},"action":"Multiple","subAction":"","inverted":"NOT"},{"id":"bracket","direct":"open","type":"repeat"}"#
    );
}

#[test]
fn statement_less_line_is_named_empty() {
    assert_eq!(CodeLine::new().name(), "Empty");
    assert_eq!(CodeLine::new().serialize(), r#"{"blocks":[]}"#);
}

#[test]
fn display_names() {
    assert_eq!(Statement::Function { name: String::from("init"), parameters: empty_slots() }.name(), "Function: init");
    assert_eq!(Statement::CloseRepeat.name(), "Close Bracket");
    assert_eq!(Statement::CallProcess { name: String::from("p"), parameters: empty_slots() }.name(), "Start Action: p");
}

#[test]
fn value_slot_items() {
    let ctx = Statement::Else;
    let potion = Value::Potion(Potion { effect: PotionEffect::DolphinGrace, ticks: 1200, level: -3 });
    assert_eq!(
        potion.serialize_slot(0, &ctx),
        r#"{"item":{"id":"pot","data":{"pot":"Dolphin's Grace","dur":1200,"amp":-3}},"slot":0}"#
    );
    let var = Value::Variable(Variable { name: String::from("count"), scope: VariableScope::Global });
    assert_eq!(
        var.serialize_slot(12, &ctx),
        r#"{"item":{"id":"var","data":{"name":"count","scope":"unsaved"}},"slot":12}"#
    );
    let gv = Value::GameValue(GameValue { name: String::from("Location"), selector: None });
    assert_eq!(
        gv.serialize_slot(1, &ctx),
        r#"{"item":{"id":"g_val","data":{"type":"Location","target":"Default"}},"slot":1}"#
    );
    let vec = Value::Vector(Vector { x: 1.5f64.to_string(), y: 0f64.to_string(), z: (-2f64).to_string() });
    assert_eq!(
        vec.serialize_slot(2, &ctx),
        r#"{"item":{"id":"vec","data":{"x":1.5,"y":0,"z":-2}},"slot":2}"#
    );
    let snd = Value::Sound(Sound { sound: String::from("Pling"), pitch: String::from("1"), volume: String::from("2") });
    assert_eq!(
        snd.serialize_slot(5, &ctx),
        r#"{"item":{"id":"snd","data":{"sound":"Pling","pitch":1,"vol":2}},"slot":5}"#
    );
}

#[test]
fn parameter_list_joins_filled_slots() {
    let slots = ParamBuilder::new().param(text("a")).tag(tag("t", "o")).complete_unchecked();
    assert_eq!(
        slots.serialize_params(&Statement::Close),
        r#"{"item":{"id":"txt","data":{"name": "a"}},"slot":0},{"item":{"id":"bl_tag","data":{"option":"o","tag":"t","action":"close","block":"bracket"}},"slot":26}"#
    );
}

#[test]
fn name_tables() {
    assert_eq!(PotionEffect::HeroOfTheVillage.serialize(), "Hero of the Village");
    assert_eq!(VariableScope::Local.serialize(), "local");
    assert_eq!(Selector::LastEntity.serialize(), "LastEntity");
    assert_eq!(true.serialize(), "True");
    assert_eq!(false.serialize(), "False");
    assert!(matches!(Selector::default(), Selector::Default));
}

#[test]
fn decimal_text() {
    let mut s = String::from("n=");
    push_decimal(&mut s, 0);
    push_decimal(&mut s, 18446744073709551615);
    assert_eq!(s, "n=018446744073709551615");
    let mut t = String::new();
    push_signed_decimal(&mut t, i64::MIN);
    assert_eq!(t, "-9223372036854775808");
}

#[test]
fn artifacts_carry_owner_name_and_payload() {
    let cmd = give_command("Me", "Player Event: Join", "PAYLOAD");
    assert_eq!(
        cmd,
        r##"/give @p ender_chest{display:{Name:'{"extra":[{"italic":false,"color":"#FF8855","text":"Compiled "},{"italic":false,"color":"dark_gray","text":"» "},{"italic":false,"color":"#FFCC99","text":"Player Event: Join"}],"text":""}'},PublicBukkitValues:{"hypercube:codetemplatedata":'{"author":"Me","name":"&x&f&f&8&8&5&5Compiled &8» &x&f&f&c&c&9&9Player Event: Join","version":1,"code":"PAYLOAD"}'}}"##
    );
    let line = CodeLine::new_from(vec![Statement::PlayerEvent(String::from("Join"))]);
    let payload = line.compile();
    let p = Program::new_from(vec![line]);
    let artifacts = p.compile_program();
    assert_eq!(artifacts, vec![give_command("Kindling", "Player Event: Join", &payload)]);
    let owned = p.with_owner(String::from("Alex")).compile_program();
    assert!(owned[0].contains(r#"{"author":"Alex","#));
}

#[test]
fn relay_messages_carry_the_same_values() {
    let line = CodeLine::new_from(vec![Statement::EntityEvent(String::from("Death"))]);
    let payload = line.compile();
    let msgs = Program::new_from(vec![line]).relay_messages();
    assert_eq!(msgs.len(), 1);
    assert!(msgs[0].starts_with(r#"{"source":"Kindling","type":"nbt","data":"#));
    assert!(msgs[0].contains(r#"\"author\":\"Kindling\""#));
    assert!(msgs[0].contains("Entity Event: Death"));
    assert!(msgs[0].contains(&payload));
}
