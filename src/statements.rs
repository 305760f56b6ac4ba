//! The statements (blocks) of a code line, with the names that they carry.
use vstd::prelude::*;
use crate::values::{ParameterList, Selector};

verus! {

pub type PlayerEventType = String;

pub type EntityEventType = String;

/// One block of a code line.
///
/// Conditionals and `Repeat` open a bracket scope after their own block;
/// `Close` and `CloseRepeat` close one; `Else` opens a new one. Balance is not
/// checked.
pub enum Statement {
    PlayerEvent(PlayerEventType),
    EntityEvent(EntityEventType),
    Function { name: String, parameters: ParameterList },
    Process { name: String, parameters: ParameterList },
    PlayerAction { action: String, parameters: ParameterList, selector: Selector },
    EntityAction { action: String, parameters: ParameterList, selector: Selector },
    SetVariable { action: String, parameters: ParameterList },
    GameAction { action: String, parameters: ParameterList },
    Control { action: String, parameters: ParameterList },
    SelectObject { action: String, subaction: Option<String>, parameters: ParameterList, not: bool },
    IfVariable { action: String, parameters: ParameterList, not: bool },
    IfPlayer { action: String, parameters: ParameterList, selector: Selector, not: bool },
    IfEntity { action: String, parameters: ParameterList, selector: Selector, not: bool },
    IfGame { action: String, parameters: ParameterList, not: bool },
    Else,
    Close,
    CloseRepeat,
    Repeat { action: String, subaction: Option<String>, parameters: ParameterList, not: bool },
    CallFunction { name: String, parameters: ParameterList },
    CallProcess { name: String, parameters: ParameterList },
}

/// The block identifier of a statement in the output.
pub open spec fn technical_name_of(s: Statement) -> Seq<char> {
    match s {
        Statement::PlayerAction { .. } => "player_action"@,
        Statement::EntityAction { .. } => "entity_action"@,
        Statement::SetVariable { .. } => "set_var"@,
        Statement::GameAction { .. } => "game_action"@,
        Statement::Control { .. } => "control"@,
        Statement::SelectObject { .. } => "select_obj"@,
        Statement::IfVariable { .. } => "if_var"@,
        Statement::IfPlayer { .. } => "if_player"@,
        Statement::IfEntity { .. } => "if_entity"@,
        Statement::IfGame { .. } => "if_game"@,
        Statement::Else => "else"@,
        Statement::Close => "bracket"@,
        Statement::CloseRepeat => "bracket"@,
        Statement::Repeat { .. } => "repeat"@,
        Statement::CallFunction { .. } => "call_func"@,
        Statement::CallProcess { .. } => "start_process"@,
        Statement::PlayerEvent(_) => "event"@,
        Statement::EntityEvent(_) => "entity_event"@,
        Statement::Function { .. } => "func"@,
        Statement::Process { .. } => "process"@,
    }
}

/// The display name of a statement: its kind, and for most kinds its action
/// or name.
pub open spec fn display_name(s: Statement) -> Seq<char> {
    match s {
        Statement::PlayerAction { action, .. } => "Player Action: "@ + action@,
        Statement::EntityAction { action, .. } => "Entity Action: "@ + action@,
        Statement::SetVariable { action, .. } => "Set Variable Action: "@ + action@,
        Statement::GameAction { action, .. } => "Game Action: "@ + action@,
        Statement::Control { action, .. } => "Control: "@ + action@,
        Statement::SelectObject { action, subaction, .. } => "Select Object: "@ + action@,
        Statement::IfVariable { action, .. } => "If Variable: "@ + action@,
        Statement::IfPlayer { action, .. } => "If Player: "@ + action@,
        Statement::IfEntity { action, .. } => "If Entity: "@ + action@,
        Statement::IfGame { action, .. } => "If Game: "@ + action@,
        Statement::Else => "Else"@,
        Statement::Close => "Close Bracket"@,
        Statement::CloseRepeat => "Close Bracket"@,
        Statement::Repeat { action, subaction, .. } => "Repeat: "@ + action@,
        Statement::CallFunction { name, .. } => "Call: "@ + name@,
        Statement::CallProcess { name, .. } => "Start Action: "@ + name@,
        Statement::PlayerEvent(name) => "Player Event: "@ + name@,
        Statement::EntityEvent(name) => "Entity Event: "@ + name@,
        Statement::Function { name, .. } => "Function: "@ + name@,
        Statement::Process { name, .. } => "Process: "@ + name@,
    }
}

/// The action that a tag in this statement names: the event for an event,
/// `dynamic` for functions and processes and their calls, the subaction (or
/// else the action) for `Repeat` and `SelectObject`, and the action for the
/// other kinds that have one.
pub open spec fn tag_action_of(s: Statement) -> Seq<char> {
    match s {
        Statement::PlayerAction { action, .. } => action@,
        Statement::EntityAction { action, .. } => action@,
        Statement::SetVariable { action, .. } => action@,
        Statement::GameAction { action, .. } => action@,
        Statement::Control { action, .. } => action@,
        Statement::SelectObject { action, subaction, .. } => match subaction {
            Some(sub) => sub@,
            None => action@,
        },
        Statement::IfVariable { action, .. } => action@,
        Statement::IfPlayer { action, .. } => action@,
        Statement::IfEntity { action, .. } => action@,
        Statement::IfGame { action, .. } => action@,
        Statement::Else => "else"@,
        Statement::Close => "close"@,
        Statement::CloseRepeat => "close_repeat"@,
        Statement::Repeat { action, subaction, .. } => match subaction {
            Some(sub) => sub@,
            None => action@,
        },
        Statement::CallFunction { .. } => "dynamic"@,
        Statement::CallProcess { .. } => "dynamic"@,
        Statement::PlayerEvent(name) => name@,
        Statement::EntityEvent(name) => name@,
        Statement::Function { .. } => "dynamic"@,
        Statement::Process { .. } => "dynamic"@,
    }
}

impl Statement {
    /// The block identifier of this statement in the output.
    pub fn technical_name(&self) -> (r: &'static str)
        ensures
            r@ == technical_name_of(*self),
    {
        match self {
            Statement::PlayerAction { .. } => "player_action",
            Statement::EntityAction { .. } => "entity_action",
            Statement::SetVariable { .. } => "set_var",
            Statement::GameAction { .. } => "game_action",
            Statement::Control { .. } => "control",
            Statement::SelectObject { .. } => "select_obj",
            Statement::IfVariable { .. } => "if_var",
            Statement::IfPlayer { .. } => "if_player",
            Statement::IfEntity { .. } => "if_entity",
            Statement::IfGame { .. } => "if_game",
            Statement::Else => "else",
            Statement::Close => "bracket",
            Statement::CloseRepeat => "bracket",
            Statement::Repeat { .. } => "repeat",
            Statement::CallFunction { .. } => "call_func",
            Statement::CallProcess { .. } => "start_process",
            Statement::PlayerEvent(_) => "event",
            Statement::EntityEvent(_) => "entity_event",
            Statement::Function { .. } => "func",
            Statement::Process { .. } => "process",
        }
    }

    /// The display name of this statement.
    pub fn name(&self) -> (r: String)
        ensures
            r@ == display_name(*self),
    {
        match self {
            Statement::PlayerAction { action, .. } => {
                let mut r = String::from_str("Player Action: ");
                r.append(action.as_str());
                r
            },
            Statement::EntityAction { action, .. } => {
                let mut r = String::from_str("Entity Action: ");
                r.append(action.as_str());
                r
            },
            Statement::SetVariable { action, .. } => {
                let mut r = String::from_str("Set Variable Action: ");
                r.append(action.as_str());
                r
            },
            Statement::GameAction { action, .. } => {
                let mut r = String::from_str("Game Action: ");
                r.append(action.as_str());
                r
            },
            Statement::Control { action, .. } => {
                let mut r = String::from_str("Control: ");
                r.append(action.as_str());
                r
            },
            Statement::SelectObject { action, subaction, .. } => {
                let mut r = String::from_str("Select Object: ");
                r.append(action.as_str());
                r
            },
            Statement::IfVariable { action, .. } => {
                let mut r = String::from_str("If Variable: ");
                r.append(action.as_str());
                r
            },
            Statement::IfPlayer { action, .. } => {
                let mut r = String::from_str("If Player: ");
                r.append(action.as_str());
                r
            },
            Statement::IfEntity { action, .. } => {
                let mut r = String::from_str("If Entity: ");
                r.append(action.as_str());
                r
            },
            Statement::IfGame { action, .. } => {
                let mut r = String::from_str("If Game: ");
                r.append(action.as_str());
                r
            },
            Statement::Else => String::from_str("Else"),
            Statement::Close => String::from_str("Close Bracket"),
            Statement::CloseRepeat => String::from_str("Close Bracket"),
            Statement::Repeat { action, subaction, .. } => {
                let mut r = String::from_str("Repeat: ");
                r.append(action.as_str());
                r
            },
            Statement::CallFunction { name, .. } => {
                let mut r = String::from_str("Call: ");
                r.append(name.as_str());
                r
            },
            Statement::CallProcess { name, .. } => {
                let mut r = String::from_str("Start Action: ");
                r.append(name.as_str());
                r
            },
            Statement::PlayerEvent(name) => {
                let mut r = String::from_str("Player Event: ");
                r.append(name.as_str());
                r
            },
            Statement::EntityEvent(name) => {
                let mut r = String::from_str("Entity Event: ");
                r.append(name.as_str());
                r
            },
            Statement::Function { name, .. } => {
                let mut r = String::from_str("Function: ");
                r.append(name.as_str());
                r
            },
            Statement::Process { name, .. } => {
                let mut r = String::from_str("Process: ");
                r.append(name.as_str());
                r
            },
        }
    }

    /// The action that a tag placed in this statement names.
    pub fn tag_action(&self) -> (r: &str)
        ensures
            r@ == tag_action_of(*self),
    {
        match self {
            Statement::PlayerAction { action, .. } => action.as_str(),
            Statement::EntityAction { action, .. } => action.as_str(),
            Statement::SetVariable { action, .. } => action.as_str(),
            Statement::GameAction { action, .. } => action.as_str(),
            Statement::Control { action, .. } => action.as_str(),
            Statement::SelectObject { action, subaction, .. } => match subaction {
                Some(sub) => sub.as_str(),
                None => action.as_str(),
            },
            Statement::IfVariable { action, .. } => action.as_str(),
            Statement::IfPlayer { action, .. } => action.as_str(),
            Statement::IfEntity { action, .. } => action.as_str(),
            Statement::IfGame { action, .. } => action.as_str(),
            Statement::Else => "else",
            Statement::Close => "close",
            Statement::CloseRepeat => "close_repeat",
            Statement::Repeat { action, subaction, .. } => match subaction {
                Some(sub) => sub.as_str(),
                None => action.as_str(),
            },
            Statement::CallFunction { .. } => "dynamic",
            Statement::CallProcess { .. } => "dynamic",
            Statement::PlayerEvent(name) => name.as_str(),
            Statement::EntityEvent(name) => name.as_str(),
            Statement::Function { .. } => "dynamic",
            Statement::Process { .. } => "dynamic",
        }
    }
}

} // verus!
