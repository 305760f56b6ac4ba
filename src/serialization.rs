//! The output format: a slot item for each value, a block fragment (and for
//! scope openers a bracket fragment) for each statement.
use vstd::prelude::*;
use crate::statements::{technical_name_of, tag_action_of, Statement};
use crate::text::{decimal, join, lemma_join_push, push_decimal, push_signed_decimal, signed_decimal};
use crate::values::{
    effect_name, scope_name, selector_name, ParameterList, PotionEffect, Selector, Value, Variable,
    VariableScope,
};

verus! {

/// A thing with one fixed text form in the output.
pub trait DFSerializable {
    spec fn serialized(&self) -> Seq<char>;

    fn serialize(&self) -> (r: String)
        ensures
            r@ == self.serialized(),
    ;
}

/// A thing whose text form depends on the statement that holds it.
pub trait DFSerializableStatementContext {
    spec fn serialized_in(&self, stmnt: Statement) -> Seq<char>;

    fn serialize_params(&self, stmnt: &Statement) -> (r: String)
        ensures
            r@ == self.serialized_in(*stmnt),
    ;
}

impl DFSerializable for bool {
    open spec fn serialized(&self) -> Seq<char> {
        if *self {
            "True"@
        } else {
            "False"@
        }
    }

    fn serialize(&self) -> (r: String) {
        String::from_str(if *self { "True" } else { "False" })
    }
}

impl DFSerializable for PotionEffect {
    open spec fn serialized(&self) -> Seq<char> {
        effect_name(*self)
    }

    fn serialize(&self) -> (r: String) {
        String::from_str(self.name())
    }
}

impl DFSerializable for VariableScope {
    open spec fn serialized(&self) -> Seq<char> {
        scope_name(*self)
    }

    fn serialize(&self) -> (r: String) {
        String::from_str(self.name())
    }
}

impl DFSerializable for Selector {
    open spec fn serialized(&self) -> Seq<char> {
        selector_name(*self)
    }

    fn serialize(&self) -> (r: String) {
        String::from_str(self.name())
    }
}

/// The item-kind code of a value.
pub open spec fn kind_code(v: Value) -> Seq<char> {
    match v {
        Value::Text(_) => "txt"@,
        Value::Number(_) => "num"@,
        Value::Location(_) => "loc"@,
        Value::Vector(_) => "vec"@,
        Value::Sound(_) => "snd"@,
        Value::Potion(_) => "pot"@,
        Value::Variable(_) => "var"@,
        Value::GameValue(_) => "g_val"@,
        Value::Tag(_) => "bl_tag"@,
    }
}

/// The data object of a variable.
pub open spec fn variable_data(v: Variable) -> Seq<char> {
    "{\"name\":\""@ + v.name@ + "\",\"scope\":\""@ + scope_name(v.scope) + "\"}"@
}

/// The data object of a value placed in the statement `ctx`. Only a tag
/// reads `ctx`: it names the statement's tag action and block identifier.
pub open spec fn value_data(v: Value, ctx: Statement) -> Seq<char> {
    match v {
        Value::Text(t) => "{\"name\": \""@ + t.0@ + "\"}"@,
        Value::Number(n) => "{\"name\": \""@ + n.0@ + "\"}"@,
        Value::Location(l) => "{\"isBlock\":false,\"loc\":{\"x\":"@ + l.x@ + ",\"y\":"@ + l.y@
            + ",\"z\":"@ + l.z@ + ",\"pitch\":"@ + l.pitch@ + ",\"yaw\":"@ + l.yaw@ + "}}"@,
        Value::Vector(w) => "{\"x\":"@ + w.x@ + ",\"y\":"@ + w.y@ + ",\"z\":"@ + w.z@ + "}"@,
        Value::Sound(s) => "{\"sound\":\""@ + s.sound@ + "\",\"pitch\":"@ + s.pitch@ + ",\"vol\":"@
            + s.volume@ + "}"@,
        Value::Potion(p) => "{\"pot\":\""@ + effect_name(p.effect) + "\",\"dur\":"@ + decimal(
            p.ticks as nat,
        ) + ",\"amp\":"@ + signed_decimal(p.level as int) + "}"@,
        Value::Variable(w) => variable_data(w),
        Value::GameValue(g) => "{\"type\":\""@ + g.name@ + "\",\"target\":\""@ + selector_name(
            match g.selector {
                Some(s) => s,
                None => Selector::Default,
            },
        ) + "\"}"@,
        Value::Tag(t) => "{\"option\":\""@ + t.option@ + "\",\"tag\":\""@ + t.name@
            + "\",\"action\":\""@ + tag_action_of(ctx) + "\",\"block\":\""@ + technical_name_of(ctx)
            + "\""@ + match t.var {
            Some(w) => ",\"variable\":{\"id\":\"var\",\"data\":"@ + variable_data(w) + "}"@,
            None => ""@,
        } + "}"@,
    }
}

/// The slot item of value `v` in slot `slot` of statement `ctx`.
pub open spec fn slot_item(v: Value, slot: nat, ctx: Statement) -> Seq<char> {
    "{\"item\":{\"id\":\""@ + kind_code(v) + "\",\"data\":"@ + value_data(v, ctx) + "},\"slot\":"@
        + decimal(slot) + "}"@
}

/// The slot items of the filled slots among the first `n`, in slot order.
pub open spec fn filled_items(ps: Seq<Option<Value>>, ctx: Statement, n: nat) -> Seq<Seq<char>>
    decreases n,
{
    if n == 0 || n > ps.len() {
        Seq::empty()
    } else {
        let prev = filled_items(ps, ctx, (n - 1) as nat);
        match ps[n - 1] {
            Some(v) => prev.push(slot_item(v, (n - 1) as nat, ctx)),
            None => prev,
        }
    }
}

/// The items list of a parameter list in statement `ctx`: the items of the
/// filled slots in slot order, separated by commas.
pub open spec fn params_json(ps: ParameterList, ctx: Statement) -> Seq<char> {
    join(filled_items(ps@, ctx, 27))
}

fn push_variable_data(r: &mut String, v: &Variable)
    ensures
        final(r)@ == old(r)@ + variable_data(*v),
{
    r.append("{\"name\":\"");
    r.append(v.name.as_str());
    r.append("\",\"scope\":\"");
    r.append(v.scope.name());
    r.append("\"}");
    assert(final(r)@ =~= old(r)@ + variable_data(*v));
}

impl Value {
    fn push_data(&self, r: &mut String, stmnt: &Statement)
        ensures
            final(r)@ == old(r)@ + value_data(*self, *stmnt),
    {
        match self {
            Value::Text(t) => {
                r.append("{\"name\": \"");
                r.append(t.0.as_str());
                r.append("\"}");
            },
            Value::Number(n) => {
                r.append("{\"name\": \"");
                r.append(n.0.as_str());
                r.append("\"}");
            },
            Value::Location(l) => {
                r.append("{\"isBlock\":false,\"loc\":{\"x\":");
                r.append(l.x.as_str());
                r.append(",\"y\":");
                r.append(l.y.as_str());
                r.append(",\"z\":");
                r.append(l.z.as_str());
                r.append(",\"pitch\":");
                r.append(l.pitch.as_str());
                r.append(",\"yaw\":");
                r.append(l.yaw.as_str());
                r.append("}}");
            },
            Value::Vector(w) => {
                r.append("{\"x\":");
                r.append(w.x.as_str());
                r.append(",\"y\":");
                r.append(w.y.as_str());
                r.append(",\"z\":");
                r.append(w.z.as_str());
                r.append("}");
            },
            Value::Sound(s) => {
                r.append("{\"sound\":\"");
                r.append(s.sound.as_str());
                r.append("\",\"pitch\":");
                r.append(s.pitch.as_str());
                r.append(",\"vol\":");
                r.append(s.volume.as_str());
                r.append("}");
            },
            Value::Potion(p) => {
                r.append("{\"pot\":\"");
                r.append(p.effect.name());
                r.append("\",\"dur\":");
                push_decimal(r, p.ticks);
                r.append(",\"amp\":");
                push_signed_decimal(r, p.level as i64);
                r.append("}");
            },
            Value::Variable(w) => {
                push_variable_data(r, w);
            },
            Value::GameValue(g) => {
                let sel = match g.selector {
                    Some(s) => s,
                    None => Selector::Default,
                };
                r.append("{\"type\":\"");
                r.append(g.name.as_str());
                r.append("\",\"target\":\"");
                r.append(sel.name());
                r.append("\"}");
            },
            Value::Tag(t) => {
                r.append("{\"option\":\"");
                r.append(t.option.as_str());
                r.append("\",\"tag\":\"");
                r.append(t.name.as_str());
                r.append("\",\"action\":\"");
                r.append(stmnt.tag_action());
                r.append("\",\"block\":\"");
                r.append(stmnt.technical_name());
                r.append("\"");
                match &t.var {
                    Some(w) => {
                        r.append(",\"variable\":{\"id\":\"var\",\"data\":");
                        push_variable_data(r, w);
                        r.append("}");
                    },
                    None => {
                        r.append("");
                    },
                }
                r.append("}");
            },
        }
        assert(final(r)@ =~= old(r)@ + value_data(*self, *stmnt));
    }

    fn push_slot_item(&self, r: &mut String, slot: usize, stmnt: &Statement)
        ensures
            final(r)@ == old(r)@ + slot_item(*self, slot as nat, *stmnt),
    {
        r.append("{\"item\":{\"id\":\"");
        r.append(
            match self {
                Value::Text(_) => "txt",
                Value::Number(_) => "num",
                Value::Location(_) => "loc",
                Value::Vector(_) => "vec",
                Value::Sound(_) => "snd",
                Value::Potion(_) => "pot",
                Value::Variable(_) => "var",
                Value::GameValue(_) => "g_val",
                Value::Tag(_) => "bl_tag",
            },
        );
        r.append("\",\"data\":");
        self.push_data(r, stmnt);
        r.append("},\"slot\":");
        push_decimal(r, slot as u64);
        r.append("}");
        assert(final(r)@ =~= old(r)@ + slot_item(*self, slot as nat, *stmnt));
    }

    /// The slot item of this value in slot `slot` of the statement `stmnt`.
    pub fn serialize_slot(&self, slot: usize, stmnt: &Statement) -> (r: String)
        ensures
            r@ == slot_item(*self, slot as nat, *stmnt),
    {
        let mut r = String::new();
        self.push_slot_item(&mut r, slot, stmnt);
        assert(r@ =~= slot_item(*self, slot as nat, *stmnt));
        r
    }
}

impl DFSerializableStatementContext for ParameterList {
    open spec fn serialized_in(&self, stmnt: Statement) -> Seq<char> {
        params_json(*self, stmnt)
    }

    fn serialize_params(&self, stmnt: &Statement) -> (r: String) {
        let mut out = String::new();
        let mut any = false;
        let mut i: usize = 0;
        while i < 27
            invariant
                i <= 27,
                self@.len() == 27,
                out@ == join(filled_items(self@, *stmnt, i as nat)),
                any == (filled_items(self@, *stmnt, i as nat).len() > 0),
            decreases 27 - i,
        {
            proof {
                reveal_with_fuel(filled_items, 2);
            }
            match &self[i] {
                Some(v) => {
                    let ghost before = filled_items(self@, *stmnt, i as nat);
                    if any {
                        out.append(",");
                    }
                    v.push_slot_item(&mut out, i, stmnt);
                    any = true;
                    proof {
                        lemma_join_push(before, slot_item(*v, i as nat, *stmnt));
                    }
                },
                None => {},
            }
            i += 1;
        }
        out
    }
}

/// The inverted flag of a conditional as text.
pub open spec fn inverted_text(not: bool) -> Seq<char> {
    if not {
        "NOT"@
    } else {
        ""@
    }
}

/// A subaction as text; empty when there is none.
pub open spec fn subaction_text(sub: Option<String>) -> Seq<char> {
    match sub {
        Some(a) => a@,
        None => ""@,
    }
}

/// The fragment that opens a bracket scope of type `kind`.
pub open spec fn open_bracket(kind: Seq<char>) -> Seq<char> {
    "{\"id\":\"bracket\",\"direct\":\"open\",\"type\":\""@ + kind + "\"}"@
}

/// The fragment that closes a bracket scope of type `kind`.
pub open spec fn close_bracket(kind: Seq<char>) -> Seq<char> {
    "{\"id\":\"bracket\",\"direct\":\"close\",\"type\":\""@ + kind + "\"}"@
}

/// The items list of a statement's block: its parameter list, or nothing for
/// the kinds that have none.
pub open spec fn block_items(s: Statement) -> Seq<char> {
    match s {
        Statement::PlayerAction { parameters, .. } => params_json(parameters, s),
        Statement::EntityAction { parameters, .. } => params_json(parameters, s),
        Statement::SetVariable { parameters, .. } => params_json(parameters, s),
        Statement::GameAction { parameters, .. } => params_json(parameters, s),
        Statement::Control { parameters, .. } => params_json(parameters, s),
        Statement::SelectObject { parameters, .. } => params_json(parameters, s),
        Statement::IfVariable { parameters, .. } => params_json(parameters, s),
        Statement::IfPlayer { parameters, .. } => params_json(parameters, s),
        Statement::IfEntity { parameters, .. } => params_json(parameters, s),
        Statement::IfGame { parameters, .. } => params_json(parameters, s),
        Statement::Else => Seq::empty(),
        Statement::Close => Seq::empty(),
        Statement::CloseRepeat => Seq::empty(),
        Statement::Repeat { parameters, .. } => params_json(parameters, s),
        Statement::CallFunction { parameters, .. } => params_json(parameters, s),
        Statement::CallProcess { parameters, .. } => params_json(parameters, s),
        Statement::PlayerEvent(_) => Seq::empty(),
        Statement::EntityEvent(_) => Seq::empty(),
        Statement::Function { parameters, .. } => params_json(parameters, s),
        Statement::Process { parameters, .. } => params_json(parameters, s),
    }
}

/// The fields of a statement's block that follow its items list.
pub open spec fn block_fields(s: Statement) -> Seq<char> {
    match s {
        Statement::PlayerAction { action, selector, .. } => ",\"action\":\""@ + action@ + "\",\"target\":\""@ + selector_name(selector) + "\""@,
        Statement::EntityAction { action, selector, .. } => ",\"action\":\""@ + action@ + "\",\"target\":\""@ + selector_name(selector) + "\""@,
        Statement::SetVariable { action, .. } => ",\"action\":\""@ + action@ + "\""@,
        Statement::GameAction { action, .. } => ",\"action\":\""@ + action@ + "\""@,
        Statement::Control { action, .. } => ",\"action\":\""@ + action@ + "\""@,
        Statement::SelectObject { action, subaction, not, .. } => ",\"action\":\""@ + action@ + "\",\"subAction\":\""@ + subaction_text(subaction) + "\",\"inverted\":\""@ + inverted_text(not) + "\""@,
        Statement::IfVariable { action, not, .. } => ",\"action\":\""@ + action@ + "\",\"inverted\":\""@ + inverted_text(not) + "\""@,
        Statement::IfPlayer { action, selector, not, .. } => ",\"action\":\""@ + action@ + "\",\"inverted\":\""@ + inverted_text(not) + "\",\"target\":\""@ + selector_name(selector) + "\""@,
        Statement::IfEntity { action, selector, not, .. } => ",\"action\":\""@ + action@ + "\",\"inverted\":\""@ + inverted_text(not) + "\",\"target\":\""@ + selector_name(selector) + "\""@,
        Statement::IfGame { action, not, .. } => ",\"action\":\""@ + action@ + "\",\"inverted\":\""@ + inverted_text(not) + "\""@,
        Statement::Else => Seq::empty(),
        Statement::Close => Seq::empty(),
        Statement::CloseRepeat => Seq::empty(),
        Statement::Repeat { action, subaction, not, .. } => ",\"action\":\""@ + action@ + "\",\"subAction\":\""@ + subaction_text(subaction) + "\",\"inverted\":\""@ + inverted_text(not) + "\""@,
        Statement::CallFunction { name, .. } => ",\"data\":\""@ + name@ + "\""@,
        Statement::CallProcess { name, .. } => ",\"data\":\""@ + name@ + "\""@,
        Statement::PlayerEvent(name) => ",\"action\":\""@ + name@ + "\""@,
        Statement::EntityEvent(name) => ",\"action\":\""@ + name@ + "\""@,
        Statement::Function { name, .. } => ",\"data\":\""@ + name@ + "\""@,
        Statement::Process { name, .. } => ",\"data\":\""@ + name@ + "\""@,
    }
}

/// The type of the bracket scope that a statement opens after its own block,
/// if it opens one.
pub open spec fn opened_scope(s: Statement) -> Option<Seq<char>> {
    match s {
        Statement::PlayerAction { .. } => None,
        Statement::EntityAction { .. } => None,
        Statement::SetVariable { .. } => None,
        Statement::GameAction { .. } => None,
        Statement::Control { .. } => None,
        Statement::SelectObject { .. } => None,
        Statement::IfVariable { .. } => Some("norm"@),
        Statement::IfPlayer { .. } => Some("norm"@),
        Statement::IfEntity { .. } => Some("norm"@),
        Statement::IfGame { .. } => Some("norm"@),
        Statement::Else => Some("norm"@),
        Statement::Close => None,
        Statement::CloseRepeat => None,
        Statement::Repeat { .. } => Some("repeat"@),
        Statement::CallFunction { .. } => None,
        Statement::CallProcess { .. } => None,
        Statement::PlayerEvent(_) => None,
        Statement::EntityEvent(_) => None,
        Statement::Function { .. } => None,
        Statement::Process { .. } => None,
    }
}

/// What follows a statement's block: a comma and the opening bracket for a
/// scope opener, nothing otherwise.
pub open spec fn after_block(s: Statement) -> Seq<char> {
    match opened_scope(s) {
        Some(k) => ","@ + open_bracket(k),
        None => Seq::empty(),
    }
}

/// The fragments of a statement: `Close` and `CloseRepeat` are a closing
/// bracket of their scope type; `Else` is a bare block; every other kind is a
/// block with its identifier, items list and fields. A scope opener's
/// fragments end with its opening bracket.
pub open spec fn statement_json(s: Statement) -> Seq<char> {
    match s {
        Statement::Close => close_bracket("norm"@),
        Statement::CloseRepeat => close_bracket("repeat"@),
        Statement::Else => "{\"id\":\"block\",\"block\":\"else\"}"@ + after_block(s),
        _ => "{\"id\":\"block\",\"block\":\""@ + technical_name_of(s) + "\",\"args\":{\"items\":["@
            + block_items(s) + "]}"@ + block_fields(s) + "}"@ + after_block(s),
    }
}

impl Statement {
    fn push_items(&self, r: &mut String)
        ensures
            final(r)@ == old(r)@ + block_items(*self),
    {
        match self {
            Statement::PlayerAction { parameters, .. } => {
                let p = parameters.serialize_params(self);
                r.append(p.as_str());
            },
            Statement::EntityAction { parameters, .. } => {
                let p = parameters.serialize_params(self);
                r.append(p.as_str());
            },
            Statement::SetVariable { parameters, .. } => {
                let p = parameters.serialize_params(self);
                r.append(p.as_str());
            },
            Statement::GameAction { parameters, .. } => {
                let p = parameters.serialize_params(self);
                r.append(p.as_str());
            },
            Statement::Control { parameters, .. } => {
                let p = parameters.serialize_params(self);
                r.append(p.as_str());
            },
            Statement::SelectObject { parameters, .. } => {
                let p = parameters.serialize_params(self);
                r.append(p.as_str());
            },
            Statement::IfVariable { parameters, .. } => {
                let p = parameters.serialize_params(self);
                r.append(p.as_str());
            },
            Statement::IfPlayer { parameters, .. } => {
                let p = parameters.serialize_params(self);
                r.append(p.as_str());
            },
            Statement::IfEntity { parameters, .. } => {
                let p = parameters.serialize_params(self);
                r.append(p.as_str());
            },
            Statement::IfGame { parameters, .. } => {
                let p = parameters.serialize_params(self);
                r.append(p.as_str());
            },
            Statement::Else => {
                assert(final(r)@ =~= old(r)@ + block_items(*self));
            },
            Statement::Close => {
                assert(final(r)@ =~= old(r)@ + block_items(*self));
            },
            Statement::CloseRepeat => {
                assert(final(r)@ =~= old(r)@ + block_items(*self));
            },
            Statement::Repeat { parameters, .. } => {
                let p = parameters.serialize_params(self);
                r.append(p.as_str());
            },
            Statement::CallFunction { parameters, .. } => {
                let p = parameters.serialize_params(self);
                r.append(p.as_str());
            },
            Statement::CallProcess { parameters, .. } => {
                let p = parameters.serialize_params(self);
                r.append(p.as_str());
            },
            Statement::PlayerEvent(_) => {
                assert(final(r)@ =~= old(r)@ + block_items(*self));
            },
            Statement::EntityEvent(_) => {
                assert(final(r)@ =~= old(r)@ + block_items(*self));
            },
            Statement::Function { parameters, .. } => {
                let p = parameters.serialize_params(self);
                r.append(p.as_str());
            },
            Statement::Process { parameters, .. } => {
                let p = parameters.serialize_params(self);
                r.append(p.as_str());
            },
        }
    }

    fn push_fields(&self, r: &mut String)
        ensures
            final(r)@ == old(r)@ + block_fields(*self),
    {
        match self {
            Statement::PlayerAction { action, selector, .. } => {
                r.append(",\"action\":\"");
                r.append(action.as_str());
                r.append("\",\"target\":\"");
                r.append(selector.name());
                r.append("\"");
            },
            Statement::EntityAction { action, selector, .. } => {
                r.append(",\"action\":\"");
                r.append(action.as_str());
                r.append("\",\"target\":\"");
                r.append(selector.name());
                r.append("\"");
            },
            Statement::SetVariable { action, .. } => {
                r.append(",\"action\":\"");
                r.append(action.as_str());
                r.append("\"");
            },
            Statement::GameAction { action, .. } => {
                r.append(",\"action\":\"");
                r.append(action.as_str());
                r.append("\"");
            },
            Statement::Control { action, .. } => {
                r.append(",\"action\":\"");
                r.append(action.as_str());
                r.append("\"");
            },
            Statement::SelectObject { action, subaction, not, .. } => {
                r.append(",\"action\":\"");
                r.append(action.as_str());
                r.append("\",\"subAction\":\"");
                match subaction {
                    Some(a) => r.append(a.as_str()),
                    None => r.append(""),
                }
                r.append("\",\"inverted\":\"");
                r.append(if *not { "NOT" } else { "" });
                r.append("\"");
            },
            Statement::IfVariable { action, not, .. } => {
                r.append(",\"action\":\"");
                r.append(action.as_str());
                r.append("\",\"inverted\":\"");
                r.append(if *not { "NOT" } else { "" });
                r.append("\"");
            },
            Statement::IfPlayer { action, selector, not, .. } => {
                r.append(",\"action\":\"");
                r.append(action.as_str());
                r.append("\",\"inverted\":\"");
                r.append(if *not { "NOT" } else { "" });
                r.append("\",\"target\":\"");
                r.append(selector.name());
                r.append("\"");
            },
            Statement::IfEntity { action, selector, not, .. } => {
                r.append(",\"action\":\"");
                r.append(action.as_str());
                r.append("\",\"inverted\":\"");
                r.append(if *not { "NOT" } else { "" });
                r.append("\",\"target\":\"");
                r.append(selector.name());
                r.append("\"");
            },
            Statement::IfGame { action, not, .. } => {
                r.append(",\"action\":\"");
                r.append(action.as_str());
                r.append("\",\"inverted\":\"");
                r.append(if *not { "NOT" } else { "" });
                r.append("\"");
            },
            Statement::Else => {},
            Statement::Close => {},
            Statement::CloseRepeat => {},
            Statement::Repeat { action, subaction, not, .. } => {
                r.append(",\"action\":\"");
                r.append(action.as_str());
                r.append("\",\"subAction\":\"");
                match subaction {
                    Some(a) => r.append(a.as_str()),
                    None => r.append(""),
                }
                r.append("\",\"inverted\":\"");
                r.append(if *not { "NOT" } else { "" });
                r.append("\"");
            },
            Statement::CallFunction { name, .. } => {
                r.append(",\"data\":\"");
                r.append(name.as_str());
                r.append("\"");
            },
            Statement::CallProcess { name, .. } => {
                r.append(",\"data\":\"");
                r.append(name.as_str());
                r.append("\"");
            },
            Statement::PlayerEvent(name) => {
                r.append(",\"action\":\"");
                r.append(name.as_str());
                r.append("\"");
            },
            Statement::EntityEvent(name) => {
                r.append(",\"action\":\"");
                r.append(name.as_str());
                r.append("\"");
            },
            Statement::Function { name, .. } => {
                r.append(",\"data\":\"");
                r.append(name.as_str());
                r.append("\"");
            },
            Statement::Process { name, .. } => {
                r.append(",\"data\":\"");
                r.append(name.as_str());
                r.append("\"");
            },
        }
        assert(final(r)@ =~= old(r)@ + block_fields(*self));
    }

    fn push_after_block(&self, r: &mut String)
        ensures
            final(r)@ == old(r)@ + after_block(*self),
    {
        let kind = match self {
            Statement::PlayerAction { .. } => None,
            Statement::EntityAction { .. } => None,
            Statement::SetVariable { .. } => None,
            Statement::GameAction { .. } => None,
            Statement::Control { .. } => None,
            Statement::SelectObject { .. } => None,
            Statement::IfVariable { .. } => Some("norm"),
            Statement::IfPlayer { .. } => Some("norm"),
            Statement::IfEntity { .. } => Some("norm"),
            Statement::IfGame { .. } => Some("norm"),
            Statement::Else => Some("norm"),
            Statement::Close => None,
            Statement::CloseRepeat => None,
            Statement::Repeat { .. } => Some("repeat"),
            Statement::CallFunction { .. } => None,
            Statement::CallProcess { .. } => None,
            Statement::PlayerEvent(_) => None,
            Statement::EntityEvent(_) => None,
            Statement::Function { .. } => None,
            Statement::Process { .. } => None,
        };
        match kind {
            Some(k) => {
                r.append(",");
                r.append("{\"id\":\"bracket\",\"direct\":\"open\",\"type\":\"");
                r.append(k);
                r.append("\"}");
            },
            None => {},
        }
        assert(final(r)@ =~= old(r)@ + after_block(*self));
    }

    fn push_fragments(&self, r: &mut String)
        ensures
            final(r)@ == old(r)@ + statement_json(*self),
    {
        match self {
            Statement::Close => {
                r.append("{\"id\":\"bracket\",\"direct\":\"close\",\"type\":\"");
                r.append("norm");
                r.append("\"}");
            },
            Statement::CloseRepeat => {
                r.append("{\"id\":\"bracket\",\"direct\":\"close\",\"type\":\"");
                r.append("repeat");
                r.append("\"}");
            },
            Statement::Else => {
                r.append("{\"id\":\"block\",\"block\":\"else\"}");
                self.push_after_block(r);
            },
            _ => {
                r.append("{\"id\":\"block\",\"block\":\"");
                r.append(self.technical_name());
                r.append("\",\"args\":{\"items\":[");
                self.push_items(r);
                r.append("]}");
                self.push_fields(r);
                r.append("}");
                self.push_after_block(r);
            },
        }
        assert(final(r)@ =~= old(r)@ + statement_json(*self));
    }
}

impl DFSerializable for Statement {
    open spec fn serialized(&self) -> Seq<char> {
        statement_json(*self)
    }

    fn serialize(&self) -> (r: String) {
        let mut r = String::new();
        self.push_fragments(&mut r);
        assert(r@ =~= statement_json(*self));
        r
    }
}

} // verus!
