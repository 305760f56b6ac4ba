//! A program: ordered code lines and an optional author label, compiled into
//! one artifact (or one relay message) per line.
use vstd::prelude::*;
use crate::code_line::{line_json, line_name, CodeLine};
use crate::payload::payload_of;

verus! {

pub struct Program {
    lines: Vec<CodeLine>,
    owner: Option<String>,
}

impl View for Program {
    /// The lines, in order, and the author label if one was set.
    type V = (Seq<CodeLine>, Option<String>);

    closed spec fn view(&self) -> (Seq<CodeLine>, Option<String>) {
        (self.lines@, self.owner)
    }
}

/// The author label of a program: the one set, or `Kindling`.
pub open spec fn owner_label(owner: Option<String>) -> Seq<char> {
    match owner {
        Some(o) => o@,
        None => "Kindling"@,
    }
}

/// The item-give command that carries a compiled line, with its author label
/// `owner`, display name `name` and payload `payload`.
pub open spec fn give_command_text(owner: Seq<char>, name: Seq<char>, payload: Seq<char>) -> Seq<char> {
    "/give @p ender_chest{display:{Name:'{\"extra\":[{\"italic\":false,\"color\":\"#FF8855\",\"text\":\"Compiled \"},{\"italic\":false,\"color\":\"dark_gray\",\"text\":\"» \"},{\"italic\":false,\"color\":\"#FFCC99\",\"text\":\""@
        + name
        + "\"}],\"text\":\"\"}'},PublicBukkitValues:{\"hypercube:codetemplatedata\":'{\"author\":\""@
        + owner
        + "\",\"name\":\"&x&f&f&8&8&5&5Compiled &8» &x&f&f&c&c&9&9"@
        + name
        + "\",\"version\":1,\"code\":\""@
        + payload
        + "\"}'}}"@
}

/// The item-give command that carries a compiled line, with its author label
/// `owner`, display name `name` and payload `payload`.
pub fn give_command(owner: &str, name: &str, payload: &str) -> (r: String)
    ensures
        r@ == give_command_text(owner@, name@, payload@),
{
    let mut r = String::new();
    r.append("/give @p ender_chest{display:{Name:'{\"extra\":[{\"italic\":false,\"color\":\"#FF8855\",\"text\":\"Compiled \"},{\"italic\":false,\"color\":\"dark_gray\",\"text\":\"» \"},{\"italic\":false,\"color\":\"#FFCC99\",\"text\":\"");
    r.append(name);
    r.append("\"}],\"text\":\"\"}'},PublicBukkitValues:{\"hypercube:codetemplatedata\":'{\"author\":\"");
    r.append(owner);
    r.append("\",\"name\":\"&x&f&f&8&8&5&5Compiled &8» &x&f&f&c&c&9&9");
    r.append(name);
    r.append("\",\"version\":1,\"code\":\"");
    r.append(payload);
    r.append("\"}'}}");
    assert(r@ =~= give_command_text(owner@, name@, payload@));
    r
}

/// The message to the companion process that carries a compiled line, with
/// its author label `owner`, display name `name` and payload `payload`.
pub open spec fn relay_message_text(owner: Seq<char>, name: Seq<char>, payload: Seq<char>) -> Seq<char> {
    "{\"source\":\"Kindling\",\"type\":\"nbt\",\"data\":\"{\\\"id\\\":\\\"minecraft:ender_chest\\\",\\\"Count\\\":1,\\\"tag\\\":{display:{Name:\\'{\\\"extra\\\":[{\\\"italic\\\":false,\\\"color\\\":\\\"#FF8855\\\",\\\"text\\\":\\\"Compiled \\\"},{\\\"italic\\\":false,\\\"color\\\":\\\"dark_gray\\\",\\\"text\\\":\\\"» \\\"},{\\\"italic\\\":false,\\\"color\\\":\\\"#FFCC99\\\",\\\"text\\\":\\\""@
        + name
        + "\\\"}],\\\"text\\\":\\\"\\\"}\\'},PublicBukkitValues:{\\\"hypercube:codetemplatedata\\\":\\'{\\\"author\\\":\\\""@
        + owner
        + "\\\",\\\"name\\\":\\\"&x&f&f&8&8&5&5Compiled &8» &x&f&f&c&c&9&9"@
        + name
        + "\\\",\\\"version\\\":1,\\\"code\\\":\\\""@
        + payload
        + "\\\"}\\'}}}\"}"@
}

/// The message to the companion process that carries a compiled line, with
/// its author label `owner`, display name `name` and payload `payload`.
pub fn relay_message(owner: &str, name: &str, payload: &str) -> (r: String)
    ensures
        r@ == relay_message_text(owner@, name@, payload@),
{
    let mut r = String::new();
    r.append("{\"source\":\"Kindling\",\"type\":\"nbt\",\"data\":\"{\\\"id\\\":\\\"minecraft:ender_chest\\\",\\\"Count\\\":1,\\\"tag\\\":{display:{Name:\\'{\\\"extra\\\":[{\\\"italic\\\":false,\\\"color\\\":\\\"#FF8855\\\",\\\"text\\\":\\\"Compiled \\\"},{\\\"italic\\\":false,\\\"color\\\":\\\"dark_gray\\\",\\\"text\\\":\\\"» \\\"},{\\\"italic\\\":false,\\\"color\\\":\\\"#FFCC99\\\",\\\"text\\\":\\\"");
    r.append(name);
    r.append("\\\"}],\\\"text\\\":\\\"\\\"}\\'},PublicBukkitValues:{\\\"hypercube:codetemplatedata\\\":\\'{\\\"author\\\":\\\"");
    r.append(owner);
    r.append("\\\",\\\"name\\\":\\\"&x&f&f&8&8&5&5Compiled &8» &x&f&f&c&c&9&9");
    r.append(name);
    r.append("\\\",\\\"version\\\":1,\\\"code\\\":\\\"");
    r.append(payload);
    r.append("\\\"}\\'}}}\"}");
    assert(r@ =~= relay_message_text(owner@, name@, payload@));
    r
}

/// The artifact of line `line` of a program with author `owner`.
pub open spec fn line_artifact(owner: Option<String>, line: CodeLine) -> Seq<char> {
    give_command_text(owner_label(owner), line_name(line@), payload_of(line_json(line@)))
}

/// The relay message of line `line` of a program with author `owner`.
pub open spec fn line_message(owner: Option<String>, line: CodeLine) -> Seq<char> {
    relay_message_text(owner_label(owner), line_name(line@), payload_of(line_json(line@)))
}

impl Program {
    /// A program without lines or author label.
    pub fn new() -> (r: Self)
        ensures
            r@.0 == Seq::<CodeLine>::empty(),
            r@.1 is None,
    {
        Self { lines: Vec::new(), owner: None }
    }

    /// A program of the given lines, in their order, without author label.
    pub fn new_from(lines: Vec<CodeLine>) -> (r: Self)
        ensures
            r@.0 == lines@,
            r@.1 is None,
    {
        Self { lines, owner: None }
    }

    /// This program with `owner` as its author label.
    pub fn with_owner(self, owner: String) -> (r: Self)
        ensures
            r@.0 == self@.0,
            r@.1 == Some(owner),
    {
        Self { lines: self.lines, owner: Some(owner) }
    }

    fn owner_str(&self) -> (r: &str)
        ensures
            r@ == owner_label(self@.1),
    {
        match &self.owner {
            Some(o) => o.as_str(),
            None => "Kindling",
        }
    }

    /// One artifact per line, in line order.
    pub fn compile_program(&self) -> (r: Vec<String>)
        ensures
            r@.len() == self@.0.len(),
            forall|i: int| 0 <= i < r@.len() ==> r@[i]@ == line_artifact(self@.1, self@.0[i]),
    {
        let owner = self.owner_str();
        let mut out: Vec<String> = Vec::new();
        let mut i: usize = 0;
        while i < self.lines.len()
            invariant
                i <= self.lines@.len(),
                owner@ == owner_label(self.owner),
                out@.len() == i,
                forall|k: int| 0 <= k < i ==> out@[k]@ == line_artifact(self.owner, self.lines@[k]),
            decreases self.lines@.len() - i,
        {
            let line = &self.lines[i];
            let name = line.name();
            let payload = line.compile();
            out.push(give_command(owner, name.as_str(), payload.as_str()));
            i += 1;
        }
        out
    }

    /// One relay message per line, in line order, for delivery to the
    /// companion process.
    pub fn relay_messages(&self) -> (r: Vec<String>)
        ensures
            r@.len() == self@.0.len(),
            forall|i: int| 0 <= i < r@.len() ==> r@[i]@ == line_message(self@.1, self@.0[i]),
    {
        let owner = self.owner_str();
        let mut out: Vec<String> = Vec::new();
        let mut i: usize = 0;
        while i < self.lines.len()
            invariant
                i <= self.lines@.len(),
                owner@ == owner_label(self.owner),
                out@.len() == i,
                forall|k: int| 0 <= k < i ==> out@[k]@ == line_message(self.owner, self.lines@[k]),
            decreases self.lines@.len() - i,
        {
            let line = &self.lines[i];
            let name = line.name();
            let payload = line.compile();
            out.push(relay_message(owner, name.as_str(), payload.as_str()));
            i += 1;
        }
        out
    }
}

} // verus!
