//! A code line: the statements of one top-level line of a program.
use vstd::prelude::*;
use crate::payload::{pack, payload_of, unpack};
use crate::serialization::{statement_json, DFSerializable};
use crate::statements::{display_name, Statement};
use crate::text::{join, lemma_join_push};

verus! {

pub struct CodeLine {
    body: Vec<Statement>,
}

impl View for CodeLine {
    /// The statements, in order.
    type V = Seq<Statement>;

    closed spec fn view(&self) -> Seq<Statement> {
        self.body@
    }
}

/// The fragments of each statement, in statement order.
pub open spec fn line_fragments(body: Seq<Statement>) -> Seq<Seq<char>> {
    body.map_values(|s: Statement| statement_json(s))
}

/// The block list of a line: the fragments of its statements in order,
/// separated by commas, inside `{"blocks":[...]}`.
pub open spec fn line_json(body: Seq<Statement>) -> Seq<char> {
    "{\"blocks\":["@ + join(line_fragments(body)) + "]}"@
}

/// The display name of a line: that of its first statement, or `Empty`.
pub open spec fn line_name(body: Seq<Statement>) -> Seq<char> {
    if body.len() == 0 {
        "Empty"@
    } else {
        display_name(body[0])
    }
}

impl DFSerializable for CodeLine {
    open spec fn serialized(&self) -> Seq<char> {
        line_json(self@)
    }

    fn serialize(&self) -> (r: String) {
        let mut out = String::from_str("{\"blocks\":[");
        let mut i: usize = 0;
        while i < self.body.len()
            invariant
                i <= self.body@.len(),
                out@ == "{\"blocks\":["@ + join(line_fragments(self.body@.take(i as int))),
            decreases self.body@.len() - i,
        {
            let ghost before = line_fragments(self.body@.take(i as int));
            if i > 0 {
                out.append(",");
            }
            let fragment = self.body[i].serialize();
            out.append(fragment.as_str());
            proof {
                assert(line_fragments(self.body@.take(i + 1)) =~= before.push(fragment@));
                lemma_join_push(before, fragment@);
                assert(out@ =~= "{\"blocks\":["@ + join(line_fragments(self.body@.take(i + 1))));
            }
            i += 1;
        }
        out.append("]}");
        assert(self.body@.take(self.body@.len() as int) =~= self.body@);
        assert(out@ =~= line_json(self@));
        out
    }
}

impl CodeLine {
    /// A line without statements.
    pub fn new() -> (r: Self)
        ensures
            r@ == Seq::<Statement>::empty(),
    {
        Self { body: Vec::new() }
    }

    /// A line of the given statements, in their order.
    pub fn new_from(body: Vec<Statement>) -> (r: Self)
        ensures
            r@ == body@,
    {
        Self { body }
    }

    /// The display name of this line.
    pub fn name(&self) -> (r: String)
        ensures
            r@ == line_name(self@),
    {
        if self.body.len() == 0 {
            String::from_str("Empty")
        } else {
            self.body[0].name()
        }
    }

    /// The payload of this line's block list.
    pub fn compile(&self) -> (r: String)
        ensures
            r@ == payload_of(line_json(self@)),
    {
        let json = self.serialize();
        pack(json.as_str())
    }

    /// Reads a payload back into the block list that it carries: the payload
    /// of any line gives back exactly that line's block list.
    pub fn decompile(payload: &str) -> (r: Option<String>)
        ensures
            forall|line: CodeLine|
                payload@ == #[trigger] payload_of(line_json(line@)) ==> r is Some && r->0@
                    == line_json(line@),
    {
        unpack(payload)
    }
}

} // verus!
