//! Lays positional values and tags into the 27 parameter slots.
use vstd::prelude::*;
use crate::values::{ParameterList, Tag, Value};

verus! {

/// The number of parameter slots of a statement.
pub const SLOT_COUNT: usize = 27;

/// Positional values and tags, each in insertion order, waiting to be laid
/// into slots.
pub struct ParamBuilder {
    params: Vec<Value>,
    tags: Vec<Tag>,
}

impl View for ParamBuilder {
    /// The positional values and the tags, in insertion order.
    type V = (Seq<Value>, Seq<Tag>);

    closed spec fn view(&self) -> (Seq<Value>, Seq<Tag>) {
        (self.params@, self.tags@)
    }
}

/// `slots` holds the positional values `params` from slot 0 up, in order,
/// and the tags `tags` from slot 26 down, the last inserted highest; every
/// other slot is empty.
pub open spec fn slots_hold(slots: Seq<Option<Value>>, params: Seq<Value>, tags: Seq<Tag>) -> bool {
    &&& slots.len() == 27
    &&& forall|i: int| 0 <= i < params.len() ==> slots[i] == Some(params[i])
    &&& forall|i: int| params.len() <= i < 27 - tags.len() ==> slots[i] is None
    &&& forall|i: int|
        27 - tags.len() <= i < 27 ==> slots[i] == Some(Value::Tag(tags[i - (27 - tags.len())]))
}

/// Twenty-seven empty slots.
pub fn empty_slots() -> (r: ParameterList)
    ensures
        forall|i: int| 0 <= i < 27 ==> r@[i] is None,
{
    [
        None, None, None, None, None, None, None, None, None, None, None, None, None, None, None,
        None, None, None, None, None, None, None, None, None, None, None, None,
    ]
}

impl ParamBuilder {
    pub fn new() -> (r: Self)
        ensures
            r@.0.len() == 0,
            r@.1.len() == 0,
    {
        Self { params: Vec::with_capacity(SLOT_COUNT), tags: Vec::with_capacity(SLOT_COUNT) }
    }

    /// Adds a positional value after those added before.
    pub fn param(self, v: Value) -> (r: Self)
        ensures
            r@.0 == self@.0.push(v),
            r@.1 == self@.1,
    {
        let ParamBuilder { mut params, tags } = self;
        params.push(v);
        ParamBuilder { params, tags }
    }

    /// Adds a tag after those added before.
    pub fn tag(self, v: Tag) -> (r: Self)
        ensures
            r@.0 == self@.0,
            r@.1 == self@.1.push(v),
    {
        let ParamBuilder { params, mut tags } = self;
        tags.push(v);
        ParamBuilder { params, tags }
    }

    /// Lays the values into slots: `None` exactly when there are more than 27
    /// of them in all.
    pub fn complete(self) -> (r: Option<ParameterList>)
        ensures
            r is Some <==> self@.0.len() + self@.1.len() <= 27,
            r matches Some(slots) ==> slots_hold(slots@, self@.0, self@.1),
    {
        let ParamBuilder { mut params, mut tags } = self;
        if params.len() > SLOT_COUNT || tags.len() > SLOT_COUNT - params.len() {
            return None;
        }
        let ghost p0 = params@;
        let ghost t0 = tags@;
        let t_len = tags.len();
        let mut out = empty_slots();
        while tags.len() > 0
            invariant
                t_len == t0.len(),
                p0.len() + t0.len() <= 27,
                params@ == p0,
                tags.len() <= t0.len(),
                tags@ == t0.take(tags.len() as int),
                out@.len() == 27,
                forall|i: int|
                    27 - (t0.len() - tags.len()) <= i < 27 ==> out@[i] == Some(
                        Value::Tag(t0[i - (27 - t0.len())]),
                    ),
                forall|i: int| 0 <= i < 27 - (t0.len() - tags.len()) ==> out@[i] is None,
            decreases tags.len(),
        {
            let k: usize = t_len - tags.len();
            let ghost before = tags@;
            let tg = tags.pop().unwrap();
            proof {
                assert(tg == t0[t0.len() - 1 - k]);
                assert(tags@ =~= t0.take(tags.len() as int));
            }
            out[26 - k] = Some(Value::Tag(tg));
        }
        while params.len() > 0
            invariant
                p0.len() + t0.len() <= 27,
                params.len() <= p0.len(),
                params@ == p0.take(params.len() as int),
                out@.len() == 27,
                forall|i: int| params.len() <= i < p0.len() ==> out@[i] == Some(p0[i]),
                forall|i: int| p0.len() <= i < 27 - t0.len() ==> out@[i] is None,
                forall|i: int|
                    27 - t0.len() <= i < 27 ==> out@[i] == Some(Value::Tag(t0[i - (27 - t0.len())])),
            decreases params.len(),
        {
            let i = params.len() - 1;
            let v = params.pop().unwrap();
            proof {
                assert(v == p0[i as int]);
                assert(params@ =~= p0.take(params.len() as int));
            }
            out[i] = Some(v);
        }
        Some(out)
    }

    /// Lays the values into slots, for a caller that knows that there are at
    /// most 27 of them.
    pub fn complete_unchecked(self) -> (r: ParameterList)
        requires
            self@.0.len() + self@.1.len() <= 27,
        ensures
            slots_hold(r@, self@.0, self@.1),
    {
        match self.complete() {
            Some(slots) => slots,
            None => empty_slots(),
        }
    }
}

} // verus!
