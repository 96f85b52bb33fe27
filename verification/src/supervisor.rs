//! What the daemon's wiring decides, separated from the tasks that act on
//! it: the heartbeat ordinal and its event payload, and the text of the
//! schema warning incident.

use vstd::prelude::*;
use vstd::string::StringExecFns;

use crate::strutil::{dec_text, fmt_u64};

verus! {

/// The payload carried by one heartbeat event: a JSON object with the tick
/// ordinal.
pub open spec fn tick_text(n: nat) -> Seq<char> {
    "{\"tick\":"@ + dec_text(n) + "}"@
}

/// Build the payload for tick ordinal `tick`.
pub fn tick_payload(tick: u64) -> (r: String)
    ensures
        r@ == tick_text(tick as nat),
{
    let mut out = String::from_str("{\"tick\":");
    let digits = fmt_u64(tick);
    out.append(digits.as_str());
    out.append("}");
    out
}

/// The heartbeat task's state: how many ticks have fired.
pub struct Heartbeat {
    pub tick: u64,
}

impl Heartbeat {
    /// No tick has fired yet.
    pub fn new() -> (r: Self)
        ensures
            r.tick == 0,
    {
        Heartbeat { tick: 0 }
    }

    /// Advance to the next tick and produce the event payload carrying its
    /// ordinal.
    pub fn next(&mut self) -> (r: String)
        requires
            old(self).tick < u64::MAX,
        ensures
            final(self).tick == old(self).tick + 1,
            r@ == tick_text(final(self).tick as nat),
    {
        self.tick = self.tick + 1;
        tick_payload(self.tick)
    }
}

/// The items joined with a comma and a space between neighbours.
pub open spec fn joined_comma(items: Seq<Seq<char>>) -> Seq<char>
    decreases items.len(),
{
    if items.len() == 0 {
        Seq::<char>::empty()
    } else if items.len() == 1 {
        items[0]
    } else {
        items[0] + ", "@ + joined_comma(items.drop_first())
    }
}

fn join_comma_from(items: &Vec<String>, from: usize) -> (r: String)
    requires
        from <= items@.len(),
    ensures
        r@ == joined_comma(items.deep_view().skip(from as int)),
    decreases items@.len() - from,
{
    let n = items.len();
    proof {
        assert(items.deep_view().len() == n);
    }
    if from == n {
        proof {
            assert(items.deep_view().skip(from as int) =~= Seq::<Seq<char>>::empty());
        }
        String::new()
    } else if from + 1 == n {
        proof {
            assert(items.deep_view().skip(from as int).len() == 1);
            assert(items.deep_view().skip(from as int)[0] == items@[from as int]@);
        }
        items[from].clone()
    } else {
        let mut out = items[from].clone();
        out.append(", ");
        let rest = join_comma_from(items, from + 1);
        out.append(rest.as_str());
        proof {
            let dv = items.deep_view();
            assert(dv.skip(from as int)[0] == items@[from as int]@);
            assert(dv.skip(from as int).drop_first() =~= dv.skip(from as int + 1));
        }
        out
    }
}

/// Join names with `, `, as the schema warning lists them.
pub fn join_comma(items: &Vec<String>) -> (r: String)
    ensures
        r@ == joined_comma(items.deep_view()),
{
    let r = join_comma_from(items, 0);
    proof {
        assert(items.deep_view().skip(0) =~= items.deep_view());
    }
    r
}

/// The message of the advisory incident recorded when required relations
/// are missing.
pub fn missing_tables_message(missing: &Vec<String>) -> (r: String)
    ensures
        r@ == "sqlite missing required tables: "@ + joined_comma(missing.deep_view()),
{
    let mut out = String::from_str("sqlite missing required tables: ");
    let list = join_comma(missing);
    out.append(list.as_str());
    out
}

} // verus!
