//! The identity of a subsystem: its name and the number of the task that runs it.
use std::cmp::Ordering;
use vstd::prelude::*;
#[allow(unused_imports)]
use vstd::std_specs::cmp::{PartialEqSpec, PartialOrdSpec};

use crate::text;

verus! {

/// What a [`SubsystemId`] stands for.
#[verifier::ext_equal]
pub struct IdView {
    pub task_id: u64,
    pub name: Seq<char>,
}

impl IdView {
    /// The text of an id: the task's number, a hyphen and the name.
    pub open spec fn display(self) -> Seq<char> {
        text::decimal(self.task_id as nat) + seq!['-'] + self.name
    }

    /// Ids are ordered by task number; ids of the same task are ordered by name.
    pub open spec fn before(self, other: IdView) -> bool {
        self.task_id < other.task_id || (self.task_id == other.task_id && text::text_before(
            self.name,
            other.name,
        ))
    }
}

/// Identifies a subsystem.
#[derive(Debug, Eq, Hash)]
pub struct SubsystemId {
    name: String,
    task_id: u64,
}

impl View for SubsystemId {
    type V = IdView;

    closed spec fn view(&self) -> IdView {
        IdView { task_id: self.task_id, name: self.name@ }
    }
}

impl SubsystemId {
    /// The id of a subsystem whose task is not known yet: its task number is 0.
    pub fn unassigned(name: String) -> (id: Self)
        ensures
            id@ == (IdView { task_id: 0, name: name@ }),
    {
        SubsystemId { name, task_id: 0 }
    }

    /// Sets the number of the task that runs the subsystem.
    pub fn set_task_id(&mut self, task_id: u64)
        ensures
            final(self)@ == (IdView { task_id, name: old(self)@.name }),
    {
        self.task_id = task_id;
    }

    /// The full name of the subsystem.
    pub fn name(&self) -> (name: &str)
        ensures
            name@ == self@.name,
    {
        self.name.as_str()
    }

    /// The number of the task that runs the subsystem, or 0.
    pub fn task_id(&self) -> (task_id: u64)
        ensures
            task_id == self@.task_id,
    {
        self.task_id
    }

    /// Whether this id comes before `other`.
    pub fn is_before(&self, other: &SubsystemId) -> (before: bool)
        ensures
            before == self@.before(other@),
    {
        self.task_id < other.task_id || (self.task_id == other.task_id && text::is_text_before(
            self.name.as_str(),
            other.name.as_str(),
        ))
    }

    /// The id as text, such as `7-root/worker`.
    pub fn to_string(&self) -> (out: String)
        ensures
            out@ == self@.display(),
    {
        let mut out: String = String::new();
        text::append_decimal(&mut out, self.task_id);
        proof {
            reveal_strlit("-");
        }
        out.append("-");
        out.append(self.name.as_str());
        proof {
            assert(out@ =~= self@.display());
        }
        out
    }
}

impl Clone for SubsystemId {
    fn clone(&self) -> (id: Self)
        ensures
            id == *self,
    {
        SubsystemId { name: self.name.clone(), task_id: self.task_id }
    }
}

impl PartialEq for SubsystemId {
    fn eq(&self, other: &SubsystemId) -> (equal: bool) {
        self.task_id == other.task_id && self.name == other.name
    }
}

impl vstd::std_specs::cmp::PartialEqSpecImpl for SubsystemId {
    open spec fn obeys_eq_spec() -> bool {
        true
    }

    open spec fn eq_spec(&self, other: &SubsystemId) -> bool {
        self@ == other@
    }
}

impl PartialOrd for SubsystemId {
    fn partial_cmp(&self, other: &SubsystemId) -> (order: Option<Ordering>) {
        if self.is_before(other) {
            Some(Ordering::Less)
        } else if self == other {
            Some(Ordering::Equal)
        } else {
            Some(Ordering::Greater)
        }
    }
}

impl vstd::std_specs::cmp::PartialOrdSpecImpl for SubsystemId {
    open spec fn obeys_partial_cmp_spec() -> bool {
        true
    }

    open spec fn partial_cmp_spec(&self, other: &SubsystemId) -> Option<Ordering> {
        if self@.before(other@) {
            Some(Ordering::Less)
        } else if self@ == other@ {
            Some(Ordering::Equal)
        } else {
            Some(Ordering::Greater)
        }
    }
}

/// The order of ids is a strict total order.
pub proof fn lemma_id_order(a: IdView, b: IdView, c: IdView)
    ensures
        !a.before(a),
        a.before(b) && b.before(c) ==> a.before(c),
        a == b || a.before(b) || b.before(a),
        !(a.before(b) && b.before(a)),
{
    text::lemma_text_order(a.name, b.name, c.name);
    text::lemma_text_order(a.name, b.name, a.name);
}

/// Of two ids, the one with the lower task number comes first, whatever the names; under the same
/// task number the names decide.
pub proof fn lemma_task_decides_order(a: IdView, b: IdView)
    ensures
        a.task_id < b.task_id ==> a.before(b) && !b.before(a),
        a.task_id == b.task_id ==> a.before(b) == text::text_before(a.name, b.name),
{
}

/// The comparison of ids agrees with their order, and with what they stand for.
pub proof fn lemma_comparison_agrees(a: SubsystemId, b: SubsystemId)
    ensures
        a.partial_cmp_spec(&b) == Some(Ordering::Less) <==> a@.before(b@),
        a.partial_cmp_spec(&b) == Some(Ordering::Equal) <==> a@ == b@,
        a.partial_cmp_spec(&b) == Some(Ordering::Greater) <==> b@.before(a@),
        a.eq_spec(&b) <==> a@ == b@,
{
    lemma_id_order(a@, b@, a@);
    lemma_id_order(b@, a@, b@);
}

/// The text of an id is read back: what stands before the first hyphen is its task number in decimal
/// notation, and what stands behind it is its name.
pub proof fn lemma_display_reads_back(id: IdView)
    ensures
        id.display().len() > id.name.len() + 1,
        id.display()[id.display().len() - id.name.len() - 1] == '-',
        id.display().skip(id.display().len() - id.name.len()) == id.name,
        text::number_of(id.display().take(id.display().len() - id.name.len() - 1)) == Some(
            id.task_id,
        ),
        id.display().take(id.display().len() - id.name.len() - 1) == text::decimal(
            id.task_id as nat,
        ),
{
    let digits = text::decimal(id.task_id as nat);
    text::lemma_decimal_is_shortest(id.task_id as nat);
    text::lemma_number_of_decimal(id.task_id);
    let len = digits.len() as int;
    assert(id.display().len() == len + 1 + id.name.len());
    assert(id.display().take(len) =~= digits);
    assert(id.display().skip(len + 1) =~= id.name);
}

/// Different ids have different texts.
pub proof fn lemma_display_injective(a: IdView, b: IdView)
    requires
        a.display() == b.display(),
    ensures
        a == b,
{
    let (x, y) = (text::decimal(a.task_id as nat), text::decimal(b.task_id as nat));
    let s = a.display();
    let t = b.display();
    text::lemma_decimal_value(a.task_id as nat);
    text::lemma_decimal_value(b.task_id as nat);
    assert(s[x.len() as int] == '-');
    assert(t[y.len() as int] == '-');
    if x.len() < y.len() {
        assert(t[x.len() as int] == y[x.len() as int]);
        assert('0' <= y[x.len() as int] <= '9');
    }
    if y.len() < x.len() {
        assert(s[y.len() as int] == x[y.len() as int]);
        assert('0' <= x[y.len() as int] <= '9');
    }
    assert(x =~= s.take(x.len() as int));
    assert(y =~= t.take(y.len() as int));
    assert(a.name =~= s.skip(x.len() as int + 1));
    assert(b.name =~= t.skip(y.len() as int + 1));
}

} // verus!
