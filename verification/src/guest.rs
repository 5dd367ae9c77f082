//! What the drivers ask of a guest module: the functions it must export and
//! their signatures.

use vstd::prelude::*;

verus! {

/// The kind of a WebAssembly value.
#[derive(Clone, Copy, Debug, PartialEq, Eq, Structural)]
pub enum ValueKind {
    /// A 32-bit integer.
    I32,
    /// A 64-bit integer.
    I64,
    /// A 32-bit float.
    F32,
    /// A 64-bit float.
    F64,
    /// A 128-bit vector.
    V128,
    /// A reference of any kind.
    Ref,
}

/// The kinds of the values that a function takes and gives.
#[derive(Clone, Debug)]
pub struct Signature {
    /// The kinds of the parameters, in order.
    pub params: Vec<ValueKind>,
    /// The kinds of the results, in order.
    pub results: Vec<ValueKind>,
}

impl View for Signature {
    type V = (Seq<ValueKind>, Seq<ValueKind>);

    open spec fn view(&self) -> (Seq<ValueKind>, Seq<ValueKind>) {
        (self.params@, self.results@)
    }
}

/// A function that a driver calls in its guest.
#[derive(Clone, Copy, Debug, PartialEq, Eq, Structural)]
pub enum GuestFunction {
    /// `add: (i32, i32) -> i32`.
    Add,
    /// `allocate: (i32) -> i32`, from a size to a pointer.
    Allocate,
    /// `deallocate: (i32) -> ()`, given a pointer.
    Deallocate,
}

/// The name under which a guest exports its linear memory.
pub open spec fn memory_export_name() -> Seq<char> {
    "memory"@
}

/// The name under which a guest exports its linear memory.
pub fn memory_name() -> (name: &'static str)
    ensures
        name@ == memory_export_name(),
{
    "memory"
}

impl GuestFunction {
    /// The name under which the guest exports this function.
    pub open spec fn export_name(self) -> Seq<char> {
        match self {
            GuestFunction::Add => "add"@,
            GuestFunction::Allocate => "allocate"@,
            GuestFunction::Deallocate => "deallocate"@,
        }
    }

    /// The kinds of the parameters that this function must take.
    pub open spec fn params(self) -> Seq<ValueKind> {
        match self {
            GuestFunction::Add => seq![ValueKind::I32, ValueKind::I32],
            GuestFunction::Allocate => seq![ValueKind::I32],
            GuestFunction::Deallocate => seq![ValueKind::I32],
        }
    }

    /// The kinds of the results that this function must give.
    pub open spec fn results(self) -> Seq<ValueKind> {
        match self {
            GuestFunction::Add => seq![ValueKind::I32],
            GuestFunction::Allocate => seq![ValueKind::I32],
            GuestFunction::Deallocate => Seq::empty(),
        }
    }

    /// Whether a function of signature `found` can stand for this one.
    pub open spec fn accepts(self, found: (Seq<ValueKind>, Seq<ValueKind>)) -> bool {
        found.0 == self.params() && found.1 == self.results()
    }

    /// The name under which the guest exports this function.
    pub fn name(self) -> (name: &'static str)
        ensures
            name@ == self.export_name(),
    {
        match self {
            GuestFunction::Add => "add",
            GuestFunction::Allocate => "allocate",
            GuestFunction::Deallocate => "deallocate",
        }
    }

    /// The number of parameters that this function must take.
    pub fn param_count(self) -> (n: usize)
        ensures
            n == self.params().len(),
    {
        match self {
            GuestFunction::Add => 2,
            GuestFunction::Allocate => 1,
            GuestFunction::Deallocate => 1,
        }
    }

    /// The number of results that this function must give.
    pub fn result_count(self) -> (n: usize)
        ensures
            n == self.results().len(),
    {
        match self {
            GuestFunction::Add => 1,
            GuestFunction::Allocate => 1,
            GuestFunction::Deallocate => 0,
        }
    }

    /// The signature that this function must have.
    pub fn signature(self) -> (sig: Signature)
        ensures
            sig@ == (self.params(), self.results()),
    {
        let mut params: Vec<ValueKind> = Vec::new();
        let mut results: Vec<ValueKind> = Vec::new();
        match self {
            GuestFunction::Add => {
                params.push(ValueKind::I32);
                params.push(ValueKind::I32);
                results.push(ValueKind::I32);
            },
            GuestFunction::Allocate => {
                params.push(ValueKind::I32);
                results.push(ValueKind::I32);
            },
            GuestFunction::Deallocate => {
                params.push(ValueKind::I32);
            },
        }
        assert(params@ =~= self.params());
        assert(results@ =~= self.results());
        Signature { params, results }
    }

    /// Whether a function of signature `found` can stand for this one: the
    /// same kinds of parameters and of results, in the same order.
    pub fn matches(self, found: &Signature) -> (ok: bool)
        ensures
            ok == self.accepts(found@),
    {
        let wanted = self.signature();
        same_kinds(&found.params, &wanted.params) && same_kinds(&found.results, &wanted.results)
    }
}

/// Whether two lists of kinds are equal.
pub fn same_kinds(left: &Vec<ValueKind>, right: &Vec<ValueKind>) -> (same: bool)
    ensures
        same == (left@ == right@),
{
    if left.len() != right.len() {
        return false;
    }
    let mut i: usize = 0;
    while i < left.len()
        invariant
            left.len() == right.len(),
            i <= left.len(),
            forall|k: int| 0 <= k < i ==> left@[k] == right@[k],
        decreases left.len() - i,
    {
        if left[i] != right[i] {
            return false;
        }
        i += 1;
    }
    assert(left@ =~= right@);
    true
}

} // verus!
