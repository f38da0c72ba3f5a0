//! LLVM modules contain the code and data of a program.

use crate::global;
use crate::identifier::{spec_valid_identifier, Id, Identifier};
use crate::target::layout::spec_layout_str;
use crate::target::{
    spec_known_triple_str, Layout, Machine, Target, Triple,
};
use vstd::prelude::*;

verus! {

/// An LLVM module, containing global values and their symbols, for a
/// particular target.
#[derive(Debug)]
pub struct Module<'t> {
    name: Identifier,
    target: &'t Target,
    global_values: Vec<global::Value>,
}

/// How a triple is written in a module header.
pub open spec fn spec_triple_str(t: Triple) -> Seq<char> {
    match t {
        Triple::Custom(id) => id@,
        Triple::Known(known) => spec_known_triple_str(known),
    }
}

/// How the global values of a module are written, from position `i` on:
/// each followed by a line break.
pub open spec fn spec_global_list_str(gs: Seq<global::Value>, i: int) -> Seq<char>
    decreases gs.len() - i,
{
    if !(0 <= i < gs.len()) {
        Seq::empty()
    } else {
        global::spec_global_value_str(gs[i]) + "\n"@ + spec_global_list_str(gs, i + 1)
    }
}

impl<'t> Module<'t> {
    /// The name of the module.
    pub closed spec fn spec_name(&self) -> Seq<char> {
        self.name@
    }

    /// The target of the module.
    pub closed spec fn spec_target(&self) -> Target {
        *self.target
    }

    /// The global values of the module, in order.
    pub closed spec fn spec_global_values(&self) -> Seq<global::Value> {
        self.global_values@
    }

    /// Valid: the module's name and every global value are valid.
    pub open spec fn wf(&self) -> bool {
        &&& spec_valid_identifier(self.spec_name())
        &&& forall|i: int|
            0 <= i < self.spec_global_values().len() ==> self.spec_global_values()[i].wf()
    }

    /// Creates a new module with the specified name and target.
    pub fn new(name: Identifier, target: &'t Target) -> (r: Self)
        requires
            name.wf(),
        ensures
            r.spec_name() == name@,
            r.spec_target() == *target,
            r.spec_global_values() == Seq::<global::Value>::empty(),
            r.wf(),
    {
        let r = Module { name, target, global_values: Vec::new() };
        assert(r.spec_global_values() =~= Seq::<global::Value>::empty());
        r
    }

    /// Retrieves the name of the module.
    pub fn name(&self) -> (r: Id<'_>)
        requires
            self.wf(),
        ensures
            r@ == self.spec_name(),
    {
        self.name.as_id()
    }

    /// Gets the target machine and target layout for this module.
    pub fn target(&self) -> (r: &'t Target)
        ensures
            *r == self.spec_target(),
    {
        self.target
    }

    /// Gets the target machine for this module.
    pub fn target_machine(&self) -> (r: &'t Machine)
        ensures
            *r == self.spec_target().spec_machine(),
    {
        self.target.machine()
    }

    /// Gets the target triple of this module.
    pub fn target_triple(&self) -> (r: &'t Triple)
        ensures
            *r == self.spec_target().spec_machine().spec_triple(),
    {
        self.target.triple()
    }

    /// Gets the target layout used by this module.
    pub fn target_layout(&self) -> (r: &'t Layout)
        ensures
            *r == self.spec_target().spec_layout(),
    {
        self.target.layout()
    }

    /// Adds a global value to this module, without checking for duplicate
    /// symbols.
    pub fn add_global_value(&mut self, value: global::Value)
        requires
            value.wf(),
        ensures
            final(self).spec_global_values() == old(self).spec_global_values().push(value),
            final(self).spec_name() == old(self).spec_name(),
            final(self).spec_target() == old(self).spec_target(),
            old(self).wf() ==> final(self).wf(),
    {
        self.global_values.push(value);
    }

    /// The global values of the module, in order.
    pub fn global_values(&self) -> (r: &Vec<global::Value>)
        ensures
            r@ == self.spec_global_values(),
    {
        &self.global_values
    }

    /// Removes and returns the global values of this module, leaving it
    /// empty.
    pub fn drain_global_values(&mut self) -> (r: Vec<global::Value>)
        ensures
            r@ == old(self).spec_global_values(),
            final(self).spec_global_values() == Seq::<global::Value>::empty(),
            final(self).spec_name() == old(self).spec_name(),
            final(self).spec_target() == old(self).spec_target(),
    {
        let mut taken: Vec<global::Value> = Vec::new();
        core::mem::swap(&mut taken, &mut self.global_values);
        assert(self.spec_global_values() =~= Seq::<global::Value>::empty());
        taken
    }
}

/// How a module is written in LLVM IR: a comment line naming the module, the
/// target triple and canonical data-layout lines, then every global value.
pub open spec fn spec_module_str(
    name: Seq<char>,
    target: Target,
    globals: Seq<global::Value>,
) -> Seq<char> {
    "; ModuleID = '"@ + name + "'\n"@ + "target triple = \""@ + spec_triple_str(
        target.spec_machine().spec_triple(),
    ) + "\"\n"@ + "target datalayout = \""@ + spec_layout_str(target.spec_layout()@) + "\"\n"@
        + spec_global_list_str(globals, 0)
}

impl<'t> Module<'t> {
    /// Writes the module as it appears in LLVM IR.
    pub fn ir_string(&self) -> (r: String)
        requires
            self.wf(),
        ensures
            r@ == spec_module_str(
                self.spec_name(),
                self.spec_target(),
                self.spec_global_values(),
            ),
    {
        let mut r = "; ModuleID = '".to_owned();
        r.append(self.name.as_str());
        r.append("'\n");
        r.append("target triple = \"");
        let triple = self.target.triple().triple_string();
        r.append(triple.as_str());
        r.append("\"\n");
        r.append("target datalayout = \"");
        let layout = self.target.layout().layout_string();
        r.append(layout.as_str());
        r.append("\"\n");
        let ghost head = r@;
        let n = self.global_values.len();
        let mut i: usize = 0;
        while i < n
            invariant
                i <= n,
                n == self.global_values@.len(),
                head + spec_global_list_str(self.spec_global_values(), 0) == r@
                    + spec_global_list_str(self.spec_global_values(), i as int),
            decreases n - i,
        {
            let ghost prev = r@;
            let text = self.global_values[i].ir_string();
            r.append(text.as_str());
            r.append("\n");
            proof {
                assert(r@ + spec_global_list_str(self.spec_global_values(), i as int + 1) =~= prev
                    + spec_global_list_str(self.spec_global_values(), i as int));
            }
            i = i + 1;
        }
        proof {
            assert(r@ + spec_global_list_str(self.spec_global_values(), n as int) =~= r@);
        }
        assert(r@ =~= spec_module_str(
            self.spec_name(),
            self.spec_target(),
            self.spec_global_values(),
        ));
        r
    }
}

} // verus!
