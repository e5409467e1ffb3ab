//! Pure instrumentation hooks.  The engine notifies an observer of every
//! register write, memory write, PC change and condition change, bracketed
//! by instruction start and end; the unit observer does nothing and costs
//! nothing.

use vstd::prelude::*;
use crate::isa::{Condition, Instruction};

verus! {

/// Observer of computer state changes.  Notifications for one instruction
/// occur in execution order, terminated by `on_instruction_end`.  Observers
/// must not fail; they cannot influence execution.
pub trait Observer: Sized {
    /// Called when a register is written.
    fn on_register_write(&mut self, reg: u8, old_value: u16, new_value: u16);

    /// Called when memory is written.
    fn on_memory_write(&mut self, addr: u16, old_value: u16, new_value: u16);

    /// Called when the PC changes, only when the value differs.
    fn on_pc_change(&mut self, old_value: u16, new_value: u16);

    /// Called when the condition codes change, only when the tuple differs.
    fn on_condition_change(&mut self, cond: Condition);

    /// Called before an instruction executes.
    fn on_instruction_start(&mut self, pc: u16, inst: &Instruction);

    /// Called after an instruction completes.
    fn on_instruction_end(&mut self, pc: u16, inst: &Instruction);
}

/// The no-op observer: does nothing, optimizes away.
impl Observer for () {
    fn on_register_write(&mut self, reg: u8, old_value: u16, new_value: u16) {
    }

    fn on_memory_write(&mut self, addr: u16, old_value: u16, new_value: u16) {
    }

    fn on_pc_change(&mut self, old_value: u16, new_value: u16) {
    }

    fn on_condition_change(&mut self, cond: Condition) {
    }

    fn on_instruction_start(&mut self, pc: u16, inst: &Instruction) {
    }

    fn on_instruction_end(&mut self, pc: u16, inst: &Instruction) {
    }
}

/// Tracks, per instruction, what changed last: made for interactive front
/// ends that highlight the latest writes.
#[derive(Debug)]
pub struct UIObserver {
    last_modified_register: Option<u8>,
    last_modified_memory: Option<u16>,
    condition_changed: bool,
    last_condition: Condition,
}

impl UIObserver {
    /// The last modified register, as specifications see it.
    pub closed spec fn spec_last_modified_register(&self) -> Option<u8> {
        self.last_modified_register
    }

    /// The last modified memory address, as specifications see it.
    pub closed spec fn spec_last_modified_memory(&self) -> Option<u16> {
        self.last_modified_memory
    }

    /// Whether the condition codes changed, as specifications see it.
    pub closed spec fn spec_condition_changed(&self) -> bool {
        self.condition_changed
    }

    /// The last condition reported, as specifications see it.
    pub closed spec fn spec_last_condition(&self) -> Condition {
        self.last_condition
    }

    pub fn new() -> (r: UIObserver)
        ensures
            r.spec_last_modified_register() is None,
            r.spec_last_modified_memory() is None,
            !r.spec_condition_changed(),
    {
        UIObserver {
            last_modified_register: None,
            last_modified_memory: None,
            condition_changed: false,
            last_condition: Condition { n: false, z: false, p: false },
        }
    }

    /// Call at the start of each instruction to reset per-instruction
    /// tracking.
    pub fn reset_instruction_state(&mut self)
        ensures
            final(self).spec_last_modified_register() is None,
            final(self).spec_last_modified_memory() is None,
            !final(self).spec_condition_changed(),
            final(self).spec_last_condition() == old(self).spec_last_condition(),
    {
        self.last_modified_register = None;
        self.last_modified_memory = None;
        self.condition_changed = false;
    }

    /// The last modified register index (0-7), if any.
    pub fn last_modified_register(&self) -> (r: Option<u8>)
        ensures
            r == self.spec_last_modified_register(),
    {
        self.last_modified_register
    }

    /// The last modified memory address, if any.
    pub fn last_modified_memory(&self) -> (r: Option<u16>)
        ensures
            r == self.spec_last_modified_memory(),
    {
        self.last_modified_memory
    }

    /// Whether the condition codes changed in the last instruction.
    pub fn condition_changed(&self) -> (r: bool)
        ensures
            r == self.spec_condition_changed(),
    {
        self.condition_changed
    }

    /// The last condition codes reported.
    pub fn last_condition(&self) -> (r: Condition)
        ensures
            r == self.spec_last_condition(),
    {
        self.last_condition
    }
}

impl Default for UIObserver {
    fn default() -> (r: UIObserver)
        ensures
            r.spec_last_modified_register() is None,
            r.spec_last_modified_memory() is None,
            !r.spec_condition_changed(),
    {
        UIObserver::new()
    }
}

impl Observer for UIObserver {
    /// Remembers the register index as the last one modified.
    fn on_register_write(&mut self, reg: u8, old_value: u16, new_value: u16)
        ensures
            final(self).spec_last_modified_register() == Some(reg),
            final(self).spec_last_modified_memory() == old(self).spec_last_modified_memory(),
            final(self).spec_condition_changed() == old(self).spec_condition_changed(),
            final(self).spec_last_condition() == old(self).spec_last_condition(),
    {
        self.last_modified_register = Some(reg);
    }

    /// Remembers the address as the last one modified.
    fn on_memory_write(&mut self, addr: u16, old_value: u16, new_value: u16)
        ensures
            final(self).spec_last_modified_memory() == Some(addr),
            final(self).spec_last_modified_register() == old(self).spec_last_modified_register(),
            final(self).spec_condition_changed() == old(self).spec_condition_changed(),
            final(self).spec_last_condition() == old(self).spec_last_condition(),
    {
        self.last_modified_memory = Some(addr);
    }

    /// PC moves are not tracked here.
    fn on_pc_change(&mut self, old_value: u16, new_value: u16)
        ensures
            *final(self) == *old(self),
    {
    }

    /// Latches that the condition codes changed, and to what.
    fn on_condition_change(&mut self, cond: Condition)
        ensures
            final(self).spec_condition_changed(),
            final(self).spec_last_condition() == cond,
            final(self).spec_last_modified_register() == old(self).spec_last_modified_register(),
            final(self).spec_last_modified_memory() == old(self).spec_last_modified_memory(),
    {
        self.condition_changed = true;
        self.last_condition = cond;
    }

    /// Instruction brackets are not tracked here.
    fn on_instruction_start(&mut self, pc: u16, inst: &Instruction)
        ensures
            *final(self) == *old(self),
    {
    }

    /// Instruction brackets are not tracked here.
    fn on_instruction_end(&mut self, pc: u16, inst: &Instruction)
        ensures
            *final(self) == *old(self),
    {
    }
}

} // verus!
