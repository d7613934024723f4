use vstd::prelude::*;

use crate::instr::Label;

verus! {

/// Compilation-mode flags.
#[derive(Debug, Clone, Copy, PartialEq, Eq)]
pub struct Options {
    /// The JIT may rename functions at run time.
    pub jit_enable_rename_function: bool,
    /// The repository is compiled in authoritative mode.
    pub repo_authoritative: bool,
    /// The ambient implicit-context feature is enabled.
    pub enable_implicit_context: bool,
}

/// The mutable state of one compilation unit: counters that mint labels and
/// iterators, the mode flags, and the symbol references collected so far.
#[derive(Debug)]
pub struct Emitter {
    pub next_label: u64,
    pub next_iterator: u64,
    /// This unit is the language's own standard library.
    pub systemlib: bool,
    pub options: Options,
    /// Classes that this unit refers to, in order of registration.
    pub symbol_refs: Vec<String>,
}

impl Emitter {
    pub fn new(options: Options, systemlib: bool) -> (r: Emitter)
        ensures
            r.next_label == 0,
            r.next_iterator == 0,
            r.systemlib == systemlib,
            r.options == options,
            r.symbol_refs@ == Seq::<String>::empty(),
    {
        Emitter { next_label: 0, next_iterator: 0, systemlib, options, symbol_refs: Vec::new() }
    }

    /// Mints a fresh label: the counter's value, which then advances.
    pub fn next_regular(&mut self) -> (l: Label)
        requires
            old(self).next_label < u64::MAX,
        ensures
            l.id == old(self).next_label,
            final(self).next_label == old(self).next_label + 1,
            final(self).next_iterator == old(self).next_iterator,
            final(self).systemlib == old(self).systemlib,
            final(self).options == old(self).options,
            final(self).symbol_refs == old(self).symbol_refs,
    {
        let l = Label { id: self.next_label };
        self.next_label = self.next_label + 1;
        l
    }

    /// Starts label numbering afresh, at the start of a new method body.
    pub fn reset_labels(&mut self)
        ensures
            final(self).next_label == 0,
            final(self).next_iterator == old(self).next_iterator,
            final(self).systemlib == old(self).systemlib,
            final(self).options == old(self).options,
            final(self).symbol_refs == old(self).symbol_refs,
    {
        self.next_label = 0;
    }

    /// Starts iterator numbering afresh, at the start of a new method body.
    pub fn reset_iterators(&mut self)
        ensures
            final(self).next_iterator == 0,
            final(self).next_label == old(self).next_label,
            final(self).systemlib == old(self).systemlib,
            final(self).options == old(self).options,
            final(self).symbol_refs == old(self).symbol_refs,
    {
        self.next_iterator = 0;
    }

    /// Records a reference to the class `name`.
    pub fn add_class_ref(&mut self, name: String)
        ensures
            final(self).symbol_refs@ == old(self).symbol_refs@.push(name),
            final(self).next_label == old(self).next_label,
            final(self).next_iterator == old(self).next_iterator,
            final(self).systemlib == old(self).systemlib,
            final(self).options == old(self).options,
    {
        self.symbol_refs.push(name);
    }
}

} // verus!
