//! The variables that are in scope while a program is compiled.

use vstd::prelude::*;
use crate::compiler::model::{
    declared_in_scope, resolve, LocalView, MAX_LOCALS, MAX_SCOPE_DEPTH, UNINITIALIZED,
};

verus! {

/// A local variable: its name and the depth of the scope that declares it,
/// or [`UNINITIALIZED`] while its initializer is being compiled.
#[derive(Debug)]
pub struct Local {
    name: String,
    depth: u8,
}

impl View for Local {
    type V = LocalView;

    closed spec fn view(&self) -> LocalView {
        LocalView { name: self.name@, depth: self.depth }
    }
}

impl Local {
    /// A local variable of the given name and depth.
    pub fn new(name: String, depth: u8) -> (res: Local)
        ensures
            res@ == (LocalView { name: name@, depth }),
    {
        Local { name, depth }
    }
}

impl Default for Local {
    fn default() -> (res: Local)
        ensures
            res@ == (LocalView { name: Seq::empty(), depth: 0 }),
    {
        Local { name: String::new(), depth: 0 }
    }
}

impl Clone for Local {
    fn clone(&self) -> (res: Local)
        ensures
            res@ == self@,
    {
        Local { name: self.name.clone(), depth: self.depth }
    }
}

/// The views of a list of locals.
pub open spec fn local_views(locals: Seq<Local>) -> Seq<LocalView> {
    locals.map_values(|local: Local| local@)
}

/// What a [`Compiler`] denotes: the local variables in scope, in the order of
/// their stack slots, and the depth of the innermost scope.
pub struct CompilerView {
    pub locals: Seq<LocalView>,
    pub scope_depth: u8,
}

impl CompilerView {
    /// Every local has a slot that one byte can address.
    pub open spec fn wf(self) -> bool {
        self.locals.len() <= MAX_LOCALS
    }
}

/// The scope tracker: which local variables are live, and how deep the
/// innermost scope is nested. The position of a local in the list is its
/// slot on the stack at run time.
#[derive(Debug)]
pub struct Compiler {
    locals: Vec<Local>,
    scope_depth: u8,
}

impl View for Compiler {
    type V = CompilerView;

    closed spec fn view(&self) -> CompilerView {
        CompilerView { locals: local_views(self.locals@), scope_depth: self.scope_depth }
    }
}

impl Compiler {
    /// A tracker with no locals, at the top level.
    pub fn new() -> (res: Compiler)
        ensures
            res@ == (CompilerView { locals: Seq::empty(), scope_depth: 0 }),
            res@.wf(),
    {
        let res = Compiler { locals: Vec::new(), scope_depth: 0 };
        assert(res@.locals =~= Seq::empty());
        res
    }

    /// Adds `local` on top of the list and returns `true`, or returns `false`
    /// and adds nothing where all [`MAX_LOCALS`] slots are taken.
    pub fn add_local(&mut self, local: Local) -> (res: bool)
        ensures
            res == (old(self)@.locals.len() < MAX_LOCALS),
            final(self)@ == if res {
                CompilerView { locals: old(self)@.locals.push(local@), ..old(self)@ }
            } else {
                old(self)@
            },
            old(self)@.wf() ==> final(self)@.wf(),
    {
        if self.locals.len() >= MAX_LOCALS {
            return false;
        }
        self.locals.push(local);
        assert(self@.locals =~= old(self)@.locals.push(local@));
        return true;
    }

    /// The number of locals in scope.
    pub fn local_count(&self) -> (res: usize)
        ensures
            res == self@.locals.len(),
    {
        self.locals.len()
    }

    /// The depth of the innermost scope.
    pub fn depth(&self) -> (res: u8)
        ensures
            res == self@.scope_depth,
    {
        self.scope_depth
    }

    /// The slot of the innermost local called `name`, and whether that local
    /// is initialized; `None` where no local has the name.
    pub(crate) fn resolve(&self, name: &String) -> (res: Option<(u8, bool)>)
        requires
            self@.wf(),
        ensures
            match res {
                Some((slot, initialized)) => {
                    &&& resolve(self@.locals, name@) == Some(slot as int)
                    &&& slot < self@.locals.len()
                    &&& initialized == (self@.locals[slot as int].depth != UNINITIALIZED)
                },
                None => resolve(self@.locals, name@) is None,
            },
    {
        let mut index = self.locals.len();
        assert(self@.locals.take(index as int) =~= self@.locals);
        while index > 0
            invariant
                index <= self.locals.len() <= MAX_LOCALS,
                resolve(self@.locals, name@) == resolve(self@.locals.take(index as int), name@),
            decreases index,
        {
            index -= 1;
            proof {
                let upto = self@.locals.take(index + 1);
                assert(upto.last() == self@.locals[index as int]);
                assert(upto.drop_last() =~= self@.locals.take(index as int));
            }
            if self.locals[index].name == *name {
                return Some((index as u8, self.locals[index].depth != UNINITIALIZED));
            }
        }
        None
    }

    /// Whether the innermost scope already declares `name`.
    pub(crate) fn declares(&self, name: &String) -> (res: bool)
        ensures
            res == declared_in_scope(self@.locals, self@.scope_depth, name@),
    {
        let mut index = self.locals.len();
        assert(self@.locals.take(index as int) =~= self@.locals);
        while index > 0
            invariant
                index <= self.locals.len(),
                declared_in_scope(self@.locals, self@.scope_depth, name@) == declared_in_scope(
                    self@.locals.take(index as int),
                    self@.scope_depth,
                    name@,
                ),
            decreases index,
        {
            index -= 1;
            proof {
                let upto = self@.locals.take(index + 1);
                assert(upto.last() == self@.locals[index as int]);
                assert(upto.drop_last() =~= self@.locals.take(index as int));
            }
            let local = &self.locals[index];
            if local.depth != UNINITIALIZED && local.depth < self.scope_depth {
                return false;
            }
            if local.name == *name {
                return true;
            }
        }
        false
    }

    /// Gives the local declared last the depth of the innermost scope. Does
    /// nothing where there is no local.
    pub(crate) fn mark_initialized(&mut self)
        ensures
            final(self)@ == if old(self)@.locals.len() == 0 {
                old(self)@
            } else {
                CompilerView {
                    locals: old(self)@.locals.update(
                        old(self)@.locals.len() - 1,
                        LocalView {
                            name: old(self)@.locals.last().name,
                            depth: old(self)@.scope_depth,
                        },
                    ),
                    ..old(self)@
                }
            },
    {
        let count = self.locals.len();
        if count > 0 {
            let name = self.locals[count - 1].name.clone();
            self.locals.set(count - 1, Local { name, depth: self.scope_depth });
            assert(self@.locals =~= old(self)@.locals.update(
                count - 1,
                LocalView { name: old(self)@.locals.last().name, depth: old(self)@.scope_depth },
            ));
        }
    }

    /// Enters a scope.
    pub(crate) fn begin_scope(&mut self)
        requires
            old(self)@.scope_depth < MAX_SCOPE_DEPTH,
        ensures
            final(self)@ == (CompilerView {
                scope_depth: (old(self)@.scope_depth + 1) as u8,
                ..old(self)@
            }),
    {
        self.scope_depth += 1;
    }

    /// Leaves the innermost scope. Its locals stay until they are popped.
    pub(crate) fn end_scope(&mut self)
        requires
            old(self)@.scope_depth > 0,
        ensures
            final(self)@ == (CompilerView {
                scope_depth: (old(self)@.scope_depth - 1) as u8,
                ..old(self)@
            }),
    {
        self.scope_depth -= 1;
    }

    /// Removes the local on top of the list if it lies deeper than the
    /// innermost scope, and says whether it did.
    pub(crate) fn pop_deeper(&mut self) -> (res: bool)
        ensures
            res == (old(self)@.locals.len() > 0 && old(self)@.locals.last().depth > old(
                self,
            )@.scope_depth),
            final(self)@ == if res {
                CompilerView { locals: old(self)@.locals.drop_last(), ..old(self)@ }
            } else {
                old(self)@
            },
    {
        let count = self.locals.len();
        if count > 0 && self.locals[count - 1].depth > self.scope_depth {
            let _ = self.locals.pop();
            assert(self@.locals =~= old(self)@.locals.drop_last());
            true
        } else {
            false
        }
    }
}

} // verus!
