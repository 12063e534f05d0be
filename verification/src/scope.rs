//! Nested variable and definition frames with shadowing lookup.
//!
//! A scope is a stack of frames. Lookups walk frames innermost to outermost,
//! and within a frame the binding added last wins. Entering and exiting a
//! frame are paired by every caller, also on error paths.

use std::rc::Rc;
use vstd::prelude::*;

use crate::hir::Block;
use crate::rc_clone;
use crate::value::Value;

verus! {

/// One frame: variable bindings and named block definitions.
#[derive(Debug)]
pub struct Frame {
    pub vars: Vec<(String, Rc<Value>)>,
    pub defs: Vec<(String, Rc<Block>)>,
}

/// The frame stack. The bottom frame exists from construction on.
#[derive(Debug)]
pub struct Scope {
    pub frames: Vec<Frame>,
}

/// The binding a single frame gives a name: the last entry with that name.
pub open spec fn frame_var_lookup(vars: Seq<(String, Rc<Value>)>, name: Seq<char>) -> Option<
    Rc<Value>,
>
    decreases vars.len(),
{
    if vars.len() == 0 {
        None
    } else if vars.last().0@ == name {
        Some(vars.last().1)
    } else {
        frame_var_lookup(vars.drop_last(), name)
    }
}

/// The definition a single frame gives a name: the last entry with that name.
pub open spec fn frame_def_lookup(defs: Seq<(String, Rc<Block>)>, name: Seq<char>) -> Option<
    Rc<Block>,
>
    decreases defs.len(),
{
    if defs.len() == 0 {
        None
    } else if defs.last().0@ == name {
        Some(defs.last().1)
    } else {
        frame_def_lookup(defs.drop_last(), name)
    }
}

/// The binding a whole scope gives a name: innermost frame first.
pub open spec fn scope_var_lookup(frames: Seq<Frame>, name: Seq<char>) -> Option<Rc<Value>>
    decreases frames.len(),
{
    if frames.len() == 0 {
        None
    } else {
        match frame_var_lookup(frames.last().vars@, name) {
            Some(v) => Some(v),
            None => scope_var_lookup(frames.drop_last(), name),
        }
    }
}

/// The definition a whole scope gives a name: innermost frame first.
pub open spec fn scope_def_lookup(frames: Seq<Frame>, name: Seq<char>) -> Option<Rc<Block>>
    decreases frames.len(),
{
    if frames.len() == 0 {
        None
    } else {
        match frame_def_lookup(frames.last().defs@, name) {
            Some(b) => Some(b),
            None => scope_def_lookup(frames.drop_last(), name),
        }
    }
}

impl Scope {
    /// A scope holding one empty bottom frame.
    pub fn new() -> (r: Scope)
        ensures
            r.frames@.len() == 1,
            r.frames@[0].vars@ =~= Seq::<(String, Rc<Value>)>::empty(),
            r.frames@[0].defs@ =~= Seq::<(String, Rc<Block>)>::empty(),
    {
        let mut frames: Vec<Frame> = Vec::new();
        frames.push(Frame { vars: Vec::new(), defs: Vec::new() });
        Scope { frames }
    }

    /// Pushes a fresh, empty frame.
    pub fn enter_scope(&mut self)
        ensures
            final(self).frames@.len() == old(self).frames@.len() + 1,
            forall|i: int|
                0 <= i < old(self).frames@.len() ==> final(self).frames@[i] == old(
                    self,
                ).frames@[i],
            final(self).frames@.last().vars@ =~= Seq::<(String, Rc<Value>)>::empty(),
            final(self).frames@.last().defs@ =~= Seq::<(String, Rc<Block>)>::empty(),
    {
        self.frames.push(Frame { vars: Vec::new(), defs: Vec::new() });
    }

    /// Pops the innermost frame. Every `enter_scope` is matched by exactly
    /// one `exit_scope`, also when the work between them fails.
    pub fn exit_scope(&mut self)
        requires
            old(self).frames@.len() > 0,
        ensures
            final(self).frames@ =~= old(self).frames@.drop_last(),
    {
        let _ = self.frames.pop();
    }

    /// Binds a name in the innermost frame, shadowing earlier bindings.
    pub fn add_var(&mut self, name: String, value: Rc<Value>)
        requires
            old(self).frames@.len() > 0,
        ensures
            final(self).frames@.len() == old(self).frames@.len(),
            forall|i: int|
                0 <= i < old(self).frames@.len() - 1 ==> final(self).frames@[i] == old(
                    self,
                ).frames@[i],
            final(self).frames@.last().vars@ =~= old(self).frames@.last().vars@.push(
                (name, value),
            ),
            final(self).frames@.last().defs == old(self).frames@.last().defs,
    {
        let mut frame = self.frames.pop().unwrap();
        frame.vars.push((name, value));
        self.frames.push(frame);
    }

    /// Installs a whole set of bindings (a closure's captured environment)
    /// into the innermost frame, in order.
    pub fn add_vars(&mut self, entries: &Vec<(String, Rc<Value>)>)
        requires
            old(self).frames@.len() > 0,
        ensures
            final(self).frames@.len() == old(self).frames@.len(),
            forall|i: int|
                0 <= i < old(self).frames@.len() - 1 ==> final(self).frames@[i] == old(
                    self,
                ).frames@[i],
            final(self).frames@.last().vars@ =~= old(self).frames@.last().vars@ + entries@,
            final(self).frames@.last().defs == old(self).frames@.last().defs,
    {
        let n = entries.len();
        let mut k: usize = 0;
        while k < n
            invariant
                n == entries@.len(),
                k <= n,
                self.frames@.len() == old(self).frames@.len() > 0,
                forall|i: int|
                    0 <= i < old(self).frames@.len() - 1 ==> self.frames@[i] == old(
                        self,
                    ).frames@[i],
                self.frames@.last().vars@ =~= old(self).frames@.last().vars@ + entries@.take(
                    k as int,
                ),
                self.frames@.last().defs == old(self).frames@.last().defs,
            decreases n - k,
        {
            let name = entries[k].0.clone();
            let value = rc_clone(&entries[k].1);
            self.add_var(name, value);
            proof {
                assert(entries@.take(k + 1) =~= entries@.take(k as int).push(entries@[k as int]));
            }
            k = k + 1;
        }
        proof {
            assert(entries@.take(n as int) =~= entries@);
        }
    }

    /// Records a named definition in the innermost frame.
    pub fn add_definition(&mut self, name: String, block: Rc<Block>)
        requires
            old(self).frames@.len() > 0,
        ensures
            final(self).frames@.len() == old(self).frames@.len(),
            forall|i: int|
                0 <= i < old(self).frames@.len() - 1 ==> final(self).frames@[i] == old(
                    self,
                ).frames@[i],
            final(self).frames@.last().defs@ =~= old(self).frames@.last().defs@.push(
                (name, block),
            ),
            final(self).frames@.last().vars == old(self).frames@.last().vars,
    {
        let mut frame = self.frames.pop().unwrap();
        frame.defs.push((name, block));
        self.frames.push(frame);
    }

    /// The value bound to a name, walking frames innermost to outermost.
    pub fn get_var(&self, name: &String) -> (r: Option<Rc<Value>>)
        ensures
            r == scope_var_lookup(self.frames@, name@),
    {
        let mut i = self.frames.len();
        proof {
            assert(self.frames@.take(self.frames@.len() as int) =~= self.frames@);
        }
        while i > 0
            invariant
                i <= self.frames@.len(),
                scope_var_lookup(self.frames@, name@) == scope_var_lookup(
                    self.frames@.take(i as int),
                    name@,
                ),
            decreases i,
        {
            let frame = &self.frames[i - 1];
            let mut j = frame.vars.len();
            proof {
                assert(frame.vars@.take(frame.vars@.len() as int) =~= frame.vars@);
            }
            while j > 0
                invariant
                    0 < i <= self.frames@.len(),
                    j <= frame.vars@.len(),
                    frame == self.frames@[i - 1],
                    scope_var_lookup(self.frames@, name@) == scope_var_lookup(
                        self.frames@.take(i as int),
                        name@,
                    ),
                    frame_var_lookup(frame.vars@, name@) == frame_var_lookup(
                        frame.vars@.take(j as int),
                        name@,
                    ),
                decreases j,
            {
                if frame.vars[j - 1].0 == *name {
                    proof {
                        let vars = frame.vars@;
                        assert(vars.take(j as int).last() == vars[j - 1]);
                        assert(frame_var_lookup(vars.take(j as int), name@) == Some(
                            vars[j - 1].1,
                        ));
                        assert(self.frames@.take(i as int).last() == self.frames@[i - 1]);
                        assert(scope_var_lookup(self.frames@.take(i as int), name@) == Some(
                            vars[j - 1].1,
                        ));
                    }
                    let out = rc_clone(&frame.vars[j - 1].1);
                    proof {
                        assert(out == frame.vars@[j - 1].1);
                        assert(Some(out) == scope_var_lookup(self.frames@, name@));
                    }
                    return Some(out);
                }
                proof {
                    assert(frame.vars@.take(j as int).drop_last() =~= frame.vars@.take(j - 1));
                }
                j = j - 1;
            }
            proof {
                assert(frame.vars@.take(0) =~= Seq::<(String, Rc<Value>)>::empty());
                assert(frame_var_lookup(frame.vars@, name@) is None);
                assert(self.frames@.take(i as int).last() == self.frames@[i - 1]);
                assert(self.frames@.take(i as int).drop_last() =~= self.frames@.take(i - 1));
            }
            i = i - 1;
        }
        proof {
            assert(self.frames@.take(0) =~= Seq::<Frame>::empty());
        }
        None
    }

    /// The definition registered under a name, walking frames innermost to
    /// outermost.
    pub fn get_command(&self, name: &String) -> (r: Option<Rc<Block>>)
        ensures
            r == scope_def_lookup(self.frames@, name@),
    {
        let mut i = self.frames.len();
        proof {
            assert(self.frames@.take(self.frames@.len() as int) =~= self.frames@);
        }
        while i > 0
            invariant
                i <= self.frames@.len(),
                scope_def_lookup(self.frames@, name@) == scope_def_lookup(
                    self.frames@.take(i as int),
                    name@,
                ),
            decreases i,
        {
            let frame = &self.frames[i - 1];
            let mut j = frame.defs.len();
            proof {
                assert(frame.defs@.take(frame.defs@.len() as int) =~= frame.defs@);
            }
            while j > 0
                invariant
                    0 < i <= self.frames@.len(),
                    j <= frame.defs@.len(),
                    frame == self.frames@[i - 1],
                    scope_def_lookup(self.frames@, name@) == scope_def_lookup(
                        self.frames@.take(i as int),
                        name@,
                    ),
                    frame_def_lookup(frame.defs@, name@) == frame_def_lookup(
                        frame.defs@.take(j as int),
                        name@,
                    ),
                decreases j,
            {
                if frame.defs[j - 1].0 == *name {
                    proof {
                        let defs = frame.defs@;
                        assert(defs.take(j as int).last() == defs[j - 1]);
                        assert(frame_def_lookup(defs.take(j as int), name@) == Some(
                            defs[j - 1].1,
                        ));
                        assert(self.frames@.take(i as int).last() == self.frames@[i - 1]);
                        assert(scope_def_lookup(self.frames@.take(i as int), name@) == Some(
                            defs[j - 1].1,
                        ));
                    }
                    return Some(rc_clone(&frame.defs[j - 1].1));
                }
                proof {
                    assert(frame.defs@.take(j as int).drop_last() =~= frame.defs@.take(j - 1));
                }
                j = j - 1;
            }
            proof {
                assert(frame.defs@.take(0) =~= Seq::<(String, Rc<Block>)>::empty());
                assert(frame_def_lookup(frame.defs@, name@) is None);
                assert(self.frames@.take(i as int).last() == self.frames@[i - 1]);
                assert(self.frames@.take(i as int).drop_last() =~= self.frames@.take(i - 1));
            }
            i = i - 1;
        }
        proof {
            assert(self.frames@.take(0) =~= Seq::<Frame>::empty());
        }
        None
    }
}

/// A binding sitting last in a freshly pushed frame is what lookup returns,
/// whatever the frames below it hold: the argument bound to a closure
/// parameter shadows everything outside the call.
pub proof fn lemma_innermost_binding_shadows(
    frames: Seq<Frame>,
    f: Frame,
    name: String,
    v: Rc<Value>,
)
    requires
        f.vars@.len() > 0,
        f.vars@.last() == (name, v),
    ensures
        scope_var_lookup(frames.push(f), name@) == Some(v),
{
    assert(frames.push(f).last() == f);
}

/// A name bound anywhere in a pushed frame resolves from that frame alone:
/// a closure's captured environment stays visible however the defining scope
/// has changed or vanished since the capture was taken.
pub proof fn lemma_captured_binding_visible(frames: Seq<Frame>, f: Frame, name: Seq<char>)
    requires
        frame_var_lookup(f.vars@, name) is Some,
    ensures
        scope_var_lookup(frames.push(f), name) == frame_var_lookup(f.vars@, name),
{
    assert(frames.push(f).last() == f);
}

/// A name a pushed frame does not bind falls through to the frames below.
pub proof fn lemma_lookup_falls_through(frames: Seq<Frame>, f: Frame, name: Seq<char>)
    requires
        frame_var_lookup(f.vars@, name) is None,
    ensures
        scope_var_lookup(frames.push(f), name) == scope_var_lookup(frames, name),
{
    assert(frames.push(f).last() == f);
    assert(frames.push(f).drop_last() =~= frames);
}

/// A definition registered in the innermost frame is what the scope's
/// definition lookup returns: hoisted definitions are visible to every group
/// of the block that registered them.
pub proof fn lemma_registered_definition_found(frames: Seq<Frame>, name: Seq<char>)
    requires
        frames.len() > 0,
        frame_def_lookup(frames.last().defs@, name) is Some,
    ensures
        scope_def_lookup(frames, name) == frame_def_lookup(frames.last().defs@, name),
{
}

/// Popping the frame a call pushed restores every lookup: bindings made for
/// the call are not visible after it returns.
pub proof fn lemma_exit_restores_lookup(frames: Seq<Frame>, f: Frame, name: Seq<char>)
    ensures
        scope_var_lookup(frames.push(f).drop_last(), name) == scope_var_lookup(frames, name),
{
    assert(frames.push(f).drop_last() =~= frames);
}

} // verus!
