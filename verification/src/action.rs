//! What a screen hands back to its parent after a message: instructions for
//! the parent, and outside work (database queries, printing) to carry out.

use vstd::prelude::*;

verus! {

/// The outcome of a screen update.
pub struct AlegriaAction<I, T> {
    pub instructions: Vec<I>,
    pub tasks: Vec<T>,
}

/// What an outcome holds, as sequences.
#[verifier::ext_equal]
pub struct ActionView<I, T> {
    pub instructions: Seq<I>,
    pub tasks: Seq<T>,
}

impl<I: DeepView, T: DeepView> View for AlegriaAction<I, T> {
    type V = ActionView<I::V, T::V>;

    open spec fn view(&self) -> ActionView<I::V, T::V> {
        ActionView { instructions: self.instructions.deep_view(), tasks: self.tasks.deep_view() }
    }
}

/// An outcome with neither instructions nor tasks.
pub open spec fn no_action<I, T>() -> ActionView<I, T> {
    ActionView { instructions: Seq::empty(), tasks: Seq::empty() }
}

/// An outcome with the given tasks only.
pub open spec fn tasks_only<I, T>(tasks: Seq<T>) -> ActionView<I, T> {
    ActionView { instructions: Seq::empty(), tasks }
}

/// An outcome with the given instructions only.
pub open spec fn instructions_only<I, T>(instructions: Seq<I>) -> ActionView<I, T> {
    ActionView { instructions, tasks: Seq::empty() }
}

impl<I: DeepView, T: DeepView> AlegriaAction<I, T> {
    pub fn new() -> (a: Self)
        ensures
            a@ == no_action::<I::V, T::V>(),
    {
        let a = AlegriaAction { instructions: Vec::new(), tasks: Vec::new() };
        assert(a@.instructions =~= Seq::<I::V>::empty());
        assert(a@.tasks =~= Seq::<T::V>::empty());
        a
    }

    pub fn add_instruction(&mut self, instruction: I)
        ensures
            final(self)@.instructions == old(self)@.instructions.push(instruction.deep_view()),
            final(self)@.tasks == old(self)@.tasks,
    {
        self.instructions.push(instruction);
        assert(self@.instructions =~= old(self)@.instructions.push(instruction.deep_view()));
    }

    pub fn add_task(&mut self, task: T)
        ensures
            final(self)@.tasks == old(self)@.tasks.push(task.deep_view()),
            final(self)@.instructions == old(self)@.instructions,
    {
        self.tasks.push(task);
        assert(self@.tasks =~= old(self)@.tasks.push(task.deep_view()));
    }

    /// Appends the tasks of `other`, dropping its instructions.
    pub fn extend_tasks(&mut self, other: AlegriaAction<I, T>)
        ensures
            final(self)@.tasks == old(self)@.tasks + other@.tasks,
            final(self)@.instructions == old(self)@.instructions,
    {
        let mut tasks = other.tasks;
        let ghost before = self@.tasks;
        self.tasks.append(&mut tasks);
        assert(self@.tasks =~= before + other@.tasks);
    }
}

/// Work asked for by a part of a screen, carried as work of the screen that
/// holds the part.
pub trait Subtask<P: DeepView>: DeepView + Sized {
    /// The parent's work that stands for the part's work `v`.
    spec fn lifted(v: Self::V) -> P::V;

    fn lift(self) -> (p: P)
        ensures
            p.deep_view() == Self::lifted(self.deep_view()),
    ;
}

/// The part's tasks as tasks of the parent, in their order.
pub fn lift_all<C: Subtask<P>, P: DeepView>(v: Vec<C>) -> (r: Vec<P>)
    ensures
        r.deep_view() == v.deep_view().map_values(|t: C::V| C::lifted(t)),
{
    let ghost orig = v.deep_view();
    let ghost f = |t: C::V| C::lifted(t);
    let mut v = v;
    let mut r: Vec<P> = Vec::new();
    assert(v.deep_view() =~= orig.skip(0));
    assert(r.deep_view() =~= orig.take(0).map_values(f));
    while v.len() > 0
        invariant
            f == (|t: C::V| C::lifted(t)),
            r@.len() + v@.len() == orig.len(),
            v.deep_view() == orig.skip(r@.len() as int),
            r.deep_view() == orig.take(r@.len() as int).map_values(f),
        decreases v@.len(),
    {
        let ghost k = r@.len() as int;
        let ghost before = r.deep_view();
        let ghost vbefore = v.deep_view();
        let ghost vseq = v@;
        let ghost rseq = r@;
        let t = v.remove(0);
        assert(t.deep_view() == vbefore[0]);
        assert(vbefore[0] == orig[k]);
        r.push(t.lift());
        assert forall|j: int| 0 <= j < v@.len() implies #[trigger] v.deep_view()[j] == orig.skip(
            k + 1,
        )[j] by {
            assert(v@[j] == vseq[j + 1]);
            assert(vbefore[j + 1] == orig.skip(k)[j + 1]);
        }
        assert(v.deep_view() =~= orig.skip(k + 1));
        assert forall|j: int| 0 <= j <= k implies #[trigger] r.deep_view()[j] == orig.take(
            k + 1,
        ).map_values(f)[j] by {
            if j < k {
                assert(r@[j] == rseq[j]);
                assert(before[j] == orig.take(k).map_values(f)[j]);
            }
        }
        assert(r.deep_view() =~= orig.take(k + 1).map_values(f));
    }
    assert(orig.take(orig.len() as int) =~= orig);
    r
}

} // verus!
