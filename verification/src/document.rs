//! Annotation document with a bounded, invertible edit history.
//!
//! The document is generic over the annotation value: the history mechanics
//! (insert, remove, replace, batches, undo, redo) never look inside an item.

use vstd::prelude::*;
use vstd::std_specs::cmp::PartialEqSpec;

verus! {

/// Number of undo steps that the document keeps.
pub const MAX_HISTORY_ENTRIES: usize = 100;

/// One primitive change of the item list.
pub enum Edit<A> {
    Insert { index: usize, item: A },
    Remove { index: usize },
    Replace { index: usize, item: A },
}

/// The edit can be applied to `s`.
pub open spec fn edit_valid<A>(e: Edit<A>, s: Seq<A>) -> bool {
    match e {
        Edit::Insert { index, .. } => index <= s.len(),
        Edit::Remove { index } => index < s.len(),
        Edit::Replace { index, .. } => index < s.len(),
    }
}

/// The item list after applying `e` to `s`.
pub open spec fn edit_apply<A>(e: Edit<A>, s: Seq<A>) -> Seq<A> {
    match e {
        Edit::Insert { index, item } => s.insert(index as int, item),
        Edit::Remove { index } => s.remove(index as int),
        Edit::Replace { index, item } => s.update(index as int, item),
    }
}

/// The edit that undoes `e` when `e` was applied to `s`.
pub open spec fn edit_inverse<A>(e: Edit<A>, s: Seq<A>) -> Edit<A> {
    match e {
        Edit::Insert { index, .. } => Edit::Remove { index },
        Edit::Remove { index } => Edit::Insert { index, item: s[index as int] },
        Edit::Replace { index, .. } => Edit::Replace { index, item: s[index as int] },
    }
}

/// Every edit of `es`, in order, can be applied starting from `s`.
pub open spec fn edits_valid<A>(es: Seq<Edit<A>>, s: Seq<A>) -> bool
    decreases es.len(),
{
    es.len() == 0 || (edit_valid(es[0], s) && edits_valid(es.drop_first(), edit_apply(es[0], s)))
}

/// The item list after applying the edits of `es` in order to `s`.
pub open spec fn edits_apply<A>(es: Seq<Edit<A>>, s: Seq<A>) -> Seq<A>
    decreases es.len(),
{
    if es.len() == 0 {
        s
    } else {
        edits_apply(es.drop_first(), edit_apply(es[0], s))
    }
}

/// The edits that undo `es` applied to `s`: the inverses, last edit first.
pub open spec fn edits_inverse<A>(es: Seq<Edit<A>>, s: Seq<A>) -> Seq<Edit<A>>
    decreases es.len(),
{
    if es.len() == 0 {
        Seq::empty()
    } else {
        edits_inverse(es.drop_first(), edit_apply(es[0], s)).push(edit_inverse(es[0], s))
    }
}

/// Applying `es` to `from` is possible and gives `to`.
pub open spec fn reverts<A>(es: Seq<Edit<A>>, from: Seq<A>, to: Seq<A>) -> bool {
    edits_valid(es, from) && edits_apply(es, from) == to
}

/// A single inverse edit restores the list.
pub proof fn lemma_edit_inverse<A>(e: Edit<A>, s: Seq<A>)
    requires
        edit_valid(e, s),
    ensures
        edit_valid(edit_inverse(e, s), edit_apply(e, s)),
        edit_apply(edit_inverse(e, s), edit_apply(e, s)) == s,
{
    match e {
        Edit::Insert { index, item } => {
            assert(s.insert(index as int, item).remove(index as int) =~= s);
        },
        Edit::Remove { index } => {
            assert(s.remove(index as int).insert(index as int, s[index as int]) =~= s);
        },
        Edit::Replace { index, item } => {
            assert(s.update(index as int, item).update(index as int, s[index as int]) =~= s);
        },
    }
}

/// A batch of one edit is that edit.
proof fn lemma_single_edit<A>(e: Edit<A>, s: Seq<A>)
    ensures
        edits_valid(seq![e], s) == edit_valid(e, s),
        edits_apply(seq![e], s) == edit_apply(e, s),
{
    let one = seq![e];
    assert(one.drop_first() =~= Seq::<Edit<A>>::empty());
    assert(one[0] == e);
    assert(edits_valid(one.drop_first(), edit_apply(e, s)));
    assert(edits_apply(one.drop_first(), edit_apply(e, s)) == edit_apply(e, s));
}

/// Applying `a + b` is applying `a`, then `b`.
pub proof fn lemma_edits_concat<A>(a: Seq<Edit<A>>, b: Seq<Edit<A>>, s: Seq<A>)
    ensures
        edits_valid(a + b, s) == (edits_valid(a, s) && edits_valid(b, edits_apply(a, s))),
        edits_valid(a, s) ==> edits_apply(a + b, s) == edits_apply(b, edits_apply(a, s)),
    decreases a.len(),
{
    if a.len() == 0 {
        assert(a + b =~= b);
    } else {
        assert((a + b).drop_first() =~= a.drop_first() + b);
        assert((a + b)[0] == a[0]);
        lemma_edits_concat(a.drop_first(), b, edit_apply(a[0], s));
    }
}

/// The inverse of a batch of edits restores the list the batch started from.
pub proof fn lemma_edits_inverse<A>(es: Seq<Edit<A>>, s: Seq<A>)
    requires
        edits_valid(es, s),
    ensures
        reverts(edits_inverse(es, s), edits_apply(es, s), s),
    decreases es.len(),
{
    if es.len() == 0 {
    } else {
        let s1 = edit_apply(es[0], s);
        let rest = es.drop_first();
        lemma_edits_inverse(rest, s1);
        let inv_rest = edits_inverse(rest, s1);
        let single = seq![edit_inverse(es[0], s)];
        lemma_edit_inverse(es[0], s);
        lemma_edits_concat(inv_rest, single, edits_apply(rest, s1));
        assert(inv_rest.push(edit_inverse(es[0], s)) =~= inv_rest + single);
        assert(single.drop_first() =~= Seq::<Edit<A>>::empty());
        assert(edits_valid(single.drop_first(), s));
        assert(edits_valid(single, s1));
        assert(edits_apply(single.drop_first(), s) == s);
        assert(edits_apply(single, s1) == s);
        assert(edits_apply(es, s) == edits_apply(rest, s1));
        assert(edits_inverse(es, s) == inv_rest.push(edit_inverse(es[0], s)));
    }
}

/// Applies `edits` in order to `items` and returns the edits that undo them.
fn apply_edits<A>(edits: Vec<Edit<A>>, items: &mut Vec<A>) -> (inverse: Vec<Edit<A>>)
    requires
        edits_valid(edits@, old(items)@),
    ensures
        final(items)@ == edits_apply(edits@, old(items)@),
        inverse@ == edits_inverse(edits@, old(items)@),
{
    let ghost all = edits@;
    let ghost start = items@;
    let mut edits = edits;
    let mut inverse: Vec<Edit<A>> = Vec::new();
    while edits.len() > 0
        invariant
            edits_valid(edits@, items@),
            edits_apply(all, start) == edits_apply(edits@, items@),
            edits_inverse(all, start) == edits_inverse(edits@, items@) + inverse@,
        decreases edits.len(),
    {
        let ghost before = items@;
        let ghost remaining = edits@;
        let edit = edits.remove(0);
        assert(edits@ =~= remaining.drop_first());
        let undo = match edit {
            Edit::Insert { index, item } => {
                items.insert(index, item);
                Edit::Remove { index }
            },
            Edit::Remove { index } => {
                let item = items.remove(index);
                Edit::Insert { index, item }
            },
            Edit::Replace { index, item } => {
                let previous = items.remove(index);
                items.insert(index, item);
                proof {
                    assert(items@ =~= before.update(index as int, item));
                }
                Edit::Replace { index, item: previous }
            },
        };
        assert(items@ =~= edit_apply(remaining[0], before));
        assert(undo == edit_inverse(remaining[0], before));
        let ghost old_inverse = inverse@;
        inverse.insert(0, undo);
        assert(inverse@ =~= seq![undo] + old_inverse);
        assert(edits_inverse(remaining, before) == edits_inverse(edits@, items@).push(undo));
        assert(edits_inverse(edits@, items@).push(undo) + old_inverse =~= edits_inverse(
            edits@,
            items@,
        ) + inverse@);
    }
    assert(edits_inverse(edits@, items@) =~= Seq::<Edit<A>>::empty());
    assert(edits_inverse(all, start) =~= inverse@);
    inverse
}

} // verus!

verus! {

/// What a document is: its items, the states that undo returns to (oldest
/// first) and the states that redo returns to (the next one last).
pub ghost struct DocumentModel<A> {
    pub items: Seq<A>,
    pub past: Seq<Seq<A>>,
    pub future: Seq<Seq<A>>,
}

/// `past` with `state` recorded on top, the oldest entry dropped when the
/// history is full.
pub open spec fn bounded_push<A>(past: Seq<Seq<A>>, state: Seq<A>) -> Seq<Seq<A>> {
    if past.len() >= MAX_HISTORY_ENTRIES {
        past.drop_first().push(state)
    } else {
        past.push(state)
    }
}

/// The document after an edit that leaves `items`.
pub open spec fn after_edit<A>(m: DocumentModel<A>, items: Seq<A>) -> DocumentModel<A> {
    DocumentModel { items, past: bounded_push(m.past, m.items), future: Seq::empty() }
}

/// The document after `undo`.
pub open spec fn after_undo<A>(m: DocumentModel<A>) -> DocumentModel<A> {
    if m.past.len() == 0 {
        m
    } else {
        DocumentModel {
            items: m.past.last(),
            past: m.past.drop_last(),
            future: m.future.push(m.items),
        }
    }
}

/// The document after `redo`.
pub open spec fn after_redo<A>(m: DocumentModel<A>) -> DocumentModel<A> {
    if m.future.len() == 0 {
        m
    } else {
        DocumentModel {
            items: m.future.last(),
            past: bounded_push(m.past, m.items),
            future: m.future.drop_last(),
        }
    }
}

/// A model that a document can have: the undo history is bounded.
pub open spec fn model_wf<A>(m: DocumentModel<A>) -> bool {
    m.past.len() <= MAX_HISTORY_ENTRIES
}

/// The state that entry `i` of a history stack is undone from.
pub open spec fn state_above<A>(states: Seq<Seq<A>>, top: Seq<A>, i: int) -> Seq<A> {
    if i + 1 < states.len() {
        states[i + 1]
    } else {
        top
    }
}

/// Each stored command turns the state above it into the recorded state.
pub open spec fn stack_ok<A>(cmds: Seq<Seq<Edit<A>>>, states: Seq<Seq<A>>, top: Seq<A>) -> bool {
    &&& cmds.len() == states.len()
    &&& forall|i: int|
        0 <= i < cmds.len() ==> #[trigger] reverts(cmds[i], state_above(states, top, i), states[i])
}

proof fn lemma_stack_push<A>(
    cmds: Seq<Seq<Edit<A>>>,
    states: Seq<Seq<A>>,
    top: Seq<A>,
    inv: Seq<Edit<A>>,
    new_top: Seq<A>,
)
    requires
        stack_ok(cmds, states, top),
        reverts(inv, new_top, top),
    ensures
        stack_ok(cmds.push(inv), states.push(top), new_top),
{
    let c = cmds.push(inv);
    let s = states.push(top);
    assert forall|i: int| 0 <= i < c.len() implies #[trigger] reverts(
        c[i],
        state_above(s, new_top, i),
        s[i],
    ) by {
        if i < cmds.len() {
            assert(c[i] == cmds[i]);
            assert(reverts(cmds[i], state_above(states, top, i), states[i]));
        }
    }
}

proof fn lemma_stack_drop_first<A>(cmds: Seq<Seq<Edit<A>>>, states: Seq<Seq<A>>, top: Seq<A>)
    requires
        stack_ok(cmds, states, top),
        cmds.len() > 0,
    ensures
        stack_ok(cmds.drop_first(), states.drop_first(), top),
{
    let c = cmds.drop_first();
    let s = states.drop_first();
    assert forall|i: int| 0 <= i < c.len() implies #[trigger] reverts(
        c[i],
        state_above(s, top, i),
        s[i],
    ) by {
        assert(reverts(cmds[i + 1], state_above(states, top, i + 1), states[i + 1]));
    }
}

proof fn lemma_stack_pop<A>(cmds: Seq<Seq<Edit<A>>>, states: Seq<Seq<A>>, top: Seq<A>)
    requires
        stack_ok(cmds, states, top),
        cmds.len() > 0,
    ensures
        stack_ok(cmds.drop_last(), states.drop_last(), states.last()),
        reverts(cmds.last(), top, states.last()),
{
    let c = cmds.drop_last();
    let s = states.drop_last();
    assert(reverts(cmds[cmds.len() - 1], state_above(states, top, cmds.len() - 1), states[cmds.len() - 1]));
    assert forall|i: int| 0 <= i < c.len() implies #[trigger] reverts(
        c[i],
        state_above(s, states.last(), i),
        s[i],
    ) by {
        assert(reverts(cmds[i], state_above(states, top, i), states[i]));
    }
}

/// Inserting `xs` one by one at `start, start + 1, ...`.
pub open spec fn insert_batch<A>(start: int, xs: Seq<A>) -> Seq<Edit<A>>
    decreases xs.len(),
{
    if xs.len() == 0 {
        Seq::empty()
    } else {
        insert_batch(start, xs.drop_last()).push(
            Edit::Insert { index: (start + xs.len() - 1) as usize, item: xs.last() },
        )
    }
}

proof fn lemma_insert_batch<A>(s: Seq<A>, xs: Seq<A>)
    requires
        s.len() + xs.len() <= usize::MAX,
    ensures
        edits_valid(insert_batch(s.len() as int, xs), s),
        edits_apply(insert_batch(s.len() as int, xs), s) == s + xs,
    decreases xs.len(),
{
    if xs.len() == 0 {
        assert(s + xs =~= s);
    } else {
        let front = xs.drop_last();
        lemma_insert_batch(s, front);
        let last = seq![Edit::Insert { index: (s.len() + xs.len() - 1) as usize, item: xs.last() }];
        lemma_edits_concat(insert_batch(s.len() as int, front), last, s);
        assert(insert_batch(s.len() as int, front) + last =~= insert_batch(s.len() as int, xs));
        lemma_single_edit(last[0], s + front);
        assert(last =~= seq![last[0]]);
        assert((s + front).insert(s.len() + front.len() as int, xs.last()) =~= s + xs);
        assert(edits_valid(last, s + front));
        assert(edits_apply(last, s + front) == s + xs);
    }
}

/// Removing the last item `n` times.
pub open spec fn remove_batch<A>(n: nat) -> Seq<Edit<A>>
    decreases n,
{
    if n == 0 {
        Seq::empty()
    } else {
        seq![Edit::Remove { index: (n - 1) as usize }] + remove_batch((n - 1) as nat)
    }
}

proof fn lemma_remove_batch<A>(s: Seq<A>)
    requires
        s.len() <= usize::MAX,
    ensures
        edits_valid(remove_batch(s.len()), s),
        edits_apply(remove_batch(s.len()), s) == Seq::<A>::empty(),
    decreases s.len(),
{
    if s.len() == 0 {
    } else {
        let first = seq![Edit::<A>::Remove { index: (s.len() - 1) as usize }];
        let rest = remove_batch::<A>((s.len() - 1) as nat);
        lemma_remove_batch(s.drop_last());
        assert(s.remove(s.len() - 1) =~= s.drop_last());
        lemma_edits_concat(first, rest, s);
        lemma_single_edit(first[0], s);
        assert(first =~= seq![first[0]]);
        assert(edits_valid(first, s));
        assert(edits_apply(first, s) == s.drop_last());
    }
}

/// Undoing an edit brings back the items from before it; the history from
/// before it comes back too unless the edit pushed out the oldest step.
pub proof fn undo_reverts_edit<A>(m: DocumentModel<A>, items: Seq<A>)
    requires
        model_wf(m),
    ensures
        after_undo(after_edit(m, items)).items == m.items,
        after_undo(after_edit(m, items)).future == seq![items],
        m.past.len() < MAX_HISTORY_ENTRIES ==> after_undo(after_edit(m, items)).past == m.past,
{
    if m.past.len() < MAX_HISTORY_ENTRIES {
        assert(m.past.push(m.items).drop_last() =~= m.past);
    }
    assert(Seq::<Seq<A>>::empty().push(items) =~= seq![items]);
}

/// Redoing what was just undone restores the document exactly.
pub proof fn redo_reverts_undo<A>(m: DocumentModel<A>)
    requires
        model_wf(m),
        m.past.len() > 0,
    ensures
        after_redo(after_undo(m)) == m,
{
    assert(m.past.drop_last().push(m.past.last()) =~= m.past);
    assert(m.future.push(m.items).drop_last() =~= m.future);
}

/// Undoing what was just redone restores the document exactly, as long as
/// the redo did not push the oldest step out of a full history.
pub proof fn undo_reverts_redo<A>(m: DocumentModel<A>)
    requires
        model_wf(m),
        m.future.len() > 0,
        m.past.len() < MAX_HISTORY_ENTRIES,
    ensures
        after_undo(after_redo(m)) == m,
{
    assert(m.past.push(m.items).drop_last() =~= m.past);
    assert(m.future.drop_last().push(m.future.last()) =~= m.future);
}

/// A new edit forgets everything that could have been redone.
pub proof fn edit_clears_redo<A>(m: DocumentModel<A>, items: Seq<A>)
    ensures
        after_edit(m, items).future.len() == 0,
        after_edit(m, items).items == items,
{
}

/// The history never holds more than `MAX_HISTORY_ENTRIES` steps; an edit
/// adds one step, and once the history is full it stays full.
pub proof fn history_is_bounded<A>(m: DocumentModel<A>, items: Seq<A>)
    requires
        model_wf(m),
    ensures
        model_wf(after_edit(m, items)),
        model_wf(after_undo(m)),
        model_wf(after_redo(m)),
        after_edit(m, items).past.len() == if m.past.len() < MAX_HISTORY_ENTRIES {
            m.past.len() + 1
        } else {
            MAX_HISTORY_ENTRIES as nat
        },
        after_edit(m, items).past.last() == m.items,
{
}

/// An ordered list of annotations with a bounded undo/redo history.
pub struct AnnotationDocument<A> {
    items: Vec<A>,
    undo: Vec<Vec<Edit<A>>>,
    redo: Vec<Vec<Edit<A>>>,
    past: Ghost<Seq<Seq<A>>>,
    future: Ghost<Seq<Seq<A>>>,
}

impl<A> View for AnnotationDocument<A> {
    type V = DocumentModel<A>;

    closed spec fn view(&self) -> DocumentModel<A> {
        DocumentModel { items: self.items@, past: self.past@, future: self.future@ }
    }
}

/// The stored commands of a stack of edit lists.
pub open spec fn stack_view<A>(cmds: Seq<Vec<Edit<A>>>) -> Seq<Seq<Edit<A>>> {
    cmds.map_values(|c: Vec<Edit<A>>| c@)
}

impl<A> Default for AnnotationDocument<A> {
    fn default() -> (d: Self)
        ensures
            d.wf(),
            d@.items == Seq::<A>::empty(),
            d@.past == Seq::<Seq<A>>::empty(),
            d@.future == Seq::<Seq<A>>::empty(),
    {
        AnnotationDocument::new()
    }
}

impl<A> AnnotationDocument<A> {
    /// The document's internal invariant: every stored command leads back to
    /// the recorded state.
    pub closed spec fn wf(&self) -> bool {
        &&& self.past@.len() <= MAX_HISTORY_ENTRIES
        &&& stack_ok(stack_view(self.undo@), self.past@, self.items@)
        &&& stack_ok(stack_view(self.redo@), self.future@, self.items@)
    }

    /// An empty document with no history.
    pub fn new() -> (d: Self)
        ensures
            d.wf(),
            d@.items == Seq::<A>::empty(),
            d@.past == Seq::<Seq<A>>::empty(),
            d@.future == Seq::<Seq<A>>::empty(),
    {
        let d = AnnotationDocument {
            items: Vec::new(),
            undo: Vec::new(),
            redo: Vec::new(),
            past: Ghost(Seq::empty()),
            future: Ghost(Seq::empty()),
        };
        assert(stack_view(d.undo@) =~= Seq::<Seq<Edit<A>>>::empty());
        assert(stack_view(d.redo@) =~= Seq::<Seq<Edit<A>>>::empty());
        d
    }

    /// Records `inverse` as the newest undo step, dropping the oldest one
    /// when the history is full; `prev` is the state `inverse` returns to.
    fn push_undo(&mut self, inverse: Vec<Edit<A>>, Ghost(prev): Ghost<Seq<A>>)
        requires
            old(self).past@.len() <= MAX_HISTORY_ENTRIES,
            stack_ok(stack_view(old(self).undo@), old(self).past@, prev),
            reverts(inverse@, old(self).items@, prev),
        ensures
            final(self).items@ == old(self).items@,
            final(self).redo@ == old(self).redo@,
            final(self).future@ == old(self).future@,
            final(self).past@ == bounded_push(old(self).past@, prev),
            final(self).past@.len() <= MAX_HISTORY_ENTRIES,
            stack_ok(stack_view(final(self).undo@), final(self).past@, final(self).items@),
    {
        let ghost cmds = stack_view(self.undo@);
        if self.undo.len() >= MAX_HISTORY_ENTRIES {
            let ghost before = self.undo@;
            self.undo.remove(0);
            proof {
                lemma_stack_drop_first(cmds, self.past@, prev);
                assert(stack_view(self.undo@) =~= cmds.drop_first());
                self.past@ = self.past@.drop_first();
            }
        }
        let ghost mid = stack_view(self.undo@);
        let ghost inv = inverse@;
        self.undo.push(inverse);
        proof {
            lemma_stack_push(mid, self.past@, prev, inv, self.items@);
            assert(stack_view(self.undo@) =~= mid.push(inv));
            self.past@ = self.past@.push(prev);
        }
    }

    /// Applies `edits` as one undoable step and forgets the redo history.
    fn execute(&mut self, edits: Vec<Edit<A>>)
        requires
            old(self).wf(),
            edits_valid(edits@, old(self)@.items),
        ensures
            final(self).wf(),
            final(self)@ == after_edit(old(self)@, edits_apply(edits@, old(self)@.items)),
    {
        let ghost prev = self.items@;
        let ghost es = edits@;
        let inverse = apply_edits(edits, &mut self.items);
        proof {
            lemma_edits_inverse(es, prev);
        }
        self.push_undo(inverse, Ghost(prev));
        self.redo.clear();
        proof {
            self.future@ = Seq::empty();
            assert(stack_view(self.redo@) =~= Seq::<Seq<Edit<A>>>::empty());
        }
    }

    /// Appends `annotation` as one undoable step.
    pub fn push(&mut self, annotation: A)
        requires
            old(self).wf(),
        ensures
            final(self).wf(),
            final(self)@ == after_edit(old(self)@, old(self)@.items.push(annotation)),
    {
        let index = self.items.len();
        let mut edits: Vec<Edit<A>> = Vec::new();
        edits.push(Edit::Insert { index, item: annotation });
        proof {
            let e = edits@;
            lemma_single_edit(e[0], self.items@);
            assert(e =~= seq![e[0]]);
            assert(edits_valid(e, self.items@));
            assert(self.items@.insert(index as int, annotation) =~= self.items@.push(annotation));
            assert(edits_apply(e, self.items@) == self.items@.push(annotation));
        }
        self.execute(edits);
    }

    /// Appends all of `annotations` as one undoable step; nothing is recorded
    /// when `annotations` is empty.
    pub fn extend(&mut self, annotations: Vec<A>)
        requires
            old(self).wf(),
            old(self)@.items.len() + annotations@.len() <= usize::MAX,
        ensures
            final(self).wf(),
            annotations@.len() == 0 ==> final(self)@ == old(self)@,
            annotations@.len() > 0 ==> final(self)@ == after_edit(
                old(self)@,
                old(self)@.items + annotations@,
            ),
    {
        let start = self.items.len();
        let ghost all = annotations@;
        let mut rest = annotations;
        let mut edits: Vec<Edit<A>> = Vec::new();
        let mut offset: usize = 0;
        while rest.len() > 0
            invariant
                start == self.items@.len(),
                start + all.len() <= usize::MAX,
                offset + rest@.len() == all.len(),
                rest@ == all.skip(offset as int),
                edits@ == insert_batch(start as int, all.take(offset as int)),
            decreases rest.len(),
        {
            let ghost before = rest@;
            let annotation = rest.remove(0);
            assert(rest@ =~= all.skip(offset + 1));
            assert(annotation == all[offset as int]);
            edits.push(Edit::Insert { index: start + offset, item: annotation });
            assert(all.take(offset + 1).drop_last() =~= all.take(offset as int));
            offset += 1;
            assert(edits@ =~= insert_batch(start as int, all.take(offset as int)));
        }
        assert(all.take(offset as int) =~= all);
        if edits.len() == 0 {
            return;
        }
        proof {
            lemma_insert_batch(self.items@, all);
        }
        self.execute(edits);
    }

    /// Removes the item at `index` as one undoable step; `false`, with
    /// nothing changed, when there is no such item.
    pub fn remove(&mut self, index: usize) -> (removed: bool)
        requires
            old(self).wf(),
        ensures
            final(self).wf(),
            removed == (index < old(self)@.items.len()),
            removed ==> final(self)@ == after_edit(
                old(self)@,
                old(self)@.items.remove(index as int),
            ),
            !removed ==> final(self)@ == old(self)@,
    {
        if index >= self.items.len() {
            return false;
        }
        let mut edits: Vec<Edit<A>> = Vec::new();
        edits.push(Edit::Remove { index });
        proof {
            let e = edits@;
            lemma_single_edit(e[0], self.items@);
            assert(e =~= seq![e[0]]);
            assert(edits_valid(e, self.items@));
            assert(edits_apply(e, self.items@) == self.items@.remove(index as int));
        }
        self.execute(edits);
        true
    }

    /// Replaces the item at `index` as one undoable step.  Nothing changes,
    /// and `false` is returned, when there is no such item or the item
    /// already equals `annotation`.
    pub fn replace(&mut self, index: usize, annotation: A) -> (replaced: bool) where A: PartialEq
        requires
            old(self).wf(),
        ensures
            final(self).wf(),
            index >= old(self)@.items.len() ==> !replaced,
            A::obeys_eq_spec() ==> replaced == (index < old(self)@.items.len()
                && !old(self)@.items[index as int].eq_spec(&annotation)),
            replaced ==> final(self)@ == after_edit(
                old(self)@,
                old(self)@.items.update(index as int, annotation),
            ),
            !replaced ==> final(self)@ == old(self)@,
    {
        if index >= self.items.len() {
            return false;
        }
        if self.items[index] == annotation {
            return false;
        }
        let mut edits: Vec<Edit<A>> = Vec::new();
        edits.push(Edit::Replace { index, item: annotation });
        proof {
            let e = edits@;
            lemma_single_edit(e[0], self.items@);
            assert(e =~= seq![e[0]]);
            assert(edits_valid(e, self.items@));
            assert(edits_apply(e, self.items@) == self.items@.update(index as int, annotation));
        }
        self.execute(edits);
        true
    }

    /// Returns to the state before the newest recorded step; `false`, with
    /// nothing changed, when there is none.
    pub fn undo(&mut self) -> (undone: bool)
        requires
            old(self).wf(),
        ensures
            final(self).wf(),
            undone == (old(self)@.past.len() > 0),
            final(self)@ == after_undo(old(self)@),
    {
        let ghost cmds = stack_view(self.undo@);
        let ghost top = self.items@;
        let ghost past = self.past@;
        let command = match self.undo.pop() {
            Some(command) => command,
            None => return false,
        };
        proof {
            lemma_stack_pop(cmds, past, top);
            assert(stack_view(self.undo@) =~= cmds.drop_last());
            assert(command@ == cmds.last());
        }
        let ghost es = command@;
        let inverse = apply_edits(command, &mut self.items);
        let ghost inv = inverse@;
        let ghost redo_cmds = stack_view(self.redo@);
        proof {
            lemma_edits_inverse(es, top);
            self.past@ = past.drop_last();
            lemma_stack_push(redo_cmds, self.future@, top, inv, self.items@);
        }
        self.redo.push(inverse);
        proof {
            assert(stack_view(self.redo@) =~= redo_cmds.push(inv));
            self.future@ = self.future@.push(top);
        }
        true
    }

    /// Re-applies the step that the newest undo reverted; `false`, with
    /// nothing changed, when there is none.
    pub fn redo(&mut self) -> (redone: bool)
        requires
            old(self).wf(),
        ensures
            final(self).wf(),
            redone == (old(self)@.future.len() > 0),
            final(self)@ == after_redo(old(self)@),
    {
        let ghost cmds = stack_view(self.redo@);
        let ghost top = self.items@;
        let ghost future = self.future@;
        let command = match self.redo.pop() {
            Some(command) => command,
            None => return false,
        };
        proof {
            lemma_stack_pop(cmds, future, top);
            assert(stack_view(self.redo@) =~= cmds.drop_last());
            assert(command@ == cmds.last());
            self.future@ = future.drop_last();
        }
        let ghost es = command@;
        let inverse = apply_edits(command, &mut self.items);
        proof {
            lemma_edits_inverse(es, top);
        }
        self.push_undo(inverse, Ghost(top));
        true
    }

    /// Removes every item as one undoable step; `false`, with nothing
    /// changed, when the document is already empty.
    pub fn clear(&mut self) -> (cleared: bool)
        requires
            old(self).wf(),
        ensures
            final(self).wf(),
            cleared == (old(self)@.items.len() > 0),
            cleared ==> final(self)@ == after_edit(old(self)@, Seq::<A>::empty()),
            !cleared ==> final(self)@ == old(self)@,
    {
        let n = self.items.len();
        if n == 0 {
            return false;
        }
        let mut edits: Vec<Edit<A>> = Vec::new();
        let mut k: usize = n;
        while k > 0
            invariant
                k <= n,
                n == self.items@.len(),
                edits@ + remove_batch::<A>(k as nat) == remove_batch::<A>(n as nat),
            decreases k,
        {
            assert(remove_batch::<A>(k as nat) =~= seq![Edit::<A>::Remove { index: (k - 1) as usize }]
                + remove_batch::<A>((k - 1) as nat));
            edits.push(Edit::Remove { index: k - 1 });
            k -= 1;
            assert(edits@ + remove_batch::<A>(k as nat) =~= remove_batch::<A>(n as nat));
        }
        assert(edits@ =~= remove_batch::<A>(n as nat));
        proof {
            lemma_remove_batch(self.items@);
        }
        self.execute(edits);
        true
    }

    /// Drops every item and the whole history.
    pub fn reset(&mut self)
        ensures
            final(self).wf(),
            final(self)@.items == Seq::<A>::empty(),
            final(self)@.past == Seq::<Seq<A>>::empty(),
            final(self)@.future == Seq::<Seq<A>>::empty(),
    {
        self.items.clear();
        self.undo.clear();
        self.redo.clear();
        proof {
            self.past@ = Seq::empty();
            self.future@ = Seq::empty();
            assert(stack_view(self.undo@) =~= Seq::<Seq<Edit<A>>>::empty());
            assert(stack_view(self.redo@) =~= Seq::<Seq<Edit<A>>>::empty());
        }
    }

    /// Whether `undo` would change the document.
    pub fn can_undo(&self) -> (r: bool)
        requires
            self.wf(),
        ensures
            r == (self@.past.len() > 0),
    {
        self.undo.len() > 0
    }

    /// Whether `redo` would change the document.
    pub fn can_redo(&self) -> (r: bool)
        requires
            self.wf(),
        ensures
            r == (self@.future.len() > 0),
    {
        self.redo.len() > 0
    }

    /// The current items, in order.
    pub fn items(&self) -> (r: &[A])
        ensures
            r@ == self@.items,
    {
        self.items.as_slice()
    }
}

} // verus!
