//! Shared ownership with strong and weak handles.
//!
//! One allocation carries two counts: the strong count (owning handles) and
//! the alloc count (weak handles, plus one while any owning handle exists).
//! The payload lives while the strong count is positive; the allocation lives
//! while the alloc count is positive.
//!
//! `Arc<T>` below is the state of one such allocation as its handles see it
//! between their atomic steps; each method is one step that a handle takes.
//! The `*_step` functions are the decisions that a handle takes on the value
//! that its atomic operation observed.
use vstd::prelude::*;

verus! {

/// The alloc count while a `get_mut` check holds it, which keeps new weak
/// handles from being made until the check is over.
pub const ALLOC_LOCKED: usize = usize::MAX;

/// Counts above this bound are treated as runaway reference creation.
pub const MAX_REFS: usize = usize::MAX / 2;

/// A count of handles would leave its safe range.
#[derive(Debug, Clone, Copy, PartialEq, Eq, Structural)]
pub enum ArcError {
    TooManyReferences,
}

/// What the payload and counts of one allocation are.
pub struct ArcCounts<T> {
    pub strong: int,
    pub alloc: int,
    pub data: Option<T>,
}

/// The number of weak handles of an allocation.
pub open spec fn weak_count<T>(s: ArcCounts<T>) -> int {
    if s.strong > 0 {
        s.alloc - 1
    } else {
        s.alloc
    }
}

/// The counts of an allocation are consistent: the payload exists exactly
/// while an owning handle does, the alloc count holds the weak handles plus
/// one for the owners, and no count has run past its bound.
pub open spec fn counts_wf<T>(s: ArcCounts<T>) -> bool {
    &&& 0 <= s.strong <= MAX_REFS + 1
    &&& weak_count(s) >= 0
    &&& s.alloc <= MAX_REFS + 1
    &&& (s.data is Some <==> s.strong > 0)
}

/// A fresh allocation holding `v`.
pub open spec fn new_spec<T>(v: T) -> ArcCounts<T> {
    ArcCounts { strong: 1, alloc: 1, data: Some(v) }
}

/// The allocation after an owning handle is cloned.
pub open spec fn clone_spec<T>(s: ArcCounts<T>) -> ArcCounts<T> {
    ArcCounts { strong: s.strong + 1, ..s }
}

/// The allocation after an owning handle is dropped: the last one destroys
/// the payload and gives up the owners' unit of the alloc count.
pub open spec fn drop_spec<T>(s: ArcCounts<T>) -> ArcCounts<T> {
    if s.strong == 1 {
        ArcCounts { strong: 0, alloc: s.alloc - 1, data: None }
    } else {
        ArcCounts { strong: s.strong - 1, ..s }
    }
}

/// The allocation after a weak handle is made, by downgrade or by clone.
pub open spec fn add_weak_spec<T>(s: ArcCounts<T>) -> ArcCounts<T> {
    ArcCounts { alloc: s.alloc + 1, ..s }
}

/// The allocation after an upgrade, and what the upgrade returns: an owner
/// is added only while one exists.
pub open spec fn upgrade_spec<T>(s: ArcCounts<T>) -> (ArcCounts<T>, Result<bool, ArcError>) {
    if s.strong == 0 {
        (s, Ok(false))
    } else if s.strong <= MAX_REFS {
        (clone_spec(s), Ok(true))
    } else {
        (s, Err(ArcError::TooManyReferences))
    }
}

/// Whether the drop of an owning handle destroys the payload.
pub open spec fn drop_destroys<T>(s: ArcCounts<T>) -> bool {
    s.strong == 1
}

/// A clone (`true`) or a drop (`false`) of an owning handle.
pub open spec fn apply_op<T>(s: ArcCounts<T>, is_clone: bool) -> ArcCounts<T> {
    if is_clone {
        clone_spec(s)
    } else {
        drop_spec(s)
    }
}

/// The allocation after a sequence of clones and drops.
pub open spec fn apply_ops<T>(s: ArcCounts<T>, ops: Seq<bool>) -> ArcCounts<T>
    decreases ops.len(),
{
    if ops.len() == 0 {
        s
    } else {
        apply_op(apply_ops(s, ops.drop_last()), ops.last())
    }
}

/// How many steps of a sequence of clones and drops destroyed the payload.
pub open spec fn destructions<T>(s: ArcCounts<T>, ops: Seq<bool>) -> int
    decreases ops.len(),
{
    if ops.len() == 0 {
        0
    } else {
        let before = apply_ops(s, ops.drop_last());
        destructions(s, ops.drop_last()) + if !ops.last() && drop_destroys(before) {
            1int
        } else {
            0int
        }
    }
}

/// How many clones a sequence holds.
pub open spec fn clones(ops: Seq<bool>) -> int
    decreases ops.len(),
{
    if ops.len() == 0 {
        0
    } else {
        clones(ops.drop_last()) + if ops.last() {
            1int
        } else {
            0int
        }
    }
}

/// How many drops a sequence holds.
pub open spec fn drops(ops: Seq<bool>) -> int
    decreases ops.len(),
{
    if ops.len() == 0 {
        0
    } else {
        drops(ops.drop_last()) + if ops.last() {
            0int
        } else {
            1int
        }
    }
}

/// A sequence that a set of owning handles can perform: each step is taken by
/// a handle that exists, so no step comes after the last owner is gone, and
/// no clone runs past the bound.
pub open spec fn performable(ops: Seq<bool>) -> bool {
    &&& forall|i: int| 0 <= i < ops.len() ==> drops(#[trigger] ops.take(i)) <= clones(ops.take(i))
    &&& clones(ops) <= MAX_REFS
}

/// What a clone of an owning handle decides from the count that its
/// increment returned: a count past the bound means runaway cloning.
pub fn clone_step(prev: usize) -> (r: Result<(), ArcError>)
    ensures
        r is Ok <==> prev <= MAX_REFS,
{
    if prev > MAX_REFS {
        Err(ArcError::TooManyReferences)
    } else {
        Ok(())
    }
}

/// What a drop decides from the count that its decrement returned: it was
/// the last handle of its kind exactly when the count was one.
pub fn drop_step(prev: usize) -> (r: bool)
    ensures
        r == (prev == 1),
{
    prev == 1
}

/// The next move of a downgrade that observed `count` as the alloc count.
#[derive(Debug, Clone, Copy, PartialEq, Eq, Structural)]
pub enum DowngradeStep {
    /// A `get_mut` check holds the count: load it again.
    Spin,
    /// Try to move the count from the observed value to this one.
    Exchange(usize),
    /// The count would leave its safe range.
    Overflow,
}

pub fn downgrade_step(count: usize) -> (r: DowngradeStep)
    ensures
        count == ALLOC_LOCKED ==> r == DowngradeStep::Spin,
        count < usize::MAX - 1 ==> r == DowngradeStep::Exchange((count + 1) as usize),
        count == usize::MAX - 1 ==> r == DowngradeStep::Overflow,
{
    if count == ALLOC_LOCKED {
        DowngradeStep::Spin
    } else if count < usize::MAX - 1 {
        DowngradeStep::Exchange(count + 1)
    } else {
        DowngradeStep::Overflow
    }
}

/// The next move of an upgrade that observed `count` as the strong count.
#[derive(Debug, Clone, Copy, PartialEq, Eq, Structural)]
pub enum UpgradeStep {
    /// No owner is left: the payload is gone and must not be revived.
    Gone,
    /// Try to move the count from the observed value to this one.
    Exchange(usize),
    /// The count would leave its safe range.
    Overflow,
}

/// The next move of an upgrade that observed `count`.
pub open spec fn upgrade_step_spec(count: usize) -> UpgradeStep {
    if count == 0 {
        UpgradeStep::Gone
    } else if count <= MAX_REFS {
        UpgradeStep::Exchange((count + 1) as usize)
    } else {
        UpgradeStep::Overflow
    }
}

pub fn upgrade_step(count: usize) -> (r: UpgradeStep)
    ensures
        r == upgrade_step_spec(count),
{
    if count == 0 {
        UpgradeStep::Gone
    } else if count <= MAX_REFS {
        UpgradeStep::Exchange(count + 1)
    } else {
        UpgradeStep::Overflow
    }
}

/// An upgrade never brings a payload back: it tries to raise the strong
/// count only from a positive value that it observed, and its
/// compare-and-swap succeeds only while the count still holds that value.
pub proof fn lemma_upgrade_never_from_zero(seen: usize, current: usize)
    ensures
        upgrade_step_spec(seen) is Exchange && current == seen ==> current > 0,
        seen == 0 ==> upgrade_step_spec(seen) == UpgradeStep::Gone,
{
}

/// What a `get_mut` check decides: it may hand out the payload only when it
/// took hold of the alloc count at one (no weak handle and no downgrade in
/// flight) and then saw a strong count of one (no other owner).
pub fn get_mut_step(locked_alloc: bool, strong: usize) -> (r: bool)
    ensures
        r == (locked_alloc && strong == 1),
{
    locked_alloc && strong == 1
}

/// One shared allocation: its strong count, its alloc count and its payload.
pub struct Arc<T> {
    data_ref_count: usize,
    alloc_ref_count: usize,
    data: Option<T>,
}

/// A weak handle: it keeps the allocation, not the payload, alive.
pub struct Weak {}

impl<T> View for Arc<T> {
    type V = ArcCounts<T>;

    closed spec fn view(&self) -> ArcCounts<T> {
        ArcCounts {
            strong: self.data_ref_count as int,
            alloc: self.alloc_ref_count as int,
            data: self.data,
        }
    }
}

impl<T> Arc<T> {
    pub fn new(data: T) -> (r: Self)
        ensures
            r@ == new_spec(data),
            counts_wf(r@),
    {
        Arc { data_ref_count: 1, alloc_ref_count: 1, data: Some(data) }
    }

    pub fn strong_count(arc: &Self) -> (r: usize)
        ensures
            r == arc@.strong,
    {
        arc.data_ref_count
    }

    /// The number of weak handles.
    pub fn weak_count(arc: &Self) -> (r: usize)
        requires
            counts_wf(arc@),
        ensures
            r == weak_count(arc@),
    {
        if arc.data_ref_count > 0 {
            arc.alloc_ref_count - 1
        } else {
            arc.alloc_ref_count
        }
    }

    /// The alloc count: the weak handles, plus one while an owner exists.
    pub fn alloc_count(arc: &Self) -> (r: usize)
        ensures
            r == arc@.alloc,
    {
        arc.alloc_ref_count
    }

    /// The payload, while an owner exists.
    pub fn data(arc: &Self) -> (r: Option<&T>)
        ensures
            r is Some <==> arc@.data is Some,
            r is Some ==> *(r->Some_0) == arc@.data->Some_0,
    {
        arc.data.as_ref()
    }

    /// Whether the payload is still alive.
    pub fn has_data(arc: &Self) -> (r: bool)
        ensures
            r == (arc@.data is Some),
    {
        arc.data.is_some()
    }

    /// Clones an owning handle; refuses when the strong count is past its
    /// bound.
    pub fn clone_strong(&mut self) -> (r: Result<(), ArcError>)
        requires
            counts_wf(old(self)@),
            old(self)@.strong > 0,
        ensures
            r is Ok <==> old(self)@.strong <= MAX_REFS,
            r is Ok ==> final(self)@ == clone_spec(old(self)@),
            r is Err ==> final(self)@ == old(self)@,
            counts_wf(final(self)@),
    {
        match clone_step(self.data_ref_count) {
            Ok(()) => {
                self.data_ref_count = self.data_ref_count + 1;
                Ok(())
            },
            Err(e) => Err(e),
        }
    }

    /// Drops an owning handle. The last one destroys the payload and returns
    /// `true`.
    pub fn drop_strong(&mut self) -> (r: bool)
        requires
            counts_wf(old(self)@),
            old(self)@.strong > 0,
        ensures
            final(self)@ == drop_spec(old(self)@),
            r == drop_destroys(old(self)@),
            counts_wf(final(self)@),
    {
        let last = drop_step(self.data_ref_count);
        self.data_ref_count = self.data_ref_count - 1;
        if last {
            self.data = None;
            self.alloc_ref_count = self.alloc_ref_count - 1;
        }
        last
    }

    /// Makes a weak handle from an owning one.
    pub fn downgrade(arc: &mut Self) -> (r: Result<Weak, ArcError>)
        requires
            counts_wf(old(arc)@),
            old(arc)@.strong > 0,
        ensures
            r is Ok <==> old(arc)@.alloc <= MAX_REFS,
            r is Ok ==> final(arc)@ == add_weak_spec(old(arc)@),
            r is Err ==> final(arc)@ == old(arc)@,
            counts_wf(final(arc)@),
    {
        if arc.alloc_ref_count > MAX_REFS {
            return Err(ArcError::TooManyReferences);
        }
        match downgrade_step(arc.alloc_ref_count) {
            DowngradeStep::Exchange(next) => {
                arc.alloc_ref_count = next;
                Ok(Weak {})
            },
            _ => Err(ArcError::TooManyReferences),
        }
    }

    /// The payload, for exclusive use, when this is the only handle of any
    /// kind; nothing otherwise.
    pub fn get_mut(arc: &mut Self) -> (r: Option<&mut T>)
        requires
            counts_wf(old(arc)@),
            old(arc)@.strong > 0,
        ensures
            r is Some <==> (old(arc)@.strong == 1 && old(arc)@.alloc == 1),
            r is None ==> final(arc)@ == old(arc)@,
            r is Some ==> *(r->Some_0) == old(arc)@.data->Some_0,
            r is Some ==> final(arc)@ == (ArcCounts { data: Some(*final(r->Some_0)), ..old(arc)@ }),
    {
        let unique = get_mut_step(arc.alloc_ref_count == 1, arc.data_ref_count);
        if !unique {
            return None;
        }
        arc.data.as_mut()
    }
}

impl Weak {
    /// Makes an owning handle from a weak one, when an owner still exists.
    /// `Ok(false)` means that the payload is gone.
    pub fn upgrade<T>(&self, arc: &mut Arc<T>) -> (r: Result<bool, ArcError>)
        requires
            counts_wf(old(arc)@),
            weak_count(old(arc)@) > 0,
        ensures
            (final(arc)@, r) == upgrade_spec(old(arc)@),
            counts_wf(final(arc)@),
    {
        match upgrade_step(arc.data_ref_count) {
            UpgradeStep::Gone => Ok(false),
            UpgradeStep::Exchange(next) => {
                arc.data_ref_count = next;
                Ok(true)
            },
            UpgradeStep::Overflow => Err(ArcError::TooManyReferences),
        }
    }

    /// Clones a weak handle; refuses when the alloc count is past its bound.
    pub fn clone_weak<T>(&self, arc: &mut Arc<T>) -> (r: Result<Weak, ArcError>)
        requires
            counts_wf(old(arc)@),
            weak_count(old(arc)@) > 0,
        ensures
            r is Ok <==> old(arc)@.alloc <= MAX_REFS,
            r is Ok ==> final(arc)@ == add_weak_spec(old(arc)@),
            r is Err ==> final(arc)@ == old(arc)@,
            counts_wf(final(arc)@),
    {
        match clone_step(arc.alloc_ref_count) {
            Ok(()) => {
                arc.alloc_ref_count = arc.alloc_ref_count + 1;
                Ok(Weak {})
            },
            Err(e) => Err(e),
        }
    }

    /// Drops a weak handle. Returns `true` when it was the last handle of any
    /// kind, so that the allocation is freed.
    pub fn drop_weak<T>(self, arc: &mut Arc<T>) -> (r: bool)
        requires
            counts_wf(old(arc)@),
            weak_count(old(arc)@) > 0,
        ensures
            final(arc)@ == (ArcCounts { alloc: old(arc)@.alloc - 1, ..old(arc)@ }),
            r == (old(arc)@.alloc == 1),
            counts_wf(final(arc)@),
    {
        let last = drop_step(arc.alloc_ref_count);
        arc.alloc_ref_count = arc.alloc_ref_count - 1;
        last
    }
}

proof fn lemma_counts_nonneg(ops: Seq<bool>)
    ensures
        clones(ops) >= 0,
        drops(ops) >= 0,
    decreases ops.len(),
{
    if ops.len() > 0 {
        lemma_counts_nonneg(ops.drop_last());
    }
}

proof fn lemma_prefix_performable(ops: Seq<bool>)
    requires
        ops.len() > 0,
        performable(ops),
    ensures
        performable(ops.drop_last()),
        drops(ops.drop_last()) <= clones(ops.drop_last()),
{
    let pre = ops.drop_last();
    assert forall|i: int| 0 <= i < pre.len() implies drops(#[trigger] pre.take(i)) <= clones(
        pre.take(i),
    ) by {
        assert(pre.take(i) =~= ops.take(i));
        assert(drops(ops.take(i)) <= clones(ops.take(i)));
    }
    assert(ops.take(pre.len() as int) =~= pre);
    assert(drops(ops.take(pre.len() as int)) <= clones(ops.take(pre.len() as int)));
}

/// After any sequence of clones and drops that owning handles can perform,
/// starting from one owner, the strong count is one plus the clones minus
/// the drops; the payload exists exactly while that count is positive; it
/// was destroyed once if the count reached zero and never otherwise; and the
/// weak handles are untouched.
pub proof fn lemma_clone_drop_counts<T>(s: ArcCounts<T>, ops: Seq<bool>)
    requires
        counts_wf(s),
        s.strong == 1,
        performable(ops),
    ensures
        apply_ops(s, ops).strong == clones(ops) - drops(ops) + 1,
        apply_ops(s, ops).data is None <==> apply_ops(s, ops).strong == 0,
        apply_ops(s, ops).data is Some ==> apply_ops(s, ops).data == s.data,
        destructions(s, ops) == if apply_ops(s, ops).strong == 0 {
            1int
        } else {
            0int
        },
        weak_count(apply_ops(s, ops)) == weak_count(s),
        counts_wf(apply_ops(s, ops)),
    decreases ops.len(),
{
    lemma_counts_nonneg(ops);
    if ops.len() > 0 {
        let pre = ops.drop_last();
        lemma_counts_nonneg(pre);
        lemma_prefix_performable(ops);
        lemma_clone_drop_counts(s, pre);
        assert(clones(pre) <= clones(ops));
    }
}

/// An upgrade of a weak handle, made from the first owner, fails after every
/// owner has been dropped and succeeds while any owner is left, whatever
/// clones and drops came in between.
pub proof fn lemma_upgrade_after_drops<T>(v: T, ops: Seq<bool>)
    requires
        performable(ops),
        clones(ops) < MAX_REFS,
    ensures
        ({
            let s = apply_ops(add_weak_spec(new_spec(v)), ops);
            &&& s.strong == 0 ==> upgrade_spec(s).1 == Ok::<bool, ArcError>(false)
            &&& s.strong > 0 ==> upgrade_spec(s).1 == Ok::<bool, ArcError>(true)
            &&& s.strong > 0 ==> upgrade_spec(s).0.data == Some(v)
        }),
{
    lemma_counts_nonneg(ops);
    lemma_clone_drop_counts(add_weak_spec(new_spec(v)), ops);
}

} // verus!
