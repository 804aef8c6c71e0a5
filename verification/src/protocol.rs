//! The protocol of critical sections: which steps sections may take, and
//! what holds of every world that such steps lead to.
//!
//! A lock is known here by the number of its handle. A section may enter
//! only while no other section holds its lock: that is what the
//! exclusive-access primitive grants, and all that is taken from it.

use crate::handle::LockHandle;
use crate::registry::{answered, bound, lemma_bound, numbers, well_numbered};
use vstd::prelude::*;

verus! {

/// How far a critical section has come.
#[derive(Clone, Copy, Debug, PartialEq, Eq)]
pub enum Phase {
    /// It has its handle and waits for the lock.
    Waiting,
    /// It holds the lock; its operation may run.
    Holding,
    /// It has given the lock back.
    Released,
}

/// What the protocol knows of one critical section.
pub struct SectionView {
    /// The key that the section was requested for.
    pub key: Seq<char>,
    /// The number of the key's lock.
    pub lock: nat,
    /// How far the section has come.
    pub phase: Phase,
}

impl SectionView {
    /// A section that has just been requested.
    pub open spec fn waiting(key: Seq<char>, lock: nat) -> SectionView {
        SectionView { key, lock, phase: Phase::Waiting }
    }

    /// The section once it holds its lock.
    pub open spec fn entered(self) -> SectionView {
        SectionView { key: self.key, lock: self.lock, phase: Phase::Holding }
    }

    /// The section once it has given its lock back.
    pub open spec fn left(self) -> SectionView {
        SectionView { key: self.key, lock: self.lock, phase: Phase::Released }
    }
}

/// One step of the protocol.
pub enum Step {
    /// A new section is requested for a key, and gets the key's lock.
    Request { key: Seq<char> },
    /// The section at this index acquires its lock.
    Enter { section: int },
    /// The section at this index stops, because its operation completed,
    /// failed or was cancelled, and gives its lock back.
    Leave { section: int },
}

/// The locks made so far and every section requested so far.
pub struct World {
    /// The number of each key's lock.
    pub locks: Map<Seq<char>, nat>,
    /// The sections, in the order of their requests.
    pub sections: Seq<SectionView>,
}

impl World {
    /// The world before any request.
    pub open spec fn start() -> World {
        World { locks: Map::empty(), sections: Seq::empty() }
    }

    /// Whether `section` is the index of a section that holds its lock.
    pub open spec fn holds(self, section: int) -> bool {
        0 <= section < self.sections.len() && self.sections[section].phase == Phase::Holding
    }

    /// Whether `section` is the index of a section that waits for its lock.
    pub open spec fn waits(self, section: int) -> bool {
        0 <= section < self.sections.len() && self.sections[section].phase == Phase::Waiting
    }

    /// Whether no section holds the lock of this number.
    pub open spec fn free(self, lock: nat) -> bool {
        forall|i: int| #[trigger] self.holds(i) ==> self.sections[i].lock != lock
    }

    /// Whether the step may be taken. A request always may. A section may
    /// enter while it waits and its lock is free, and leave while it holds.
    pub open spec fn allows(self, step: Step) -> bool {
        match step {
            Step::Request { key } => true,
            Step::Enter { section } => self.waits(section) && self.free(
                self.sections[section].lock,
            ),
            Step::Leave { section } => self.holds(section),
        }
    }

    /// The world after the step.
    pub open spec fn after(self, step: Step) -> World {
        match step {
            Step::Request { key } => {
                let locks = bound(self.locks, key);
                World { locks, sections: self.sections.push(SectionView::waiting(key, locks[key])) }
            },
            Step::Enter { section } => World {
                locks: self.locks,
                sections: self.sections.update(section, self.sections[section].entered()),
            },
            Step::Leave { section } => World {
                locks: self.locks,
                sections: self.sections.update(section, self.sections[section].left()),
            },
        }
    }

    /// The world that the steps lead to from the start.
    pub open spec fn reached(steps: Seq<Step>) -> World
        decreases steps.len(),
    {
        if steps.len() == 0 {
            World::start()
        } else {
            World::reached(steps.drop_last()).after(steps.last())
        }
    }

    /// Whether each of the steps may be taken where it stands.
    pub open spec fn legal(steps: Seq<Step>) -> bool
        decreases steps.len(),
    {
        steps.len() == 0 || (World::legal(steps.drop_last()) && World::reached(
            steps.drop_last(),
        ).allows(steps.last()))
    }

    /// Whether no two sections for one key hold their lock together.
    pub open spec fn exclusive(self) -> bool {
        forall|i: int, j: int|
            #[trigger] self.holds(i) && #[trigger] self.holds(j) && self.sections[i].key
                == self.sections[j].key ==> i == j
    }

    /// Whether the locks are well numbered, every section has the lock of
    /// its key, and no lock is held twice.
    pub open spec fn sound(self) -> bool {
        &&& well_numbered(self.locks)
        &&& forall|i: int|
            0 <= i < self.sections.len() ==> self.locks.contains_key(
                (#[trigger] self.sections[i]).key,
            ) && self.locks[self.sections[i].key] == self.sections[i].lock
        &&& forall|i: int, j: int|
            #[trigger] self.holds(i) && #[trigger] self.holds(j) && self.sections[i].lock
                == self.sections[j].lock ==> i == j
    }
}

/// A step that may be taken in a sound world leads to a sound world.
pub proof fn lemma_step_sound(world: World, step: Step)
    requires
        world.sound(),
        world.allows(step),
    ensures
        world.after(step).sound(),
{
    let next = world.after(step);
    match step {
        Step::Request { key } => {
            lemma_bound(world.locks, key);
            assert forall|i: int| 0 <= i < next.sections.len() implies next.locks.contains_key(
                (#[trigger] next.sections[i]).key,
            ) && next.locks[next.sections[i].key] == next.sections[i].lock by {
                if i < world.sections.len() {
                    assert(next.sections[i] == world.sections[i]);
                    assert(world.locks.contains_key(world.sections[i].key));
                }
            }
            assert forall|i: int, j: int|
                #[trigger] next.holds(i) && #[trigger] next.holds(j) && next.sections[i].lock
                    == next.sections[j].lock implies i == j by {
                assert(world.holds(i) && world.holds(j));
            }
        },
        Step::Enter { section } => {
            assert forall|i: int, j: int|
                #[trigger] next.holds(i) && #[trigger] next.holds(j) && next.sections[i].lock
                    == next.sections[j].lock implies i == j by {
                if i != section && j != section {
                    assert(world.holds(i) && world.holds(j));
                } else if i != section {
                    assert(world.holds(i));
                } else if j != section {
                    assert(world.holds(j));
                }
            }
            assert forall|i: int| 0 <= i < next.sections.len() implies next.locks.contains_key(
                (#[trigger] next.sections[i]).key,
            ) && next.locks[next.sections[i].key] == next.sections[i].lock by {
                assert(world.sections[i].key == next.sections[i].key);
            }
        },
        Step::Leave { section } => {
            assert forall|i: int, j: int|
                #[trigger] next.holds(i) && #[trigger] next.holds(j) && next.sections[i].lock
                    == next.sections[j].lock implies i == j by {
                assert(world.holds(i) && world.holds(j));
            }
            assert forall|i: int| 0 <= i < next.sections.len() implies next.locks.contains_key(
                (#[trigger] next.sections[i]).key,
            ) && next.locks[next.sections[i].key] == next.sections[i].lock by {
                assert(world.sections[i].key == next.sections[i].key);
            }
        },
    }
}

/// Every world that legal steps lead to is sound.
pub proof fn lemma_reached_sound(steps: Seq<Step>)
    requires
        World::legal(steps),
    ensures
        World::reached(steps).sound(),
    decreases steps.len(),
{
    if steps.len() > 0 {
        lemma_reached_sound(steps.drop_last());
        lemma_step_sound(World::reached(steps.drop_last()), steps.last());
    }
}

/// A request that the registry answered is the protocol's request step: in
/// a world with the registry's locks, the step leads to the registry's locks
/// after the request and adds a waiting section with the number of the
/// handle that came back.
pub proof fn law_request_is_a_step(
    world: World,
    before: Map<Seq<char>, LockHandle>,
    key: Seq<char>,
    handle: LockHandle,
    after: Map<Seq<char>, LockHandle>,
)
    requires
        answered(before, key, handle, after),
        world.locks == numbers(before),
    ensures
        world.after(Step::Request { key }) == (World {
            locks: numbers(after),
            sections: world.sections.push(SectionView::waiting(key, handle.id() as nat)),
        }),
{
    assert(after.contains_key(key) && after[key] == handle);
    assert(numbers(after)[key] == handle.id());
}

/// Mutual exclusion per key: whatever legal steps were taken, no two
/// sections for one key hold their lock at the same time.
pub proof fn law_mutual_exclusion(steps: Seq<Step>)
    requires
        World::legal(steps),
    ensures
        World::reached(steps).exclusive(),
{
    lemma_reached_sound(steps);
    let world = World::reached(steps);
    assert forall|i: int, j: int|
        #[trigger] world.holds(i) && #[trigger] world.holds(j) && world.sections[i].key
            == world.sections[j].key implies i == j by {
        assert(world.locks[world.sections[i].key] == world.sections[i].lock);
        assert(world.locks[world.sections[j].key] == world.sections[j].lock);
    }
}

/// Parallelism across keys: a waiting section may enter whenever no
/// section for its own key holds the lock, whatever sections for other keys
/// do.
pub proof fn law_other_keys_never_block(steps: Seq<Step>, section: int)
    requires
        World::legal(steps),
        World::reached(steps).waits(section),
        forall|i: int| #[trigger]
            World::reached(steps).holds(i) ==> World::reached(steps).sections[i].key
                != World::reached(steps).sections[section].key,
    ensures
        World::reached(steps).allows(Step::Enter { section }),
{
    lemma_reached_sound(steps);
    let world = World::reached(steps);
    let wanted = world.sections[section];
    assert(world.locks[wanted.key] == wanted.lock);
    assert forall|i: int| #[trigger] world.holds(i) implies world.sections[i].lock
        != wanted.lock by {
        assert(world.locks[world.sections[i].key] == world.sections[i].lock);
    }
}

/// Release on every exit: once the section that holds a lock leaves, for
/// whatever reason, the lock is free, and any section that waits for the same
/// key may enter.
pub proof fn law_leave_frees_key(steps: Seq<Step>, leaving: int, waiting: int)
    requires
        World::legal(steps),
        World::reached(steps).holds(leaving),
        World::reached(steps).waits(waiting),
        World::reached(steps).sections[waiting].key == World::reached(steps).sections[leaving].key,
    ensures
        World::legal(steps.push(Step::Leave { section: leaving })),
        World::reached(steps.push(Step::Leave { section: leaving })).free(
            World::reached(steps).sections[leaving].lock,
        ),
        World::reached(steps.push(Step::Leave { section: leaving })).allows(
            Step::Enter { section: waiting },
        ),
{
    lemma_reached_sound(steps);
    let world = World::reached(steps);
    let longer = steps.push(Step::Leave { section: leaving });
    assert(longer.drop_last() =~= steps);
    let next = World::reached(longer);
    assert(next == world.after(Step::Leave { section: leaving }));
    let lock = world.sections[leaving].lock;
    assert(world.locks[world.sections[leaving].key] == lock);
    assert(world.locks[world.sections[waiting].key] == world.sections[waiting].lock);
    assert forall|i: int| #[trigger] next.holds(i) implies next.sections[i].lock != lock by {
        assert(world.holds(i));
        assert(i != leaving);
    }
}

/// No deadlock after an exit: once the section that holds a lock has left,
/// a section requested anew for the same key may enter at once.
pub proof fn law_rerun_after_leave(steps: Seq<Step>, leaving: int)
    requires
        World::legal(steps),
        World::reached(steps).holds(leaving),
    ensures
        ({
            let key = World::reached(steps).sections[leaving].key;
            let again = steps.push(Step::Leave { section: leaving }).push(Step::Request { key });
            &&& World::legal(again)
            &&& World::reached(again).allows(
                Step::Enter { section: World::reached(again).sections.len() - 1 },
            )
        }),
{
    lemma_reached_sound(steps);
    let world = World::reached(steps);
    let key = world.sections[leaving].key;
    let lock = world.sections[leaving].lock;
    let left = steps.push(Step::Leave { section: leaving });
    let again = left.push(Step::Request { key });
    assert(left.drop_last() =~= steps);
    assert(again.drop_last() =~= left);
    let middle = World::reached(left);
    let last = World::reached(again);
    assert(middle == world.after(Step::Leave { section: leaving }));
    assert(last == middle.after(Step::Request { key }));
    assert(World::legal(left));
    assert(World::legal(again));
    assert(world.locks.contains_key(key) && world.locks[key] == lock);
    let newest = last.sections.len() - 1;
    assert(last.sections[newest] == SectionView::waiting(key, lock));
    assert(last.waits(newest));
    assert forall|i: int| #[trigger] last.holds(i) implies last.sections[i].lock != lock by {
        assert(i < middle.sections.len());
        assert(last.sections[i] == middle.sections[i]);
        assert(world.holds(i));
        assert(i != leaving);
    }
}

} // verus!
