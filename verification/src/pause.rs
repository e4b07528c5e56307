//! Pauses at byte offsets: the decisions of a stream decorator that delivers
//! bytes up to a scheduled offset, pauses there, and goes on.
//!
//! The decorator itself sleeps and moves bytes; this module only decides how
//! far the next transfer may go and when a pause is due, and keeps the record
//! of the pauses that happened.

use crate::output::{PauseObserved, PauseValue};
use vstd::prelude::*;

verus! {

/// The pauses of one named point, with the offset that their own offsets
/// are added to.
#[derive(Clone, Debug)]
pub struct PauseSpec {
    pub plan: Vec<PauseValue>,
    pub group_offset: u64,
}

/// One pending pause: the byte count of its direction at which it fires.
#[derive(Clone, Copy, Debug, PartialEq, Eq, Structural)]
pub struct Scheduled {
    pub offset: u64,
    pub duration: u64,
    pub group: usize,
}

/// One pause that happened: the spec it came from, the measured time, and
/// the byte count at which it fired.
#[derive(Clone, Copy, Debug, PartialEq, Eq, Structural)]
pub struct Fired {
    pub group: usize,
    pub duration: u64,
    pub offset: u64,
}

/// What the decorator does next in one direction.
#[derive(Clone, Copy, Debug, PartialEq, Eq, Structural)]
pub enum Step {
    /// Sleep for at least this long, then report the measured time.
    Pause(u64),
    /// Move at most this many bytes, then report how many moved.
    Transfer(usize),
}

/// The byte count at which a pause fires: the two offsets added, held at the
/// largest count there is.
pub open spec fn fire_offset(group_offset: u64, offset_bytes: u64) -> u64 {
    if group_offset + offset_bytes <= u64::MAX {
        (group_offset + offset_bytes) as u64
    } else {
        u64::MAX
    }
}

/// The pending pauses of one spec, in its order.
pub open spec fn group_items(plan: Seq<PauseValue>, group_offset: u64, group: int) -> Seq<
    Scheduled,
> {
    Seq::new(
        plan.len(),
        |k: int|
            Scheduled {
                offset: fire_offset(group_offset, plan[k].offset_bytes),
                duration: plan[k].duration,
                group: group as usize,
            },
    )
}

/// The pending pauses of the first `n` specs, spec after spec.
pub open spec fn schedule(specs: Seq<PauseSpec>, n: int) -> Seq<Scheduled>
    decreases n,
{
    if n <= 0 {
        Seq::<Scheduled>::empty()
    } else {
        schedule(specs, n - 1) + group_items(specs[n - 1].plan@, specs[n - 1].group_offset, n - 1)
    }
}

/// Whether the offsets never fall from one pending pause to the next.
pub open spec fn ordered(pending: Seq<Scheduled>) -> bool {
    forall|i: int, j: int| 0 <= i <= j < pending.len() ==> pending[i].offset <= pending[j].offset
}

/// The measured pauses of one spec among those that fired, in order, taken
/// from the first `n` records.
pub open spec fn observed_in(fired: Seq<Fired>, group: usize, n: int) -> Seq<PauseObserved>
    decreases n,
{
    if n <= 0 {
        Seq::<PauseObserved>::empty()
    } else {
        let rest = observed_in(fired, group, n - 1);
        if fired[n - 1].group == group {
            rest.push(PauseObserved { duration: fired[n - 1].duration, offset: fired[n - 1].offset })
        } else {
            rest
        }
    }
}

/// Picks from `fired` the measured pauses of one spec.
pub fn observed_of(fired: &Vec<Fired>, group: usize) -> (r: Vec<PauseObserved>)
    ensures
        r@ == observed_in(fired@, group, fired@.len() as int),
{
    let mut r: Vec<PauseObserved> = Vec::new();
    let mut i: usize = 0;
    while i < fired.len()
        invariant
            i <= fired@.len(),
            r@ == observed_in(fired@, group, i as int),
        decreases fired@.len() - i,
    {
        let f: Fired = fired[i];
        if f.group == group {
            r.push(PauseObserved { duration: f.duration, offset: f.offset });
        }
        i += 1;
    }
    r
}

/// One direction of a paused stream.
#[derive(Clone, Debug)]
pub struct Side {
    pub pending: Vec<Scheduled>,
    /// How many of the pending pauses have fired.
    pub next: usize,
    /// Bytes moved in this direction since the schedule was set.
    pub count: u64,
    pub fired: Vec<Fired>,
}

impl Side {
    /// Each pause that fired is recorded once, in order, under its spec.
    pub open spec fn wf(&self) -> bool {
        &&& self.next <= self.pending@.len()
        &&& self.fired@.len() == self.next
        &&& forall|i: int| 0 <= i < self.next ==> (#[trigger] self.fired@[i]).group == self.pending@[i].group
    }

    /// The schedule is in offset order, no pending pause has been passed,
    /// and every pause fired at the very offset it was declared for.
    pub open spec fn punctual(&self) -> bool {
        &&& ordered(self.pending@)
        &&& self.next < self.pending@.len() ==> self.count <= self.pending@[self.next as int].offset
        &&& forall|i: int| 0 <= i < self.next && i < self.fired@.len() ==> (#[trigger] self.fired@[i]).offset == self.pending@[i].offset
    }

    /// What comes next when the caller has `want` bytes to move: a pause
    /// where the count has reached the next offset, else a transfer that
    /// stops at it.
    pub open spec fn spec_step(&self, want: usize) -> Step {
        if self.next < self.pending@.len() {
            let p = self.pending@[self.next as int];
            if p.offset <= self.count {
                Step::Pause(p.duration)
            } else if want <= p.offset - self.count {
                Step::Transfer(want)
            } else {
                Step::Transfer((p.offset - self.count) as usize)
            }
        } else {
            Step::Transfer(want)
        }
    }

    /// A fresh direction with the pauses of `specs` pending.
    pub fn new(specs: &Vec<PauseSpec>) -> (side: Side)
        ensures
            side.pending@ == schedule(specs@, specs@.len() as int),
            side.next == 0,
            side.count == 0,
            side.fired@ == Seq::<Fired>::empty(),
            side.wf(),
            ordered(side.pending@) ==> side.punctual(),
    {
        let mut pending: Vec<Scheduled> = Vec::new();
        let mut g: usize = 0;
        while g < specs.len()
            invariant
                g <= specs@.len(),
                pending@ == schedule(specs@, g as int),
            decreases specs@.len() - g,
        {
            let ghost before = pending@;
            let spec = &specs[g];
            let mut k: usize = 0;
            while k < spec.plan.len()
                invariant
                    k <= spec.plan@.len(),
                    g < specs@.len(),
                    *spec == specs@[g as int],
                    pending@ == before + group_items(spec.plan@, spec.group_offset, g as int).subrange(
                        0,
                        k as int,
                    ),
                decreases spec.plan@.len() - k,
            {
                let v: PauseValue = spec.plan[k];
                let offset: u64 = if v.offset_bytes <= u64::MAX - spec.group_offset {
                    spec.group_offset + v.offset_bytes
                } else {
                    u64::MAX
                };
                pending.push(Scheduled { offset, duration: v.duration, group: g });
                assert(pending@ =~= before + group_items(
                    spec.plan@,
                    spec.group_offset,
                    g as int,
                ).subrange(0, k as int + 1));
                k += 1;
            }
            assert(pending@ =~= before + group_items(spec.plan@, spec.group_offset, g as int));
            g += 1;
        }
        Side { pending, next: 0, count: 0, fired: Vec::new() }
    }

    /// What the decorator does next with `want` bytes in hand.
    pub fn step(&self, want: usize) -> (r: Step)
        requires
            self.wf(),
        ensures
            r == self.spec_step(want),
    {
        if self.next < self.pending.len() {
            let p: Scheduled = self.pending[self.next];
            if p.offset <= self.count {
                Step::Pause(p.duration)
            } else {
                let gap: u64 = p.offset - self.count;
                if (want as u64) <= gap {
                    Step::Transfer(want)
                } else {
                    Step::Transfer(gap as usize)
                }
            }
        } else {
            Step::Transfer(want)
        }
    }

    /// Whether `n` bytes may move now without passing a pending pause or
    /// the end of the counter.
    pub fn may_move(&self, n: usize) -> (r: bool)
        requires
            self.wf(),
        ensures
            r == (self.spec_step(n) == Step::Transfer(n) && self.count + n <= u64::MAX),
    {
        match self.step(n) {
            Step::Transfer(m) => m == n && (n as u64) <= u64::MAX - self.count,
            Step::Pause(_) => false,
        }
    }

    /// Records that `n` bytes moved. No byte is dropped or reordered: only
    /// the count changes.
    pub fn moved(&mut self, n: usize)
        requires
            old(self).wf(),
            old(self).spec_step(n) == Step::Transfer(n),
            old(self).count + n <= u64::MAX,
        ensures
            final(self).count == old(self).count + n,
            final(self).pending == old(self).pending,
            final(self).next == old(self).next,
            final(self).fired == old(self).fired,
            final(self).wf(),
            old(self).punctual() ==> final(self).punctual(),
    {
        self.count = self.count + (n as u64);
    }

    /// Records that the pause that was due took `measured`. The record
    /// carries the byte count at which it fired; a pause of no length is
    /// recorded like any other.
    pub fn paused(&mut self, measured: u64)
        requires
            old(self).wf(),
            old(self).spec_step(0) is Pause,
        ensures
            final(self).fired@ == old(self).fired@.push(
                Fired {
                    group: old(self).pending@[old(self).next as int].group,
                    duration: measured,
                    offset: old(self).count,
                },
            ),
            final(self).next == old(self).next + 1,
            final(self).count == old(self).count,
            final(self).pending == old(self).pending,
            final(self).wf(),
            old(self).punctual() ==> final(self).punctual() && old(self).count == old(self).pending@[old(self).next as int].offset,
    {
        let p: Scheduled = self.pending[self.next];
        let len: usize = self.pending.len();
        assert(self.next < len);
        let after: usize = self.next + 1;
        self.fired.push(Fired { group: p.group, duration: measured, offset: self.count });
        self.next = after;
    }
}

/// Within one direction pauses fire in offset order: of two pauses on
/// record, the earlier fired at the lower byte count, or at the same.
pub proof fn lemma_fired_in_order(side: Side, i: int, j: int)
    requires
        side.wf(),
        side.punctual(),
        0 <= i <= j < side.fired@.len(),
    ensures
        side.fired@[i].offset <= side.fired@[j].offset,
        side.fired@[i].offset == side.pending@[i].offset,
        side.fired@[j].offset == side.pending@[j].offset,
{
}

/// The record of one pause as it goes on the trace.
pub open spec fn observation(f: Fired) -> PauseObserved {
    PauseObserved { duration: f.duration, offset: f.offset }
}

/// Where the first `a` records belong to spec 0 and all later ones to
/// spec 1, picking by spec splits the records at `a` and keeps their order.
pub proof fn lemma_observed_split(fired: Seq<Fired>, a: int, n: int)
    requires
        0 <= a,
        0 <= n <= fired.len(),
        forall|i: int| 0 <= i < fired.len() && i < a ==> (#[trigger] fired[i]).group == 0,
        forall|i: int| 0 <= i < fired.len() && a <= i ==> (#[trigger] fired[i]).group == 1,
    ensures
        observed_in(fired, 0, n) == Seq::new(
            (if n <= a {
                n
            } else {
                a
            }) as nat,
            |k: int| observation(fired[k]),
        ),
        observed_in(fired, 1, n) == Seq::new(
            (if n <= a {
                0
            } else {
                n - a
            }) as nat,
            |k: int| observation(fired[a + k]),
        ),
    decreases n,
{
    if n > 0 {
        lemma_observed_split(fired, a, n - 1);
        assert(observed_in(fired, 0, n) =~= Seq::new(
            (if n <= a {
                n
            } else {
                a
            }) as nat,
            |k: int| observation(fired[k]),
        ));
        assert(observed_in(fired, 1, n) =~= Seq::new(
            (if n <= a {
                0
            } else {
                n - a
            }) as nat,
            |k: int| observation(fired[a + k]),
        ));
    } else {
        assert(observed_in(fired, 0, n) =~= Seq::new(0nat, |k: int| observation(fired[k])));
        assert(observed_in(fired, 1, n) =~= Seq::new(0nat, |k: int| observation(fired[a + k])));
    }
}

/// Over a whole phase: once every pause planned at its start and at its
/// end has fired, the record holds one observation for each, in the order
/// of the plan, and each fired at the byte count declared for it — those
/// of the start at their own offsets, those of the end at theirs beyond
/// `end_offset`. A pause of no length is among them like any other.
pub proof fn lemma_phase_observed(
    side: Side,
    start: Seq<PauseValue>,
    end: Seq<PauseValue>,
    end_offset: u64,
)
    requires
        side.wf(),
        side.punctual(),
        side.pending@ == group_items(start, 0, 0) + group_items(end, end_offset, 1),
        side.next == side.pending@.len(),
    ensures
        observed_in(side.fired@, 0, side.fired@.len() as int).len() == start.len(),
        observed_in(side.fired@, 1, side.fired@.len() as int).len() == end.len(),
        forall|k: int|
            0 <= k < start.len() ==> (#[trigger] observed_in(
                side.fired@,
                0,
                side.fired@.len() as int,
            )[k]) == (PauseObserved {
                duration: side.fired@[k].duration,
                offset: fire_offset(0, start[k].offset_bytes),
            }),
        forall|k: int|
            0 <= k < end.len() ==> (#[trigger] observed_in(
                side.fired@,
                1,
                side.fired@.len() as int,
            )[k]) == (PauseObserved {
                duration: side.fired@[start.len() + k].duration,
                offset: fire_offset(end_offset, end[k].offset_bytes),
            }),
{
    let fired = side.fired@;
    let a = start.len() as int;
    let n = fired.len() as int;
    assert(n == a + end.len());
    assert forall|i: int| 0 <= i < fired.len() && i < a implies (#[trigger] fired[i]).group == 0 by {
        assert(side.pending@[i] == group_items(start, 0, 0)[i]);
    }
    assert forall|i: int| 0 <= i < fired.len() && a <= i implies (#[trigger] fired[i]).group == 1 by {
        assert(side.pending@[i] == group_items(end, end_offset, 1)[i - a]);
    }
    lemma_observed_split(fired, a, n);
    assert forall|k: int| 0 <= k < start.len() implies (#[trigger] observed_in(fired, 0, n)[k]) == (
    PauseObserved {
        duration: fired[k].duration,
        offset: fire_offset(0, start[k].offset_bytes),
    }) by {
        assert(fired[k].offset == side.pending@[k].offset);
        assert(side.pending@[k] == group_items(start, 0, 0)[k]);
    }
    assert forall|k: int| 0 <= k < end.len() implies (#[trigger] observed_in(fired, 1, n)[k]) == (
    PauseObserved {
        duration: fired[a + k].duration,
        offset: fire_offset(end_offset, end[k].offset_bytes),
    }) by {
        assert(fired[a + k].offset == side.pending@[a + k].offset);
        assert(side.pending@[a + k] == group_items(end, end_offset, 1)[k]);
    }
}

/// Both directions of a paused stream.
#[derive(Clone, Debug)]
pub struct PauseStream {
    pub writes: Side,
    pub reads: Side,
}

impl PauseStream {
    pub open spec fn wf(&self) -> bool {
        self.writes.wf() && self.reads.wf()
    }

    /// A stream with the given pauses pending and nothing moved.
    pub fn new(writes: &Vec<PauseSpec>, reads: &Vec<PauseSpec>) -> (s: PauseStream)
        ensures
            s.wf(),
            s.writes.pending@ == schedule(writes@, writes@.len() as int),
            s.reads.pending@ == schedule(reads@, reads@.len() as int),
            s.writes.next == 0 && s.writes.count == 0 && s.writes.fired@.len() == 0,
            s.reads.next == 0 && s.reads.count == 0 && s.reads.fired@.len() == 0,
            ordered(s.writes.pending@) ==> s.writes.punctual(),
            ordered(s.reads.pending@) ==> s.reads.punctual(),
    {
        PauseStream { writes: Side::new(writes), reads: Side::new(reads) }
    }

    /// Replaces the pending pauses of both directions at once and starts
    /// their byte counts anew. Returns the pauses recorded so far: those of
    /// the reads, then those of the writes.
    pub fn reset(&mut self, writes: &Vec<PauseSpec>, reads: &Vec<PauseSpec>) -> (r: (
        Vec<Fired>,
        Vec<Fired>,
    ))
        ensures
            r.0@ == old(self).reads.fired@,
            r.1@ == old(self).writes.fired@,
            final(self).wf(),
            final(self).writes.pending@ == schedule(writes@, writes@.len() as int),
            final(self).reads.pending@ == schedule(reads@, reads@.len() as int),
            final(self).writes.next == 0 && final(self).writes.count == 0 && final(self).writes.fired@.len() == 0,
            final(self).reads.next == 0 && final(self).reads.count == 0 && final(self).reads.fired@.len() == 0,
            ordered(final(self).writes.pending@) ==> final(self).writes.punctual(),
            ordered(final(self).reads.pending@) ==> final(self).reads.punctual(),
    {
        let mut fresh: PauseStream = PauseStream::new(writes, reads);
        std::mem::swap(self, &mut fresh);
        (fresh.reads.fired, fresh.writes.fired)
    }
}

} // verus!
