use vstd::prelude::*;

verus! {

/// An overlay that runs as a process of its own.
#[derive(Clone, Copy, Debug, PartialEq, Eq, Structural)]
pub enum OverlayKind {
    Speed,
    LastLapTime,
}

impl OverlayKind {
    /// Install path of the overlay's executable, launched with no arguments.
    pub fn executable(&self) -> (r: &'static str)
        ensures
            r@ == executable_of(*self),
    {
        match self {
            OverlayKind::Speed => "C:\\Program Files (x86)\\iRacing Overlays\\speed",
            OverlayKind::LastLapTime => "C:\\Program Files (x86)\\iRacing Overlays\\lastlaptime",
        }
    }
}

pub open spec fn executable_of(kind: OverlayKind) -> Seq<char> {
    match kind {
        OverlayKind::Speed => "C:\\Program Files (x86)\\iRacing Overlays\\speed"@,
        OverlayKind::LastLapTime => "C:\\Program Files (x86)\\iRacing Overlays\\lastlaptime"@,
    }
}

/// Which overlays the user wants running.
#[derive(Clone, Copy, Debug, PartialEq, Eq, Structural)]
pub struct DesiredState {
    pub speed: bool,
    pub lastlaptime: bool,
}

impl DesiredState {
    pub open spec fn wants(self, kind: OverlayKind) -> bool {
        match kind {
            OverlayKind::Speed => self.speed,
            OverlayKind::LastLapTime => self.lastlaptime,
        }
    }
}

/// What the caller must do to bring the running processes in line with the
/// desired state.
#[derive(Debug)]
pub enum Action<H> {
    /// Launch the overlay, then hand its handle to `record_spawn`.
    Spawn(OverlayKind),
    /// Send a termination signal to this process; it is already off the table.
    Kill(OverlayKind, H),
}

/// The table of running overlay processes: at most one handle per kind.
pub struct WindowProcesses<H> {
    pub speed: Option<H>,
    pub lastlaptime: Option<H>,
}

/// The action, if any, that one table slot needs.
pub open spec fn slot_plan<H>(kind: OverlayKind, wanted: bool, slot: Option<H>) -> Seq<Action<H>> {
    match slot {
        None => if wanted { seq![Action::Spawn(kind)] } else { Seq::empty() },
        Some(h) => if wanted { Seq::empty() } else { seq![Action::Kill(kind, h)] },
    }
}

/// What a slot holds once its action has been issued: a handle that is not
/// wanted is dropped, a missing one stays missing until a spawn is recorded.
pub open spec fn slot_after<H>(wanted: bool, slot: Option<H>) -> Option<H> {
    if wanted { slot } else { None }
}

impl<H> WindowProcesses<H> {
    pub open spec fn slot(self, kind: OverlayKind) -> Option<H> {
        match kind {
            OverlayKind::Speed => self.speed,
            OverlayKind::LastLapTime => self.lastlaptime,
        }
    }

    /// Actual state matches desired state for every kind.
    pub open spec fn settled(self, d: DesiredState) -> bool {
        &&& (self.speed is Some) == d.speed
        &&& (self.lastlaptime is Some) == d.lastlaptime
    }

    /// The actions one reconciliation pass issues, speed first.
    pub open spec fn plan(self, d: DesiredState) -> Seq<Action<H>> {
        slot_plan(OverlayKind::Speed, d.speed, self.speed)
            + slot_plan(OverlayKind::LastLapTime, d.lastlaptime, self.lastlaptime)
    }

    /// The table right after a reconciliation pass.
    pub open spec fn reconciled(self, d: DesiredState) -> Self {
        WindowProcesses {
            speed: slot_after(d.speed, self.speed),
            lastlaptime: slot_after(d.lastlaptime, self.lastlaptime),
        }
    }

    /// The table after a launched process is recorded: the handle fills the
    /// slot if it was empty, else nothing changes.
    pub open spec fn recorded(self, kind: OverlayKind, h: H) -> Self {
        match kind {
            OverlayKind::Speed => WindowProcesses {
                speed: if self.speed is None { Some(h) } else { self.speed },
                lastlaptime: self.lastlaptime,
            },
            OverlayKind::LastLapTime => WindowProcesses {
                speed: self.speed,
                lastlaptime: if self.lastlaptime is None { Some(h) } else { self.lastlaptime },
            },
        }
    }

    /// The table after a reconciliation pass whose spawns all succeeded and
    /// were recorded, with handle `hs` for speed and `hl` for last lap time.
    pub open spec fn launched(self, d: DesiredState, hs: H, hl: H) -> Self {
        let t1 = self.reconciled(d);
        let t2 = if d.speed && self.speed is None { t1.recorded(OverlayKind::Speed, hs) } else { t1 };
        if d.lastlaptime && self.lastlaptime is None {
            t2.recorded(OverlayKind::LastLapTime, hl)
        } else {
            t2
        }
    }

    /// The handles in the table, speed first.
    pub open spec fn live(self) -> Seq<H> {
        (match self.speed { Some(h) => seq![h], None => Seq::empty() })
            + (match self.lastlaptime { Some(h) => seq![h], None => Seq::empty() })
    }

    /// An empty table: nothing running.
    pub fn new() -> (r: Self)
        ensures
            r.speed is None,
            r.lastlaptime is None,
    {
        WindowProcesses { speed: None, lastlaptime: None }
    }

    /// Whether a handle for `kind` is held.
    pub fn is_running(&self, kind: OverlayKind) -> (r: bool)
        ensures
            r == (self.slot(kind) is Some),
    {
        match kind {
            OverlayKind::Speed => self.speed.is_some(),
            OverlayKind::LastLapTime => self.lastlaptime.is_some(),
        }
    }

    fn reconcile_slot(kind: OverlayKind, wanted: bool, slot: &mut Option<H>, actions: &mut Vec<Action<H>>)
        ensures
            *final(slot) == slot_after(wanted, *old(slot)),
            final(actions)@ == old(actions)@ + slot_plan(kind, wanted, *old(slot)),
    {
        if wanted {
            if slot.is_none() {
                actions.push(Action::Spawn(kind));
            }
        } else {
            let mut taken: Option<H> = None;
            std::mem::swap(slot, &mut taken);
            match taken {
                Some(h) => actions.push(Action::Kill(kind, h)),
                None => {},
            }
        }
    }

    /// One reconciliation pass. A wanted overlay with no handle gets a
    /// `Spawn`; an unwanted one with a handle gets a `Kill`, and its handle
    /// leaves the table at once; every other slot is left alone.
    pub fn reconcile(&mut self, desired: &DesiredState) -> (r: Vec<Action<H>>)
        ensures
            r@ == old(self).plan(*desired),
            *final(self) == old(self).reconciled(*desired),
    {
        let mut actions: Vec<Action<H>> = Vec::new();
        Self::reconcile_slot(OverlayKind::Speed, desired.speed, &mut self.speed, &mut actions);
        Self::reconcile_slot(OverlayKind::LastLapTime, desired.lastlaptime, &mut self.lastlaptime, &mut actions);
        proof {
            assert(actions@ =~= old(self).plan(*desired));
        }
        actions
    }

    /// Records the handle of a freshly launched overlay. If the slot is
    /// already taken the table is left as it was and the new handle is given
    /// back, so the caller can stop that second process.
    pub fn record_spawn(&mut self, kind: OverlayKind, handle: H) -> (r: Option<H>)
        ensures
            *final(self) == old(self).recorded(kind, handle),
            r == (if old(self).slot(kind) is None { None } else { Some(handle) }),
    {
        match kind {
            OverlayKind::Speed => {
                if self.speed.is_none() {
                    self.speed = Some(handle);
                    None
                } else {
                    Some(handle)
                }
            },
            OverlayKind::LastLapTime => {
                if self.lastlaptime.is_none() {
                    self.lastlaptime = Some(handle);
                    None
                } else {
                    Some(handle)
                }
            },
        }
    }

    /// Empties the table and returns every handle it held, speed first, for
    /// the caller to terminate.
    pub fn shutdown_all(&mut self) -> (r: Vec<H>)
        ensures
            r@ == old(self).live(),
            final(self).speed is None,
            final(self).lastlaptime is None,
    {
        let mut handles: Vec<H> = Vec::new();
        let mut taken: Option<H> = None;
        std::mem::swap(&mut self.speed, &mut taken);
        match taken {
            Some(h) => handles.push(h),
            None => {},
        }
        let mut taken: Option<H> = None;
        std::mem::swap(&mut self.lastlaptime, &mut taken);
        match taken {
            Some(h) => handles.push(h),
            None => {},
        }
        proof {
            assert(handles@ =~= old(self).live());
        }
        handles
    }
}

/// A table that matches the desired state needs no action, and a table that
/// needs no action matches the desired state; reconciling it changes nothing.
pub proof fn lemma_settled_iff_quiet<H>(t: WindowProcesses<H>, d: DesiredState)
    ensures
        t.settled(d) <==> t.plan(d).len() == 0,
        t.settled(d) ==> t.reconciled(d) == t,
{
}

/// Reconciling twice in a row with the same desired state: the second pass
/// kills nothing and leaves the table as the first pass left it; any action
/// it issues is a spawn that the first pass issued too and whose launch was
/// never recorded.
pub proof fn lemma_reconcile_idempotent<H>(t: WindowProcesses<H>, d: DesiredState)
    ensures
        t.reconciled(d).reconciled(d) == t.reconciled(d),
        forall|i: int|
            0 <= i < t.reconciled(d).plan(d).len() ==> {
                &&& t.reconciled(d).plan(d)[i] is Spawn
                &&& t.plan(d).contains(t.reconciled(d).plan(d)[i])
            },
{
    let p = t.plan(d);
    let q = t.reconciled(d).plan(d);
    assert forall|i: int| 0 <= i < q.len() implies q[i] is Spawn && p.contains(q[i]) by {
        let a = slot_plan(OverlayKind::Speed, d.speed, t.speed);
        let b = slot_plan(OverlayKind::LastLapTime, d.lastlaptime, t.lastlaptime);
        assert(p == a + b);
        let a2 = slot_plan(OverlayKind::Speed, d.speed, slot_after(d.speed, t.speed));
        let b2 = slot_plan(OverlayKind::LastLapTime, d.lastlaptime, slot_after(d.lastlaptime, t.lastlaptime));
        assert(q == a2 + b2);
        if i < a2.len() {
            assert(a2 == a);
            assert(p[i] == q[i]);
        } else {
            assert(b2 == b);
            assert(p[a.len() + (i - a2.len())] == q[i]);
        }
    }
}

/// Once every spawn of a pass has been launched and recorded, the desired
/// state is met and a further pass with the same desired state issues no
/// action at all.
pub proof fn lemma_launched_is_settled<H>(t: WindowProcesses<H>, d: DesiredState, hs: H, hl: H)
    ensures
        t.launched(d, hs, hl).settled(d),
        t.launched(d, hs, hl).plan(d).len() == 0,
        t.launched(d, hs, hl).reconciled(d) == t.launched(d, hs, hl),
{
}

} // verus!
