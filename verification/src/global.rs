//! Reference-counted global library session state.
//!
//! The vendor library is initialized once for the whole process and shut down
//! when the last handle into it goes away.  The shell keeps one value of
//! [`GlobalApi`] behind a process-wide lock and drives it through
//! [`GlobalApi::acquire`] and [`GlobalApi::release`], handing in the status
//! codes of the vendor's init, open and shutdown calls.  The memory-size
//! parameter is honored only on the transition from zero to one handle.

use vstd::prelude::*;

use crate::status::{err_of, err_spec, Error};

verus! {

/// Memory tier code for the smallest vendor buffering configuration.
pub const MEMORY_SMALL: u32 = 0;
/// Memory tier code for the default (medium) vendor buffering configuration.
pub const MEMORY_MEDIUM: u32 = 1;
/// Memory tier code for the large vendor buffering configuration.
pub const MEMORY_LARGE: u32 = 2;
/// Memory tier code for the largest vendor buffering configuration.
pub const MEMORY_LUDICROUS: u32 = 3;

/// Memory sizing hint for the vendor library's internal buffering, fixed for
/// the process lifetime of the first session.
#[derive(Clone, Copy, Debug, PartialEq, Eq, Structural)]
pub enum Memory {
    Small,
    Medium,
    Large,
    Ludicrous,
}

impl Memory {
    /// The tier code this variant stands for.
    pub open spec fn code_spec(&self) -> u32 {
        match *self {
            Memory::Small => MEMORY_SMALL,
            Memory::Medium => MEMORY_MEDIUM,
            Memory::Large => MEMORY_LARGE,
            Memory::Ludicrous => MEMORY_LUDICROUS,
        }
    }

    /// Encodes the tier as the code handed to the vendor init call.
    pub fn code(&self) -> (r: u32)
        ensures
            r == self.code_spec(),
    {
        match *self {
            Memory::Small => MEMORY_SMALL,
            Memory::Medium => MEMORY_MEDIUM,
            Memory::Large => MEMORY_LARGE,
            Memory::Ludicrous => MEMORY_LUDICROUS,
        }
    }

    /// Decodes a tier code; every code outside the documented set falls back
    /// to the smallest tier.
    pub fn from_code(code: u32) -> (r: Memory)
        ensures
            code == MEMORY_MEDIUM ==> r == Memory::Medium,
            code == MEMORY_LARGE ==> r == Memory::Large,
            code == MEMORY_LUDICROUS ==> r == Memory::Ludicrous,
            code != MEMORY_MEDIUM && code != MEMORY_LARGE && code != MEMORY_LUDICROUS ==> r
                == Memory::Small,
    {
        if code == MEMORY_MEDIUM {
            Memory::Medium
        } else if code == MEMORY_LARGE {
            Memory::Large
        } else if code == MEMORY_LUDICROUS {
            Memory::Ludicrous
        } else {
            Memory::Small
        }
    }
}

/// The live global library session: how many handles share it and the memory
/// tier it was initialized with.
#[derive(Clone, Copy, Debug, PartialEq, Eq, Structural)]
pub struct Api {
    pub handles: usize,
    pub mem: Memory,
}

impl Api {
    /// A freshly initialized session carries no handles yet.
    pub fn new(mem: Memory) -> (r: Api)
        ensures
            r.handles == 0,
            r.mem == mem,
    {
        Api { handles: 0, mem }
    }

    /// Records one more handle sharing the session.
    pub fn add_handle(&mut self)
        requires
            old(self).handles < usize::MAX,
        ensures
            final(self).handles == old(self).handles + 1,
            final(self).mem == old(self).mem,
    {
        self.handles = self.handles + 1;
    }

    /// Records that one handle left the session.
    pub fn remove_handle(&mut self)
        requires
            old(self).handles >= 1,
        ensures
            final(self).handles == old(self).handles - 1,
            final(self).mem == old(self).mem,
    {
        self.handles = self.handles - 1;
    }

    /// The number of handles currently sharing the session.
    pub fn handles(&self) -> (r: usize)
        ensures
            r == self.handles,
    {
        self.handles
    }
}

/// Process-wide library state: `None` while the library is shut down, the
/// live session while at least one handle exists.
#[derive(Clone, Copy, Debug, PartialEq, Eq, Structural)]
pub struct GlobalApi {
    pub session: Option<Api>,
}

/// One conserved transition of the global session state.  A failed acquire
/// leaves the state untouched and is no event.
#[derive(Clone, Copy, Debug, PartialEq, Eq, Structural)]
pub enum SessionEvent {
    AcquireOk(Memory),
    Release,
}

/// Whether an event may fire in a state: a release needs a handle to give
/// back, and one more handle must still be countable.
pub open spec fn session_enabled(g: GlobalApi, e: SessionEvent) -> bool {
    match e {
        SessionEvent::AcquireOk(_) => g.count() < usize::MAX,
        SessionEvent::Release => g.count() >= 1,
    }
}

/// The successor state of one session event: a first acquire initializes the
/// library with the given tier, later acquires only count; the last release
/// shuts the library down.
pub open spec fn session_step(g: GlobalApi, e: SessionEvent) -> GlobalApi {
    match e {
        SessionEvent::AcquireOk(mem) => match g.session {
            None => GlobalApi { session: Some(Api { handles: 1, mem }) },
            Some(a) => GlobalApi {
                session: Some(Api { handles: (a.handles + 1) as usize, mem: a.mem }),
            },
        },
        SessionEvent::Release => match g.session {
            Some(a) => if a.handles > 1 {
                GlobalApi { session: Some(Api { handles: (a.handles - 1) as usize, mem: a.mem }) }
            } else {
                GlobalApi { session: None }
            },
            None => GlobalApi { session: None },
        },
    }
}

/// The state after a whole trace of events.
pub open spec fn session_run(g: GlobalApi, evs: Seq<SessionEvent>) -> GlobalApi
    decreases evs.len(),
{
    if evs.len() == 0 {
        g
    } else {
        session_run(session_step(g, evs[0]), evs.drop_first())
    }
}

/// Whether every event of the trace is enabled in the state it fires from.
pub open spec fn trace_enabled(g: GlobalApi, evs: Seq<SessionEvent>) -> bool
    decreases evs.len(),
{
    evs.len() == 0 || (session_enabled(g, evs[0]) && trace_enabled(
        session_step(g, evs[0]),
        evs.drop_first(),
    ))
}

/// How many successful acquires a trace holds.
pub open spec fn acquire_count(evs: Seq<SessionEvent>) -> nat
    decreases evs.len(),
{
    if evs.len() == 0 {
        0
    } else {
        (match evs[0] {
            SessionEvent::AcquireOk(_) => 1 as nat,
            SessionEvent::Release => 0 as nat,
        }) + acquire_count(evs.drop_first())
    }
}

/// How many releases a trace holds.
pub open spec fn release_count(evs: Seq<SessionEvent>) -> nat
    decreases evs.len(),
{
    if evs.len() == 0 {
        0
    } else {
        (match evs[0] {
            SessionEvent::AcquireOk(_) => 0 as nat,
            SessionEvent::Release => 1 as nat,
        }) + release_count(evs.drop_first())
    }
}

impl GlobalApi {
    /// How many handles currently share the library.
    pub open spec fn count(&self) -> nat {
        match self.session {
            None => 0,
            Some(a) => a.handles as nat,
        }
    }

    /// Whether the library is initialized.
    pub open spec fn active(&self) -> bool {
        self.session is Some
    }

    /// The memory tier the live session was initialized with.
    pub open spec fn tier(&self) -> Option<Memory> {
        match self.session {
            None => None,
            Some(a) => Some(a.mem),
        }
    }

    /// The library is initialized exactly while somebody holds a handle: it
    /// is shut down if and only if the handle count is zero.
    pub open spec fn inv(&self) -> bool {
        self.active() <==> self.count() > 0
    }

    /// The state of a process in which no handle was ever opened.
    pub fn new() -> (r: GlobalApi)
        ensures
            r.count() == 0,
            !r.active(),
            r.inv(),
    {
        GlobalApi { session: None }
    }

    /// Opens one more handle into the library.
    ///
    /// If no session exists, the library is first initialized with the given
    /// memory tier (`init_code` is the status of that vendor call); if one
    /// exists, the tier is ignored and `init_code` is never consulted.
    /// `open_code` is the status of the vendor's session-open call.  On any
    /// failure the global state is left exactly as it was: a failed
    /// initialization leaves no partial state behind, and a failed open tears
    /// a freshly initialized library back down.
    pub fn acquire(&mut self, mem: Memory, init_code: u32, open_code: u32) -> (r: Result<
        (),
        Error,
    >)
        requires
            old(self).count() < usize::MAX,
            old(self).inv(),
        ensures
            final(self).inv(),
            r is Ok <==> (old(self).active() || init_code == 0) && open_code == 0,
            r is Ok ==> *final(self) == session_step(*old(self), SessionEvent::AcquireOk(mem)),
            r is Err ==> *final(self) == *old(self),
            r matches Err(e) ==> e == (if !old(self).active() && init_code != 0 {
                err_spec(init_code)
            } else {
                err_spec(open_code)
            }),
    {
        if self.session.is_none() {
            if init_code != 0 {
                return Err(err_of(init_code));
            }
            self.session = Some(Api::new(mem));
        }
        if open_code == 0 {
            match &mut self.session {
                Some(a) => a.add_handle(),
                None => assert(false),
            }
            Ok(())
        } else {
            let stale = match &self.session {
                Some(a) => a.handles() == 0,
                None => false,
            };
            if stale {
                self.session = None;
            }
            Err(err_of(open_code))
        }
    }

    /// Gives one handle back.
    ///
    /// The count always goes down by one; when it reaches zero the library is
    /// shut down (`shutdown_code` is the status of that vendor call, consulted
    /// only then).  A failing shutdown is reported to this last caller as the
    /// mapped error; every earlier release succeeds.
    pub fn release(&mut self, shutdown_code: u32) -> (r: Result<(), Error>)
        requires
            old(self).count() >= 1,
            old(self).inv(),
        ensures
            final(self).inv(),
            *final(self) == session_step(*old(self), SessionEvent::Release),
            r is Ok <==> old(self).count() > 1 || shutdown_code == 0,
            r matches Err(e) ==> e == err_spec(shutdown_code) && old(self).count() == 1,
    {
        let last = match &mut self.session {
            Some(a) => {
                a.remove_handle();
                a.handles() == 0
            },
            None => {
                assert(false);
                true
            },
        };
        if last {
            self.session = None;
            if shutdown_code != 0 {
                return Err(err_of(shutdown_code));
            }
        }
        Ok(())
    }
}

/// The global session count is conserved: along any trace of successful
/// acquires and releases in which no release outruns the handles actually
/// held, the final count is the initial count plus acquires minus releases
/// (so it can never go negative), and the library ends shut down if and only
/// if that count is exactly zero.
pub proof fn lemma_session_count_conserved(g: GlobalApi, evs: Seq<SessionEvent>)
    requires
        g.inv(),
        trace_enabled(g, evs),
    ensures
        session_run(g, evs).inv(),
        session_run(g, evs).count() + release_count(evs) == g.count() + acquire_count(evs),
        release_count(evs) <= g.count() + acquire_count(evs),
    decreases evs.len(),
{
    if evs.len() > 0 {
        let g1 = session_step(g, evs[0]);
        assert(g1.inv());
        lemma_session_count_conserved(g1, evs.drop_first());
    }
}

} // verus!
