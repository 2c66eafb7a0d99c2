use vstd::prelude::*;

verus! {

/// First port of the deterministic fallback range.
pub const FALLBACK_PORT_FIRST: u16 = 18000;

/// Last port of the deterministic fallback range.
pub const FALLBACK_PORT_LAST: u16 = 18999;

/// The port returned when every candidate failed; the caller's own bind
/// attempt then surfaces the error.
pub const SENTINEL_PORT: u16 = 0;

/// Drives the deterministic fallback scan of the port allocator. The scan
/// itself only decides which port to try next; the caller performs each
/// bind attempt and reports back whether it succeeded.
pub struct PortAllocator {
    next_fallback: u16,
}

impl PortAllocator {
    pub closed spec fn cursor(&self) -> int {
        self.next_fallback as int
    }

    pub open spec fn wf(&self) -> bool {
        FALLBACK_PORT_FIRST <= self.cursor() <= FALLBACK_PORT_LAST + 1
    }

    pub fn new() -> (r: Self)
        ensures
            r.wf(),
            r.cursor() == FALLBACK_PORT_FIRST,
    {
        PortAllocator { next_fallback: FALLBACK_PORT_FIRST }
    }

    /// The next port of the fallback range to try, or `None` when the
    /// range is exhausted.
    pub fn next_candidate(&self) -> (r: Option<u16>)
        requires
            self.wf(),
        ensures
            match r {
                Some(p) => p == self.cursor() && FALLBACK_PORT_FIRST <= p <= FALLBACK_PORT_LAST,
                None => self.cursor() == FALLBACK_PORT_LAST + 1,
            },
    {
        if self.next_fallback <= FALLBACK_PORT_LAST {
            Some(self.next_fallback)
        } else {
            None
        }
    }

    /// Moves past a candidate whose bind attempt failed.
    pub fn advance(&mut self)
        requires
            old(self).wf(),
            old(self).cursor() <= FALLBACK_PORT_LAST,
        ensures
            final(self).wf(),
            final(self).cursor() == old(self).cursor() + 1,
    {
        self.next_fallback = self.next_fallback + 1;
    }
}

/// The port the allocator reports, given the outcome of the OS-assignment
/// attempt (binding port 0 and reading the local address) and, if that
/// failed, the outcome of the fallback scan: the OS-assigned port wins,
/// then the first fallback port that bound, then the sentinel.
pub fn choose_port(os_assigned: Option<u16>, fallback_bound: Option<u16>) -> (r: u16)
    ensures
        match os_assigned {
            Some(p) => r == p,
            None => match fallback_bound {
                Some(q) => r == q,
                None => r == SENTINEL_PORT,
            },
        },
{
    match os_assigned {
        Some(p) => p,
        None => match fallback_bound {
            Some(q) => q,
            None => SENTINEL_PORT,
        },
    }
}

} // verus!
