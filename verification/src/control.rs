use vstd::prelude::*;

verus! {

/// The control endpoint may be bound once for the lifetime of the
/// supervisor; a second attempt is refused.
#[derive(Clone, Copy, PartialEq, Eq, Structural, Debug)]
pub struct AlreadyBound;

/// What one bind attempt does to the slot and whether it succeeds.
pub open spec fn spec_bind(cur: Option<u16>, port: u16) -> (Option<u16>, bool) {
    match cur {
        Option::Some(q) => (Option::Some(q), false),
        Option::None => (Option::Some(port), true),
    }
}

/// The once-initialized holder of the control endpoint's port. The caller
/// binds the OS listener and registers the resolved port here; the slot
/// refuses to be filled twice, so a stale listener can never be reused
/// silently.
pub struct ControlPortSlot {
    port: Option<u16>,
}

impl ControlPortSlot {
    pub closed spec fn bound(&self) -> Option<u16> {
        self.port
    }

    pub fn new() -> (r: ControlPortSlot)
        ensures
            r.bound() is None,
    {
        ControlPortSlot { port: None }
    }

    /// Registers the port of the freshly bound listener. Succeeds exactly
    /// once: a slot that already holds a port refuses and keeps it.
    pub fn bind(&mut self, port: u16) -> (r: Result<u16, AlreadyBound>)
        ensures
            final(self).bound() == spec_bind(old(self).bound(), port).0,
            r is Ok <==> spec_bind(old(self).bound(), port).1,
            r is Ok ==> r.unwrap() == port && final(self).bound() == Some(port),
            r is Err ==> *final(self) == *old(self),
    {
        match self.port {
            Some(_) => Err(AlreadyBound),
            None => {
                self.port = Some(port);
                Ok(port)
            },
        }
    }

    pub fn get(&self) -> (r: Option<u16>)
        ensures
            r == self.bound(),
    {
        self.port
    }
}

/// Law: from an unbound slot, the first bind succeeds and records its port,
/// and every later bind is refused and leaves the recorded port as it was.
pub proof fn lemma_bind_exactly_once(p1: u16, p2: u16)
    ensures
        spec_bind(Option::None, p1).1,
        spec_bind(Option::None, p1).0 == Option::Some(p1),
        !spec_bind(spec_bind(Option::None, p1).0, p2).1,
        spec_bind(spec_bind(Option::None, p1).0, p2).0 == Option::Some(p1),
{
}

/// The one command of the control vocabulary: the backend is told to shut
/// down by the delimited token `STOP` followed by a line feed.
pub open spec fn stop_token() -> Seq<u8> {
    seq![83u8, 84u8, 79u8, 80u8, 10u8]
}

/// The byte sequence written over the control connection to request
/// shutdown.
pub fn shutdown_command() -> (r: Vec<u8>)
    ensures
        r@ == stop_token(),
{
    let mut r: Vec<u8> = Vec::new();
    r.push(83);
    r.push(84);
    r.push(79);
    r.push(80);
    r.push(10);
    proof {
        assert(r@ =~= stop_token());
    }
    r
}

} // verus!
