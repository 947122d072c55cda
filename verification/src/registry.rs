use vstd::prelude::*;
use crate::event::Event;

verus! {

/// At most one handler per event kind, set before the event loop starts and
/// read while it runs. Registering for a kind overwrites whatever handler
/// that kind had: there is no multi-handler fan-out.
pub struct CallbackRegistry<H> {
    request: Option<H>,
    stdin: Option<H>,
    stdout: Option<H>,
}

impl<H> CallbackRegistry<H> {
    /// The handler registered for an event kind, if any.
    pub closed spec fn handler_for(self, e: Event) -> Option<H> {
        match e {
            Event::Request => self.request,
            Event::Stdin => self.stdin,
            Event::Stdout => self.stdout,
        }
    }

    /// What registering `h` for `e` leaves behind: `e` maps to `h`, the other
    /// kinds keep their handlers.
    pub closed spec fn spec_register(self, e: Event, h: H) -> CallbackRegistry<H> {
        match e {
            Event::Request => CallbackRegistry { request: Some(h), ..self },
            Event::Stdin => CallbackRegistry { stdin: Some(h), ..self },
            Event::Stdout => CallbackRegistry { stdout: Some(h), ..self },
        }
    }

    /// A fresh registry holds no handler for any kind.
    pub fn new() -> (r: CallbackRegistry<H>)
        ensures
            forall|e: Event| r.handler_for(e) is None,
    {
        CallbackRegistry { request: None, stdin: None, stdout: None }
    }

    /// Registers `h` for `e`, overwriting any previous handler for that kind
    /// and leaving the other kinds untouched.
    pub fn register(&mut self, e: Event, h: H)
        ensures
            *final(self) == old(self).spec_register(e, h),
    {
        match e {
            Event::Request => self.request = Some(h),
            Event::Stdin => self.stdin = Some(h),
            Event::Stdout => self.stdout = Some(h),
        }
    }

    /// Reads the handler registered for `e`.
    pub fn handler(&self, e: Event) -> (r: &Option<H>)
        ensures
            *r == self.handler_for(e),
    {
        match e {
            Event::Request => &self.request,
            Event::Stdin => &self.stdin,
            Event::Stdout => &self.stdout,
        }
    }

    /// Law (last write wins): after two registrations for the same kind, the
    /// registry is exactly what registering the second alone would have left.
    pub proof fn lemma_register_overwrites(self, e: Event, h1: H, h2: H)
        ensures
            self.spec_register(e, h1).spec_register(e, h2) == self.spec_register(e, h2),
    {
    }

    /// Law (kinds are independent): registering for one kind leaves every
    /// other kind's handler exactly as it was.
    pub proof fn lemma_register_frame(self, e1: Event, e2: Event, h: H)
        requires
            e1 != e2,
        ensures
            self.spec_register(e1, h).handler_for(e2) == self.handler_for(e2),
    {
    }

    /// Law (registration lands): after registering `h` for `e`, the handler
    /// for `e` is `h`.
    pub proof fn lemma_register_reads_back(self, e: Event, h: H)
        ensures
            self.spec_register(e, h).handler_for(e) == Some(h),
    {
    }
}

} // verus!
