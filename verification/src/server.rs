use vstd::prelude::*;
use crate::addr::Address;
use crate::backend::Backend;
use crate::connection::HttpConnection;
use crate::error::HttpError;
use crate::event::Event;
use crate::listener::{bound_port_agrees, AcceptOutcome, BindOutcome, HttpServer};
use crate::registry::CallbackRegistry;

verus! {

/// The reactor-dispatch server: one bound listener, the callback registry,
/// the tokens the readiness sources were registered under, and the control
/// state of the single-threaded event loop. Everything here runs on one
/// thread; a handler that blocks starves every other source — a deliberate
/// simplicity trade-off of this model, not an oversight. The host performs
/// the waiting and the socket calls and feeds their outcomes in.
pub struct Server<H> {
    listener: HttpServer,
    registry: CallbackRegistry<H>,
    stdin_token: Option<u64>,
    stdout_token: Option<u64>,
    running: bool,
    shutdown_requested: bool,
}

impl<H> Server<H> {
    /// The bound listener this server dispatches for.
    pub closed spec fn spec_listener(self) -> HttpServer {
        self.listener
    }

    /// The token standard input was registered under, if any.
    pub closed spec fn spec_stdin_token(self) -> Option<u64> {
        self.stdin_token
    }

    /// The token standard output was registered under, if any.
    pub closed spec fn spec_stdout_token(self) -> Option<u64> {
        self.stdout_token
    }

    /// Whether the event loop is running.
    pub closed spec fn is_running(self) -> bool {
        self.running
    }

    /// Whether a handler has asked the loop to stop after the current pass.
    pub closed spec fn shutdown_pending(self) -> bool {
        self.shutdown_requested
    }

    /// The handler registered for an event kind, if any.
    pub closed spec fn handler_for(self, e: Event) -> Option<H> {
        self.registry.handler_for(e)
    }

    /// Tokens are assigned statically, before the loop starts, and are
    /// pairwise distinct; shutdown can only be pending while the loop runs;
    /// the listener itself is well formed.
    pub closed spec fn wf(self) -> bool {
        &&& self.listener.wf()
        &&& (self.shutdown_requested ==> self.running)
        &&& (self.listener.spec_token() is Some ==> self.listener.spec_token()
            != self.stdin_token && self.listener.spec_token() != self.stdout_token)
        &&& (self.stdin_token is Some ==> self.stdin_token != self.stdout_token)
    }

    /// What registering `h` for `e` leaves behind.
    pub closed spec fn spec_set_handler(self, e: Event, h: H) -> Server<H> {
        Server { registry: self.registry.spec_register(e, h), ..self }
    }

    /// What entering the event loop leaves behind.
    pub closed spec fn spec_begin_loop(self) -> Server<H> {
        Server { running: true, shutdown_requested: false, ..self }
    }

    /// What a shutdown request from inside a handler leaves behind.
    pub closed spec fn spec_shutdown(self) -> Server<H> {
        Server { shutdown_requested: true, ..self }
    }

    /// What the end-of-pass check leaves behind: the loop stops exactly when
    /// shutdown was requested during the pass.
    pub closed spec fn spec_finish_pass(self) -> Server<H> {
        if self.shutdown_requested {
            Server { running: false, shutdown_requested: false, ..self }
        } else {
            self
        }
    }

    /// Creates a server by binding a listener through the chosen transport;
    /// a fresh server holds no handlers, no stdin/stdout tokens, and its
    /// loop is not running. A refused bind is `BindError` with the OS code.
    pub fn bind(backend: Backend, requested: Address, outcome: BindOutcome) -> (r: Result<
        Server<H>,
        HttpError,
    >)
        requires
            bound_port_agrees(requested, outcome),
        ensures
            outcome matches BindOutcome::Bound(local) ==> (r matches Ok(s) && s.wf()
                && !s.is_running() && !s.shutdown_pending() && s.spec_listener().spec_backend()
                == backend && s.spec_listener().spec_requested() == requested
                && s.spec_listener().spec_local() == local && s.spec_listener().spec_token() is None
                && s.spec_stdin_token() is None && s.spec_stdout_token() is None && forall|e: Event|
                s.handler_for(e) is None),
            outcome matches BindOutcome::Refused(code) ==> r == Err::<Server<H>, HttpError>(
                HttpError::BindError(code),
            ),
    {
        match HttpServer::bind(backend, requested, outcome) {
            Ok(listener) => Ok(
                Server {
                    listener,
                    registry: CallbackRegistry::new(),
                    stdin_token: None,
                    stdout_token: None,
                    running: false,
                    shutdown_requested: false,
                },
            ),
            Err(e) => Err(e),
        }
    }

    /// Registers the listener with the readiness loop under `token`, once and
    /// before the loop starts; the token must differ from any token already
    /// given to stdin or stdout.
    pub fn register_self(&mut self, token: u64)
        requires
            !old(self).is_running(),
            old(self).spec_listener().spec_token() is None,
            old(self).spec_stdin_token() != Some(token),
            old(self).spec_stdout_token() != Some(token),
        ensures
            final(self).spec_listener().spec_token() == Some(token),
            final(self).spec_listener().spec_backend() == old(
                self,
            ).spec_listener().spec_backend(),
            final(self).spec_listener().spec_requested() == old(
                self,
            ).spec_listener().spec_requested(),
            final(self).spec_listener().spec_local() == old(self).spec_listener().spec_local(),
            final(self).spec_stdin_token() == old(self).spec_stdin_token(),
            final(self).spec_stdout_token() == old(self).spec_stdout_token(),
            final(self).is_running() == old(self).is_running(),
            final(self).shutdown_pending() == old(self).shutdown_pending(),
            forall|e: Event| final(self).handler_for(e) == old(self).handler_for(e),
            old(self).wf() ==> final(self).wf(),
    {
        self.listener.register_self(token);
    }

    /// Registers the process's standard input as a readiness source under
    /// `token`, once and before the loop starts.
    pub fn register_stdin(&mut self, token: u64)
        requires
            !old(self).is_running(),
            old(self).spec_stdin_token() is None,
            old(self).spec_listener().spec_token() != Some(token),
            old(self).spec_stdout_token() != Some(token),
        ensures
            final(self).spec_stdin_token() == Some(token),
            final(self).spec_listener() == old(self).spec_listener(),
            final(self).spec_stdout_token() == old(self).spec_stdout_token(),
            final(self).is_running() == old(self).is_running(),
            final(self).shutdown_pending() == old(self).shutdown_pending(),
            forall|e: Event| final(self).handler_for(e) == old(self).handler_for(e),
            old(self).wf() ==> final(self).wf(),
    {
        self.stdin_token = Some(token);
    }

    /// Registers the process's standard output as a readiness source under
    /// `token`, once and before the loop starts.
    pub fn register_stdout(&mut self, token: u64)
        requires
            !old(self).is_running(),
            old(self).spec_stdout_token() is None,
            old(self).spec_listener().spec_token() != Some(token),
            old(self).spec_stdin_token() != Some(token),
        ensures
            final(self).spec_stdout_token() == Some(token),
            final(self).spec_listener() == old(self).spec_listener(),
            final(self).spec_stdin_token() == old(self).spec_stdin_token(),
            final(self).is_running() == old(self).is_running(),
            final(self).shutdown_pending() == old(self).shutdown_pending(),
            forall|e: Event| final(self).handler_for(e) == old(self).handler_for(e),
            old(self).wf() ==> final(self).wf(),
    {
        self.stdout_token = Some(token);
    }

    /// Registers the handler invoked when a request can be accepted; lawful
    /// only while the loop is not running, and the last write wins.
    pub fn on_request(&mut self, h: H)
        requires
            !old(self).is_running(),
        ensures
            *final(self) == old(self).spec_set_handler(Event::Request, h),
            final(self).handler_for(Event::Request) == Some(h),
            forall|e: Event|
                e != Event::Request ==> final(self).handler_for(e) == old(self).handler_for(e),
            final(self).is_running() == old(self).is_running(),
            final(self).shutdown_pending() == old(self).shutdown_pending(),
            final(self).spec_listener() == old(self).spec_listener(),
            final(self).spec_stdin_token() == old(self).spec_stdin_token(),
            final(self).spec_stdout_token() == old(self).spec_stdout_token(),
            old(self).wf() ==> final(self).wf(),
    {
        self.registry.register(Event::Request, h);
        proof {
            register_facts(old(self).registry, Event::Request, h);
        }
    }

    /// Registers the handler invoked when standard input is readable; lawful
    /// only while the loop is not running, and the last write wins.
    pub fn on_stdin(&mut self, h: H)
        requires
            !old(self).is_running(),
        ensures
            *final(self) == old(self).spec_set_handler(Event::Stdin, h),
            final(self).handler_for(Event::Stdin) == Some(h),
            forall|e: Event|
                e != Event::Stdin ==> final(self).handler_for(e) == old(self).handler_for(e),
            final(self).is_running() == old(self).is_running(),
            final(self).shutdown_pending() == old(self).shutdown_pending(),
            final(self).spec_listener() == old(self).spec_listener(),
            final(self).spec_stdin_token() == old(self).spec_stdin_token(),
            final(self).spec_stdout_token() == old(self).spec_stdout_token(),
            old(self).wf() ==> final(self).wf(),
    {
        self.registry.register(Event::Stdin, h);
        proof {
            register_facts(old(self).registry, Event::Stdin, h);
        }
    }

    /// Registers the handler invoked when standard output is writable; lawful
    /// only while the loop is not running, and the last write wins.
    pub fn on_stdout(&mut self, h: H)
        requires
            !old(self).is_running(),
        ensures
            *final(self) == old(self).spec_set_handler(Event::Stdout, h),
            final(self).handler_for(Event::Stdout) == Some(h),
            forall|e: Event|
                e != Event::Stdout ==> final(self).handler_for(e) == old(self).handler_for(e),
            final(self).is_running() == old(self).is_running(),
            final(self).shutdown_pending() == old(self).shutdown_pending(),
            final(self).spec_listener() == old(self).spec_listener(),
            final(self).spec_stdin_token() == old(self).spec_stdin_token(),
            final(self).spec_stdout_token() == old(self).spec_stdout_token(),
            old(self).wf() ==> final(self).wf(),
    {
        self.registry.register(Event::Stdout, h);
        proof {
            register_facts(old(self).registry, Event::Stdout, h);
        }
    }

    /// Reads the handler registered for an event kind.
    pub fn handler(&self, e: Event) -> (r: &Option<H>)
        ensures
            *r == self.handler_for(e),
    {
        self.registry.handler(e)
    }

    /// The token the listener was registered under, if any.
    pub fn listener_token(&self) -> (t: Option<u64>)
        ensures
            t == self.spec_listener().spec_token(),
    {
        self.listener.token()
    }

    /// Whether the event loop is running.
    pub fn running(&self) -> (b: bool)
        ensures
            b == self.is_running(),
    {
        self.running
    }

    /// The bound address, as cached by the listener at bind time.
    pub fn local_addr(&self) -> (r: Result<Address, HttpError>)
        ensures
            self.spec_listener().spec_local() matches Some(a) ==> r == Ok::<Address, HttpError>(a),
            self.spec_listener().spec_local() is None ==> r == Err::<Address, HttpError>(
                HttpError::AddrQueryError,
            ),
    {
        self.listener.local_addr()
    }

    /// The non-blocking accept decision, delegated to the listener; see
    /// `HttpServer::accept`. A readiness handler calls this exactly once per
    /// notification on the listener's token.
    pub fn accept(&self, outcome: AcceptOutcome) -> (r: Result<Option<HttpConnection>, HttpError>)
        requires
            outcome is HandshakeRefused ==> self.spec_listener().spec_backend() == Backend::Tls,
        ensures
            outcome matches AcceptOutcome::Connected(local, peer) ==> (r matches Ok(c)
                && c matches Some(c) && c.spec_local() == local && c.spec_peer() == peer),
            outcome is HandshakeRefused ==> r == Err::<Option<HttpConnection>, HttpError>(
                HttpError::HandshakeError,
            ),
            outcome is NothingPending ==> (r matches Ok(c) && c is None),
            outcome matches AcceptOutcome::Failed(code) ==> r == Err::<
                Option<HttpConnection>,
                HttpError,
            >(HttpError::AcceptError(code)),
    {
        self.listener.accept(outcome)
    }

    /// Maps a reactor wake-up token to the event kind it stands for. `None`
    /// means the token was never registered: tokens are assigned statically
    /// before the loop starts, so an unrecognized one is a construction bug
    /// in the host, not a runtime condition to recover from.
    pub fn classify_token(&self, token: u64) -> (r: Option<Event>)
        requires
            self.wf(),
        ensures
            r == Some(Event::Request) <==> self.spec_listener().spec_token() == Some(token),
            r == Some(Event::Stdin) <==> self.spec_stdin_token() == Some(token),
            r == Some(Event::Stdout) <==> self.spec_stdout_token() == Some(token),
            r is None <==> (self.spec_listener().spec_token() != Some(token)
                && self.spec_stdin_token() != Some(token) && self.spec_stdout_token() != Some(
                token,
            )),
    {
        if token_matches(self.listener.token(), token) {
            Some(Event::Request)
        } else if token_matches(self.stdin_token, token) {
            Some(Event::Stdin)
        } else if token_matches(self.stdout_token, token) {
            Some(Event::Stdout)
        } else {
            None
        }
    }

    /// Enters the event loop: the first step of running it. The listener must
    /// have been registered; handlers are frozen until the loop stops again.
    /// The host then alternates waiting for readiness, dispatching each
    /// notification, and `finish_pass`.
    pub fn begin_loop(&mut self)
        requires
            !old(self).is_running(),
            old(self).spec_listener().spec_token() is Some,
        ensures
            *final(self) == old(self).spec_begin_loop(),
            final(self).is_running(),
            !final(self).shutdown_pending(),
            final(self).spec_listener() == old(self).spec_listener(),
            final(self).spec_stdin_token() == old(self).spec_stdin_token(),
            final(self).spec_stdout_token() == old(self).spec_stdout_token(),
            forall|e: Event| final(self).handler_for(e) == old(self).handler_for(e),
            old(self).wf() ==> final(self).wf(),
    {
        self.running = true;
        self.shutdown_requested = false;
    }

    /// Asks the loop to stop; meaningful only from within a handler running
    /// on the reactor thread. The loop stops after the current readiness
    /// pass completes, not instantaneously.
    pub fn shutdown(&mut self)
        requires
            old(self).is_running(),
        ensures
            *final(self) == old(self).spec_shutdown(),
            final(self).shutdown_pending(),
            final(self).is_running() == old(self).is_running(),
            final(self).spec_listener() == old(self).spec_listener(),
            final(self).spec_stdin_token() == old(self).spec_stdin_token(),
            final(self).spec_stdout_token() == old(self).spec_stdout_token(),
            forall|e: Event| final(self).handler_for(e) == old(self).handler_for(e),
            old(self).wf() ==> final(self).wf(),
    {
        self.shutdown_requested = true;
    }

    /// The once-per-iteration check at the end of a readiness pass: reports
    /// whether the loop goes on, and when shutdown was requested during the
    /// pass, stops the loop — that pass was the last one.
    pub fn finish_pass(&mut self) -> (go_on: bool)
        requires
            old(self).is_running(),
        ensures
            *final(self) == old(self).spec_finish_pass(),
            go_on == !old(self).shutdown_pending(),
            go_on == final(self).is_running(),
            !final(self).shutdown_pending(),
            final(self).spec_listener() == old(self).spec_listener(),
            final(self).spec_stdin_token() == old(self).spec_stdin_token(),
            final(self).spec_stdout_token() == old(self).spec_stdout_token(),
            forall|e: Event| final(self).handler_for(e) == old(self).handler_for(e),
            old(self).wf() ==> final(self).wf(),
    {
        if self.shutdown_requested {
            self.running = false;
            self.shutdown_requested = false;
            false
        } else {
            true
        }
    }

    /// Law (shutdown stops the loop): once a handler has requested shutdown,
    /// the pass that is finishing is the last one — afterwards the loop no
    /// longer runs, so it invokes no further handler.
    pub proof fn lemma_shutdown_stops_loop(self)
        ensures
            !self.spec_shutdown().spec_finish_pass().is_running(),
            self.wf() ==> self.spec_shutdown().spec_finish_pass().wf(),
    {
    }

    /// Law (a pass without shutdown changes nothing): finishing a pass in
    /// which no handler requested shutdown leaves the server exactly as it
    /// was, still running.
    pub proof fn lemma_quiet_pass_is_stable(self)
        requires
            !self.shutdown_pending(),
        ensures
            self.spec_finish_pass() == self,
    {
    }

    /// Law (loop control does not touch the registry): entering the loop,
    /// requesting shutdown and finishing a pass all leave every registered
    /// handler in place.
    pub proof fn lemma_loop_keeps_handlers(self, e: Event)
        ensures
            self.spec_begin_loop().handler_for(e) == self.handler_for(e),
            self.spec_shutdown().handler_for(e) == self.handler_for(e),
            self.spec_finish_pass().handler_for(e) == self.handler_for(e),
    {
    }

    /// Law (a restart reuses the last registered handler): register `h1`,
    /// overwrite it with `h2`, run the loop, shut it down, start the loop
    /// again — the handler the new run consults is `h2`, never the
    /// overwritten `h1`.
    pub proof fn lemma_restart_uses_last_handler(self, e: Event, h1: H, h2: H)
        ensures
            self.spec_set_handler(e, h1).spec_set_handler(e, h2).spec_begin_loop().spec_shutdown()
                .spec_finish_pass().spec_begin_loop().handler_for(e) == Some(h2),
    {
        self.registry.lemma_register_overwrites(e, h1, h2);
        self.registry.lemma_register_reads_back(e, h2);
    }
}

/// What one registration does to every kind's slot, spelled out for the
/// registering methods' callers.
proof fn register_facts<H>(r: CallbackRegistry<H>, e: Event, h: H)
    ensures
        r.spec_register(e, h).handler_for(e) == Some(h),
        forall|e2: Event| e2 != e ==> r.spec_register(e, h).handler_for(e2) == r.handler_for(e2),
{
    r.lemma_register_reads_back(e, h);
    assert forall|e2: Event| e2 != e implies r.spec_register(e, h).handler_for(e2)
        == r.handler_for(e2) by {
        r.lemma_register_frame(e, e2, h);
    }
}

/// Whether a registered token slot holds exactly this token.
fn token_matches(slot: Option<u64>, token: u64) -> (b: bool)
    ensures
        b == (slot == Some(token)),
{
    match slot {
        Some(t) => t == token,
        None => false,
    }
}

} // verus!
