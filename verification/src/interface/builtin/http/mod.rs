//! The HTTP interface: its configuration, the decisions taken while its
//! listeners are set up, and the information it serves.
use vstd::prelude::*;

use crate::interface::InterfaceProviderConfig;
use crate::misc_util::{decimal_value, lemma_nat_decimal_reads_back, nat_decimal, u64_to_decimal};

pub mod feature;

use feature::FeatureSupport;

verus! {

/// Why the HTTP interface could not be set up. Each variant carries the text
/// of the underlying I/O error.
#[derive(Debug, PartialEq, Eq)]
pub enum Error {
    TcpBind(String),
    UnixBind(String),
    HttpServer(String),
}

/// An HTTP setup error, with the text of its I/O error as a sequence.
pub enum ErrorView {
    TcpBind(Seq<char>),
    UnixBind(Seq<char>),
    HttpServer(Seq<char>),
}

impl View for Error {
    type V = ErrorView;

    open spec fn view(&self) -> ErrorView {
        match self {
            Error::TcpBind(m) => ErrorView::TcpBind(m@),
            Error::UnixBind(m) => ErrorView::UnixBind(m@),
            Error::HttpServer(m) => ErrorView::HttpServer(m@),
        }
    }
}

/// The text that an HTTP setup error shows to a user.
pub open spec fn error_message(e: ErrorView) -> Seq<char> {
    match e {
        ErrorView::TcpBind(m) => "TCP bind error: "@ + m,
        ErrorView::UnixBind(m) => "Unix socket bind error: "@ + m,
        ErrorView::HttpServer(m) => "HTTP server error: "@ + m,
    }
}

/// The text of an HTTP setup error ends with the text of its I/O error, and
/// the three kinds read differently.
pub proof fn lemma_error_message_ends_with_cause(e: ErrorView)
    ensures
        match e {
            ErrorView::TcpBind(m) | ErrorView::UnixBind(m) | ErrorView::HttpServer(m) => {
                &&& error_message(e).len() > m.len()
                &&& error_message(e).skip(error_message(e).len() - m.len()) == m
            },
        },
        match e {
            ErrorView::TcpBind(_) => error_message(e)[0] == 'T',
            ErrorView::UnixBind(_) => error_message(e)[0] == 'U',
            ErrorView::HttpServer(_) => error_message(e)[0] == 'H',
        },
{
    reveal_strlit("TCP bind error: ");
    reveal_strlit("Unix socket bind error: ");
    reveal_strlit("HTTP server error: ");
    match e {
        ErrorView::TcpBind(m) | ErrorView::UnixBind(m) | ErrorView::HttpServer(m) => {
            let t = error_message(e);
            assert(t.skip(t.len() - m.len()) =~= m);
        },
    }
}

impl Error {
    /// The text shown for this error: a fixed prefix per kind, then the text
    /// of the I/O error.
    pub fn message(&self) -> (s: String)
        ensures
            s@ == error_message(self@),
    {
        match self {
            Error::TcpBind(m) => String::from_str("TCP bind error: ").concat(m.as_str()),
            Error::UnixBind(m) => String::from_str("Unix socket bind error: ").concat(m.as_str()),
            Error::HttpServer(m) => String::from_str("HTTP server error: ").concat(m.as_str()),
        }
    }
}

/// One socket that the HTTP server listens on. `fails` says whether a failure
/// to bind it aborts the whole setup.
#[derive(Debug, PartialEq, Eq)]
pub enum Listener {
    /// (address, port)
    Tcp { addr: String, port: u16, fails: bool },
    /// Unix socket path
    Unix { path: String, fails: bool },
}

impl Listener {
    /// Whether a failure to bind this listener aborts the setup.
    pub open spec fn spec_fails(&self) -> bool {
        match *self {
            Listener::Tcp { fails, .. } => fails,
            Listener::Unix { fails, .. } => fails,
        }
    }

    /// The setup error for a failed bind of this listener.
    pub open spec fn spec_bind_error(self, message: Seq<char>) -> ErrorView {
        match self {
            Listener::Tcp { .. } => ErrorView::TcpBind(message),
            Listener::Unix { .. } => ErrorView::UnixBind(message),
        }
    }

    /// Whether a failure to bind this listener aborts the setup.
    #[verifier::when_used_as_spec(spec_fails)]
    pub fn fails(&self) -> (r: bool)
        ensures
            r == self.spec_fails(),
    {
        match self {
            Listener::Tcp { fails, .. } => *fails,
            Listener::Unix { fails, .. } => *fails,
        }
    }

    /// The setup error for a failed bind of this listener.
    pub fn bind_error(&self, message: String) -> (e: Error)
        ensures
            e@ == self.spec_bind_error(message@),
    {
        match self {
            Listener::Tcp { .. } => Error::TcpBind(message),
            Listener::Unix { .. } => Error::UnixBind(message),
        }
    }
}

impl Clone for Listener {
    fn clone(&self) -> (r: Self)
        ensures
            r == *self,
    {
        match self {
            Listener::Tcp { addr, port, fails } => Listener::Tcp {
                addr: addr.clone(),
                port: *port,
                fails: *fails,
            },
            Listener::Unix { path, fails } => Listener::Unix { path: path.clone(), fails: *fails },
        }
    }
}

/// The socket address a TCP listener binds: the address, a colon, and the
/// port in decimal.
pub open spec fn tcp_address(addr: Seq<char>, port: u16) -> Seq<char> {
    addr + ":"@ + nat_decimal(port as nat)
}

/// The socket address `addr:port` that a TCP listener binds.
pub fn tcp_bind_address(addr: &String, port: u16) -> (s: String)
    ensures
        s@ == tcp_address(addr@, port),
{
    let port_text = u64_to_decimal(port as u64);
    addr.clone().concat(":").concat(port_text.as_str())
}

/// Configuration of the HTTP interface.
#[derive(Debug, PartialEq, Eq)]
pub struct HttpInterfaceProviderConfig {
    pub listeners: Vec<Listener>,
    /// Whether to shutdown entire backend when HTTP server exits.
    pub fails: bool,
}

impl InterfaceProviderConfig for HttpInterfaceProviderConfig {

}

/// The HTTP interface configuration with its listeners as a sequence.
pub struct HttpInterfaceProviderConfigView {
    pub listeners: Seq<Listener>,
    pub fails: bool,
}

impl View for HttpInterfaceProviderConfig {
    type V = HttpInterfaceProviderConfigView;

    open spec fn view(&self) -> HttpInterfaceProviderConfigView {
        HttpInterfaceProviderConfigView { listeners: self.listeners@, fails: self.fails }
    }
}

impl Clone for HttpInterfaceProviderConfig {
    fn clone(&self) -> (r: Self)
        ensures
            r@ == self@,
    {
        let listeners = self.listeners.clone();
        assert forall|i: int| 0 <= i < listeners@.len() implies listeners@[i] == self.listeners@[i] by {
            assert(vstd::pervasive::cloned::<Listener>(self.listeners@[i], listeners@[i]));
        }
        assert(listeners@ =~= self.listeners@);
        HttpInterfaceProviderConfig { listeners, fails: self.fails }
    }
}

/// What the HTTP interface tells about the backend: its name, its version and
/// the feature IDs it supports.
#[derive(Debug, PartialEq, Eq)]
pub struct BackendInformationResponse {
    pub name: &'static str,
    pub version: &'static str,
    pub features: Vec<String>,
}

impl BackendInformationResponse {
    /// The answer for the backend of this name and version, listing the
    /// registered features in the order of registration.
    pub fn get(feature_support: &FeatureSupport, name: &'static str, version: &'static str) -> (r:
        Self)
        ensures
            r.name == name,
            r.version == version,
            r.features@.map_values(|f: String| f@) == feature_support@,
    {
        BackendInformationResponse { name, version, features: feature_support.get() }
    }
}

/// What became of one listener during setup.
#[derive(Debug, PartialEq, Eq)]
pub enum ListenerOutcome {
    /// Binding its socket failed, with this error text.
    BindFailed(String),
    /// The server refused to listen on the bound socket, with this error text.
    ListenFailed(String),
    /// The server now listens on the socket.
    Listening,
}

/// What became of one listener, with error texts as sequences.
pub enum OutcomeView {
    BindFailed(Seq<char>),
    ListenFailed(Seq<char>),
    Listening,
}

impl View for ListenerOutcome {
    type V = OutcomeView;

    open spec fn view(&self) -> OutcomeView {
        match self {
            ListenerOutcome::BindFailed(m) => OutcomeView::BindFailed(m@),
            ListenerOutcome::ListenFailed(m) => OutcomeView::ListenFailed(m@),
            ListenerOutcome::Listening => OutcomeView::Listening,
        }
    }
}

/// The text of the error when no listener could be registered.
pub open spec fn no_listeners_message() -> Seq<char> {
    "No listeners registered"@
}

/// One step of the setup: from the number of listeners registered so far and
/// the outcome for the next listener, the new count and whether setup goes on
/// (`Ok`) or stops with an error.
pub open spec fn record_step(registered: nat, listener: Listener, outcome: OutcomeView) -> (
    nat,
    Result<(), ErrorView>,
) {
    match outcome {
        OutcomeView::Listening => (registered + 1, Ok(())),
        OutcomeView::BindFailed(m) => (
            registered,
            if listener.spec_fails() {
                Err(listener.spec_bind_error(m))
            } else {
                Ok(())
            },
        ),
        OutcomeView::ListenFailed(m) => (registered, Err(ErrorView::HttpServer(m))),
    }
}

/// Whether an outcome stops the setup.
pub open spec fn is_fatal(listener: Listener, outcome: OutcomeView) -> bool {
    record_step(0, listener, outcome).1 is Err
}

/// The end of the setup, once every listener has been tried.
pub open spec fn finish_step(registered: nat) -> Result<nat, ErrorView> {
    if registered == 0 {
        Err(ErrorView::HttpServer(no_listeners_message()))
    } else {
        Ok(registered)
    }
}

/// The whole setup over the listeners in order, given what became of each:
/// it stops at the first outcome that is fatal, and otherwise fails when no
/// listener was registered.
pub open spec fn setup_run(listeners: Seq<Listener>, outcomes: Seq<OutcomeView>, registered: nat) -> Result<
    nat,
    ErrorView,
>
    decreases outcomes.len(),
{
    if listeners.len() == 0 || outcomes.len() == 0 {
        finish_step(registered)
    } else {
        let (next, r) = record_step(registered, listeners[0], outcomes[0]);
        match r {
            Err(e) => Err(e),
            Ok(_) => setup_run(listeners.drop_first(), outcomes.drop_first(), next),
        }
    }
}

/// The number of listeners that the server came to listen on.
pub open spec fn count_listening(outcomes: Seq<OutcomeView>) -> nat
    decreases outcomes.len(),
{
    if outcomes.len() == 0 {
        0
    } else {
        (if outcomes[0] is Listening {
            1nat
        } else {
            0nat
        }) + count_listening(outcomes.drop_first())
    }
}

/// The error with which a fatal outcome stops the setup.
pub open spec fn fatal_error(listener: Listener, outcome: OutcomeView) -> ErrorView {
    match outcome {
        OutcomeView::BindFailed(m) => listener.spec_bind_error(m),
        OutcomeView::ListenFailed(m) => ErrorView::HttpServer(m),
        OutcomeView::Listening => ErrorView::HttpServer(Seq::empty()),
    }
}

/// A failed bind stops the setup exactly when the listener is marked as
/// failing; a refused listen always stops it; a listening socket never does.
pub proof fn lemma_fatal_outcomes(listener: Listener, outcome: OutcomeView, registered: nat)
    ensures
        is_fatal(listener, outcome) <==> match outcome {
            OutcomeView::BindFailed(_) => listener.spec_fails(),
            OutcomeView::ListenFailed(_) => true,
            OutcomeView::Listening => false,
        },
        record_step(registered, listener, outcome).1 is Err <==> is_fatal(listener, outcome),
        is_fatal(listener, outcome) ==> record_step(registered, listener, outcome).1 == Err::<(), ErrorView>(fatal_error(listener, outcome)),
        record_step(registered, listener, outcome).0 == registered + (if outcome is Listening {
            1nat
        } else {
            0nat
        }),
{
}

/// Whether a listener counts as failing is exactly its configured `fails`
/// flag, whatever its address, port or path; a failed bind reports the error
/// kind of the listener's socket type with the bind error's own text.
pub proof fn lemma_listener_flag_and_bind_error(listener: Listener, message: Seq<char>)
    ensures
        match listener {
            Listener::Tcp { fails, .. } => {
                &&& listener.spec_fails() == fails
                &&& listener.spec_bind_error(message) == ErrorView::TcpBind(message)
            },
            Listener::Unix { fails, .. } => {
                &&& listener.spec_fails() == fails
                &&& listener.spec_bind_error(message) == ErrorView::UnixBind(message)
            },
        },
{
}

/// One step of the setup, spelled out on each listener and outcome: a
/// failed bind stops the setup exactly when the listener's own `fails` flag
/// is set, with the error of its socket type; a refused listen always stops
/// it with an HTTP server error; a listening socket adds one to the count.
pub proof fn lemma_record_step_by_case(
    registered: nat,
    listener: Listener,
    outcome: OutcomeView,
    message: Seq<char>,
)
    ensures
        outcome == OutcomeView::Listening ==> record_step(registered, listener, outcome) == (
            registered + 1,
            Ok::<(), ErrorView>(()),
        ),
        outcome == OutcomeView::ListenFailed(message) ==> record_step(registered, listener, outcome)
            == (registered, Err::<(), ErrorView>(ErrorView::HttpServer(message))),
        outcome == OutcomeView::BindFailed(message) ==> match listener {
            Listener::Tcp { fails, .. } => record_step(registered, listener, outcome) == (
                registered,
                if fails {
                    Err::<(), ErrorView>(ErrorView::TcpBind(message))
                } else {
                    Ok::<(), ErrorView>(())
                },
            ),
            Listener::Unix { fails, .. } => record_step(registered, listener, outcome) == (
                registered,
                if fails {
                    Err::<(), ErrorView>(ErrorView::UnixBind(message))
                } else {
                    Ok::<(), ErrorView>(())
                },
            ),
        },
{
}

/// The end of the setup succeeds with the count exactly when it is not zero,
/// and otherwise fails with the HTTP server error "No listeners registered".
pub proof fn lemma_finish_step(registered: nat)
    ensures
        registered > 0 <==> finish_step(registered) is Ok,
        registered > 0 ==> finish_step(registered) == Ok::<nat, ErrorView>(registered),
        registered == 0 ==> finish_step(registered) == Err::<nat, ErrorView>(
            ErrorView::HttpServer("No listeners registered"@),
        ),
{
}

/// The bind address of a TCP listener is the address, a colon, and the
/// port's decimal digits and nothing else: the text after the address and
/// the colon reads back as the port.
pub proof fn lemma_tcp_address_parts(addr: Seq<char>, port: u16)
    ensures
        tcp_address(addr, port).len() == addr.len() + 1 + nat_decimal(port as nat).len(),
        tcp_address(addr, port).subrange(0, addr.len() as int) == addr,
        tcp_address(addr, port)[addr.len() as int] == ':',
        tcp_address(addr, port).skip(addr.len() + 1int) == nat_decimal(port as nat),
        decimal_value(tcp_address(addr, port).skip(addr.len() + 1int)) == port as nat,
{
    reveal_strlit(":");
    let t = tcp_address(addr, port);
    assert(t.subrange(0, addr.len() as int) =~= addr);
    assert(t.skip(addr.len() + 1int) =~= nat_decimal(port as nat));
    lemma_nat_decimal_reads_back(port as nat);
}

/// When no outcome is fatal, the setup succeeds exactly when at least one
/// listener is listening, and then reports how many are; otherwise it fails
/// with "No listeners registered".
pub proof fn lemma_setup_without_fatal_outcome(
    listeners: Seq<Listener>,
    outcomes: Seq<OutcomeView>,
    registered: nat,
)
    requires
        listeners.len() == outcomes.len(),
        forall|i: int| 0 <= i < outcomes.len() ==> !is_fatal(#[trigger] listeners[i], outcomes[i]),
    ensures
        setup_run(listeners, outcomes, registered) == finish_step(
            registered + count_listening(outcomes),
        ),
    decreases outcomes.len(),
{
    if outcomes.len() > 0 {
        assert(!is_fatal(listeners[0], outcomes[0]));
        let ls = listeners.drop_first();
        let os = outcomes.drop_first();
        assert forall|i: int| 0 <= i < os.len() implies !is_fatal(#[trigger] ls[i], os[i]) by {
            assert(!is_fatal(listeners[i + 1], outcomes[i + 1]));
        }
        lemma_setup_without_fatal_outcome(ls, os, record_step(registered, listeners[0], outcomes[0]).0);
    }
}

/// The setup stops with the error of the first fatal outcome; the listeners
/// after it are not tried.
pub proof fn lemma_setup_stops_at_first_fatal_outcome(
    listeners: Seq<Listener>,
    outcomes: Seq<OutcomeView>,
    registered: nat,
    k: int,
)
    requires
        listeners.len() == outcomes.len(),
        0 <= k < outcomes.len(),
        is_fatal(listeners[k], outcomes[k]),
        forall|i: int| 0 <= i < k ==> !is_fatal(#[trigger] listeners[i], outcomes[i]),
    ensures
        setup_run(listeners, outcomes, registered) == Err::<nat, ErrorView>(
            fatal_error(listeners[k], outcomes[k]),
        ),
    decreases k,
{
    if k > 0 {
        assert(!is_fatal(listeners[0], outcomes[0]));
        let ls = listeners.drop_first();
        let os = outcomes.drop_first();
        assert forall|i: int| 0 <= i < k - 1 implies !is_fatal(#[trigger] ls[i], os[i]) by {
            assert(!is_fatal(listeners[i + 1], outcomes[i + 1]));
        }
        lemma_setup_stops_at_first_fatal_outcome(
            ls,
            os,
            record_step(registered, listeners[0], outcomes[0]).0,
            k - 1,
        );
    }
}

/// The setup succeeds with `n` exactly when no outcome is fatal, `n`
/// listeners are listening, and `n` is not zero.
pub proof fn lemma_setup_succeeds(listeners: Seq<Listener>, outcomes: Seq<OutcomeView>, n: nat)
    requires
        listeners.len() == outcomes.len(),
    ensures
        setup_run(listeners, outcomes, 0) == Ok::<nat, ErrorView>(n) <==> {
            &&& forall|i: int| 0 <= i < outcomes.len() ==> !is_fatal(#[trigger] listeners[i], outcomes[i])
            &&& n == count_listening(outcomes)
            &&& n > 0
        },
{
    if forall|i: int| 0 <= i < outcomes.len() ==> !is_fatal(#[trigger] listeners[i], outcomes[i]) {
        lemma_setup_without_fatal_outcome(listeners, outcomes, 0);
    } else {
        let k = choose|k: int| 0 <= k < outcomes.len() && is_fatal(listeners[k], outcomes[k]);
        lemma_first_fatal_exists(listeners, outcomes, k);
        let f = choose|f: int|
            0 <= f < outcomes.len() && is_fatal(listeners[f], outcomes[f]) && forall|i: int|
                0 <= i < f ==> !is_fatal(#[trigger] listeners[i], outcomes[i]);
        lemma_setup_stops_at_first_fatal_outcome(listeners, outcomes, 0, f);
    }
}

/// Among the fatal outcomes there is a first one.
proof fn lemma_first_fatal_exists(listeners: Seq<Listener>, outcomes: Seq<OutcomeView>, k: int)
    requires
        0 <= k < outcomes.len(),
        k < listeners.len(),
        is_fatal(listeners[k], outcomes[k]),
    ensures
        exists|f: int|
            0 <= f < outcomes.len() && is_fatal(listeners[f], outcomes[f]) && forall|i: int|
                0 <= i < f ==> !is_fatal(#[trigger] listeners[i], outcomes[i]),
    decreases k,
{
    if forall|i: int| 0 <= i < k ==> !is_fatal(#[trigger] listeners[i], outcomes[i]) {
    } else {
        let j = choose|j: int| 0 <= j < k && is_fatal(listeners[j], outcomes[j]);
        lemma_first_fatal_exists(listeners, outcomes, j);
    }
}

/// The state of the listener setup: how many listeners the server listens on.
pub struct ListenerSetup {
    registered: usize,
}

impl ListenerSetup {
    /// The number of listeners registered so far.
    pub closed spec fn spec_registered(&self) -> nat {
        self.registered as nat
    }

    /// A setup in which no listener is registered yet.
    pub fn new() -> (s: Self)
        ensures
            s.spec_registered() == 0,
    {
        ListenerSetup { registered: 0 }
    }

    /// The number of listeners registered so far.
    pub fn registered(&self) -> (n: usize)
        ensures
            n == self.spec_registered(),
    {
        self.registered
    }

    /// Takes into account what became of the next listener. `Err` means the
    /// setup stops here with that error: the listener failed to bind and is
    /// marked as failing, or the server refused to listen on it.
    pub fn record(&mut self, listener: &Listener, outcome: ListenerOutcome) -> (r: Result<(), Error>)
        requires
            old(self).spec_registered() < usize::MAX,
        ensures
            (final(self).spec_registered(), match r {
                Ok(_) => Ok(()),
                Err(e) => Err(e@),
            }) == record_step(old(self).spec_registered(), *listener, outcome@),
    {
        match outcome {
            ListenerOutcome::Listening => {
                self.registered = self.registered + 1;
                Ok(())
            },
            ListenerOutcome::BindFailed(m) => {
                if listener.fails() {
                    Err(listener.bind_error(m))
                } else {
                    Ok(())
                }
            },
            ListenerOutcome::ListenFailed(m) => Err(Error::HttpServer(m)),
        }
    }

    /// Ends the setup once every listener has been tried: the number of
    /// registered listeners, or an error when there is none.
    pub fn finish(&self) -> (r: Result<usize, Error>)
        ensures
            match r {
                Ok(n) => finish_step(self.spec_registered()) == Ok::<nat, ErrorView>(n as nat),
                Err(e) => finish_step(self.spec_registered()) == Err::<nat, ErrorView>(e@),
            },
    {
        proof {
            reveal_strlit("No listeners registered");
        }
        if self.registered == 0 {
            Err(Error::HttpServer(String::from_str("No listeners registered")))
        } else {
            Ok(self.registered)
        }
    }
}

} // verus!
