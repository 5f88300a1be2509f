use vstd::prelude::*;
use vstd::string::*;

use crate::endpoint::ClientEndpoint;
use crate::registry::{registered, without_port, ClientRegistry};

verus! {

/// What `String::from_utf8_lossy` makes of a payload.
pub uninterp spec fn lossy_text(b: Seq<u8>) -> Seq<char>;

/// What `str::trim` leaves of a text.
pub uninterp spec fn trimmed_text(s: Seq<char>) -> Seq<char>;

/// Relies on `String::from_utf8_lossy`: decodes UTF-8, each invalid sequence
/// replaced by U+FFFD; the text depends on the bytes alone.
#[verifier::external_body]
fn decode_lossy(bytes: &[u8]) -> (r: String)
    ensures
        r@ == lossy_text(bytes@),
{
    String::from_utf8_lossy(bytes).into_owned()
}

/// Relies on `str::trim`: the text without leading and trailing white space;
/// the result depends on the text alone.
#[verifier::external_body]
fn trim_text(s: &str) -> (r: &str)
    ensures
        r@ == trimmed_text(s@),
{
    s.trim()
}

/// A request of the discovery protocol.
#[derive(Clone, Copy, Debug, PartialEq, Eq, Structural)]
pub enum Command {
    /// `DISCOVERY`: a client asks for its address and registers.
    Discovery,
    /// `DISCONNECT`: a client leaves.
    Disconnect,
    /// Any other text, which is ignored.
    Other,
}

/// The request that a trimmed text spells.
pub open spec fn command_of(t: Seq<char>) -> Command {
    if t == "DISCOVERY"@ {
        Command::Discovery
    } else if t == "DISCONNECT"@ {
        Command::Disconnect
    } else {
        Command::Other
    }
}

/// The request that a datagram's payload carries.
pub open spec fn command_of_payload(p: Seq<u8>) -> Command {
    command_of(trimmed_text(lossy_text(p)))
}

fn same_text(a: &str, b: &str) -> (r: bool)
    ensures
        r == (a@ == b@),
{
    let n = a.unicode_len();
    if n != b.unicode_len() {
        return false;
    }
    let mut i: usize = 0;
    while i < n
        invariant
            n == a@.len(),
            n == b@.len(),
            0 <= i <= n,
            forall|j: int| 0 <= j < i ==> a@[j] == b@[j],
        decreases n - i,
    {
        if a.get_char(i) != b.get_char(i) {
            return false;
        }
        i = i + 1;
    }
    assert(a@ =~= b@);
    true
}

/// Reads the request out of an already trimmed text (matching is case-sensitive).
pub fn parse_command(text: &str) -> (r: Command)
    ensures
        r == command_of(text@),
{
    if same_text(text, "DISCOVERY") {
        Command::Discovery
    } else if same_text(text, "DISCONNECT") {
        Command::Disconnect
    } else {
        Command::Other
    }
}

/// Reads the request out of a datagram: lossy UTF-8 decoding, then white
/// space trimmed at both ends.
pub fn classify_payload(payload: &[u8]) -> (r: Command)
    ensures
        r == command_of_payload(payload@),
{
    let text = decode_lossy(payload);
    let trimmed = trim_text(text.as_str());
    parse_command(trimmed)
}

/// A command on the control channel of the discovery loop.
#[derive(Clone, Copy, Debug, PartialEq, Eq, Structural)]
pub enum ControlMessage {
    Pause,
    Resume,
    Stop,
}

/// What a poll of the control channel that does not wait found.
#[derive(Clone, Copy, Debug, PartialEq, Eq, Structural)]
pub enum ControlPoll {
    Received(ControlMessage),
    Empty,
    Disconnected,
}

/// Why the discovery loop failed.
#[derive(Clone, Copy, Debug, PartialEq, Eq, Structural)]
pub enum DiscoveryError {
    /// The control channel was closed: the loop cannot know when to stop.
    ControlChannelClosed,
}

/// What the loop does after polling the control channel.
#[derive(Clone, Copy, Debug, PartialEq, Eq, Structural)]
pub enum LoopControl {
    /// Go on and try to receive a datagram.
    Continue,
    /// End the loop successfully.
    Stop,
    /// End the loop with this error.
    Fail(DiscoveryError),
}

/// The decision on a control poll: a `Stop` ends the loop, a closed channel
/// fails it, and anything else (nothing, `Pause`, `Resume`) lets it go on.
pub open spec fn control_decision(c: ControlPoll) -> LoopControl {
    match c {
        ControlPoll::Received(ControlMessage::Stop) => LoopControl::Stop,
        ControlPoll::Disconnected => LoopControl::Fail(DiscoveryError::ControlChannelClosed),
        _ => LoopControl::Continue,
    }
}

/// What a receive that does not wait gave.
#[derive(Clone, Debug, PartialEq, Eq)]
pub enum Receipt {
    Datagram { payload: Vec<u8>, source: ClientEndpoint },
    /// Nothing was waiting.
    WouldBlock,
    /// A transient network error, which the loop passes over.
    Failed,
}

/// What the loop sends out after a datagram.
#[derive(Clone, Debug, PartialEq, Eq)]
pub enum DiscoveryAction {
    /// Nothing.
    Nothing,
    /// Reply to `reply_to` with the text of its IP address, then publish `snapshot`.
    ReplyAndPublish { reply_to: ClientEndpoint, snapshot: Vec<ClientEndpoint> },
    /// Publish `snapshot`.
    Publish { snapshot: Vec<ClientEndpoint> },
}

/// The registry after a request from `source`.
pub open spec fn after_command(
    s: Seq<ClientEndpoint>,
    cmd: Command,
    source: ClientEndpoint,
) -> Seq<ClientEndpoint> {
    match cmd {
        Command::Discovery => registered(s, source),
        Command::Disconnect => without_port(s, source.port),
        Command::Other => s,
    }
}

/// The registry after a receive.
pub open spec fn after_receipt(s: Seq<ClientEndpoint>, r: Receipt) -> Seq<ClientEndpoint> {
    match r {
        Receipt::Datagram { payload, source } => after_command(
            s,
            command_of_payload(payload@),
            source,
        ),
        _ => s,
    }
}

/// What is sent after a request from `source`, `s2` being the registry after it.
pub open spec fn action_for(
    a: DiscoveryAction,
    cmd: Command,
    source: ClientEndpoint,
    s2: Seq<ClientEndpoint>,
) -> bool {
    match cmd {
        Command::Discovery => match a {
            DiscoveryAction::ReplyAndPublish { reply_to, snapshot } => reply_to == source
                && snapshot@ == s2,
            _ => false,
        },
        Command::Disconnect => match a {
            DiscoveryAction::Publish { snapshot } => snapshot@ == s2,
            _ => false,
        },
        Command::Other => a is Nothing,
    }
}

/// One iteration of the discovery loop: a control poll, then, if the loop
/// goes on, a receive.
#[derive(Clone, Debug, PartialEq, Eq)]
pub struct Iteration {
    pub control: ControlPoll,
    pub receipt: Receipt,
}

/// The registry and the end of the loop (`None`: it has not ended) after
/// the iterations `trace`, from registry `s`.
pub open spec fn run_trace(s: Seq<ClientEndpoint>, trace: Seq<Iteration>) -> (Seq<
    ClientEndpoint,
>, Option<LoopControl>)
    decreases trace.len(),
{
    if trace.len() == 0 {
        (s, None)
    } else {
        let c = control_decision(trace[0].control);
        if c is Continue {
            run_trace(after_receipt(s, trace[0].receipt), trace.drop_first())
        } else {
            (s, Some(c))
        }
    }
}

/// The server side of the discovery protocol: the decisions of its loop and
/// the registry that it keeps.
pub struct DiscoveryServer {
    clients: ClientRegistry,
}

impl View for DiscoveryServer {
    type V = Seq<ClientEndpoint>;

    closed spec fn view(&self) -> Seq<ClientEndpoint> {
        self.clients@
    }
}

impl DiscoveryServer {
    /// No client is registered twice.
    pub open spec fn wf(&self) -> bool {
        self@.no_duplicates()
    }

    /// A server with no client registered.
    pub fn new() -> (r: DiscoveryServer)
        ensures
            r@ == Seq::<ClientEndpoint>::empty(),
            r.wf(),
    {
        DiscoveryServer { clients: ClientRegistry::new() }
    }

    /// The registered clients, in order of registration.
    pub fn clients(&self) -> (r: Vec<ClientEndpoint>)
        ensures
            r@ == self@,
    {
        self.clients.snapshot()
    }

    /// Decides on a control poll, before any receive of the same iteration.
    pub fn on_control(poll: ControlPoll) -> (r: LoopControl)
        ensures
            r == control_decision(poll),
    {
        match poll {
            ControlPoll::Received(ControlMessage::Stop) => LoopControl::Stop,
            ControlPoll::Disconnected => LoopControl::Fail(DiscoveryError::ControlChannelClosed),
            _ => LoopControl::Continue,
        }
    }

    /// Carries out a request from `source`: `Discovery` registers it (once)
    /// and asks for a reply and a snapshot; `Disconnect` removes every client
    /// on the sender's port and asks for a snapshot; anything else is ignored.
    pub fn handle_command(&mut self, cmd: Command, source: ClientEndpoint) -> (r: DiscoveryAction)
        ensures
            final(self).wf(),
            final(self)@ == after_command(old(self)@, cmd, source),
            action_for(r, cmd, source, final(self)@),
    {
        proof {
            use_type_invariant(&self.clients);
            self.clients.lemma_unique_wf();
        }
        match cmd {
            Command::Discovery => {
                self.clients.register(source);
                DiscoveryAction::ReplyAndPublish { reply_to: source, snapshot: self.clients.snapshot() }
            },
            Command::Disconnect => {
                self.clients.remove_port(source.port);
                DiscoveryAction::Publish { snapshot: self.clients.snapshot() }
            },
            Command::Other => DiscoveryAction::Nothing,
        }
    }

    /// Carries out the request that a datagram from `source` carries.
    pub fn handle_datagram(&mut self, payload: &[u8], source: ClientEndpoint) -> (r:
        DiscoveryAction)
        ensures
            final(self).wf(),
            final(self)@ == after_command(old(self)@, command_of_payload(payload@), source),
            action_for(r, command_of_payload(payload@), source, final(self)@),
    {
        let cmd = classify_payload(payload);
        self.handle_command(cmd, source)
    }

    /// Carries out what a receive gave: a datagram is handled, anything else
    /// leaves the registry as it is and sends nothing.
    pub fn handle_receipt(&mut self, receipt: &Receipt) -> (r: DiscoveryAction)
        ensures
            final(self).wf(),
            final(self)@ == after_receipt(old(self)@, *receipt),
            match *receipt {
                Receipt::Datagram { payload, source } => action_for(
                    r,
                    command_of_payload(payload@),
                    source,
                    final(self)@,
                ),
                _ => r is Nothing,
            },
    {
        proof {
            use_type_invariant(&self.clients);
            self.clients.lemma_unique_wf();
        }
        match receipt {
            Receipt::Datagram { payload, source } => self.handle_datagram(payload.as_slice(), *source),
            _ => DiscoveryAction::Nothing,
        }
    }
}

/// The registry after a `Discovery` request from each of `sources`, in turn, from registry `s`.
pub open spec fn after_discoveries(s: Seq<ClientEndpoint>, sources: Seq<ClientEndpoint>) -> Seq<
    ClientEndpoint,
>
    decreases sources.len(),
{
    if sources.len() == 0 {
        s
    } else {
        after_command(
            after_discoveries(s, sources.drop_last()),
            Command::Discovery,
            sources.last(),
        )
    }
}

/// `Discovery` requests from distinct endpoints, from an empty registry,
/// leave exactly those endpoints registered, in the order of the requests.
pub proof fn lemma_discoveries_from_distinct_sources(sources: Seq<ClientEndpoint>)
    requires
        sources.no_duplicates(),
    ensures
        after_discoveries(Seq::empty(), sources) == sources,
        after_discoveries(Seq::empty(), sources).len() == sources.len(),
    decreases sources.len(),
{
    if sources.len() > 0 {
        let init = sources.drop_last();
        assert(init.no_duplicates());
        lemma_discoveries_from_distinct_sources(init);
        assert(!init.contains(sources.last())) by {
            if init.contains(sources.last()) {
                let k = choose|k: int| 0 <= k < init.len() && init[k] == sources.last();
                assert(sources[k] == sources[sources.len() - 1]);
            }
        }
        assert(init.push(sources.last()) =~= sources);
    }
}

/// Whatever `Discovery` requests arrive, repeated senders included, the
/// registry holds each endpoint at most once, and holds exactly the endpoints
/// that it held before or that sent a request.
pub proof fn lemma_discoveries_keep_endpoints_unique(
    s: Seq<ClientEndpoint>,
    sources: Seq<ClientEndpoint>,
)
    requires
        s.no_duplicates(),
    ensures
        after_discoveries(s, sources).no_duplicates(),
        forall|e: ClientEndpoint| #[trigger]
            after_discoveries(s, sources).contains(e) <==> (s.contains(e) || sources.contains(e)),
    decreases sources.len(),
{
    if sources.len() > 0 {
        let init = sources.drop_last();
        lemma_discoveries_keep_endpoints_unique(s, init);
        let prev = after_discoveries(s, init);
        let x = sources.last();
        assert forall|e: ClientEndpoint| sources.contains(e) <==> (init.contains(e) || e == x) by {
            if sources.contains(e) {
                let k = choose|k: int| 0 <= k < sources.len() && sources[k] == e;
                if k < init.len() {
                    assert(init[k] == e);
                }
            }
            if init.contains(e) {
                let k = choose|k: int| 0 <= k < init.len() && init[k] == e;
                assert(sources[k] == e);
            }
        }
        if !prev.contains(x) {
            assert forall|e: ClientEndpoint| prev.push(x).contains(e) <==> (prev.contains(e)
                || e == x) by {
                if prev.push(x).contains(e) {
                    let k = choose|k: int| 0 <= k < prev.len() + 1 && prev.push(x)[k] == e;
                    if k < prev.len() {
                        assert(prev[k] == e);
                    }
                }
                if prev.contains(e) {
                    let k = choose|k: int| 0 <= k < prev.len() && prev[k] == e;
                    assert(prev.push(x)[k] == e);
                }
                if e == x {
                    assert(prev.push(x)[prev.len() as int] == e);
                }
            }
        }
        assert forall|e: ClientEndpoint| #[trigger]
            after_discoveries(s, sources).contains(e) <==> (s.contains(e) || sources.contains(
                e,
            )) by {
            assert(sources.contains(e) <==> (init.contains(e) || e == x));
            assert(prev.contains(e) <==> (s.contains(e) || init.contains(e)));
        }
    } else {
        assert forall|e: ClientEndpoint| !#[trigger] sources.contains(e) by {}
    }
}

/// A `Disconnect` from any endpoint on port `source.port` removes every
/// registered endpoint on that port, whatever its address, keeps all others
/// in their order, and has the resulting registry (possibly empty) published.
pub proof fn lemma_disconnect_removes_port(s: Seq<ClientEndpoint>, source: ClientEndpoint)
    requires
        s.no_duplicates(),
    ensures
        forall|e: ClientEndpoint| #[trigger]
            after_command(s, Command::Disconnect, source).contains(e) <==> (s.contains(e)
                && e.port != source.port),
        after_command(s, Command::Disconnect, source) == s.filter(
            |e: ClientEndpoint| e.port != source.port,
        ),
        forall|a: DiscoveryAction| #[trigger]
            action_for(a, Command::Disconnect, source, after_command(s, Command::Disconnect, source))
                ==> (a matches DiscoveryAction::Publish { snapshot } && snapshot@ == after_command(
                s,
                Command::Disconnect,
                source,
            )),
{
    let pred = |e: ClientEndpoint| e.port != source.port;
    let r = after_command(s, Command::Disconnect, source);
    assert forall|e: ClientEndpoint| #[trigger] r.contains(e) <==> (s.contains(e) && e.port
        != source.port) by {
        if r.contains(e) {
            s.lemma_filter_contains_rev(pred, e);
            let k = choose|k: int| 0 <= k < r.len() && r[k] == e;
            s.lemma_filter_pred(pred, k);
        }
        if s.contains(e) && e.port != source.port {
            let k = choose|k: int| 0 <= k < s.len() && s[k] == e;
            s.lemma_filter_contains(pred, k);
        }
    }
}

/// A `Stop` found on the control channel ends the loop in that iteration:
/// no datagram of that iteration or of a later one is handled, and the
/// registry is the one that the earlier iterations left.
pub proof fn lemma_stop_ends_loop(s: Seq<ClientEndpoint>, trace: Seq<Iteration>, i: int)
    requires
        0 <= i < trace.len(),
        trace[i].control == ControlPoll::Received(ControlMessage::Stop),
        forall|j: int| 0 <= j < i ==> #[trigger] control_decision(trace[j].control) is Continue,
    ensures
        run_trace(s, trace.take(i)).1 is None,
        run_trace(s, trace) == (run_trace(s, trace.take(i)).0, Some(LoopControl::Stop)),
    decreases i,
{
    if i > 0 {
        let c = control_decision(trace[0].control);
        assert(c is Continue);
        let s2 = after_receipt(s, trace[0].receipt);
        let rest = trace.drop_first();
        assert forall|j: int| 0 <= j < i - 1 implies #[trigger] control_decision(
            rest[j].control,
        ) is Continue by {
            assert(rest[j] == trace[j + 1]);
            assert(control_decision(trace[j + 1].control) is Continue);
        }
        lemma_stop_ends_loop(s2, rest, i - 1);
        assert(trace.take(i).drop_first() =~= rest.take(i - 1));
        assert(trace.take(i)[0] == trace[0]);
    } else {
        assert(trace.take(0).len() == 0);
    }
}

} // verus!
