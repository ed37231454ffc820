use vstd::prelude::*;

verus! {

/// What happened on one of the two streams between which bytes are copied.
#[derive(Clone, Copy, Debug, PartialEq, Eq)]
pub enum RelayEvent<'a> {
    /// A read from the client gave these bytes; none means that the client
    /// has ended its direction.
    FromClient(&'a [u8]),
    /// A read from the upstream gave these bytes; none means that the
    /// upstream has ended its direction.
    FromUpstream(&'a [u8]),
    /// A read or a write failed on either stream.
    Failed,
}

/// What is to be done about it.
#[derive(Clone, Copy, Debug, PartialEq, Eq)]
pub enum RelayAction<'a> {
    /// Write these bytes to the upstream, then go on reading both.
    ToUpstream(&'a [u8]),
    /// Write these bytes to the client, then go on reading both.
    ToClient(&'a [u8]),
    /// Copy nothing more in either direction and close both streams.
    Stop,
}

/// What a `RelayEvent` stands for.
pub enum RelayEventModel {
    FromClient(Seq<u8>),
    FromUpstream(Seq<u8>),
    Failed,
}

/// What a `RelayAction` stands for.
pub enum RelayActionModel {
    ToUpstream(Seq<u8>),
    ToClient(Seq<u8>),
    Stop,
}

impl<'a> View for RelayEvent<'a> {
    type V = RelayEventModel;

    open spec fn view(&self) -> RelayEventModel {
        match *self {
            RelayEvent::FromClient(bytes) => RelayEventModel::FromClient(bytes@),
            RelayEvent::FromUpstream(bytes) => RelayEventModel::FromUpstream(bytes@),
            RelayEvent::Failed => RelayEventModel::Failed,
        }
    }
}

impl<'a> View for RelayAction<'a> {
    type V = RelayActionModel;

    open spec fn view(&self) -> RelayActionModel {
        match *self {
            RelayAction::ToUpstream(bytes) => RelayActionModel::ToUpstream(bytes@),
            RelayAction::ToClient(bytes) => RelayActionModel::ToClient(bytes@),
            RelayAction::Stop => RelayActionModel::Stop,
        }
    }
}

/// The copying between a client and its upstream: how much went each way,
/// and whether it still goes on.
#[derive(Debug)]
pub struct Relay {
    to_upstream: u64,
    to_client: u64,
    running: bool,
}

/// What a `Relay` stands for.
pub struct RelayModel {
    pub to_upstream: nat,
    pub to_client: nat,
    pub running: bool,
}

impl View for Relay {
    type V = RelayModel;

    closed spec fn view(&self) -> RelayModel {
        RelayModel {
            to_upstream: self.to_upstream as nat,
            to_client: self.to_client as nat,
            running: self.running,
        }
    }
}

/// A count of bytes with so many added, held at the largest count that can
/// be kept.
pub open spec fn counted(total: nat, more: nat) -> nat {
    if total + more <= u64::MAX {
        total + more
    } else {
        u64::MAX as nat
    }
}

impl RelayModel {
    /// Both counts are ones that can be kept.
    pub open spec fn valid(self) -> bool {
        self.to_upstream <= u64::MAX && self.to_client <= u64::MAX
    }

    /// The copying after the event, and what is to be done. Bytes that came
    /// from one side go to the other, all of them and as they came, and are
    /// counted. The end of either direction, or a failure, ends both. Once
    /// ended, nothing is copied any more.
    pub open spec fn on_event(self, event: RelayEventModel) -> (RelayModel, RelayActionModel) {
        if !self.running {
            (self, RelayActionModel::Stop)
        } else {
            match event {
                RelayEventModel::FromClient(bytes) => if bytes.len() > 0 {
                    (
                        RelayModel { to_upstream: counted(self.to_upstream, bytes.len()), ..self },
                        RelayActionModel::ToUpstream(bytes),
                    )
                } else {
                    (RelayModel { running: false, ..self }, RelayActionModel::Stop)
                },
                RelayEventModel::FromUpstream(bytes) => if bytes.len() > 0 {
                    (
                        RelayModel { to_client: counted(self.to_client, bytes.len()), ..self },
                        RelayActionModel::ToClient(bytes),
                    )
                } else {
                    (RelayModel { running: false, ..self }, RelayActionModel::Stop)
                },
                RelayEventModel::Failed => (
                    RelayModel { running: false, ..self },
                    RelayActionModel::Stop,
                ),
            }
        }
    }
}

/// A count of bytes with so many added, held at the largest count that can
/// be kept.
fn count(total: u64, more: usize) -> (sum: u64)
    ensures
        sum == counted(total as nat, more as nat),
{
    let more: u64 = more as u64;
    if more > u64::MAX - total {
        u64::MAX
    } else {
        total + more
    }
}

impl Relay {
    /// Copying that is about to begin: nothing has gone either way.
    pub fn new() -> (relay: Self)
        ensures
            relay@ == (RelayModel { to_upstream: 0, to_client: 0, running: true }),
            relay@.valid(),
    {
        Relay { to_upstream: 0, to_client: 0, running: true }
    }

    /// Takes note of what happened and says what is to be done about it.
    pub fn on_event<'a>(&mut self, event: RelayEvent<'a>) -> (action: RelayAction<'a>)
        ensures
            (final(self)@, action@) == old(self)@.on_event(event@),
            final(self)@.valid(),
    {
        if !self.running {
            return RelayAction::Stop;
        }
        match event {
            RelayEvent::FromClient(bytes) => {
                if bytes.len() > 0 {
                    self.to_upstream = count(self.to_upstream, bytes.len());
                    RelayAction::ToUpstream(bytes)
                } else {
                    self.running = false;
                    RelayAction::Stop
                }
            },
            RelayEvent::FromUpstream(bytes) => {
                if bytes.len() > 0 {
                    self.to_client = count(self.to_client, bytes.len());
                    RelayAction::ToClient(bytes)
                } else {
                    self.running = false;
                    RelayAction::Stop
                }
            },
            RelayEvent::Failed => {
                self.running = false;
                RelayAction::Stop
            },
        }
    }

    /// Whether bytes are still copied.
    pub fn is_running(&self) -> (running: bool)
        ensures
            running == self@.running,
    {
        self.running
    }

    /// How many bytes went from the client to the upstream, and how many
    /// from the upstream to the client.
    pub fn totals(&self) -> (totals: (u64, u64))
        ensures
            totals.0 == self@.to_upstream,
            totals.1 == self@.to_client,
    {
        (self.to_upstream, self.to_client)
    }
}

/// The copying ends exactly when a direction ends or fails, or had ended
/// before; it never begins again; and the counts never shrink, and grow only
/// by the bytes that are passed on.
pub proof fn lemma_relay_ends_with_either_side(relay: RelayModel, event: RelayEventModel)
    requires
        relay.valid(),
    ensures
        ({
            let (next, action) = relay.on_event(event);
            &&& next.valid()
            &&& action is Stop <==> !next.running
            &&& !relay.running ==> next == relay
            &&& next.running ==> relay.running
            &&& relay.running ==> (action is Stop <==> event is Failed || (event is FromClient
                && event->FromClient_0.len() == 0) || (event is FromUpstream
                && event->FromUpstream_0.len() == 0))
            &&& relay.to_upstream <= next.to_upstream
            &&& relay.to_client <= next.to_client
            &&& action is ToUpstream ==> event == RelayEventModel::FromClient(
                action->ToUpstream_0,
            ) && next.to_client == relay.to_client && next.to_upstream == counted(
                relay.to_upstream,
                action->ToUpstream_0.len(),
            )
            &&& action is ToClient ==> event == RelayEventModel::FromUpstream(action->ToClient_0)
                && next.to_upstream == relay.to_upstream && next.to_client == counted(
                relay.to_client,
                action->ToClient_0.len(),
            )
            &&& action is Stop ==> next.to_upstream == relay.to_upstream && next.to_client
                == relay.to_client
        }),
{
}

/// The bytes that go to the upstream and those that go to the client while
/// these events are taken note of, one after the other.
pub open spec fn passed_on(relay: RelayModel, events: Seq<RelayEventModel>) -> (Seq<u8>, Seq<u8>)
    decreases events.len(),
{
    if events.len() == 0 {
        (Seq::empty(), Seq::empty())
    } else {
        let (next, action) = relay.on_event(events[0]);
        let rest = passed_on(next, events.drop_first());
        match action {
            RelayActionModel::ToUpstream(bytes) => (bytes + rest.0, rest.1),
            RelayActionModel::ToClient(bytes) => (rest.0, bytes + rest.1),
            RelayActionModel::Stop => rest,
        }
    }
}

/// The bytes that came from the client and those that came from the
/// upstream in these events, up to the first at which a side ended or
/// failed.
pub open spec fn came_in(events: Seq<RelayEventModel>) -> (Seq<u8>, Seq<u8>)
    decreases events.len(),
{
    if events.len() == 0 {
        (Seq::empty(), Seq::empty())
    } else {
        let rest = came_in(events.drop_first());
        match events[0] {
            RelayEventModel::FromClient(bytes) => if bytes.len() > 0 {
                (bytes + rest.0, rest.1)
            } else {
                (Seq::empty(), Seq::empty())
            },
            RelayEventModel::FromUpstream(bytes) => if bytes.len() > 0 {
                (rest.0, bytes + rest.1)
            } else {
                (Seq::empty(), Seq::empty())
            },
            RelayEventModel::Failed => (Seq::empty(), Seq::empty()),
        }
    }
}

/// What a running relay passes on to each side is, byte for byte and in
/// order, what came from the other side before either side ended or failed.
/// A relay that has ended passes nothing on.
pub proof fn lemma_relay_passes_on_what_came(relay: RelayModel, events: Seq<RelayEventModel>)
    ensures
        relay.running ==> passed_on(relay, events) == came_in(events),
        !relay.running ==> passed_on(relay, events) == (Seq::<u8>::empty(), Seq::<u8>::empty()),
    decreases events.len(),
{
    if events.len() > 0 {
        let (next, action) = relay.on_event(events[0]);
        lemma_relay_passes_on_what_came(next, events.drop_first());
    }
}

} // verus!
