//! The Discord IPC client, held with the application id it was made for and
//! a record of the calls made on it and of how each ended.
use crate::activity::{ActivityKind, ActivityPlan, ActivityPlanView};
use discord_rich_presence::activity::{Activity, ActivityType, Assets, Timestamps};
use discord_rich_presence::error::Error as IpcError;
use discord_rich_presence::{DiscordIpc, DiscordIpcClient};
use vstd::prelude::*;

verus! {

#[verifier::external_type_specification]
#[verifier::external_body]
pub struct ExDiscordIpcClient(DiscordIpcClient);

#[verifier::external_type_specification]
#[verifier::external_body]
pub struct ExIpcError(IpcError);

/// One call made on the IPC client, with whether it succeeded.
pub enum IpcCall {
    /// A fresh, unconnected client for the same application id replaced the
    /// current one.
    Open,
    /// The socket was opened and the handshake sent.
    Connect { ok: bool },
    /// The activity was sent.
    SetActivity { plan: ActivityPlanView, ok: bool },
    /// An empty activity was sent.
    ClearActivity { ok: bool },
    /// The close frame was sent and the socket shut down.
    Close { ok: bool },
}

/// A `discord_rich_presence` IPC client and the application id it was made
/// for.
pub struct IpcClient {
    client_id: String,
    ipc: DiscordIpcClient,
    calls: Ghost<Seq<IpcCall>>,
}

impl IpcClient {
    /// The application id the client was made for.
    pub closed spec fn client_id(&self) -> Seq<char> {
        self.client_id@
    }

    /// The calls made on the client, oldest first.
    pub closed spec fn calls(&self) -> Seq<IpcCall> {
        self.calls@
    }
}

/// `DiscordIpcClient::new`: a client for the given application id, not
/// connected; it keeps the id as given (`client_id.as_ref().to_string()`)
/// and no call has been made on it.
#[verifier::external_body]
pub fn ipc_open(client_id: &str) -> (c: IpcClient)
    ensures
        c.client_id() == client_id@,
        c.calls() == Seq::<IpcCall>::empty(),
{
    let ipc = DiscordIpcClient::new(client_id);
    IpcClient { client_id: ipc.client_id.clone(), ipc, calls: Ghost(Seq::empty()) }
}

/// `DiscordIpcClient::new` for the client's own application id: a fresh,
/// unconnected client replaces the current one, whose socket is dropped.
#[verifier::external_body]
pub fn ipc_reopen(c: &mut IpcClient)
    ensures
        final(c).client_id() == old(c).client_id(),
        final(c).calls() == old(c).calls().push(IpcCall::Open),
{
    c.ipc = DiscordIpcClient::new(&c.client_id);
}

/// `DiscordIpc::connect`: opens the socket and sends the handshake. Whether
/// it succeeds depends on the Discord client running on the machine; the
/// call is recorded with its outcome.
#[verifier::external_body]
pub fn ipc_connect(c: &mut IpcClient) -> (r: Result<(), IpcError>)
    ensures
        final(c).client_id() == old(c).client_id(),
        final(c).calls() == old(c).calls().push(IpcCall::Connect { ok: r is Ok }),
{
    c.ipc.connect()
}

/// `DiscordIpc::set_activity` with the `discord_rich_presence` activity
/// whose fields the plan holds, field for field (name, details, state, the
/// four assets, the activity type and, where present, the timestamps). The
/// call is recorded with the plan and its outcome, which depends on the
/// socket.
#[verifier::external_body]
pub fn ipc_set_activity(c: &mut IpcClient, plan: &ActivityPlan) -> (r: Result<(), IpcError>)
    ensures
        final(c).client_id() == old(c).client_id(),
        final(c).calls() == old(c).calls().push(IpcCall::SetActivity { plan: plan@, ok: r is Ok }),
{
    let kind = match plan.kind {
        ActivityKind::Playing => ActivityType::Playing,
        ActivityKind::Listening => ActivityType::Listening,
        ActivityKind::Watching => ActivityType::Watching,
        ActivityKind::Competing => ActivityType::Competing,
    };
    let assets = Assets::new().large_image(plan.large_image.clone()).large_text(plan.large_text.clone())
        .small_image(plan.small_image.clone()).small_text(plan.small_text.clone());
    let activity = Activity::new().name(plan.name.clone()).details(plan.details.clone())
        .state(plan.state.clone()).assets(assets).activity_type(kind);
    c.ipc.set_activity(match plan.timestamps {
        Some(t) => activity.timestamps(Timestamps::new().start(t.start).end(t.end)),
        None => activity,
    })
}

/// `DiscordIpc::clear_activity`: sends an empty activity. The call is
/// recorded with its outcome, which depends on the socket.
#[verifier::external_body]
pub fn ipc_clear_activity(c: &mut IpcClient) -> (r: Result<(), IpcError>)
    ensures
        final(c).client_id() == old(c).client_id(),
        final(c).calls() == old(c).calls().push(IpcCall::ClearActivity { ok: r is Ok }),
{
    c.ipc.clear_activity()
}

/// `DiscordIpc::close`: sends the close frame and shuts the socket down. The
/// call is recorded with its outcome, which depends on the socket.
#[verifier::external_body]
pub fn ipc_close(c: &mut IpcClient) -> (r: Result<(), IpcError>)
    ensures
        final(c).client_id() == old(c).client_id(),
        final(c).calls() == old(c).calls().push(IpcCall::Close { ok: r is Ok }),
{
    c.ipc.close()
}

/// The `Display` text of a `discord_rich_presence` error. Nothing is
/// claimed of the text: the error is opaque here.
#[verifier::external_body]
pub fn ipc_error_text(error: &IpcError) -> String {
    error.to_string()
}

} // verus!
