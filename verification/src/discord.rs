//! The connection to the local Discord client: it keeps the last activity so
//! that a broken connection can be reopened and the activity restored.
use crate::activity::{ActivityPlan, ActivityPlanView};
use crate::ipc::{
    ipc_clear_activity, ipc_close, ipc_connect, ipc_error_text, ipc_open, ipc_reopen,
    ipc_set_activity, IpcCall, IpcClient,
};
use crate::text::{is_blank, is_blank_str};
use discord_rich_presence::error::Error as IpcError;
use vstd::prelude::*;
use vstd::string::*;

verus! {

/// Errors produced by the Discord RPC layer.
#[derive(Debug)]
pub enum Error {
    /// The client id is blank.
    MissingClientId,
    /// The IPC connection failed.
    Ipc(IpcError),
}

impl Error {
    /// The text that describes this error, as its `Display` would.
    pub fn message(&self) -> (s: String)
        ensures
            self is MissingClientId ==> s@ == "discord client id is missing"@,
            self is Ipc ==> "discord IPC error: "@.is_prefix_of(s@),
    {
        match self {
            Error::MissingClientId => String::from_str("discord client id is missing"),
            Error::Ipc(e) => {
                let s = String::from_str("discord IPC error: ").concat(ipc_error_text(e).as_str());
                assert("discord IPC error: "@.is_prefix_of(s@)) by {
                    assert(s@.subrange(0, "discord IPC error: "@.len() as int) =~= "discord IPC error: "@);
                }
                s
            },
        }
    }
}

/// IPC wrapper that keeps the Discord connection encapsulated.
pub struct DiscordClient {
    ipc: IpcClient,
    connected: bool,
    last_activity: Option<ActivityPlan>,
}

/// The view of an optional activity.
pub open spec fn opt_activity(a: Option<ActivityPlan>) -> Option<ActivityPlanView> {
    match a {
        Some(a) => Some(a@),
        None => None,
    }
}

/// The calls of opening a connection: none where one is open, else a fresh
/// client and its connect, which ends as `ok` says.
pub open spec fn opening(connected: bool, ok: bool) -> Seq<IpcCall> {
    if connected {
        Seq::empty()
    } else {
        seq![IpcCall::Open, IpcCall::Connect { ok }]
    }
}

/// The calls of sending activity `p`, given how each call ends: open a
/// connection where none is, and stop where that fails; set `p`; where that
/// fails, open a new connection once and, where that works, set the kept
/// activity `p` again.
pub open spec fn send_calls(
    connected: bool,
    p: ActivityPlanView,
    connect_ok: bool,
    set_ok: bool,
    reconnect_ok: bool,
    reset_ok: bool,
) -> Seq<IpcCall> {
    let pre = opening(connected, connect_ok);
    if !(connected || connect_ok) {
        pre
    } else if set_ok {
        pre + seq![IpcCall::SetActivity { plan: p, ok: true }]
    } else if !reconnect_ok {
        pre + seq![IpcCall::SetActivity { plan: p, ok: false }, IpcCall::Open, IpcCall::Connect { ok: false }]
    } else {
        pre + seq![
            IpcCall::SetActivity { plan: p, ok: false },
            IpcCall::Open,
            IpcCall::Connect { ok: true },
            IpcCall::SetActivity { plan: p, ok: reset_ok },
        ]
    }
}

/// Whether sending succeeds, given how each call ends: the first set, or
/// the set after the one reconnection, went through.
pub open spec fn send_succeeds(
    connected: bool,
    connect_ok: bool,
    set_ok: bool,
    reconnect_ok: bool,
    reset_ok: bool,
) -> bool {
    (connected || connect_ok) && (set_ok || (reconnect_ok && reset_ok))
}

/// What a client that sent activity `p` has become, from `old`: it keeps
/// `p`, has made the calls of [`send_calls`] for some outcomes, is connected
/// exactly where sending succeeded, and `ok` says whether it did.
pub open spec fn sent(old: DiscordClient, new: DiscordClient, p: ActivityPlanView, ok: bool) -> bool {
    &&& new.last_activity() == Some(p)
    &&& new.client_id() == old.client_id()
    &&& new.connected() == ok
    &&& exists|connect_ok: bool, set_ok: bool, reconnect_ok: bool, reset_ok: bool|
        #![trigger send_calls(old.connected(), p, connect_ok, set_ok, reconnect_ok, reset_ok)]
        new.calls() == old.calls() + send_calls(
            old.connected(),
            p,
            connect_ok,
            set_ok,
            reconnect_ok,
            reset_ok,
        ) && ok == send_succeeds(old.connected(), connect_ok, set_ok, reconnect_ok, reset_ok)
}

/// What a client that cleared its activity has become, from `old`: it keeps
/// no activity; over an open connection it sent one clear, and stays
/// connected exactly where that succeeded; else it sent nothing.
pub open spec fn cleared_client(old: DiscordClient, new: DiscordClient, ok: bool) -> bool {
    &&& new.last_activity() is None
    &&& new.client_id() == old.client_id()
    &&& if old.connected() {
        &&& new.calls() == old.calls().push(IpcCall::ClearActivity { ok })
        &&& new.connected() == ok
    } else {
        &&& new.calls() == old.calls()
        &&& !new.connected()
        &&& ok
    }
}

/// What a client that shut down has become, from `old`: not connected; over
/// an open connection it sent one close, else nothing.
pub open spec fn closed_client(old: DiscordClient, new: DiscordClient, ok: bool) -> bool {
    &&& new.last_activity() == old.last_activity()
    &&& new.client_id() == old.client_id()
    &&& !new.connected()
    &&& if old.connected() {
        new.calls() == old.calls().push(IpcCall::Close { ok })
    } else {
        new.calls() == old.calls() && ok
    }
}

impl DiscordClient {
    /// The application id the client connects with.
    pub closed spec fn client_id(&self) -> Seq<char> {
        self.ipc.client_id()
    }

    /// Whether an IPC connection is open.
    pub closed spec fn connected(&self) -> bool {
        self.connected
    }

    /// The activity that a reconnection restores.
    pub closed spec fn last_activity(&self) -> Option<ActivityPlanView> {
        opt_activity(self.last_activity)
    }

    /// The IPC calls made, oldest first.
    pub closed spec fn calls(&self) -> Seq<IpcCall> {
        self.ipc.calls()
    }

    /// A client for the given application id, not connected yet; the id must
    /// not be blank.
    pub fn new(client_id: &str) -> (r: Result<DiscordClient, Error>)
        ensures
            is_blank(client_id@) <==> r is Err,
            r matches Err(e) ==> e is MissingClientId,
            r matches Ok(c) ==> {
                &&& c.client_id() == client_id@
                &&& !c.connected()
                &&& c.last_activity() is None
                &&& c.calls() == Seq::<IpcCall>::empty()
            },
    {
        if is_blank_str(client_id) {
            return Err(Error::MissingClientId);
        }
        Ok(DiscordClient { ipc: ipc_open(client_id), connected: false, last_activity: None })
    }

    /// Opens the IPC connection, unless one is open.
    pub fn connect(&mut self) -> (r: Result<(), Error>)
        ensures
            final(self).calls() == old(self).calls() + opening(old(self).connected(), r is Ok),
            final(self).connected() == r is Ok,
            old(self).connected() ==> r is Ok,
            r matches Err(e) ==> e is Ipc,
            final(self).last_activity() == old(self).last_activity(),
            final(self).client_id() == old(self).client_id(),
    {
        self.connect_ipc()
    }

    fn connect_ipc(&mut self) -> (r: Result<(), Error>)
        ensures
            final(self).calls() == old(self).calls() + opening(old(self).connected(), r is Ok),
            final(self).connected() == r is Ok,
            old(self).connected() ==> r is Ok,
            r matches Err(e) ==> e is Ipc,
            final(self).last_activity() == old(self).last_activity(),
            final(self).client_id() == old(self).client_id(),
    {
        if self.connected {
            assert(self.ipc.calls() =~= old(self).ipc.calls() + opening(true, true));
            return Ok(());
        }
        ipc_reopen(&mut self.ipc);
        match ipc_connect(&mut self.ipc) {
            Ok(()) => {},
            Err(e) => {
                assert(self.ipc.calls() =~= old(self).ipc.calls() + opening(false, false));
                return Err(Error::Ipc(e));
            },
        }
        self.connected = true;
        assert(self.ipc.calls() =~= old(self).ipc.calls() + opening(false, true));
        Ok(())
    }

    /// Sets the activity and keeps it for a later reconnection; where the
    /// send fails, the connection is reopened once and the kept activity
    /// sent again.
    pub fn set_activity(&mut self, activity: ActivityPlan) -> (r: Result<(), Error>)
        ensures
            sent(*old(self), *final(self), activity@, r is Ok),
            r matches Err(e) ==> e is Ipc,
    {
        self.last_activity = Some(activity.clone());
        let ghost mid = *self;
        assert(mid.calls() == old(self).calls() && mid.connected() == old(self).connected());
        let r = self.send_activity(activity);
        proof {
            let ghost p = activity@;
            let (a, b, c, d) = choose|a: bool, b: bool, c: bool, d: bool|
                #![trigger send_calls(mid.connected(), p, a, b, c, d)]
                self.calls() == mid.calls() + send_calls(mid.connected(), p, a, b, c, d) && (r is Ok)
                    == send_succeeds(mid.connected(), a, b, c, d);
            assert(self.calls() == old(self).calls() + send_calls(old(self).connected(), p, a, b, c, d));
        }
        r
    }

    fn send_activity(&mut self, activity: ActivityPlan) -> (r: Result<(), Error>)
        requires
            old(self).last_activity() == Some(activity@),
        ensures
            sent(*old(self), *final(self), activity@, r is Ok),
            r matches Err(e) ==> e is Ipc,
    {
        let ghost connected = self.connected;
        let ghost p = activity@;
        let ghost before = self.ipc.calls();
        let opened = self.connect_ipc();
        if let Err(e) = opened {
            assert(self.calls() =~= before + send_calls(connected, p, false, true, true, true));
            return Err(e);
        }
        let ghost connect_ok = !connected;
        assert(opening(connected, true) =~= opening(connected, connect_ok) || connected);
        match ipc_set_activity(&mut self.ipc, &activity) {
            Ok(()) => {
                assert(self.calls() =~= before + send_calls(connected, p, true, true, true, true));
                Ok(())
            },
            Err(_) => {
                let ghost failed = self.ipc.calls();
                self.connected = false;
                let r = self.reconnect_and_restore();
                proof {
                    if self.calls() == failed + seq![IpcCall::Open, IpcCall::Connect { ok: false }] {
                        assert(self.calls() =~= before + send_calls(connected, p, true, false, false, false));
                    } else {
                        assert(self.calls() =~= before + send_calls(connected, p, true, false, true, r is Ok));
                    }
                }
                r
            },
        }
    }

    fn reconnect_and_restore(&mut self) -> (r: Result<(), Error>)
        requires
            !old(self).connected(),
            old(self).last_activity() is Some,
        ensures
            final(self).last_activity() == old(self).last_activity(),
            final(self).client_id() == old(self).client_id(),
            final(self).connected() == r is Ok,
            r matches Err(e) ==> e is Ipc,
            ({
                let p = old(self).last_activity()->0;
                ||| final(self).calls() == old(self).calls() + seq![IpcCall::Open, IpcCall::Connect { ok: false }] && r is Err
                ||| final(self).calls() == old(self).calls() + seq![
                    IpcCall::Open,
                    IpcCall::Connect { ok: true },
                    IpcCall::SetActivity { plan: p, ok: r is Ok },
                ]
            }),
    {
        self.connect_ipc()?;
        let result = match &self.last_activity {
            Some(activity) => ipc_set_activity(&mut self.ipc, activity),
            None => return Ok(()),
        };
        match result {
            Ok(()) => Ok(()),
            Err(e) => {
                self.connected = false;
                Err(Error::Ipc(e))
            },
        }
    }

    /// Forgets the kept activity and clears the one shown, where a
    /// connection is open; a failed clear drops the connection.
    pub fn clear_activity(&mut self) -> (r: Result<(), Error>)
        ensures
            cleared_client(*old(self), *final(self), r is Ok),
            r matches Err(e) ==> e is Ipc,
    {
        self.last_activity = None;
        if !self.connected {
            return Ok(());
        }
        match ipc_clear_activity(&mut self.ipc) {
            Ok(()) => Ok(()),
            Err(e) => {
                self.connected = false;
                Err(Error::Ipc(e))
            },
        }
    }

    /// Closes the connection, where one is open.
    pub fn shutdown(&mut self) -> (r: Result<(), Error>)
        ensures
            closed_client(*old(self), *final(self), r is Ok),
            r matches Err(e) ==> e is Ipc,
    {
        if !self.connected {
            return Ok(());
        }
        self.connected = false;
        match ipc_close(&mut self.ipc) {
            Ok(()) => Ok(()),
            Err(e) => Err(Error::Ipc(e)),
        }
    }
}

} // verus!
