//! The periodic runtime snapshot: server identity, loaded and local models, configuration.
use vstd::prelude::*;

use crate::app::{App, InitialRefresh};
use crate::lists::{listed_local_count, local_filter};
use crate::records::{ConfigurationSnapshot, LocalModelInfo, ModelInfo};
use crate::text::{equals, join};

verus! {

/// The parts of a runtime snapshot that the dashboard's state holds.
#[derive(Debug)]
pub struct RefreshState {
    pub server_version: String,
    pub protocol_version: String,
    pub models: Vec<ModelInfo>,
    pub local_models: Vec<LocalModelInfo>,
    pub configuration: ConfigurationSnapshot,
}

/// The message for a server that speaks another protocol than the client.
pub open spec fn incompatible_chars(server: Seq<char>, client: Seq<char>) -> Seq<char> {
    "server protocol "@ + server + " is incompatible with client protocol "@ + client
}

/// `app` after the snapshot `result`, where `client_protocol` is the protocol that this client
/// speaks; `accepted` says whether the snapshot was taken. The first snapshot ends the
/// loading screen whatever it holds; a failure or a server of another protocol is shown as
/// the error; otherwise the server's identity, the models and the configuration are the
/// snapshot's, the local selection stays within the list, and the error clears.
pub open spec fn refresh_applied(pre: App, result: Result<RefreshState, String>, client_protocol: Seq<char>, post: App, accepted: bool) -> bool {
    let complete = App { initial_refresh: InitialRefresh::Complete, ..pre };
    match result {
        Err(e) => !accepted && post == App { last_error: Some(e), ..complete },
        Ok(snapshot) => if snapshot.protocol_version@ != client_protocol {
            &&& !accepted
            &&& post == App { last_error: post.last_error, ..complete }
            &&& post.last_error matches Some(m) && m@ == incompatible_chars(
                snapshot.protocol_version@,
                client_protocol,
            )
        } else {
            let count = snapshot.local_models@.filter(local_filter()).len();
            &&& accepted
            &&& post == App {
                server_version: snapshot.server_version,
                protocol_version: snapshot.protocol_version,
                models: snapshot.models,
                local_models: snapshot.local_models,
                local_selected: (if pre.local_selected + 1 <= count {
                    pre.local_selected as int
                } else if count > 0 {
                    count - 1
                } else {
                    0
                }) as usize,
                configuration: Some(snapshot.configuration),
                last_error: None,
                ..complete
            }
        },
    }
}

impl App {
    /// Takes a runtime snapshot, or the error of taking it; `client_protocol` is the protocol
    /// that this client speaks. Says whether the snapshot was taken, so that its telemetry
    /// may be too.
    pub fn apply_refresh(&mut self, result: Result<RefreshState, String>, client_protocol: &str) -> (accepted: bool)
        ensures
            refresh_applied(*old(self), result, client_protocol@, *final(self), accepted),
    {
        self.initial_refresh = InitialRefresh::Complete;
        let snapshot = match result {
            Ok(snapshot) => snapshot,
            Err(error) => {
                self.last_error = Some(error);
                return false;
            },
        };
        if !equals(snapshot.protocol_version.as_str(), client_protocol) {
            let mut message = join("server protocol ", snapshot.protocol_version.as_str());
            message.append(" is incompatible with client protocol ");
            message.append(client_protocol);
            self.last_error = Some(message);
            return false;
        }
        let count = listed_local_count(&snapshot.local_models);
        let last = if count > 0 { count - 1 } else { 0 };
        let selected = if self.local_selected > last { last } else { self.local_selected };
        self.server_version = snapshot.server_version;
        self.protocol_version = snapshot.protocol_version;
        self.models = snapshot.models;
        self.local_models = snapshot.local_models;
        self.local_selected = selected;
        self.configuration = Some(snapshot.configuration);
        self.last_error = None;
        true
    }

    /// The chat telemetry request failed with `error`, which is shown.
    pub fn telemetry_failed(&mut self, error: String)
        ensures
            *final(self) == (App { last_error: Some(error), ..*old(self) }),
    {
        self.last_error = Some(error);
    }
}

} // verus!
