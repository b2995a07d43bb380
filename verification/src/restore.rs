//! Reloading, after a restart of the runtime, the models that were loaded before.
use vstd::prelude::*;

use crate::app::{App, Command};
use crate::load::{has_model, with_state, contains_model, set_local_state};
use crate::records::{LoadModelRequest, ModelInfo};
use crate::text::join;

verus! {

/// Keeps the selectors that name no loaded model.
pub open spec fn not_loaded(models: Seq<ModelInfo>) -> spec_fn(String) -> bool {
    |selector: String| !has_model(models, selector@)
}

/// The request that restores `selector` with its saved settings.
pub open spec fn restore_request(selector: String, request: LoadModelRequest) -> bool {
    &&& request.selector == selector
    &&& request.settings is None
    &&& request.config_id@.len() == 0
    &&& request.repo_id@.len() == 0
    &&& request.revision@.len() == 0
    &&& request.commit@.len() == 0
    &&& !request.force
}

/// The next restore: the first queued selector leaves the queue, becomes the restore in flight
/// and is marked as loading locally, and its load is sent; an empty queue starts nothing.
#[verifier::opaque]
pub open spec fn next_restore(pre: App, post: App, command: Option<Command>) -> bool {
    if pre.restore_queue@.len() == 0 {
        post == pre && command is None
    } else {
        let selector = pre.restore_queue@[0];
        &&& (command matches Some(Command::LoadModel(request)) && restore_request(selector, request))
        &&& post.restore_queue@ == pre.restore_queue@.drop_first()
        &&& post.restore_in_flight == Some(selector)
        &&& with_state(pre.local_models@, selector@, "loading"@, post.local_models@)
        &&& post == App {
            restore_queue: post.restore_queue,
            restore_in_flight: post.restore_in_flight,
            local_models: post.local_models,
            lifecycle_pending: true,
            ..pre
        }
    }
}

/// The selectors that name no loaded model.
pub fn unloaded(selectors: Vec<String>, models: &Vec<ModelInfo>) -> (queue: Vec<String>)
    ensures
        queue@ == selectors@.filter(not_loaded(models@)),
{
    let ghost all = selectors@;
    let ghost pred = not_loaded(models@);
    let ghost mut consumed: Seq<String> = Seq::empty();
    let mut rest = selectors;
    let mut queue: Vec<String> = Vec::new();
    proof {
        assert(all =~= consumed + rest@);
    }
    while rest.len() > 0
        invariant
            all == consumed + rest@,
            pred == not_loaded(models@),
            queue@ == consumed.filter(pred),
        decreases rest@.len(),
    {
        let selector = rest.remove(0);
        proof {
            reveal_with_fuel(Seq::filter, 1);
            assert(consumed.push(selector).drop_last() =~= consumed);
        }
        let keep = !contains_model(models, selector.as_str());
        proof {
            consumed = consumed.push(selector);
            assert(all =~= consumed + rest@);
        }
        if keep {
            queue.push(selector);
        }
    }
    proof {
        assert(consumed =~= all);
    }
    queue
}

/// `app` once the list of models to restore is no longer awaited.
pub open spec fn list_received(app: App) -> App {
    App { restore_pending: false, ..app }
}

/// `app` after the list of models to restore arrived: those not loaded yet are queued and the
/// first one starts; an error is reported.
pub open spec fn restore_list_applied(pre: App, result: Result<Vec<String>, String>, post: App, command: Option<Command>) -> bool {
    match result {
        Ok(selectors) => exists|queued: App|
            queued == (App { restore_queue: queued.restore_queue, ..pre })
                && queued.restore_queue@ == selectors@.filter(not_loaded(pre.models@))
                && #[trigger] next_restore(queued, post, command),
        Err(e) => command is None && (post.action_message matches Some(m) && m@
            == "cannot read active models: "@ + e@) && post == (App {
            action_message: post.action_message,
            ..pre
        }),
    }
}

impl App {
    /// Asks the runtime which models were loaded before it restarted.
    pub fn begin_restore(&mut self) -> (command: Command)
        ensures
            command is ListActiveModels,
            *final(self) == (App { restore_pending: true, ..*old(self) }),
    {
        self.restore_pending = true;
        Command::ListActiveModels
    }

    /// Starts restoring the next queued model.
    pub fn start_next_restore(&mut self) -> (command: Option<Command>)
        ensures
            next_restore(*old(self), *final(self), command),
    {
        reveal(next_restore);
        if self.restore_queue.len() == 0 {
            return None;
        }
        let selector = self.restore_queue.remove(0);
        set_local_state(&mut self.local_models, selector.as_str(), "loading");
        self.restore_in_flight = Some(selector.clone());
        self.lifecycle_pending = true;
        Some(
            Command::LoadModel(
                LoadModelRequest {
                    selector,
                    settings: None,
                    config_id: String::new(),
                    repo_id: String::new(),
                    revision: String::new(),
                    commit: String::new(),
                    force: false,
                },
            ),
        )
    }

    /// Takes the list of models to restore: those not loaded yet are queued and the first one
    /// starts; an error is reported.
    pub fn apply_restore_list(&mut self, result: Result<Vec<String>, String>) -> (command: Option<Command>)
        ensures
            restore_list_applied(*old(self), result, *final(self), command),
    {
        match result {
            Ok(selectors) => {
                let queue = unloaded(selectors, &self.models);
                self.restore_queue = queue;
                let ghost queued = *self;
                let command = self.start_next_restore();
                assert(queued == (App { restore_queue: queued.restore_queue, ..*old(self) }));
                command
            },
            Err(error) => {
                self.action_message = Some(join("cannot read active models: ", error.as_str()));
                None
            },
        }
    }

    /// Whether no load runs or is being set up, so that a queued restore may start.
    pub open spec fn restore_idle(self) -> bool {
        !self.lifecycle_pending && self.restore_in_flight is None && self.load_dialog is None
    }

    /// One step of restoring: while the list is awaited and has not arrived nothing happens;
    /// an arrived list is taken; then, when no load runs or is set up, the next queued model
    /// starts. At most one load is sent.
    pub fn poll_restore(&mut self, received: Option<Result<Vec<String>, String>>) -> (command: Option<Command>)
        ensures
            old(self).restore_pending && received is None ==> command is None && *final(self)
                == *old(self),
            old(self).restore_pending && received is Some ==> exists|mid: App, first: Option<Command>|
                #[trigger] restore_list_applied(list_received(*old(self)), received->0, mid, first)
                    && if first is Some {
                    command == first && *final(self) == mid
                } else if mid.restore_idle() {
                    next_restore(mid, *final(self), command)
                } else {
                    command is None && *final(self) == mid
                },
            !old(self).restore_pending ==> (if old(self).restore_idle() {
                next_restore(*old(self), *final(self), command)
            } else {
                command is None && *final(self) == *old(self)
            }),
    {
        if self.restore_pending {
            match received {
                None => return None,
                Some(result) => {
                    self.restore_pending = false;
                    let command = self.apply_restore_list(result);
                    if command.is_some() {
                        return command;
                    }
                    let ghost mid = *self;
                    if !self.lifecycle_pending && self.restore_in_flight.is_none()
                        && self.load_dialog.is_none() {
                        let next = self.start_next_restore();
                        proof {
                            assert(mid.restore_idle());
                        }
                        return next;
                    }
                    return None;
                },
            }
        }
        if !self.lifecycle_pending && self.restore_in_flight.is_none() && self.load_dialog.is_none() {
            return self.start_next_restore();
        }
        None
    }
}

} // verus!
