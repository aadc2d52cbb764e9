//! The serial executor of configuration commands, as a state machine.
//!
//! Every replacement goes through two steps, driven one command at a time by
//! the runtime: `ConfigActor::on_replace` validates the candidate and either
//! answers at once or asks for it to be persisted; `ConfigActor::on_persisted`
//! takes the outcome of persistence and decides the reply and whether the new
//! snapshot is published. Nothing is published before it was persisted, and a
//! failed replacement leaves the published snapshot as it was.

use crate::config::model::{AppConfig, InvalidConfig};
use vstd::prelude::*;

verus! {

/// Errors of configuration commands, mapped by the web layer to HTTP answers.
#[derive(Clone, Debug, PartialEq, Eq)]
pub enum ConfigError {
    /// The candidate configuration is invalid.
    Invalid(InvalidConfig),
    /// Persisting the candidate failed; the text describes the failure.
    Persistence(String),
    /// The configuration manager has stopped.
    Unavailable,
}

/// A validated candidate waiting for persistence. Only `ConfigActor::on_replace`
/// creates one, so whatever reaches `on_persisted` has passed validation.
pub struct PendingReplace {
    candidate: AppConfig,
}

impl PendingReplace {
    #[verifier::type_invariant]
    spec fn candidate_is_valid(self) -> bool {
        self.candidate.spec_validate() is Ok
    }

    /// The candidate that is to be persisted.
    pub closed spec fn spec_candidate(self) -> AppConfig {
        self.candidate
    }

    /// The candidate that the runtime must write to the configuration file.
    pub fn candidate(&self) -> (r: &AppConfig)
        ensures
            *r == self.spec_candidate(),
            r.spec_validate() is Ok,
    {
        proof {
            use_type_invariant(self);
        }
        &self.candidate
    }
}

/// What the runtime must do after a replacement command arrived.
pub enum ReplaceStep {
    /// Answer the request at once; nothing is written and nothing is published.
    Reply(Result<(), ConfigError>),
    /// Write the candidate to the configuration file, then call `on_persisted`.
    Persist(PendingReplace),
}

/// What the runtime must do once persistence has finished.
#[derive(Debug)]
pub struct ReplaceOutcome {
    /// The answer to the request.
    pub reply: Result<(), ConfigError>,
    /// The snapshot to publish to subscribers, if any.
    pub publish: Option<AppConfig>,
}

/// The answer to a replacement, given the outcome of validation.
pub open spec fn validation_reply(validation: Result<(), InvalidConfig>) -> Result<(), ConfigError> {
    match validation {
        Ok(()) => Ok(()),
        Err(e) => Err(ConfigError::Invalid(e)),
    }
}

/// The answer to a replacement, given the outcome of persistence.
pub open spec fn persistence_reply(persisted: Result<(), String>) -> Result<(), ConfigError> {
    match persisted {
        Ok(()) => Ok(()),
        Err(message) => Err(ConfigError::Persistence(message)),
    }
}

/// The published snapshot after one replacement command: the candidate when it
/// is valid and was persisted, the snapshot as it was otherwise.
pub open spec fn replace_step(
    snapshot: AppConfig,
    candidate: AppConfig,
    persisted: Result<(), String>,
) -> AppConfig {
    if candidate.spec_validate() is Ok && persisted is Ok {
        candidate
    } else {
        snapshot
    }
}

/// Whether a command (a candidate and the outcome of persisting it) replaced the snapshot.
pub open spec fn replaced(command: (AppConfig, Result<(), String>)) -> bool {
    command.0.spec_validate() is Ok && command.1 is Ok
}

/// The published snapshot after a sequence of replacement commands, handled
/// one at a time in order.
pub open spec fn replay(snapshot: AppConfig, commands: Seq<(AppConfig, Result<(), String>)>) -> AppConfig
    decreases commands.len(),
{
    if commands.len() == 0 {
        snapshot
    } else {
        replace_step(
            replay(snapshot, commands.drop_last()),
            commands.last().0,
            commands.last().1,
        )
    }
}

/// After any sequence of replacement commands the published snapshot is the
/// candidate of the last command that replaced it (valid and persisted), or
/// the initial snapshot when none did.
pub proof fn lemma_snapshot_is_last_saved(
    initial: AppConfig,
    commands: Seq<(AppConfig, Result<(), String>)>,
)
    ensures
        (forall|i: int| 0 <= i < commands.len() ==> !#[trigger] replaced(commands[i])) ==> replay(
            initial,
            commands,
        ) == initial,
        forall|i: int|
            0 <= i < commands.len() && #[trigger] replaced(commands[i]) && (forall|j: int|
                i < j < commands.len() ==> !#[trigger] replaced(commands[j])) ==> replay(
                initial,
                commands,
            ) == commands[i].0,
    decreases commands.len(),
{
    if commands.len() > 0 {
        let prefix = commands.drop_last();
        lemma_snapshot_is_last_saved(initial, prefix);
        assert forall|i: int| 0 <= i < prefix.len() implies #[trigger] prefix[i] == commands[i] by {}
        let n = commands.len() - 1;
        assert forall|i: int|
            0 <= i < commands.len() && #[trigger] replaced(commands[i]) && (forall|j: int|
                i < j < commands.len() ==> !#[trigger] replaced(commands[j])) implies replay(
            initial,
            commands,
        ) == commands[i].0 by {
            if i < n {
                assert(!replaced(commands[n]));
                assert(replaced(prefix[i]));
                assert forall|j: int| i < j < prefix.len() implies !#[trigger] replaced(prefix[j]) by {
                    assert(prefix[j] == commands[j]);
                }
            }
        }
        if forall|i: int| 0 <= i < commands.len() ==> !#[trigger] replaced(commands[i]) {
            assert forall|i: int| 0 <= i < prefix.len() implies !#[trigger] replaced(prefix[i]) by {
                assert(prefix[i] == commands[i]);
            }
            assert(!replaced(commands[n]));
        }
    }
}

/// The configuration actor: it owns the published snapshot.
pub struct ConfigActor {
    snapshot: AppConfig,
}

impl ConfigActor {
    /// The snapshot that subscribers currently see.
    pub closed spec fn spec_snapshot(self) -> AppConfig {
        self.snapshot
    }

    /// Starts from the configuration that was loaded at start-up.
    pub fn new(initial: AppConfig) -> (r: Self)
        ensures
            r.spec_snapshot() == initial,
    {
        ConfigActor { snapshot: initial }
    }

    /// The latest complete snapshot.
    pub fn current(&self) -> (r: &AppConfig)
        ensures
            *r == self.spec_snapshot(),
    {
        &self.snapshot
    }

    /// First step of a replacement: an invalid candidate is answered with
    /// `ConfigError::Invalid` and never persisted; a valid one is to be persisted.
    /// The snapshot does not change.
    pub fn on_replace(&self, candidate: AppConfig) -> (r: ReplaceStep)
        ensures
            candidate.spec_validate() is Err <==> r is Reply,
            r matches ReplaceStep::Reply(reply) ==> reply == validation_reply(candidate.spec_validate()),
            r matches ReplaceStep::Reply(reply) ==> reply is Err,
            r matches ReplaceStep::Persist(p) ==> p.spec_candidate() == candidate,
            r is Reply ==> forall|persisted: Result<(), String>|
                #[trigger] replace_step(self.spec_snapshot(), candidate, persisted)
                    == self.spec_snapshot(),
    {
        match candidate.validate() {
            Ok(()) => ReplaceStep::Persist(PendingReplace { candidate }),
            Err(e) => ReplaceStep::Reply(Err(ConfigError::Invalid(e))),
        }
    }

    /// Second step of a replacement: when the candidate was persisted it
    /// becomes the snapshot and is published; otherwise the snapshot is kept,
    /// nothing is published and the failure is reported.
    pub fn on_persisted(&mut self, pending: PendingReplace, persisted: Result<(), String>) -> (r:
        ReplaceOutcome)
        ensures
            r.reply == persistence_reply(persisted),
            r.reply is Ok <==> r.publish is Some,
            r.publish matches Some(c) ==> c.spec_validate() is Ok,
            final(self).spec_snapshot() == replace_step(
                old(self).spec_snapshot(),
                pending.spec_candidate(),
                persisted,
            ),
            persisted is Ok ==> final(self).spec_snapshot() == pending.spec_candidate()
                && r.publish == Some(pending.spec_candidate()),
            persisted is Err ==> final(self).spec_snapshot() == old(self).spec_snapshot()
                && r.publish is None,
    {
        proof {
            use_type_invariant(&pending);
        }
        match persisted {
            Ok(()) => {
                let candidate = pending.candidate;
                let published = candidate.clone();
                self.snapshot = candidate;
                ReplaceOutcome { reply: Ok(()), publish: Some(published) }
            },
            Err(message) => ReplaceOutcome {
                reply: Err(ConfigError::Persistence(message)),
                publish: None,
            },
        }
    }
}

} // verus!
