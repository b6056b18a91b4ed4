//! What is asked of the platform's authorization service, and what its
//! answers mean.
//!
//! Nothing here talks to the service. Each operation is a short chain of
//! requests: the caller performs the request it is given, over whatever
//! transport it has, and hands the answer to the next step. A caller that
//! wants a deadline can put one around any request.

use vstd::prelude::*;
use crate::biometric::Biometric;
use crate::error::Error;

verus! {

/// The action whose authorization unlocks the secret.
pub const UNLOCK_ACTION_ID: &'static str = "com.bitwarden.Bitwarden.unlock";

/// The locale in which the registered actions are listed.
pub const ACTION_LOCALE: &'static str = "en";

/// The cancellation id sent with a check. The empty text: checks are not
/// cancelled.
pub const NO_CANCELLATION: &'static str = "";

/// A request to the authorization service that did not come to an answer.
#[derive(Clone, Copy, Debug, PartialEq, Eq, Structural)]
pub enum ServiceFailure {
    /// The service could not be reached.
    Unreachable,
    /// The service answered, but not in a form that could be read.
    MalformedResponse,
}

/// What an open connection to the system bus tells of the calling process.
#[derive(Clone, Debug, PartialEq, Eq)]
pub struct Caller {
    /// The unique name that the bus gave this connection, if it gave one.
    pub unique_name: Option<String>,
    /// The id of the calling process.
    pub pid: u32,
}

/// Who asks for authorization.
#[derive(Clone, Debug, PartialEq, Eq)]
pub enum AuthoritySubject {
    /// The owner of a bus connection. The service looks the credentials up
    /// from the live connection, which is right in a sandbox too.
    SystemBusName { name: String },
    /// A process by its id. Inside a process-id namespace the service may
    /// see another process under that id, or none.
    UnixProcess { pid: u32 },
}

/// The subject that stands for `caller`: the bus name where the connection
/// has one, the process id otherwise.
pub open spec fn subject_of(caller: Caller) -> AuthoritySubject {
    match caller.unique_name {
        Some(name) => AuthoritySubject::SystemBusName { name },
        None => AuthoritySubject::UnixProcess { pid: caller.pid },
    }
}

/// Names the caller to the authorization service. The bus name is
/// preferred; the process id is the fallback for a connection without one.
pub fn resolve(caller: Caller) -> (subject: AuthoritySubject)
    ensures
        subject == subject_of(caller),
{
    match caller.unique_name {
        Some(name) => AuthoritySubject::SystemBusName { name },
        None => AuthoritySubject::UnixProcess { pid: caller.pid },
    }
}

/// A check of one action for one subject.
#[derive(Clone, Debug, PartialEq, Eq)]
pub struct AuthorizationCheck {
    /// Who asks.
    pub subject: AuthoritySubject,
    /// The action asked for.
    pub action_id: String,
    /// Details of the request, as pairs of a key and a value.
    pub details: Vec<(String, String)>,
    /// Whether the service may ask the user for consent.
    pub allow_user_interaction: bool,
    /// The id under which the check could be cancelled.
    pub cancellation_id: String,
}

impl AuthorizationCheck {
    /// Whether this is the check of the unlock action for `subject`, with
    /// no details, consent of the user allowed, and no cancellation.
    pub open spec fn is_unlock_check_for(&self, subject: AuthoritySubject) -> bool {
        &&& self.subject == subject
        &&& self.action_id@ == UNLOCK_ACTION_ID@
        &&& self.details@.len() == 0
        &&& self.allow_user_interaction
        &&& self.cancellation_id@ == NO_CANCELLATION@
    }

    /// The verdict that an answer to this check amounts to.
    pub open spec fn verdict(answer: Result<bool, ServiceFailure>) -> bool {
        answer == Ok::<bool, ServiceFailure>(true)
    }

    /// Takes the service's answer to the check. Only an answer that grants
    /// the action authorizes. A refusal does not, and neither does a request
    /// that failed: trouble with the service is never an error here, and never
    /// a grant.
    pub fn answered(self, answer: Result<bool, ServiceFailure>) -> (outcome: Result<bool, Error>)
        ensures
            outcome == Ok::<bool, Error>(Self::verdict(answer)),
    {
        match answer {
            Ok(is_authorized) => Ok(is_authorized),
            Err(_) => Ok(false),
        }
    }
}

/// How a prompt goes on once the connection was tried.
#[derive(Debug, PartialEq, Eq)]
pub enum PromptStep {
    /// The service is to be asked.
    Check(AuthorizationCheck),
    /// The prompt is over.
    Done(Result<bool, Error>),
}

impl PromptStep {
    /// Whether this is the step that follows `connection`: the check of
    /// the unlock action for the caller that a connection names, or the end
    /// of the prompt, unauthorized, where there is none.
    pub open spec fn follows(self, connection: Result<Caller, ServiceFailure>) -> bool {
        match connection {
            Ok(caller) => self matches PromptStep::Check(check) && check.is_unlock_check_for(
                subject_of(caller),
            ),
            Err(_) => self == PromptStep::Done(Ok(false)),
        }
    }

    /// How the prompt ends: as it did if it is over, else in the verdict
    /// that `answer` amounts to.
    pub open spec fn outcome(self, answer: Result<bool, ServiceFailure>) -> Result<bool, Error> {
        match self {
            PromptStep::Check(_) => Ok(AuthorizationCheck::verdict(answer)),
            PromptStep::Done(outcome) => outcome,
        }
    }
}

/// A request for the actions registered with the service.
#[derive(Clone, Debug, PartialEq, Eq)]
pub struct ActionListing {
    /// The locale of the descriptions asked for.
    pub locale: String,
}

/// Whether the unlock action is among `actions`.
pub open spec fn unlock_registered(actions: Seq<String>) -> bool {
    exists|i: int| 0 <= i < actions.len() && (#[trigger] actions[i])@ == UNLOCK_ACTION_ID@
}

impl ActionListing {
    /// Takes the ids of the registered actions. Biometric unlock is
    /// available exactly if the unlock action is among them. A service that
    /// answers with other actions, or with none, is reachable: that is
    /// `Ok(false)`. A request that failed is an error.
    pub fn answered(self, actions: Result<Vec<String>, ServiceFailure>) -> (outcome: Result<
        bool,
        Error,
    >)
        ensures
            match actions {
                Ok(ids) => outcome == Ok::<bool, Error>(unlock_registered(ids@)),
                Err(_) => outcome == Err::<bool, Error>(Error::ServiceUnavailable),
            },
    {
        match actions {
            Ok(ids) => Ok(lists_unlock_action(&ids)),
            Err(_) => Err(Error::ServiceUnavailable),
        }
    }
}

/// Searches the ids of the registered actions for the unlock action.
pub fn lists_unlock_action(ids: &Vec<String>) -> (found: bool)
    ensures
        found == unlock_registered(ids@),
{
    let wanted = UNLOCK_ACTION_ID.to_owned();
    let mut i: usize = 0;
    while i < ids.len()
        invariant
            i <= ids.len(),
            wanted@ == UNLOCK_ACTION_ID@,
            forall|j: int| 0 <= j < i ==> (#[trigger] ids@[j])@ != UNLOCK_ACTION_ID@,
        decreases ids.len() - i,
    {
        if ids[i] == wanted {
            return true;
        }
        i += 1;
    }
    false
}

impl Biometric {
    /// Prompts for authorization, once the connection to the system bus
    /// was tried. With a connection the unlock action is to be checked for
    /// the caller that the connection names. Without one the prompt ends
    /// unauthorized, and not in an error.
    ///
    /// The window handle and the message are hints for a platform that
    /// shows them; this backend leaves the consent dialog to the service, and
    /// neither has a say in the decision.
    pub fn prompt(
        _hwnd: Vec<u8>,
        _message: String,
        connection: Result<Caller, ServiceFailure>,
    ) -> (step: PromptStep)
        ensures
            step.follows(connection),
    {
        match connection {
            Ok(caller) => PromptStep::Check(
                AuthorizationCheck {
                    subject: resolve(caller),
                    action_id: UNLOCK_ACTION_ID.to_owned(),
                    details: Vec::new(),
                    allow_user_interaction: true,
                    cancellation_id: NO_CANCELLATION.to_owned(),
                },
            ),
            Err(_) => PromptStep::Done(Ok(false)),
        }
    }

    /// Probes whether biometric unlock is available, once the connection to
    /// the system bus was tried. With a connection the registered actions
    /// are to be listed. Without one the service is unavailable, which here
    /// is an error.
    pub fn available(connection: Result<Caller, ServiceFailure>) -> (step: Result<
        ActionListing,
        Error,
    >)
        ensures
            connection is Ok ==> (step matches Ok(listing) && listing.locale@ == ACTION_LOCALE@),
            connection is Err ==> step == Err::<ActionListing, Error>(Error::ServiceUnavailable),
    {
        match connection {
            Ok(_) => Ok(ActionListing { locale: ACTION_LOCALE.to_owned() }),
            Err(_) => Err(Error::ServiceUnavailable),
        }
    }
}

/// A prompt never fails, and it authorizes only on a grant: however the
/// connection went and whatever the service answered, the prompt ends in
/// `Ok`, and in `Ok(true)` exactly if there was a connection and the
/// service granted the action.
pub proof fn lemma_prompt_authorizes_only_on_grant(
    connection: Result<Caller, ServiceFailure>,
    step: PromptStep,
    answer: Result<bool, ServiceFailure>,
)
    requires
        step.follows(connection),
    ensures
        step.outcome(answer) == Ok::<bool, Error>(
            connection is Ok && answer == Ok::<bool, ServiceFailure>(true),
        ),
{
}

} // verus!
