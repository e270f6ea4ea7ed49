use crate::response::{Outcome, OutcomeView};
use momento::cache::messages::data::scalar::get::Value;
use momento::cache::{GetResponse, SetResponse};
use momento::{ErrorSource, MomentoError, MomentoErrorCode, ProtosocketCacheClient};
use vstd::prelude::*;

verus! {

#[verifier::external_type_specification]
#[verifier::external_body]
pub struct ExMomentoErrorCode(MomentoErrorCode);

#[verifier::external_type_specification]
#[verifier::external_body]
pub struct ExErrorSource(ErrorSource);

#[verifier::external_type_specification]
pub struct ExMomentoError(MomentoError);

#[verifier::external_type_specification]
#[verifier::external_body]
pub struct ExValue(Value);

#[verifier::external_type_specification]
#[verifier::external_body]
pub struct ExSetResponse(SetResponse);

#[verifier::external_type_specification]
pub struct ExGetResponse(GetResponse);

#[verifier::external_type_specification]
#[verifier::external_body]
pub struct ExProtosocketCacheClient(ProtosocketCacheClient);

/// Relies on `MomentoError`'s `Display` impl (thiserror's `#[error("{message}")]`)
/// for the text that describes a failed call.
#[verifier::external_body]
fn error_text(e: &MomentoError) -> (r: String)
    ensures
        r@ == e.message@,
{
    e.to_string()
}

/// Relies on `GetResponse`'s two variants and on `From<Value> for Vec<u8>`,
/// which hands out the stored bytes: a hit gives its bytes, a miss gives none.
#[verifier::external_body]
fn hit_value(r: GetResponse) -> (v: Option<Vec<u8>>)
    ensures
        v is Some <==> r is Hit,
{
    match r {
        GetResponse::Hit { value } => Some(value.into()),
        GetResponse::Miss => None,
    }
}

/// The outcome of a `set` whose call either succeeded or failed with a message.
pub open spec fn set_outcome_of(r: Result<(), Seq<char>>) -> OutcomeView {
    match r {
        Ok(()) => OutcomeView::SetSuccess,
        Err(m) => OutcomeView::Error { message: m },
    }
}

/// The outcome of a `get` whose call found a value, found nothing, or failed
/// with a message.
pub open spec fn get_outcome_of(r: Result<Option<Seq<u8>>, Seq<char>>) -> OutcomeView {
    match r {
        Ok(Some(v)) => OutcomeView::GetHit { value: v },
        Ok(None) => OutcomeView::GetMiss,
        Err(m) => OutcomeView::Error { message: m },
    }
}

/// Translates the plain result of a `set` call into its outcome.
pub fn outcome_of_set(r: Result<(), String>) -> (o: Outcome)
    ensures
        o@ == set_outcome_of(
            match r {
                Ok(()) => Ok(()),
                Err(m) => Err(m@),
            },
        ),
{
    match r {
        Ok(()) => Outcome::SetSuccess,
        Err(message) => Outcome::Error { message },
    }
}

/// Translates the plain result of a `get` call into its outcome.
pub fn outcome_of_get(r: Result<Option<Vec<u8>>, String>) -> (o: Outcome)
    ensures
        o@ == get_outcome_of(
            match r {
                Ok(Some(v)) => Ok(Some(v@)),
                Ok(None) => Ok(None),
                Err(m) => Err(m@),
            },
        ),
{
    match r {
        Ok(Some(value)) => Outcome::GetHit { value },
        Ok(None) => Outcome::GetMiss,
        Err(message) => Outcome::Error { message },
    }
}

/// Translates what the cache client's `set` returned into its outcome: a
/// success for `Ok`, an error carrying the error's message for `Err`.
pub fn set_outcome(r: Result<SetResponse, MomentoError>) -> (o: Outcome)
    ensures
        r is Ok <==> o@ is SetSuccess,
        r matches Err(e) ==> o@ == (OutcomeView::Error { message: e.message@ }),
{
    match r {
        Ok(_) => outcome_of_set(Ok(())),
        Err(e) => outcome_of_set(Err(error_text(&e))),
    }
}

/// Translates what the cache client's `get` returned into its outcome: a hit
/// with the stored bytes or a miss for `Ok`, an error carrying the error's
/// text for `Err`.
pub fn get_outcome(r: Result<GetResponse, MomentoError>) -> (o: Outcome)
    ensures
        r matches Ok(resp) && resp is Hit ==> o@ is GetHit,
        r matches Ok(resp) && resp is Miss ==> o@ is GetMiss,
        r matches Err(e) ==> o@ == (OutcomeView::Error { message: e.message@ }),
{
    match r {
        Ok(resp) => outcome_of_get(Ok(hit_value(resp))),
        Err(e) => outcome_of_get(Err(error_text(&e))),
    }
}

/// Where the process-wide cache client stands in its lifecycle.
#[derive(Clone, Copy, Debug, PartialEq, Eq, Structural)]
pub enum ClientState {
    Uninitialized,
    Ready,
    Destroyed,
}

/// Why a lifecycle step was refused.
#[derive(Clone, Copy, Debug, PartialEq, Eq, Structural)]
pub enum LifecycleError {
    AlreadyInitialized,
}

/// Holds the cache client: installed once, then shared until it is destroyed.
pub struct ClientSlot {
    client: Option<ProtosocketCacheClient>,
    initialized: bool,
}

impl View for ClientSlot {
    type V = ClientState;

    closed spec fn view(&self) -> ClientState {
        if self.client is Some {
            ClientState::Ready
        } else if self.initialized {
            ClientState::Destroyed
        } else {
            ClientState::Uninitialized
        }
    }
}

impl ClientSlot {
    /// The client the slot holds, if any.
    pub closed spec fn held(&self) -> Option<ProtosocketCacheClient> {
        self.client
    }

    /// A slot that holds no client yet.
    pub fn new() -> (r: ClientSlot)
        ensures
            r@ == ClientState::Uninitialized,
            r.held() is None,
    {
        ClientSlot { client: None, initialized: false }
    }

    /// Installs the client. Only the first installation succeeds; any later
    /// one, also after the client was destroyed, is refused and the slot is
    /// left as it was.
    pub fn install(&mut self, client: ProtosocketCacheClient) -> (r: Result<(), LifecycleError>)
        ensures
            old(self)@ == ClientState::Uninitialized ==> r is Ok && final(self)@
                == ClientState::Ready && final(self).held() == Some(client),
            old(self)@ != ClientState::Uninitialized ==> r == Err::<(), LifecycleError>(
                LifecycleError::AlreadyInitialized,
            ) && final(self)@ == old(self)@ && final(self).held() == old(self).held(),
    {
        if self.initialized || self.client.is_some() {
            return Err(LifecycleError::AlreadyInitialized);
        }
        self.client = Some(client);
        self.initialized = true;
        Ok(())
    }

    /// The installed client, while the slot is ready.
    pub fn client(&self) -> (r: Option<&ProtosocketCacheClient>)
        ensures
            r is Some <==> self@ == ClientState::Ready,
            r matches Some(c) ==> self.held() == Some(*c),
    {
        match &self.client {
            Some(c) => Some(c),
            None => None,
        }
    }

    /// Tears the client down and hands it out to be dropped; a slot that is
    /// not ready is left as it was.
    pub fn destroy(&mut self) -> (r: Option<ProtosocketCacheClient>)
        ensures
            r is Some <==> old(self)@ == ClientState::Ready,
            r == old(self).held(),
            final(self).held() is None,
            old(self)@ == ClientState::Ready ==> final(self)@ == ClientState::Destroyed,
            old(self)@ != ClientState::Ready ==> final(self)@ == old(self)@,
    {
        if self.client.is_none() {
            return None;
        }
        self.initialized = true;
        self.client.take()
    }
}

} // verus!
