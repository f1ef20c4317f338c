//! What each service does with a message that arrives in one of its inboxes.

use vstd::prelude::*;

verus! {

/// The kinds of message on the service bus.
#[derive(Debug, Clone, Copy, PartialEq, Eq, Structural)]
pub enum BusEvent {
    SensorReadingReceived,
    CastingSimRequested,
    AcousticSimRequested,
    CastingSimCompleted,
    AcousticSimCompleted,
    AlertGenerated,
    Shutdown,
}

/// The inboxes of the services: which service reads it, and who writes to it.
#[derive(Debug, Clone, Copy, PartialEq, Eq, Structural)]
pub enum Inbox {
    /// The data receiver's queue of readings posted to the API.
    DtuFromApi,
    /// The casting simulator's queue of readings forwarded by the receiver.
    CastingFromDtu,
    /// The casting simulator's queue of requests posted to the API.
    CastingFromApi,
    /// The acoustic simulator's queue of readings forwarded by the receiver.
    AcousticFromDtu,
    /// The acoustic simulator's queue of requests posted to the API.
    AcousticFromApi,
    /// The alarm service's queue of readings forwarded by the receiver.
    AlarmFromDtu,
    /// The alarm service's queue of casting simulation results.
    AlarmFromCasting,
    /// The alarm service's queue of acoustic simulation results.
    AlarmFromAcoustic,
}

/// What a service does with a message.
#[derive(Debug, Clone, Copy, PartialEq, Eq, Structural)]
pub enum ServiceAction {
    HandleSensorReading,
    HandleCastingRequest,
    HandleAcousticRequest,
    HandleCastingResult,
    HandleAcousticResult,
    Stop,
    Ignore,
}

/// The event an inbox exists for.
pub open spec fn inbox_purpose(inbox: Inbox) -> BusEvent {
    match inbox {
        Inbox::DtuFromApi | Inbox::CastingFromDtu | Inbox::AcousticFromDtu | Inbox::AlarmFromDtu =>
            BusEvent::SensorReadingReceived,
        Inbox::CastingFromApi => BusEvent::CastingSimRequested,
        Inbox::AcousticFromApi => BusEvent::AcousticSimRequested,
        Inbox::AlarmFromCasting => BusEvent::CastingSimCompleted,
        Inbox::AlarmFromAcoustic => BusEvent::AcousticSimCompleted,
    }
}

/// Whether a shutdown message in this inbox stops its service: the data
/// receiver's queue, the simulators' request queues and the alarm service's
/// result queues; forwarded readings never stop a service.
pub open spec fn inbox_obeys_shutdown(inbox: Inbox) -> bool {
    match inbox {
        Inbox::DtuFromApi | Inbox::CastingFromApi | Inbox::AcousticFromApi
        | Inbox::AlarmFromCasting | Inbox::AlarmFromAcoustic => true,
        _ => false,
    }
}

/// The handling of the event an inbox exists for.
pub open spec fn handling_of(event: BusEvent) -> ServiceAction {
    match event {
        BusEvent::SensorReadingReceived => ServiceAction::HandleSensorReading,
        BusEvent::CastingSimRequested => ServiceAction::HandleCastingRequest,
        BusEvent::AcousticSimRequested => ServiceAction::HandleAcousticRequest,
        BusEvent::CastingSimCompleted => ServiceAction::HandleCastingResult,
        BusEvent::AcousticSimCompleted => ServiceAction::HandleAcousticResult,
        _ => ServiceAction::Ignore,
    }
}

/// What the service reading `inbox` does with `event`: it handles the event
/// the inbox exists for, stops on a shutdown where the inbox obeys one, and
/// ignores everything else.
pub open spec fn spec_action_for(inbox: Inbox, event: BusEvent) -> ServiceAction {
    if event == inbox_purpose(inbox) {
        handling_of(event)
    } else if event == BusEvent::Shutdown && inbox_obeys_shutdown(inbox) {
        ServiceAction::Stop
    } else {
        ServiceAction::Ignore
    }
}

/// What the service reading `inbox` does with a message of kind `event`.
pub fn action_for(inbox: Inbox, event: BusEvent) -> (action: ServiceAction)
    ensures
        action == spec_action_for(inbox, event),
{
    match (inbox, event) {
        (Inbox::DtuFromApi, BusEvent::SensorReadingReceived)
        | (Inbox::CastingFromDtu, BusEvent::SensorReadingReceived)
        | (Inbox::AcousticFromDtu, BusEvent::SensorReadingReceived)
        | (Inbox::AlarmFromDtu, BusEvent::SensorReadingReceived) => ServiceAction::HandleSensorReading,
        (Inbox::CastingFromApi, BusEvent::CastingSimRequested) => ServiceAction::HandleCastingRequest,
        (Inbox::AcousticFromApi, BusEvent::AcousticSimRequested) => ServiceAction::HandleAcousticRequest,
        (Inbox::AlarmFromCasting, BusEvent::CastingSimCompleted) => ServiceAction::HandleCastingResult,
        (Inbox::AlarmFromAcoustic, BusEvent::AcousticSimCompleted) => ServiceAction::HandleAcousticResult,
        (Inbox::DtuFromApi, BusEvent::Shutdown)
        | (Inbox::CastingFromApi, BusEvent::Shutdown)
        | (Inbox::AcousticFromApi, BusEvent::Shutdown)
        | (Inbox::AlarmFromCasting, BusEvent::Shutdown)
        | (Inbox::AlarmFromAcoustic, BusEvent::Shutdown) => ServiceAction::Stop,
        _ => ServiceAction::Ignore,
    }
}

/// A service stops only on a shutdown message, handles only the kind of
/// message its inbox exists for, and never stops on forwarded readings.
pub proof fn lemma_services_stop_only_on_shutdown(inbox: Inbox, event: BusEvent)
    ensures
        spec_action_for(inbox, event) == ServiceAction::Stop ==> event == BusEvent::Shutdown,
        spec_action_for(inbox, event) != ServiceAction::Stop && spec_action_for(inbox, event) != ServiceAction::Ignore
            ==> event == inbox_purpose(inbox),
        (inbox == Inbox::CastingFromDtu || inbox == Inbox::AcousticFromDtu || inbox == Inbox::AlarmFromDtu)
            ==> spec_action_for(inbox, event) != ServiceAction::Stop,
        event == BusEvent::AlertGenerated ==> spec_action_for(inbox, event) == ServiceAction::Ignore,
{
}

/// Each service handles the kind of message its inbox carries: readings in
/// the receivers' and simulators' and alarm's reading queues, casting and
/// acoustic requests in the simulators' request queues, and simulation
/// results in the alarm service's result queues.
pub proof fn lemma_services_handle_their_messages()
    ensures
        spec_action_for(Inbox::DtuFromApi, BusEvent::SensorReadingReceived) == ServiceAction::HandleSensorReading,
        spec_action_for(Inbox::CastingFromDtu, BusEvent::SensorReadingReceived) == ServiceAction::HandleSensorReading,
        spec_action_for(Inbox::AcousticFromDtu, BusEvent::SensorReadingReceived) == ServiceAction::HandleSensorReading,
        spec_action_for(Inbox::AlarmFromDtu, BusEvent::SensorReadingReceived) == ServiceAction::HandleSensorReading,
        spec_action_for(Inbox::CastingFromApi, BusEvent::CastingSimRequested) == ServiceAction::HandleCastingRequest,
        spec_action_for(Inbox::AcousticFromApi, BusEvent::AcousticSimRequested) == ServiceAction::HandleAcousticRequest,
        spec_action_for(Inbox::AlarmFromCasting, BusEvent::CastingSimCompleted) == ServiceAction::HandleCastingResult,
        spec_action_for(Inbox::AlarmFromAcoustic, BusEvent::AcousticSimCompleted) == ServiceAction::HandleAcousticResult,
        spec_action_for(Inbox::DtuFromApi, BusEvent::Shutdown) == ServiceAction::Stop,
        spec_action_for(Inbox::CastingFromApi, BusEvent::Shutdown) == ServiceAction::Stop,
        spec_action_for(Inbox::AcousticFromApi, BusEvent::Shutdown) == ServiceAction::Stop,
        spec_action_for(Inbox::AlarmFromCasting, BusEvent::Shutdown) == ServiceAction::Stop,
        spec_action_for(Inbox::AlarmFromAcoustic, BusEvent::Shutdown) == ServiceAction::Stop,
{
}

} // verus!
