use bell_casting::services::{action_for, BusEvent, Inbox, ServiceAction};

const ALL_INBOXES: [Inbox; 8] = [
    Inbox::DtuFromApi,
    Inbox::CastingFromDtu,
    Inbox::CastingFromApi,
    Inbox::AcousticFromDtu,
    Inbox::AcousticFromApi,
    Inbox::AlarmFromDtu,
    Inbox::AlarmFromCasting,
    Inbox::AlarmFromAcoustic,
];

#[test]
fn each_inbox_handles_its_own_event() {
    assert_eq!(action_for(Inbox::DtuFromApi, BusEvent::SensorReadingReceived), ServiceAction::HandleSensorReading);
    assert_eq!(action_for(Inbox::CastingFromDtu, BusEvent::SensorReadingReceived), ServiceAction::HandleSensorReading);
    assert_eq!(action_for(Inbox::CastingFromApi, BusEvent::CastingSimRequested), ServiceAction::HandleCastingRequest);
    assert_eq!(action_for(Inbox::AcousticFromApi, BusEvent::AcousticSimRequested), ServiceAction::HandleAcousticRequest);
    assert_eq!(action_for(Inbox::AlarmFromCasting, BusEvent::CastingSimCompleted), ServiceAction::HandleCastingResult);
    assert_eq!(action_for(Inbox::AlarmFromAcoustic, BusEvent::AcousticSimCompleted), ServiceAction::HandleAcousticResult);
    assert_eq!(action_for(Inbox::AlarmFromDtu, BusEvent::SensorReadingReceived), ServiceAction::HandleSensorReading);
}

#[test]
fn shutdown_stops_only_where_obeyed() {
    assert_eq!(action_for(Inbox::DtuFromApi, BusEvent::Shutdown), ServiceAction::Stop);
    assert_eq!(action_for(Inbox::CastingFromApi, BusEvent::Shutdown), ServiceAction::Stop);
    assert_eq!(action_for(Inbox::AcousticFromApi, BusEvent::Shutdown), ServiceAction::Stop);
    assert_eq!(action_for(Inbox::AlarmFromCasting, BusEvent::Shutdown), ServiceAction::Stop);
    assert_eq!(action_for(Inbox::AlarmFromAcoustic, BusEvent::Shutdown), ServiceAction::Stop);
    assert_eq!(action_for(Inbox::CastingFromDtu, BusEvent::Shutdown), ServiceAction::Ignore);
    assert_eq!(action_for(Inbox::AcousticFromDtu, BusEvent::Shutdown), ServiceAction::Ignore);
    assert_eq!(action_for(Inbox::AlarmFromDtu, BusEvent::Shutdown), ServiceAction::Ignore);
}

#[test]
fn foreign_events_are_ignored() {
    for inbox in ALL_INBOXES {
        assert_eq!(action_for(inbox, BusEvent::AlertGenerated), ServiceAction::Ignore);
    }
    assert_eq!(action_for(Inbox::DtuFromApi, BusEvent::CastingSimRequested), ServiceAction::Ignore);
    assert_eq!(action_for(Inbox::AlarmFromCasting, BusEvent::AcousticSimCompleted), ServiceAction::Ignore);
    assert_eq!(action_for(Inbox::CastingFromApi, BusEvent::SensorReadingReceived), ServiceAction::Ignore);
}
