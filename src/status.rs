use vstd::prelude::*;

verus! {

/// A presence status as the chat platform reports it.
#[derive(Clone, Copy, Debug, PartialEq, Eq, Structural)]
pub enum PresenceStatus {
    Online,
    Idle,
    DoNotDisturb,
    Invisible,
    Offline,
    /// Any status the platform may add later.
    Other,
}

/// What a presence change means for monitoring.
#[derive(Clone, Copy, Debug, PartialEq, Eq, Structural)]
pub enum EventStatus {
    /// The watched bot became unreachable.
    Offline,
    /// The watched bot became reachable again.
    Online,
    /// Nothing a watcher needs to hear about.
    NA,
}

/// Offline and invisible both read as unreachable.
pub open spec fn spec_is_unreachable(status: PresenceStatus) -> bool {
    status == PresenceStatus::Offline || status == PresenceStatus::Invisible
}

/// The class of a presence change: only automated accounts are ever monitored.
pub open spec fn spec_classify(status: PresenceStatus, is_bot: bool) -> EventStatus {
    if !is_bot {
        EventStatus::NA
    } else if spec_is_unreachable(status) {
        EventStatus::Offline
    } else if status == PresenceStatus::Online {
        EventStatus::Online
    } else {
        EventStatus::NA
    }
}

/// Classifies a presence change of an account.
pub fn classify(status: PresenceStatus, is_bot: bool) -> (r: EventStatus)
    ensures
        r == spec_classify(status, is_bot),
{
    if !is_bot {
        return EventStatus::NA;
    }
    match status {
        PresenceStatus::Offline | PresenceStatus::Invisible => EventStatus::Offline,
        PresenceStatus::Online => EventStatus::Online,
        _ => EventStatus::NA,
    }
}

/// A human account is never classified as a transition, whatever its status,
/// and an automated one is classified as going offline exactly when it is
/// offline or invisible, as coming online exactly when it is online.
pub proof fn lemma_classify_total(status: PresenceStatus, is_bot: bool)
    ensures
        !is_bot ==> spec_classify(status, is_bot) == EventStatus::NA,
        is_bot ==> (spec_classify(status, is_bot) == EventStatus::Offline <==> (status
            == PresenceStatus::Offline || status == PresenceStatus::Invisible)),
        is_bot ==> (spec_classify(status, is_bot) == EventStatus::Online <==> status
            == PresenceStatus::Online),
        is_bot ==> (spec_classify(status, is_bot) == EventStatus::NA <==> (status
            != PresenceStatus::Offline && status != PresenceStatus::Invisible && status
            != PresenceStatus::Online)),
{
}

} // verus!
