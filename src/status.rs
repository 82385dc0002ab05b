use vstd::prelude::*;

verus! {

/// The status of a watch.
///
/// `Waiting` is the initial status; `PartialPayment` means that some value
/// arrived but not yet enough; `Success` and `Expired` are terminal.
#[derive(Debug, Clone, Copy, PartialEq, Eq, Structural, PartialOrd, Ord)]
pub enum Status {
    Success,
    PartialPayment,
    Expired,
    Waiting,
}

/// Whether a status ends the watch.
pub open spec fn is_terminal(s: Status) -> bool {
    s == Status::Success || s == Status::Expired
}

/// How far along its lifecycle a status is: `Waiting`, then
/// `PartialPayment`, then one of the two terminal statuses.
pub open spec fn progress(s: Status) -> nat {
    match s {
        Status::Waiting => 0,
        Status::PartialPayment => 1,
        Status::Success => 2,
        Status::Expired => 2,
    }
}

/// The status that a text names; any other text reads as `Waiting`.
pub open spec fn status_of_text(t: Seq<char>) -> Status {
    if t == "Success"@ {
        Status::Success
    } else if t == "Expired"@ {
        Status::Expired
    } else if t == "PartialPayment"@ {
        Status::PartialPayment
    } else {
        Status::Waiting
    }
}

/// The text of a status, as it is written in a notification.
pub open spec fn text_of_status(s: Status) -> Seq<char> {
    match s {
        Status::Success => "Success"@,
        Status::PartialPayment => "PartialPayment"@,
        Status::Expired => "Expired"@,
        Status::Waiting => "Waiting"@,
    }
}

impl Status {
    /// Whether this status ends the watch.
    pub fn is_terminal(&self) -> (r: bool)
        ensures
            r == is_terminal(*self),
    {
        match self {
            Status::Success | Status::Expired => true,
            _ => false,
        }
    }

    /// The text of this status.
    pub fn name(&self) -> (r: String)
        ensures
            r@ == text_of_status(*self),
    {
        match self {
            Status::Success => String::from_str("Success"),
            Status::PartialPayment => String::from_str("PartialPayment"),
            Status::Expired => String::from_str("Expired"),
            Status::Waiting => String::from_str("Waiting"),
        }
    }

    /// Reads a status from its text; any other text reads as `Waiting`.
    pub fn from_text(value: &String) -> (r: Status)
        ensures
            r == status_of_text(value@),
    {
        if *value == String::from_str("Success") {
            Status::Success
        } else if *value == String::from_str("Expired") {
            Status::Expired
        } else if *value == String::from_str("PartialPayment") {
            Status::PartialPayment
        } else {
            Status::Waiting
        }
    }
}

impl From<String> for Status {
    fn from(value: String) -> (r: Status) {
        Status::from_text(&value)
    }
}

impl vstd::std_specs::convert::FromSpecImpl<String> for Status {
    open spec fn obeys_from_spec() -> bool {
        true
    }

    open spec fn from_spec(v: String) -> Status {
        status_of_text(v@)
    }
}

} // verus!
