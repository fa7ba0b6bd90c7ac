//! Keeps track of how much of a quota is used, and warns when it runs out.

use vstd::prelude::*;

verus! {

/// Whoever is to be told about the quota.
pub trait Messenger {
    fn send(&self, msg: &str);
}

/// How close to the quota a value is.
#[derive(Clone, Copy, Debug, PartialEq, Eq, Structural)]
pub enum Alert {
    /// At least three quarters of the quota are used.
    Warning,
    /// At least nine tenths of the quota are used.
    Urgent,
    /// The quota is used up.
    OverQuota,
}

/// The alert that `value` calls for under a quota of `max`, if any.
///
/// The fractions are exact: nine tenths of the quota are used when
/// `10 * value >= 9 * max`. A quota of zero is used up by any value but zero.
pub open spec fn alert_for(value: nat, max: nat) -> Option<Alert> {
    if max == 0 {
        if value > 0 {
            Some(Alert::OverQuota)
        } else {
            None
        }
    } else if value >= max {
        Some(Alert::OverQuota)
    } else if 10 * value >= 9 * max {
        Some(Alert::Urgent)
    } else if 4 * value >= 3 * max {
        Some(Alert::Warning)
    } else {
        None
    }
}

impl Alert {
    /// The message that goes with the alert.
    pub open spec fn text(self) -> Seq<char> {
        match self {
            Alert::OverQuota => "Error: You are over your quota!"@,
            Alert::Urgent => "Urgent warning: You've used up over 90% of your quota!"@,
            Alert::Warning => "Warning: You've used up over 75% of your quota!"@,
        }
    }

    pub fn message(&self) -> (msg: &'static str)
        ensures
            msg@ == self.text(),
    {
        match self {
            Alert::OverQuota => "Error: You are over your quota!",
            Alert::Urgent => "Urgent warning: You've used up over 90% of your quota!",
            Alert::Warning => "Warning: You've used up over 75% of your quota!",
        }
    }
}

/// Decides which alert, if any, `value` calls for under a quota of `max`.
pub fn check_quota(value: usize, max: usize) -> (alert: Option<Alert>)
    ensures
        alert == alert_for(value as nat, max as nat),
{
    let used: u128 = value as u128;
    let quota: u128 = max as u128;
    if quota == 0 {
        if used > 0 {
            Some(Alert::OverQuota)
        } else {
            None
        }
    } else if used >= quota {
        Some(Alert::OverQuota)
    } else if 10 * used >= 9 * quota {
        Some(Alert::Urgent)
    } else if 4 * used >= 3 * quota {
        Some(Alert::Warning)
    } else {
        None
    }
}

pub struct LimitTracker<'a, T: Messenger> {
    messenger: &'a T,
    value: usize,
    max: usize,
}

impl<'a, T: Messenger> LimitTracker<'a, T> {
    pub closed spec fn spec_value(&self) -> usize {
        self.value
    }

    pub closed spec fn spec_max(&self) -> usize {
        self.max
    }

    /// A tracker for a quota of `max`, with nothing used yet.
    pub fn new(messenger: &'a T, max: usize) -> (tracker: LimitTracker<'a, T>)
        ensures
            tracker.value() == 0,
            tracker.max() == max,
    {
        LimitTracker { messenger, value: 0, max }
    }

    #[verifier::when_used_as_spec(spec_value)]
    pub fn value(&self) -> (value: usize)
        ensures
            value == self.spec_value(),
    {
        self.value
    }

    #[verifier::when_used_as_spec(spec_max)]
    pub fn max(&self) -> (max: usize)
        ensures
            max == self.spec_max(),
    {
        self.max
    }

    /// Records the value now in use. Where [`check_quota`] finds that it
    /// calls for an alert, the alert's message is sent to the messenger, once.
    pub fn set_value(&mut self, value: usize)
        ensures
            final(self).value() == value,
            final(self).max() == old(self).max(),
    {
        self.value = value;
        match check_quota(self.value, self.max) {
            Some(alert) => {
                self.messenger.send(alert.message());
            },
            None => {},
        }
    }
}

} // verus!
