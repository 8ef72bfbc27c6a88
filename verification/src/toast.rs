//! The short-lived message at the bottom of the screen. Times are milliseconds
//! of a clock that never goes back.
use vstd::prelude::*;
use vstd::string::*;

verus! {

pub struct Toast {
    pub message: Option<String>,
    pub expiry: Option<u64>,
}

/// What a toast shows at a time: its message until it expires.
pub open spec fn shown(t: Toast, now: u64) -> Option<Seq<char>> {
    match (t.expiry, t.message) {
        (Some(e), Some(m)) => if now < e {
            Some(m@)
        } else {
            None
        },
        _ => None,
    }
}

impl Toast {
    pub fn new() -> (t: Toast)
        ensures
            t.message is None,
            t.expiry is None,
    {
        Toast { message: None, expiry: None }
    }

    /// Shows a text from `now` on for the given time.
    pub fn show(&mut self, text: &str, duration_ms: u64, now: u64)
        requires
            now + duration_ms <= u64::MAX,
        ensures
            final(self).message matches Some(m) && m@ == text@,
            final(self).expiry == Some((now + duration_ms) as u64),
    {
        self.message = Some(text.to_owned());
        self.expiry = Some(now + duration_ms);
    }

    /// The text shown now; an expired one is dropped.
    pub fn current(&mut self, now: u64) -> (r: Option<String>)
        ensures
            match r {
                Some(m) => shown(*old(self), now) == Some(m@),
                None => shown(*old(self), now) is None,
            },
            if old(self).expiry matches Some(e) && now < e {
                *final(self) == *old(self)
            } else {
                final(self).message is None && final(self).expiry is None
            },
    {
        if let Some(e) = self.expiry {
            if now < e {
                return self.message.clone();
            }
        }
        self.message = None;
        self.expiry = None;
        None
    }

    /// The text shown now, without dropping an expired one.
    pub fn peek(&self, now: u64) -> (r: Option<&str>)
        ensures
            match r {
                Some(m) => shown(*self, now) == Some(m@),
                None => shown(*self, now) is None,
            },
    {
        match (self.expiry, &self.message) {
            (Some(e), Some(m)) => if now < e {
                Some(m.as_str())
            } else {
                None
            },
            _ => None,
        }
    }
}

/// A toast that is gone stays gone.
pub proof fn expired_toast_stays_gone(t: Toast, now: u64, later: u64)
    requires
        shown(t, now) is None,
        now <= later,
    ensures
        shown(t, later) is None,
{
}

} // verus!
