//! Toast notifications: short messages that expire after a few seconds.

use vstd::prelude::*;
use std::time::Instant;
use crate::text::copy_str;

verus! {

#[verifier::external_type_specification]
#[verifier::external_body]
pub struct ExInstant(Instant);

/// How long a toast stays, in milliseconds.
pub const TOAST_DURATION_MS: u128 = 3000;

/// The kind of a toast, which decides its colour.
#[derive(Debug, Clone, Copy, PartialEq, Eq, Structural)]
pub enum ToastSeverity {
    Success,
    Error,
    Info,
}

/// The mark shown before a toast's message.
pub open spec fn severity_icon(s: ToastSeverity) -> Seq<char> {
    match s {
        ToastSeverity::Success => "✓"@,
        ToastSeverity::Error => "✕"@,
        ToastSeverity::Info => "ℹ"@,
    }
}

impl ToastSeverity {
    /// The mark shown before a toast's message.
    pub fn icon(&self) -> (res: &'static str)
        ensures
            res@ == severity_icon(*self),
    {
        match self {
            ToastSeverity::Success => "✓",
            ToastSeverity::Error => "✕",
            ToastSeverity::Info => "ℹ",
        }
    }
}

/// A notification and when it was raised.
#[derive(Debug)]
pub struct Toast {
    pub message: String,
    pub severity: ToastSeverity,
    pub created_at: Instant,
}

/// The current instant of the monotonic clock (`Instant::now`).
#[verifier::external_body]
pub(crate) fn now_instant() -> (t: Instant)
{
    Instant::now()
}

/// Milliseconds elapsed since `t` (`Instant::elapsed`, as whole milliseconds).
#[verifier::external_body]
pub(crate) fn elapsed_ms(t: &Instant) -> (ms: u128)
{
    t.elapsed().as_millis()
}

impl Toast {
    /// A toast raised now.
    pub fn new(message: &str, severity: ToastSeverity) -> (res: Self)
        ensures
            res.message@ == message@,
            res.severity == severity,
    {
        Toast { message: copy_str(message), severity, created_at: now_instant() }
    }
}

/// The toasts among `toasts` whose age (in `ages`, entry by entry) is under
/// the toast duration, in order.
pub open spec fn fresh_toasts(toasts: Seq<Toast>, ages: Seq<u128>) -> Seq<Toast>
    decreases toasts.len(),
{
    if toasts.len() == 0 {
        Seq::empty()
    } else {
        let rest = fresh_toasts(toasts.drop_last(), ages.take(toasts.len() - 1));
        if ages[toasts.len() - 1] < TOAST_DURATION_MS { rest.push(toasts.last()) } else { rest }
    }
}

/// The toasts on screen. Data only; the application draws them.
#[derive(Debug)]
pub struct ToastManager {
    pub toasts: Vec<Toast>,
}

impl ToastManager {
    /// No toasts.
    pub fn new() -> (res: Self)
        ensures
            res.toasts@.len() == 0,
    {
        ToastManager { toasts: Vec::new() }
    }

    /// Raises a toast.
    pub fn add(&mut self, message: &str, severity: ToastSeverity)
        ensures
            final(self).toasts@.len() == old(self).toasts@.len() + 1,
            final(self).toasts@.take(old(self).toasts@.len() as int) == old(self).toasts@,
            final(self).toasts@.last().message@ == message@,
            final(self).toasts@.last().severity == severity,
    {
        self.toasts.push(Toast::new(message, severity));
        assert(self.toasts@.take(old(self).toasts@.len() as int) =~= old(self).toasts@);
    }

    /// Keeps the toasts whose age in `ages` (one entry per toast, in order)
    /// is under the toast duration.
    pub fn retain_fresh(&mut self, ages: &Vec<u128>)
        requires
            ages@.len() == old(self).toasts@.len(),
        ensures
            final(self).toasts@ == fresh_toasts(old(self).toasts@, ages@),
    {
        let mut old_list: Vec<Toast> = Vec::new();
        std::mem::swap(&mut old_list, &mut self.toasts);
        let ghost all = old_list@;
        let mut i: usize = 0;
        assert(all.take(0) =~= Seq::<Toast>::empty());
        assert(all.skip(0) =~= all);
        while i < ages.len()
            invariant
                ages@.len() == all.len(),
                i <= all.len(),
                old_list@ == all.skip(i as int),
                self.toasts@ == fresh_toasts(all.take(i as int), ages@.take(i as int)),
            decreases all.len() - i,
        {
            let t = old_list.remove(0);
            proof {
                assert(all.take(i + 1).drop_last() =~= all.take(i as int));
                assert(ages@.take(i + 1).take(i as int) =~= ages@.take(i as int));
                assert(all.take(i + 1).last() == t);
                assert(old_list@ =~= all.skip(i + 1));
            }
            if ages[i] < TOAST_DURATION_MS {
                self.toasts.push(t);
            }
            i = i + 1;
        }
        assert(all.take(all.len() as int) =~= all);
        assert(ages@.take(all.len() as int) =~= ages@);
    }

    /// Removes the toasts that have been shown for the toast duration: what
    /// stays are the toasts, in order, whose age when looked at was under it.
    pub fn clean_expired(&mut self)
        ensures
            exists|ages: Seq<u128>| ages.len() == old(self).toasts@.len()
                && final(self).toasts@ == #[trigger] fresh_toasts(old(self).toasts@, ages),
    {
        let mut ages: Vec<u128> = Vec::new();
        let mut i: usize = 0;
        while i < self.toasts.len()
            invariant
                i <= self.toasts@.len(),
                ages@.len() == i,
            decreases self.toasts@.len() - i,
        {
            ages.push(elapsed_ms(&self.toasts[i].created_at));
            i = i + 1;
        }
        let ghost a = ages@;
        self.retain_fresh(&ages);
        assert(self.toasts@ == fresh_toasts(old(self).toasts@, a));
    }
}

} // verus!
