use vstd::prelude::*;

verus! {

/// Keeps the robot locked for a while after a command ends.
#[derive(Debug, Clone, Copy, PartialEq, Eq, Structural)]
pub struct LockOnEnd {
    pub duration_millis: u64,
}

/// How a command is started: its title, what to say when it succeeds,
/// whether it cancels queued commands, whether it may be deferred, and
/// whether the robot locks once it ends.
#[derive(Debug)]
pub struct StartCommandOptions {
    pub title: String,
    pub tts_on_success: String,
    pub cancel_all: bool,
    pub deferrable: bool,
    pub lock_on_end: Option<LockOnEnd>,
}

impl StartCommandOptions {
    /// Whether these are the options that `new` gives.
    pub open spec fn is_default(&self) -> bool {
        &&& self.title@ == Seq::<char>::empty()
        &&& self.tts_on_success@ == Seq::<char>::empty()
        &&& !self.cancel_all
        &&& !self.deferrable
        &&& self.lock_on_end is None
    }

    /// Options with empty texts, no flag set and no lock.
    pub fn new() -> (r: Self)
        ensures
            r.is_default(),
    {
        Self::default()
    }

    /// Sets the title.
    pub fn title(self, title: &str) -> (r: Self)
        ensures
            r.title@ == title@,
            r.tts_on_success == self.tts_on_success,
            r.cancel_all == self.cancel_all,
            r.deferrable == self.deferrable,
            r.lock_on_end == self.lock_on_end,
    {
        let mut options = self;
        options.title = title.to_string();
        options
    }

    /// Sets what the robot says when the command succeeds.
    pub fn tts_on_success(self, tts_on_success: &str) -> (r: Self)
        ensures
            r.tts_on_success@ == tts_on_success@,
            r.title == self.title,
            r.cancel_all == self.cancel_all,
            r.deferrable == self.deferrable,
            r.lock_on_end == self.lock_on_end,
    {
        let mut options = self;
        options.tts_on_success = tts_on_success.to_string();
        options
    }

    /// Sets whether the command cancels the commands queued before it.
    pub fn cancel_all(self, cancel_all: bool) -> (r: Self)
        ensures
            r.cancel_all == cancel_all,
            r.title == self.title,
            r.tts_on_success == self.tts_on_success,
            r.deferrable == self.deferrable,
            r.lock_on_end == self.lock_on_end,
    {
        let mut options = self;
        options.cancel_all = cancel_all;
        options
    }

    /// Sets whether the command may be deferred.
    pub fn deferrable(self, deferrable: bool) -> (r: Self)
        ensures
            r.deferrable == deferrable,
            r.title == self.title,
            r.tts_on_success == self.tts_on_success,
            r.cancel_all == self.cancel_all,
            r.lock_on_end == self.lock_on_end,
    {
        let mut options = self;
        options.deferrable = deferrable;
        options
    }

    /// Sets whether, and for how long, the robot locks once the command ends.
    pub fn lock_on_end(self, lock_on_end: Option<LockOnEnd>) -> (r: Self)
        ensures
            r.lock_on_end == lock_on_end,
            r.title == self.title,
            r.tts_on_success == self.tts_on_success,
            r.cancel_all == self.cancel_all,
            r.deferrable == self.deferrable,
    {
        let mut options = self;
        options.lock_on_end = lock_on_end;
        options
    }
}

impl Default for StartCommandOptions {
    fn default() -> (r: Self)
        ensures
            r.is_default(),
    {
        StartCommandOptions {
            title: String::new(),
            tts_on_success: String::new(),
            cancel_all: false,
            deferrable: false,
            lock_on_end: None,
        }
    }
}

} // verus!
