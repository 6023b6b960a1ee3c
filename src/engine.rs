//! The engine: configured in a fixed order (one input source, then at most
//! one watcher), then run one tick at a time.

use vstd::prelude::*;

use crate::input::Stream;

verus! {

/// A configuration step taken out of order.
#[derive(Clone, Copy, Debug, PartialEq, Eq, Structural)]
pub enum EngineError {
    /// The engine has no input source yet.
    MissingInput,
    /// An input source is already attached.
    InputAlreadySet,
    /// A watcher is already attached.
    WatcherAlreadySet,
}

/// An engine being configured.
pub struct Engine<I, W> {
    input: Option<I>,
    watcher: Option<W>,
}

/// A configured engine: it holds an input source and perhaps a watcher.
pub struct Running<I, W> {
    input: I,
    watcher: Option<W>,
}

impl<I, W> Engine<I, W> {
    pub closed spec fn source(&self) -> Option<I> {
        self.input
    }

    pub closed spec fn observer(&self) -> Option<W> {
        self.watcher
    }

    /// An engine with no input source and no watcher.
    pub fn new() -> (r: Engine<I, W>)
        ensures
            r.source() is None,
            r.observer() is None,
    {
        Engine { input: None, watcher: None }
    }

    /// Attaches the input source; a second one is refused.
    pub fn with_input(self, input: I) -> (r: Result<Engine<I, W>, EngineError>)
        ensures
            self.source() is None <==> r is Ok,
            r matches Ok(e) ==> e.source() == Some(input) && e.observer() == self.observer(),
            r matches Err(err) ==> err == EngineError::InputAlreadySet,
    {
        match self.input {
            Some(_) => Err(EngineError::InputAlreadySet),
            None => Ok(Engine { input: Some(input), watcher: self.watcher }),
        }
    }

    /// Attaches the watcher; refused before an input source, and a second
    /// watcher is refused.
    pub fn with_watcher(self, watcher: W) -> (r: Result<Engine<I, W>, EngineError>)
        ensures
            (self.source() is Some && self.observer() is None) <==> r is Ok,
            r matches Ok(e) ==> e.source() == self.source() && e.observer() == Some(watcher),
            self.source() is None ==> r == Err::<Engine<I, W>, EngineError>(
                EngineError::MissingInput,
            ),
            (self.source() is Some && self.observer() is Some) ==> r == Err::<
                Engine<I, W>,
                EngineError,
            >(EngineError::WatcherAlreadySet),
    {
        match (self.input, self.watcher) {
            (None, _) => Err(EngineError::MissingInput),
            (Some(_), Some(_)) => Err(EngineError::WatcherAlreadySet),
            (Some(input), None) => Ok(Engine { input: Some(input), watcher: Some(watcher) }),
        }
    }

    /// Ends configuration; refused while no input source is attached.
    pub fn start(self) -> (r: Result<Running<I, W>, EngineError>)
        ensures
            self.source() is Some <==> r is Ok,
            r matches Ok(run) ==> Some(run.source()) == self.source() && run.observer()
                == self.observer(),
            r matches Err(err) ==> err == EngineError::MissingInput,
    {
        match self.input {
            None => Err(EngineError::MissingInput),
            Some(input) => Ok(Running { input, watcher: self.watcher }),
        }
    }
}

impl<I, W> Running<I, W> {
    pub closed spec fn source(&self) -> I {
        self.input
    }

    pub closed spec fn observer(&self) -> Option<W> {
        self.watcher
    }
}

impl<I: Stream, W: Fn()> Running<I, W> {
    /// One tick: pulls one value from the input source and, when a value came
    /// and a watcher is attached, calls the watcher once. Returns the value
    /// and whether the watcher was called.
    pub fn tick(&mut self) -> (r: (Option<I::Item>, bool))
        requires
            old(self).observer() matches Some(w) ==> w.requires(()),
        ensures
            final(self).observer() == old(self).observer(),
            old(self).source().rest().len() == 0 ==> r.0 is None && final(self).source().rest()
                == old(self).source().rest(),
            old(self).source().rest().len() > 0 ==> r.0 == Some(old(self).source().rest()[0])
                && final(self).source().rest() == old(self).source().rest().drop_first(),
            r.1 <==> (r.0 is Some && old(self).observer() is Some),
    {
        let value = self.input.next();
        let dispatched = match (&value, &self.watcher) {
            (Some(_), Some(w)) => {
                w();
                true
            },
            _ => false,
        };
        (value, dispatched)
    }
}

} // verus!
