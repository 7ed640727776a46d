//! The state of a front end: the decoded table, and whether to go on.

use crate::dmi::{DecodeError, DMIView, DMI};
use vstd::prelude::*;

verus! {

/// What can lie over the sections.
#[non_exhaustive]
#[derive(Clone, Copy, Debug, PartialEq, Eq, Structural)]
pub enum ActivePopup {
    Help,
}

/// A running front end.
#[derive(Debug)]
pub struct App {
    pub running: bool,
    pub dmi: DMI,
}

impl App {
    /// Decodes the table and starts on it, or fails as decoding does.
    pub fn new(source: &[u8]) -> (r: Result<App, DecodeError>)
        ensures
            match r {
                Ok(app) => app.running && DMI::decoded(source@) == Ok::<DMIView, DecodeError>(
                    app.dmi@,
                ),
                Err(e) => DMI::decoded(source@) == Err::<DMIView, DecodeError>(e),
            },
    {
        match DMI::new(source) {
            Ok(dmi) => Ok(App { running: true, dmi }),
            Err(e) => Err(e),
        }
    }

    /// Asks the front end to stop. The table stays as it is.
    pub fn quit(&mut self)
        ensures
            !final(self).running,
            final(self).dmi == old(self).dmi,
    {
        self.running = false;
    }
}

} // verus!
