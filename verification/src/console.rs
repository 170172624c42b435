//! The console sink's pure half: the line it prints for each event that
//! reaches it. The loop that receives events and writes the lines runs
//! outside the library.

use vstd::prelude::*;

use crate::event::{render_event, spec_event_text, Event};

verus! {

/// The sink that prints each event as one line.
pub struct ConsoleOutput {}

impl ConsoleOutput {
    /// The exact line printed for an event.
    pub fn render(event: &Event) -> (r: String)
        ensures
            r@ == spec_event_text(event.fields@),
    {
        render_event(event)
    }
}

} // verus!
