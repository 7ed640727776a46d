//! What a key press does to a running front end.

use crate::app::App;
use crate::dmi::DMIView;
use crate::key::{KeyCode, KeyEvent, CONTROL};
use vstd::prelude::*;

verus! {

/// Whether a key press asks the front end to stop: `q`, or `c` with the
/// control key and no other modifier.
pub open spec fn quits(key_event: KeyEvent) -> bool {
    key_event.code == KeyCode::Char('q') || ((key_event.code == KeyCode::Char('c')
        || key_event.code == KeyCode::Char('C')) && key_event.modifiers == CONTROL)
}

/// Acts on a key press: stops the front end where the key asks for it, and
/// moves the focus where the key is one that moves it.
pub fn handle_key_events(key_event: KeyEvent, app: &mut App)
    ensures
        final(app).running == (old(app).running && !quits(key_event)),
        final(app).dmi@ == (DMIView {
            focused_section: old(app).dmi@.focused_section.after(key_event.code),
            ..old(app).dmi@
        }),
{
    match key_event.code {
        KeyCode::Char('q') => {
            app.quit();
        },
        KeyCode::Char('c') | KeyCode::Char('C') => {
            if key_event.modifiers == CONTROL {
                app.quit();
            }
        },
        _ => {
            app.dmi.handle_key_events(key_event);
        },
    }
}

} // verus!
