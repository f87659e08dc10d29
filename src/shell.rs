use vstd::prelude::*;
use crate::command::{Command, KeyPress, decode, decode_spec};
use crate::editor::Editor;

verus! {

/// The editor application: the buffer, and whether the run loop goes on.
pub struct App {
    pub running: bool,
    pub editor: Editor,
}

impl Default for App {
    fn default() -> (r: App)
        ensures
            !r.running,
            r.editor@ == crate::editor::Model::empty(),
    {
        App::new()
    }
}

impl App {
    pub open spec fn wf(&self) -> bool {
        self.editor.wf()
    }

    /// A stopped application over an empty buffer.
    pub fn new() -> (r: App)
        ensures
            r.wf(),
            !r.running,
            r.editor@ == crate::editor::Model::empty(),
    {
        App { running: false, editor: Editor::new() }
    }

    /// Marks the application as running.
    pub fn start(&mut self)
        ensures
            final(self).running,
            final(self).editor == old(self).editor,
    {
        self.running = true;
    }

    /// Handles one key press: a quit key stops the application and leaves
    /// the buffer alone; any other key is applied to the buffer.
    pub fn on_key_event(&mut self, press: KeyPress)
        requires
            old(self).wf(),
        ensures
            final(self).wf(),
            decode_spec(press) == Command::Quit ==> {
                &&& !final(self).running
                &&& final(self).editor@ == old(self).editor@
            },
            decode_spec(press) != Command::Quit ==> {
                &&& final(self).running == old(self).running
                &&& final(self).editor@ == old(self).editor@.apply(decode_spec(press))
            },
    {
        let cmd = decode(press);
        match cmd {
            Command::Quit => {
                self.running = false;
            },
            _ => {
                self.editor.apply(cmd);
            },
        }
    }
}

} // verus!
