//! Loading of the file that a location lies in.

use crate::app::App;
use crate::editor::{FileId, Mode};
use crate::effect::{Effect, Job as Background};
use crate::error::Error;
use crate::find::{first_where, lemma_is_first};
use crate::jumps::Jump;
use crate::message::Message;
use crate::picker::Destination;
use crate::selection::Revision;
use crate::windows::Screen;
use vstd::prelude::*;

verus! {

/// A location being loaded, with the place it was asked from.
#[derive(Debug)]
pub struct Pending {
    pub id: u64,
    pub origin: Jump,
    pub revision: Revision,
    pub window: u64,
    pub mode: Mode,
}

/// A location for a worker to load.
#[derive(Clone, Copy, Debug, PartialEq, Eq, Structural)]
pub struct Job {
    pub id: u64,
    pub destination: Destination,
}

#[derive(Debug)]
pub struct State {
    pub pending: Option<Pending>,
    pub job: Option<Job>,
    pub next: u64,
}

impl State {
    /// What giving up the location being loaded asks for.
    pub open spec fn cancel_effects(self) -> Seq<Effect> {
        match self.pending {
            Some(pending) => seq![Effect::Cancel(Background::Location(pending.id))],
            None => seq![],
        }
    }
}

/// Where the text of a location comes from.
#[derive(Clone, Copy, Debug, PartialEq, Eq, Structural)]
pub enum Found {
    /// An open document, by its place among them.
    Open(usize),
    /// The file, which is to be loaded.
    Load,
}

impl Job {
    /// Where the text of the location comes from. `file` is what its path
    /// resolves to, `open` are the files of the open documents, and `regular`
    /// says whether it is a regular file.
    pub fn run(
        &self,
        cancelled: bool,
        file: Result<FileId, Error>,
        open: &Vec<FileId>,
        regular: Result<bool, Error>,
    ) -> (found: Result<Found, Error>)
        ensures
            found == if cancelled {
                Err(Error::NavigationCancelled)
            } else {
                match file {
                    Err(error) => Err(error),
                    Ok(file) => {
                        let at = first_where(open@, is_file(file));
                        if at < open@.len() {
                            Ok(Found::Open(at as usize))
                        } else {
                            match regular {
                                Ok(true) => Ok(Found::Load),
                                Ok(false) => Err(Error::LocationNotAFile),
                                Err(error) => Err(error),
                            }
                        }
                    },
                }
            },
    {
        if cancelled {
            return Err(Error::NavigationCancelled);
        }
        let file = match file {
            Ok(file) => file,
            Err(error) => {
                return Err(error);
            },
        };
        let mut i: usize = 0;
        while i < open.len() && open[i] != file
            invariant
                i <= open.len(),
                forall|j: int| 0 <= j < i ==> !is_file(file)(#[trigger] open@[j]),
            decreases open.len() - i,
        {
            i += 1;
        }
        proof {
            lemma_is_first(open@, is_file(file), i as int);
        }
        if i < open.len() {
            return Ok(Found::Open(i));
        }
        match regular {
            Ok(true) => Ok(Found::Load),
            Ok(false) => Err(Error::LocationNotAFile),
            Err(error) => Err(error),
        }
    }
}

/// Whether a file is this one.
pub open spec fn is_file(file: FileId) -> spec_fn(FileId) -> bool {
    |other: FileId| other == file
}

impl App {
    /// The application without a location being loaded.
    pub open spec fn navigation_cancelled(self) -> App {
        App { navigation: State { pending: None, job: None, ..self.navigation }, ..self }
    }

    /// The application that loads a location.
    pub open spec fn navigation_begun(self, destination: Destination) -> App {
        let id = (self.navigation.next + 1) as u64;
        App {
            navigation: State {
                pending: Some(
                    Pending {
                        id,
                        origin: Jump {
                            document: self.editor.document,
                            selections: self.editor.selections,
                        },
                        revision: self.editor.revision,
                        window: self.window(),
                        mode: self.editor.mode,
                    },
                ),
                job: Some(Job { id, destination }),
                next: id,
            },
            ..self
        }.says(Message::OpeningLocation)
    }

    pub fn cancel_location_navigation(&mut self, out: &mut Vec<Effect>)
        ensures
            *final(self) == old(self).navigation_cancelled(),
            final(out)@ == old(out)@ + old(self).navigation.cancel_effects(),
    {
        match self.navigation.pending.take() {
            Some(pending) => {
                out.push(Effect::Cancel(Background::Location(pending.id)));
            },
            None => {},
        }
        self.navigation.job = None;
        assert(out@ =~= old(out)@ + old(self).navigation.cancel_effects());
    }

    /// Begins to load the file of a location, from the present place.
    pub fn begin_location_navigation(&mut self, destination: Destination, out: &mut Vec<Effect>)
        requires
            old(self).navigation.next < u64::MAX,
        ensures
            *final(self) == old(self).navigation_begun(destination),
            final(out)@ == old(out)@ + old(self).navigation.cancel_effects(),
    {
        self.cancel_location_navigation(out);
        let id = self.navigation.next + 1;
        let pending = Pending {
            id,
            origin: self.current_jump(),
            revision: self.editor.revision,
            window: self.focused_window_id(),
            mode: self.editor.mode,
        };
        self.navigation.next = id;
        self.navigation.pending = Some(pending);
        self.navigation.job = Some(Job { id, destination });
        self.message = Message::OpeningLocation;
    }

    /// Whether keys wait for a location.
    pub fn location_navigation_waiting(&self) -> (waiting: bool)
        ensures
            waiting == (self.navigation.pending is Some),
    {
        self.navigation.pending.is_some()
    }

    /// Hands out the location to load.
    pub fn take_location_navigation(&mut self) -> (job: Option<Job>)
        ensures
            job == old(self).navigation.job,
            *final(self) == (App {
                navigation: State { job: None, ..old(self).navigation },
                ..*old(self)
            }),
    {
        self.navigation.job.take()
    }

    /// Whether the editor is still where a location was asked from.
    pub open spec fn at_origin(self, pending: Pending) -> bool {
        &&& pending.window == self.window()
        &&& pending.origin.document == self.editor.document
        &&& pending.revision == self.editor.revision
        &&& pending.origin.selections@ == self.editor.selections@
        &&& pending.mode == self.editor.mode
    }

    /// What becomes of a loaded location: whether to redraw, and the checkpoint
    /// to record where it is to be shown. A location that is no longer awaited
    /// changes nothing; one asked for from a place that the editor has left is
    /// dropped.
    pub fn handle_location_navigation(&mut self, id: u64, cancelled: bool) -> (outcome: (
        bool,
        Option<Jump>,
    ))
        ensures
            location_loaded(*old(self), id, cancelled, *final(self), outcome),
    {
        let awaited = match &self.navigation.pending {
            Some(pending) => pending.id == id,
            None => false,
        };
        if !awaited {
            return (false, None);
        }
        match self.navigation.pending.take() {
            Some(pending) => {
                if cancelled || pending.window != self.focused_window_id()
                    || pending.origin.document != self.editor.document || pending.revision
                    != self.editor.revision || !pending.origin.selections.same(
                    &self.editor.selections,
                ) || pending.mode != self.editor.mode {
                    (true, None)
                } else {
                    (true, Some(pending.origin))
                }
            },
            None => (false, None),
        }
    }

    /// Ends the showing of a location: where it is shown, the place before is
    /// recorded.
    pub fn finish_location_navigation(
        &mut self,
        origin: Jump,
        outcome: Result<(), Error>,
        out: &mut Vec<Effect>,
    )
        requires
            old(self).screen().valid(),
        ensures
            location_shown(*old(self), origin, outcome, *final(self), old(out)@, final(out)@),
    {
        match outcome {
            Ok(()) => {
                self.push_jump(origin);
                out.push(Effect::CancelKeys);
                self.clear_message();
            },
            Err(error) => {
                self.fail(error);
            },
        }
    }
}

/// What became of a loaded location.
pub open spec fn location_loaded(
    before: App,
    id: u64,
    cancelled: bool,
    now: App,
    outcome: (bool, Option<Jump>),
) -> bool {
    match before.navigation.pending {
        Some(pending) => if pending.id == id {
            &&& now == (App {
                navigation: State { pending: None, ..before.navigation },
                ..before
            })
            &&& outcome.0
            &&& outcome.1 == if !cancelled && before.at_origin(pending) {
                Some(pending.origin)
            } else {
                None
            }
        } else {
            now == before && outcome == (false, None::<Jump>)
        },
        None => now == before && outcome == (false, None::<Jump>),
    }
}

/// Whether the showing of a location was ended as it should be.
pub open spec fn location_shown(
    before: App,
    origin: Jump,
    outcome: Result<(), Error>,
    now: App,
    asked: Seq<Effect>,
    asks: Seq<Effect>,
) -> bool {
    match outcome {
        Ok(()) => {
            let screen = before.screen().recorded(origin@);
            &&& now.is(Screen { app: screen.app.cleared(), ..screen })
            &&& asks == asked.push(Effect::CancelKeys)
        },
        Err(error) => {
            &&& now == before.failed(error)
            &&& asks == asked
        },
    }
}

} // verus!
