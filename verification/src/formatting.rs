//! Captured origin and buffer settings for asynchronous formatting.

use crate::app::App;
use crate::editor::{Context, Scope};
use crate::effect::Effect;
use crate::error::Error;
use crate::language::RequestKind;
use crate::message::Message;
use vstd::prelude::*;

verus! {

#[derive(Clone, Copy, Debug, PartialEq, Eq, Structural)]
pub struct State {
    pub context: Option<Context>,
}

impl State {
    pub fn clear(&mut self)
        ensures
            *final(self) == (State { context: None }),
    {
        self.context = None;
    }
}

impl App {
    /// The application that asks for formatting at its place.
    pub open spec fn formatting_prepared(self) -> App {
        App {
            formatting: State {
                context: Some(
                    Context { scope: Scope::Document, stamp: self.editor.document_stamp },
                ),
            },
            ..self.picker_closed()
        }
    }

    /// Begins a request to format the document or its primary selection.
    pub fn prepare_formatting_request(
        &mut self,
        whole_document: bool,
        out: &mut Vec<Effect>,
    ) -> (request: RequestKind)
        requires
            old(self).editor.valid(),
        ensures
            *final(self) == old(self).formatting_prepared(),
            request == (RequestKind::Format {
                range: if whole_document { None } else { Some(old(self).editor.spec_primary()) },
            }),
            final(out)@ == old(out)@ + old(self).close_effects(),
    {
        self.close_picker(out);
        self.formatting.context = Some(self.editor.document_context());
        RequestKind::Format {
            range: if whole_document { None } else { Some(self.editor.primary()) },
        }
    }

    /// The place to apply formatting at, unless it was given up, the place has
    /// changed, or there is nothing to apply, as `unchanged` says.
    pub fn receive_formatting(&mut self, unchanged: bool) -> (context: Option<Context>)
        ensures
            formatting_received(*old(self), unchanged, *final(self), context),
    {
        let context = match self.formatting.context.take() {
            Some(context) => context,
            None => {
                return None;
            },
        };
        if !context.current(&self.editor) {
            self.fail(Error::FormattingOriginChanged);
            return None;
        }
        if unchanged {
            self.message = Message::NoFormatting;
            return None;
        }
        Some(context)
    }
}

/// Whether formatting was received as it should be.
pub open spec fn formatting_received(
    before: App,
    unchanged: bool,
    now: App,
    context: Option<Context>,
) -> bool {
    let app = App { formatting: State { context: None }, ..before };
    match before.formatting.context {
        None => context is None && now == before,
        Some(place) => if !place.holds(before.editor) {
            &&& context is None
            &&& now == app.failed(Error::FormattingOriginChanged)
        } else if unchanged {
            &&& context is None
            &&& now == app.says(Message::NoFormatting)
        } else {
            &&& context == Some(place)
            &&& now == app
        },
    }
}

} // verus!
