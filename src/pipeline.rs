use vstd::prelude::*;

use crate::image::RasterImage;
use crate::marker::{detect_marker, marker, strip_markers};
use crate::template::{bind, bind_template};
use crate::text::begins_with;

verus! {

/// Where the current run of the pipeline stands. Binding the payload into the template
/// happens within the step from `Detecting` to `Compiling`.
#[derive(Clone, Copy, Debug, PartialEq, Eq, Structural)]
pub enum Stage {
    Idle,
    Detecting,
    Compiling,
    Writing,
    Notifying,
}

/// A stage failure that ends the current run; it is reported, never retried.
#[derive(Clone, Copy, Debug, PartialEq, Eq, Structural)]
pub enum Failure {
    CompileFailure,
    RenderFailure,
    ClipboardFailure,
    NotifyFailure,
}

/// What happened outside since the last step.
pub enum Event {
    /// The trigger source fired.
    Fired,
    /// The clipboard text was read.
    TextRead(String),
    /// The clipboard held no text.
    ReadFailed,
    /// The compiler produced a bitmap.
    Compiled(RasterImage),
    /// The compiler rejected the document.
    CompileFailed,
    /// The compiled page could not be rasterized.
    RenderFailed,
    /// The image was written to the clipboard.
    Written,
    /// The clipboard refused the image.
    WriteFailed,
    /// The notification was shown.
    Notified,
    /// The notification could not be shown.
    NotifyFailed,
}

/// What the caller must do next.
pub enum Action {
    /// Nothing; wait for the next trigger.
    Nothing,
    /// Read the clipboard text.
    ReadClipboard,
    /// Compile this document source to a bitmap.
    Compile(String),
    /// Replace the clipboard content with this image.
    WriteImage(RasterImage),
    /// Show the success notification.
    Notify,
    /// Log this failure; the run is over.
    Report(Failure),
}

/// The stage that `ev` leads to from `stage`; events that do not belong to the stage
/// leave it where it is.
pub open spec fn advance(stage: Stage, ev: Event) -> Stage {
    match ev {
        Event::Fired => if stage == Stage::Idle { Stage::Detecting } else { stage },
        Event::TextRead(t) => if stage == Stage::Detecting {
            if begins_with(t@, marker()) { Stage::Compiling } else { Stage::Idle }
        } else {
            stage
        },
        Event::ReadFailed => if stage == Stage::Detecting { Stage::Idle } else { stage },
        Event::Compiled(img) => if stage == Stage::Compiling {
            if img.wf() { Stage::Writing } else { Stage::Idle }
        } else {
            stage
        },
        Event::CompileFailed | Event::RenderFailed => if stage == Stage::Compiling {
            Stage::Idle
        } else {
            stage
        },
        Event::Written => if stage == Stage::Writing { Stage::Notifying } else { stage },
        Event::WriteFailed => if stage == Stage::Writing { Stage::Idle } else { stage },
        Event::Notified | Event::NotifyFailed => if stage == Stage::Notifying {
            Stage::Idle
        } else {
            stage
        },
    }
}

/// The failure that `ev` reports in `stage`, if any.
pub open spec fn failure_of(stage: Stage, ev: Event) -> Option<Failure> {
    match ev {
        Event::Compiled(img) => if stage == Stage::Compiling && !img.wf() {
            Some(Failure::RenderFailure)
        } else {
            None
        },
        Event::CompileFailed => if stage == Stage::Compiling {
            Some(Failure::CompileFailure)
        } else {
            None
        },
        Event::RenderFailed => if stage == Stage::Compiling {
            Some(Failure::RenderFailure)
        } else {
            None
        },
        Event::WriteFailed => if stage == Stage::Writing {
            Some(Failure::ClipboardFailure)
        } else {
            None
        },
        Event::NotifyFailed => if stage == Stage::Notifying {
            Some(Failure::NotifyFailure)
        } else {
            None
        },
        _ => None,
    }
}

/// Clipboard text that starts with the marker.
pub open spec fn is_marked_text(ev: Event) -> bool {
    match ev {
        Event::TextRead(t) => begins_with(t@, marker()),
        _ => false,
    }
}

/// A compiled bitmap whose dimensions agree with its buffer.
pub open spec fn is_valid_image(ev: Event) -> bool {
    match ev {
        Event::Compiled(img) => img.wf(),
        _ => false,
    }
}

/// A trigger that arrives while a run is under way.
pub open spec fn fired_while_busy(stage: Stage, ev: Event) -> bool {
    stage != Stage::Idle && ev is Fired
}

/// A run reaches the clipboard write only from a compile that produced a well-formed
/// image: a compiler that always fails never gets the image writer called.
pub proof fn lemma_write_follows_compiled_image(stage: Stage, ev: Event)
    requires
        stage != Stage::Writing,
        advance(stage, ev) == Stage::Writing,
    ensures
        stage == Stage::Compiling,
        is_valid_image(ev),
{
}

/// A failed compile ends the run at `Idle` with a compile failure to report.
pub proof fn lemma_failed_compile_ends_run()
    ensures
        advance(Stage::Compiling, Event::CompileFailed) == Stage::Idle,
        failure_of(Stage::Compiling, Event::CompileFailed) == Some(Failure::CompileFailure),
{
}

/// Text without the marker ends the run at `Idle` with nothing to report.
pub proof fn lemma_unmarked_text_ends_run(ev: Event)
    requires
        ev is TextRead,
        !is_marked_text(ev),
    ensures
        advance(Stage::Detecting, ev) == Stage::Idle,
        failure_of(Stage::Detecting, ev) is None,
{
}

/// A run starts only from `Idle`, on a trigger: two runs never overlap.
pub proof fn lemma_runs_start_from_idle(stage: Stage, ev: Event)
    requires
        stage != Stage::Detecting,
        advance(stage, ev) == Stage::Detecting,
    ensures
        stage == Stage::Idle,
        ev is Fired,
{
}

/// The pipeline's decisions: one run at a time, from a trigger to the clipboard write
/// and the notification, back to `Idle` at the first failure.
pub struct Orchestrator {
    pub stage: Stage,
    /// A trigger arrived during the current run and waits for it to end.
    pub pending: bool,
    /// The document template the payload is bound into.
    pub template: String,
}

impl Orchestrator {
    /// An idle orchestrator over the given template.
    pub fn new(template: String) -> (r: Orchestrator)
        ensures
            r.stage == Stage::Idle,
            !r.pending,
            r.template@ == template@,
    {
        Orchestrator { stage: Stage::Idle, pending: false, template }
    }

    /// Whether no run is under way.
    pub fn is_idle(&self) -> (r: bool)
        ensures
            r == (self.stage == Stage::Idle),
    {
        self.stage == Stage::Idle
    }

    /// Takes one event and says what to do next.
    pub fn handle(&mut self, ev: Event) -> (r: Action)
        ensures
            final(self).template@ == old(self).template@,
            fired_while_busy(old(self).stage, ev) ==> final(self).stage == old(self).stage
                && final(self).pending && r is Nothing,
            !fired_while_busy(old(self).stage, ev) ==> final(self).stage == advance(
                old(self).stage,
                ev,
            ) && final(self).pending == old(self).pending,
            r is ReadClipboard <==> (old(self).stage == Stage::Idle && ev is Fired),
            r is Compile <==> (old(self).stage == Stage::Detecting && is_marked_text(ev)),
            r matches Action::Compile(src) ==> (ev matches Event::TextRead(t) && src@ == bind(
                old(self).template@,
                strip_markers(t@),
            )),
            r is WriteImage <==> (old(self).stage == Stage::Compiling && is_valid_image(ev)),
            r matches Action::WriteImage(w) ==> (ev matches Event::Compiled(img) && w.width
                == img.width && w.height == img.height && w.bytes@ == img.bytes@ && w.wf()),
            r is Notify <==> (old(self).stage == Stage::Writing && ev is Written),
            r is Report <==> failure_of(old(self).stage, ev) is Some,
            r matches Action::Report(f) ==> failure_of(old(self).stage, ev) == Some(f),
            old(self).stage == Stage::Detecting && ev is TextRead && !is_marked_text(ev)
                ==> final(self).stage == Stage::Idle && r is Nothing,
            old(self).stage == Stage::Compiling && ev is CompileFailed ==> final(self).stage
                == Stage::Idle && r matches Action::Report(Failure::CompileFailure),
            r matches Action::WriteImage(w) ==> w.width > 0 && w.height > 0,
    {
        let stage = self.stage;
        match ev {
            Event::Fired => {
                if stage == Stage::Idle {
                    self.stage = Stage::Detecting;
                    Action::ReadClipboard
                } else {
                    self.pending = true;
                    Action::Nothing
                }
            },
            Event::TextRead(t) => {
                if stage == Stage::Detecting {
                    match detect_marker(t.as_str()) {
                        Some(payload) => {
                            let src = bind_template(self.template.as_str(), payload.as_str());
                            self.stage = Stage::Compiling;
                            Action::Compile(src)
                        },
                        None => {
                            self.stage = Stage::Idle;
                            Action::Nothing
                        },
                    }
                } else {
                    Action::Nothing
                }
            },
            Event::ReadFailed => {
                if stage == Stage::Detecting {
                    self.stage = Stage::Idle;
                }
                Action::Nothing
            },
            Event::Compiled(img) => {
                if stage == Stage::Compiling {
                    if img.is_well_formed() {
                        self.stage = Stage::Writing;
                        Action::WriteImage(img)
                    } else {
                        self.stage = Stage::Idle;
                        Action::Report(Failure::RenderFailure)
                    }
                } else {
                    Action::Nothing
                }
            },
            Event::CompileFailed => {
                if stage == Stage::Compiling {
                    self.stage = Stage::Idle;
                    Action::Report(Failure::CompileFailure)
                } else {
                    Action::Nothing
                }
            },
            Event::RenderFailed => {
                if stage == Stage::Compiling {
                    self.stage = Stage::Idle;
                    Action::Report(Failure::RenderFailure)
                } else {
                    Action::Nothing
                }
            },
            Event::Written => {
                if stage == Stage::Writing {
                    self.stage = Stage::Notifying;
                    Action::Notify
                } else {
                    Action::Nothing
                }
            },
            Event::WriteFailed => {
                if stage == Stage::Writing {
                    self.stage = Stage::Idle;
                    Action::Report(Failure::ClipboardFailure)
                } else {
                    Action::Nothing
                }
            },
            Event::Notified => {
                if stage == Stage::Notifying {
                    self.stage = Stage::Idle;
                }
                Action::Nothing
            },
            Event::NotifyFailed => {
                if stage == Stage::Notifying {
                    self.stage = Stage::Idle;
                    Action::Report(Failure::NotifyFailure)
                } else {
                    Action::Nothing
                }
            },
        }
    }

    /// Starts the run of a trigger that waited for the previous run to end.
    pub fn resume(&mut self) -> (r: Action)
        ensures
            final(self).template@ == old(self).template@,
            old(self).stage == Stage::Idle && old(self).pending ==> final(self).stage
                == Stage::Detecting && !final(self).pending && r is ReadClipboard,
            !(old(self).stage == Stage::Idle && old(self).pending) ==> final(self).stage
                == old(self).stage && final(self).pending == old(self).pending && r is Nothing,
    {
        if self.stage == Stage::Idle && self.pending {
            self.stage = Stage::Detecting;
            self.pending = false;
            Action::ReadClipboard
        } else {
            Action::Nothing
        }
    }
}

} // verus!
