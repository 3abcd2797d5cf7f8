//! The state of one forward-model step.

use vstd::prelude::*;
use crate::events::ForwardModelStepEvent;
use crate::status::ForwardModelStepStatus;
use crate::table::Mergeable;
use crate::types::Timestamp;
use crate::utils::{copy_text, text_view};

verus! {

#[derive(Clone, Debug, PartialEq, Eq)]
pub struct FMStepSnapshot {
    pub status: Option<ForwardModelStepStatus>,
    pub start_time: Option<Timestamp>,
    pub end_time: Option<Timestamp>,
    pub index: Option<String>,
    pub current_memory_usage: Option<i64>,
    pub max_memory_usage: Option<i64>,
    /// CPU time, as the bit pattern of an IEEE-754 double.
    pub cpu_seconds: Option<u64>,
    pub name: Option<String>,
    pub error: Option<String>,
    pub stdout: Option<String>,
    pub stderr: Option<String>,
}

/// A step snapshot as a value, with text as character sequences.
pub struct FMStepView {
    pub status: Option<ForwardModelStepStatus>,
    pub start_time: Option<Timestamp>,
    pub end_time: Option<Timestamp>,
    pub index: Option<Seq<char>>,
    pub current_memory_usage: Option<i64>,
    pub max_memory_usage: Option<i64>,
    pub cpu_seconds: Option<u64>,
    pub name: Option<Seq<char>>,
    pub error: Option<Seq<char>>,
    pub stdout: Option<Seq<char>>,
    pub stderr: Option<Seq<char>>,
}

impl View for FMStepSnapshot {
    type V = FMStepView;

    open spec fn view(&self) -> FMStepView {
        FMStepView {
            status: self.status,
            start_time: self.start_time,
            end_time: self.end_time,
            index: text_view(self.index),
            current_memory_usage: self.current_memory_usage,
            max_memory_usage: self.max_memory_usage,
            cpu_seconds: self.cpu_seconds,
            name: text_view(self.name),
            error: text_view(self.error),
            stdout: text_view(self.stdout),
            stderr: text_view(self.stderr),
        }
    }
}

/// `b` when it is set, else `a`.
pub open spec fn overwrite_if_set<T>(a: Option<T>, b: Option<T>) -> Option<T> {
    if b is Some {
        b
    } else {
        a
    }
}

/// The snapshot with every field unset.
pub open spec fn blank_fm_step() -> FMStepView {
    FMStepView {
        status: None,
        start_time: None,
        end_time: None,
        index: None,
        current_memory_usage: None,
        max_memory_usage: None,
        cpu_seconds: None,
        name: None,
        error: None,
        stdout: None,
        stderr: None,
    }
}

/// Field-wise merge of `b` into `a`: the status always overwrites, every
/// other field overwrites only when `b` sets it.
pub open spec fn merge_fm_step(a: FMStepView, b: FMStepView) -> FMStepView {
    FMStepView {
        status: b.status,
        start_time: overwrite_if_set(a.start_time, b.start_time),
        end_time: overwrite_if_set(a.end_time, b.end_time),
        index: overwrite_if_set(a.index, b.index),
        current_memory_usage: overwrite_if_set(a.current_memory_usage, b.current_memory_usage),
        max_memory_usage: overwrite_if_set(a.max_memory_usage, b.max_memory_usage),
        cpu_seconds: overwrite_if_set(a.cpu_seconds, b.cpu_seconds),
        name: overwrite_if_set(a.name, b.name),
        error: overwrite_if_set(a.error, b.error),
        stdout: overwrite_if_set(a.stdout, b.stdout),
        stderr: overwrite_if_set(a.stderr, b.stderr),
    }
}

/// What an event writes into a step snapshot: its step id and status, then
/// the fields of its kind.
pub open spec fn apply_fm_event(s: FMStepView, e: ForwardModelStepEvent) -> FMStepView {
    let base = FMStepView { index: Some(e.step()@), status: Some(e.step_status()), ..s };
    match e {
        ForwardModelStepEvent::Start(x) => FMStepView {
            start_time: Some(x.time),
            stdout: text_view(x.stdout),
            stderr: text_view(x.stderr),
            ..base
        },
        ForwardModelStepEvent::Running(x) => FMStepView {
            current_memory_usage: x.current_memory_usage,
            max_memory_usage: x.max_memory_usage,
            cpu_seconds: x.cpu_seconds,
            ..base
        },
        ForwardModelStepEvent::Success(x) => FMStepView { end_time: Some(x.time), ..base },
        ForwardModelStepEvent::Failure(x) => FMStepView {
            end_time: Some(x.time),
            error: Some(x.error_msg@),
            ..base
        },
    }
}

/// The step snapshot that one event stands for.
pub open spec fn fm_step_of_event(e: ForwardModelStepEvent) -> FMStepView {
    apply_fm_event(blank_fm_step(), e)
}

impl FMStepSnapshot {
    pub fn new() -> (r: Self)
        ensures
            r@ == blank_fm_step(),
    {
        FMStepSnapshot {
            status: None,
            start_time: None,
            end_time: None,
            index: None,
            current_memory_usage: None,
            max_memory_usage: None,
            cpu_seconds: None,
            name: None,
            error: None,
            stdout: None,
            stderr: None,
        }
    }

    pub fn update_from(&mut self, other: &Self)
        ensures
            final(self)@ == merge_fm_step(old(self)@, other@),
    {
        self.status = other.status;
        if other.start_time.is_some() {
            self.start_time = other.start_time;
        }
        if other.end_time.is_some() {
            self.end_time = other.end_time;
        }
        if other.index.is_some() {
            self.index = copy_text(&other.index);
        }
        if other.current_memory_usage.is_some() {
            self.current_memory_usage = other.current_memory_usage;
        }
        if other.max_memory_usage.is_some() {
            self.max_memory_usage = other.max_memory_usage;
        }
        if other.cpu_seconds.is_some() {
            self.cpu_seconds = other.cpu_seconds;
        }
        if other.name.is_some() {
            self.name = copy_text(&other.name);
        }
        if other.error.is_some() {
            self.error = copy_text(&other.error);
        }
        if other.stdout.is_some() {
            self.stdout = copy_text(&other.stdout);
        }
        if other.stderr.is_some() {
            self.stderr = copy_text(&other.stderr);
        }
    }

    pub fn update_from_event(&mut self, event: &ForwardModelStepEvent)
        ensures
            final(self)@ == apply_fm_event(old(self)@, *event),
    {
        self.index = Some(event.get_fm_step_id());
        self.status = Some(event.get_status());
        match event {
            ForwardModelStepEvent::Start(e) => {
                self.start_time = Some(e.time);
                self.stdout = copy_text(&e.stdout);
                self.stderr = copy_text(&e.stderr);
            },
            ForwardModelStepEvent::Running(e) => {
                self.current_memory_usage = e.current_memory_usage;
                self.max_memory_usage = e.max_memory_usage;
                self.cpu_seconds = e.cpu_seconds;
            },
            ForwardModelStepEvent::Success(e) => {
                self.end_time = Some(e.time);
            },
            ForwardModelStepEvent::Failure(e) => {
                self.end_time = Some(e.time);
                self.error = Some(e.error_msg.clone());
            },
        }
    }

    /// A copy of this snapshot.
    pub fn duplicate(&self) -> (r: Self)
        ensures
            r@ == self@,
    {
        FMStepSnapshot {
            status: self.status,
            start_time: self.start_time,
            end_time: self.end_time,
            index: copy_text(&self.index),
            current_memory_usage: self.current_memory_usage,
            max_memory_usage: self.max_memory_usage,
            cpu_seconds: self.cpu_seconds,
            name: copy_text(&self.name),
            error: copy_text(&self.error),
            stdout: copy_text(&self.stdout),
            stderr: copy_text(&self.stderr),
        }
    }
}

impl Mergeable for FMStepSnapshot {
    open spec fn merged(a: FMStepView, b: FMStepView) -> FMStepView {
        merge_fm_step(a, b)
    }

    open spec fn blank() -> FMStepView {
        blank_fm_step()
    }

    fn empty() -> (r: Self) {
        FMStepSnapshot::new()
    }

    fn merge_from(&mut self, other: &Self) {
        self.update_from(other);
    }

    fn duplicate(&self) -> (r: Self) {
        FMStepSnapshot::duplicate(self)
    }
}

} // verus!
