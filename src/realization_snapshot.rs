//! The state of one realization, with the steps it owns.

use vstd::prelude::*;
use crate::events::RealizationEvent;
use crate::fm_step_snapshot::{overwrite_if_set, FMStepSnapshot, FMStepView};
use crate::status::RealizationState;
use crate::table::{merge_maps, Mergeable, Table};
use crate::types::Timestamp;
use crate::utils::{copy_text, text_view};

verus! {

#[derive(Debug)]
pub struct RealizationSnapshot {
    pub status: Option<RealizationState>,
    pub active: Option<bool>,
    pub start_time: Option<Timestamp>,
    pub end_time: Option<Timestamp>,
    pub exec_hosts: Option<String>,
    pub message: Option<String>,
    pub fm_steps: Table<String, FMStepSnapshot>,
}

/// A realization as a value: its fields, and its steps keyed by step id.
pub struct RealizationView {
    pub status: Option<RealizationState>,
    pub active: Option<bool>,
    pub start_time: Option<Timestamp>,
    pub end_time: Option<Timestamp>,
    pub exec_hosts: Option<Seq<char>>,
    pub message: Option<Seq<char>>,
    pub fm_steps: Map<Seq<char>, FMStepView>,
}

impl View for RealizationSnapshot {
    type V = RealizationView;

    open spec fn view(&self) -> RealizationView {
        RealizationView {
            status: self.status,
            active: self.active,
            start_time: self.start_time,
            end_time: self.end_time,
            exec_hosts: text_view(self.exec_hosts),
            message: text_view(self.message),
            fm_steps: self.fm_steps@,
        }
    }
}

pub open spec fn blank_realization() -> RealizationView {
    RealizationView {
        status: None,
        active: None,
        start_time: None,
        end_time: None,
        exec_hosts: None,
        message: None,
        fm_steps: Map::empty(),
    }
}

/// Field-wise merge of `b` into `a`: each field overwrites when `b` sets it,
/// the steps are merged key by key.
pub open spec fn merge_realization(a: RealizationView, b: RealizationView) -> RealizationView {
    RealizationView {
        status: overwrite_if_set(a.status, b.status),
        active: overwrite_if_set(a.active, b.active),
        start_time: overwrite_if_set(a.start_time, b.start_time),
        end_time: overwrite_if_set(a.end_time, b.end_time),
        exec_hosts: overwrite_if_set(a.exec_hosts, b.exec_hosts),
        message: overwrite_if_set(a.message, b.message),
        fm_steps: merge_maps::<Seq<char>, FMStepSnapshot>(a.fm_steps, b.fm_steps),
    }
}

/// What an event writes into a realization: its status and hosts, a start
/// time when it runs, an end time when it ends, a message when it fails.
pub open spec fn apply_realization_event(s: RealizationView, e: RealizationEvent) -> RealizationView {
    let base = RealizationView { status: Some(e.status), exec_hosts: text_view(e.exec_hosts), ..s };
    match e.status {
        RealizationState::Running => RealizationView { start_time: Some(e.time), ..base },
        RealizationState::Failed => RealizationView {
            end_time: Some(e.time),
            message: text_view(e.message),
            ..base
        },
        RealizationState::Finished => RealizationView { end_time: Some(e.time), ..base },
        RealizationState::Timeout => RealizationView { end_time: Some(e.time), ..base },
        _ => base,
    }
}

/// The realization snapshot that one event stands for.
pub open spec fn realization_of_event(e: RealizationEvent) -> RealizationView {
    apply_realization_event(blank_realization(), e)
}

impl RealizationSnapshot {
    pub fn new() -> (r: Self)
        ensures
            r@ == blank_realization(),
    {
        RealizationSnapshot {
            status: None,
            active: None,
            start_time: None,
            end_time: None,
            exec_hosts: None,
            message: None,
            fm_steps: Table::new(),
        }
    }

    pub fn update_from_event(&mut self, event: &RealizationEvent)
        ensures
            final(self)@ == apply_realization_event(old(self)@, *event),
    {
        self.status = Some(event.status);
        self.exec_hosts = copy_text(&event.exec_hosts);
        match event.status {
            RealizationState::Running => {
                self.start_time = Some(event.time);
            },
            RealizationState::Failed => {
                self.end_time = Some(event.time);
                self.message = copy_text(&event.message);
            },
            RealizationState::Finished | RealizationState::Timeout => {
                self.end_time = Some(event.time);
            },
            _ => {},
        }
    }

    pub fn update_from(&mut self, other: &Self)
        ensures
            final(self)@ == merge_realization(old(self)@, other@),
    {
        if other.status.is_some() {
            self.status = other.status;
        }
        if other.active.is_some() {
            self.active = other.active;
        }
        if other.start_time.is_some() {
            self.start_time = other.start_time;
        }
        if other.end_time.is_some() {
            self.end_time = other.end_time;
        }
        if other.exec_hosts.is_some() {
            self.exec_hosts = copy_text(&other.exec_hosts);
        }
        if other.message.is_some() {
            self.message = copy_text(&other.message);
        }
        self.fm_steps.merge_from(&other.fm_steps);
    }

    /// A copy of this snapshot.
    pub fn duplicate(&self) -> (r: Self)
        ensures
            r@ == self@,
    {
        RealizationSnapshot {
            status: self.status,
            active: self.active,
            start_time: self.start_time,
            end_time: self.end_time,
            exec_hosts: copy_text(&self.exec_hosts),
            message: copy_text(&self.message),
            fm_steps: self.fm_steps.duplicate(),
        }
    }
}

impl Mergeable for RealizationSnapshot {
    open spec fn merged(a: RealizationView, b: RealizationView) -> RealizationView {
        merge_realization(a, b)
    }

    open spec fn blank() -> RealizationView {
        blank_realization()
    }

    fn empty() -> (r: Self) {
        RealizationSnapshot::new()
    }

    fn merge_from(&mut self, other: &Self) {
        self.update_from(other);
    }

    fn duplicate(&self) -> (r: Self) {
        RealizationSnapshot::duplicate(self)
    }
}

} // verus!
