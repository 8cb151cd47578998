//! Domain models handed to the presentation layer.

use vstd::prelude::*;

verus! {

/// The lifecycle state that the runtime reports for a container.
#[derive(PartialEq, Eq, Structural, Clone, Copy, Debug)]
pub enum ContainerState {
    Empty,
    Created,
    Running,
    Paused,
    Restarting,
    Removing,
    Exited,
    Dead,
}

/// The runtime's name for a container state.
pub open spec fn state_label_spec(s: ContainerState) -> Seq<char> {
    match s {
        ContainerState::Empty => ""@,
        ContainerState::Created => "created"@,
        ContainerState::Running => "running"@,
        ContainerState::Paused => "paused"@,
        ContainerState::Restarting => "restarting"@,
        ContainerState::Removing => "removing"@,
        ContainerState::Exited => "exited"@,
        ContainerState::Dead => "dead"@,
    }
}

impl ContainerState {
    /// The runtime's name for this state.
    pub fn label(&self) -> (r: &'static str)
        ensures
            r@ == state_label_spec(*self),
    {
        match self {
            ContainerState::Empty => "",
            ContainerState::Created => "created",
            ContainerState::Running => "running",
            ContainerState::Paused => "paused",
            ContainerState::Restarting => "restarting",
            ContainerState::Removing => "removing",
            ContainerState::Exited => "exited",
            ContainerState::Dead => "dead",
        }
    }
}

/// One entry of the container listing.
#[derive(Debug)]
pub struct Container {
    /// The first name the runtime reports, without leading separators.
    pub name: Option<String>,
    pub status: Option<String>,
    pub state: Option<ContainerState>,
    /// The host addresses of the published ports.
    pub ports: Option<Vec<String>>,
}

/// One entry of the image listing.
#[derive(Debug)]
pub struct Image {
    pub id: String,
    pub repo_tags: Vec<String>,
    pub size: i64,
}

/// One decoded event of an image pull.
#[derive(Debug, Clone)]
pub struct ProgressInfo {
    pub status: String,
    pub progress_detail: Option<ProgressDetail>,
    pub id: Option<String>,
}

/// Byte counters of a pull phase that carries numeric progress.
#[derive(Debug, Clone, Copy, PartialEq, Eq, Structural)]
pub struct ProgressDetail {
    pub current: Option<i64>,
    pub total: Option<i64>,
}

} // verus!
