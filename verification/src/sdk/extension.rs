//! Extension manifests, activation events and contributions.

use vstd::prelude::*;

verus! {

/// When an extension asks to be activated.
#[derive(Debug, PartialEq, Eq)]
pub enum ActivationEvent {
    OnStartupFinished,
    OnLanguage(String),
    OnCommand(String),
    OnView(String),
    OnAiRequested,
    WorkspaceContains(String),
}

/// An activation event with its payload as characters.
pub ghost enum ActivationEventView {
    OnStartupFinished,
    OnLanguage(Seq<char>),
    OnCommand(Seq<char>),
    OnView(Seq<char>),
    OnAiRequested,
    WorkspaceContains(Seq<char>),
}

impl View for ActivationEvent {
    type V = ActivationEventView;

    open spec fn view(&self) -> ActivationEventView {
        match self {
            ActivationEvent::OnStartupFinished => ActivationEventView::OnStartupFinished,
            ActivationEvent::OnLanguage(s) => ActivationEventView::OnLanguage(s@),
            ActivationEvent::OnCommand(s) => ActivationEventView::OnCommand(s@),
            ActivationEvent::OnView(s) => ActivationEventView::OnView(s@),
            ActivationEvent::OnAiRequested => ActivationEventView::OnAiRequested,
            ActivationEvent::WorkspaceContains(s) => ActivationEventView::WorkspaceContains(s@),
        }
    }
}

impl ActivationEvent {
    /// Compares two events by variant and payload.
    pub fn equals(&self, other: &ActivationEvent) -> (b: bool)
        ensures
            b == (self@ == other@),
    {
        match (self, other) {
            (ActivationEvent::OnStartupFinished, ActivationEvent::OnStartupFinished) => true,
            (ActivationEvent::OnAiRequested, ActivationEvent::OnAiRequested) => true,
            (ActivationEvent::OnLanguage(a), ActivationEvent::OnLanguage(b)) => *a == *b,
            (ActivationEvent::OnCommand(a), ActivationEvent::OnCommand(b)) => *a == *b,
            (ActivationEvent::OnView(a), ActivationEvent::OnView(b)) => *a == *b,
            (ActivationEvent::WorkspaceContains(a), ActivationEvent::WorkspaceContains(b)) => *a
                == *b,
            _ => false,
        }
    }
}

impl Clone for ActivationEvent {
    fn clone(&self) -> (r: Self)
        ensures
            r == *self,
    {
        match self {
            ActivationEvent::OnStartupFinished => ActivationEvent::OnStartupFinished,
            ActivationEvent::OnLanguage(s) => ActivationEvent::OnLanguage(s.clone()),
            ActivationEvent::OnCommand(s) => ActivationEvent::OnCommand(s.clone()),
            ActivationEvent::OnView(s) => ActivationEvent::OnView(s.clone()),
            ActivationEvent::OnAiRequested => ActivationEvent::OnAiRequested,
            ActivationEvent::WorkspaceContains(s) => ActivationEvent::WorkspaceContains(s.clone()),
        }
    }
}

/// Something an extension adds to the IDE.
#[derive(Debug, PartialEq, Eq)]
pub enum Contribution {
    Command { id: String, title: String },
    Theme { id: String, path: String },
    IconTheme { id: String, path: String },
    SidebarView { id: String, title: String },
    SettingsSchema { path: String },
    Provider { id: String },
    Agent { id: String },
}

impl Clone for Contribution {
    fn clone(&self) -> (r: Self)
        ensures
            r == *self,
    {
        match self {
            Contribution::Command { id, title } => Contribution::Command {
                id: id.clone(),
                title: title.clone(),
            },
            Contribution::Theme { id, path } => Contribution::Theme {
                id: id.clone(),
                path: path.clone(),
            },
            Contribution::IconTheme { id, path } => Contribution::IconTheme {
                id: id.clone(),
                path: path.clone(),
            },
            Contribution::SidebarView { id, title } => Contribution::SidebarView {
                id: id.clone(),
                title: title.clone(),
            },
            Contribution::SettingsSchema { path } => Contribution::SettingsSchema {
                path: path.clone(),
            },
            Contribution::Provider { id } => Contribution::Provider { id: id.clone() },
            Contribution::Agent { id } => Contribution::Agent { id: id.clone() },
        }
    }
}

/// A contribution with its strings as characters.
pub ghost enum ContributionView {
    Command { id: Seq<char>, title: Seq<char> },
    Theme { id: Seq<char>, path: Seq<char> },
    IconTheme { id: Seq<char>, path: Seq<char> },
    SidebarView { id: Seq<char>, title: Seq<char> },
    SettingsSchema { path: Seq<char> },
    Provider { id: Seq<char> },
    Agent { id: Seq<char> },
}

impl View for Contribution {
    type V = ContributionView;

    open spec fn view(&self) -> ContributionView {
        match self {
            Contribution::Command { id, title } => ContributionView::Command {
                id: id@,
                title: title@,
            },
            Contribution::Theme { id, path } => ContributionView::Theme { id: id@, path: path@ },
            Contribution::IconTheme { id, path } => ContributionView::IconTheme {
                id: id@,
                path: path@,
            },
            Contribution::SidebarView { id, title } => ContributionView::SidebarView {
                id: id@,
                title: title@,
            },
            Contribution::SettingsSchema { path } => ContributionView::SettingsSchema {
                path: path@,
            },
            Contribution::Provider { id } => ContributionView::Provider { id: id@ },
            Contribution::Agent { id } => ContributionView::Agent { id: id@ },
        }
    }
}

/// The IDE's own view of an extension manifest.
#[derive(Debug, Clone, PartialEq, Eq)]
pub struct ExtensionManifest {
    pub id: String,
    pub display_name: String,
    pub version: String,
    pub activation_events: Vec<ActivationEvent>,
    pub contributions: Vec<Contribution>,
}

/// An error raised by the extension machinery.
#[derive(Debug, Clone, PartialEq, Eq)]
pub struct ExtensionError {
    pub extension_id: String,
    pub message: String,
}

} // verus!
