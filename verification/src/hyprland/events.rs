//! The notifications that the window manager publishes.

use vstd::prelude::*;

verus! {

/// What a screen cast shares.
#[derive(Clone, Copy, Debug, PartialEq, Eq, Structural)]
pub enum ScreenCastOwner {
    Monitor,
    Window,
}

/// One notification from the window manager, with exactly the fields of its
/// wire form. Addresses are window addresses; an event never changes once
/// made, and a copy of it is handed to every subscriber.
#[derive(Clone, Debug, PartialEq, Eq)]
#[allow(inconsistent_fields)]
pub enum Event {
    Workspace { name: String },
    FocusedMonitor { monitor: String, workspace: String },
    ActiveWindow { class: String, title: String },
    ActiveWindowV2 { address: Option<usize> },
    FullScreen { active: bool },
    MonitorRemoved { monitor: String },
    MonitorAdded { monitor: String },
    CreateWorkspace { name: String },
    DestroyWorkspace { name: String },
    MoveWorkspace { workspace: String, monitor: String },
    ActiveLayout { keyboard_name: String, layout_name: String },
    OpenWindow { address: usize, workspace: String, class: String, title: String },
    CloseWindow { address: usize },
    MoveWindow { address: usize, workspace: String },
    OpenLayer { name: String },
    CloseLayer { name: String },
    SubMap { name: String },
    ChangeFloatingMode { address: usize, active: bool },
    Urgent { address: usize },
    Minimize { address: usize, active: bool },
    ScreenCast { state: bool, owner: ScreenCastOwner },
    WindowTitle { address: usize },
}

/// An [`Event`] with its texts as sequences of characters.
#[allow(inconsistent_fields)]
pub enum EventView {
    Workspace { name: Seq<char> },
    FocusedMonitor { monitor: Seq<char>, workspace: Seq<char> },
    ActiveWindow { class: Seq<char>, title: Seq<char> },
    ActiveWindowV2 { address: Option<usize> },
    FullScreen { active: bool },
    MonitorRemoved { monitor: Seq<char> },
    MonitorAdded { monitor: Seq<char> },
    CreateWorkspace { name: Seq<char> },
    DestroyWorkspace { name: Seq<char> },
    MoveWorkspace { workspace: Seq<char>, monitor: Seq<char> },
    ActiveLayout { keyboard_name: Seq<char>, layout_name: Seq<char> },
    OpenWindow { address: usize, workspace: Seq<char>, class: Seq<char>, title: Seq<char> },
    CloseWindow { address: usize },
    MoveWindow { address: usize, workspace: Seq<char> },
    OpenLayer { name: Seq<char> },
    CloseLayer { name: Seq<char> },
    SubMap { name: Seq<char> },
    ChangeFloatingMode { address: usize, active: bool },
    Urgent { address: usize },
    Minimize { address: usize, active: bool },
    ScreenCast { state: bool, owner: ScreenCastOwner },
    WindowTitle { address: usize },
}

impl View for Event {
    type V = EventView;

    open spec fn view(&self) -> EventView {
        match *self {
            Event::Workspace { name } => EventView::Workspace { name: name@ },
            Event::FocusedMonitor { monitor, workspace } => EventView::FocusedMonitor {
                monitor: monitor@,
                workspace: workspace@,
            },
            Event::ActiveWindow { class, title } => EventView::ActiveWindow {
                class: class@,
                title: title@,
            },
            Event::ActiveWindowV2 { address } => EventView::ActiveWindowV2 { address },
            Event::FullScreen { active } => EventView::FullScreen { active },
            Event::MonitorRemoved { monitor } => EventView::MonitorRemoved { monitor: monitor@ },
            Event::MonitorAdded { monitor } => EventView::MonitorAdded { monitor: monitor@ },
            Event::CreateWorkspace { name } => EventView::CreateWorkspace { name: name@ },
            Event::DestroyWorkspace { name } => EventView::DestroyWorkspace { name: name@ },
            Event::MoveWorkspace { workspace, monitor } => EventView::MoveWorkspace {
                workspace: workspace@,
                monitor: monitor@,
            },
            Event::ActiveLayout { keyboard_name, layout_name } => EventView::ActiveLayout {
                keyboard_name: keyboard_name@,
                layout_name: layout_name@,
            },
            Event::OpenWindow { address, workspace, class, title } => EventView::OpenWindow {
                address,
                workspace: workspace@,
                class: class@,
                title: title@,
            },
            Event::CloseWindow { address } => EventView::CloseWindow { address },
            Event::MoveWindow { address, workspace } => EventView::MoveWindow {
                address,
                workspace: workspace@,
            },
            Event::OpenLayer { name } => EventView::OpenLayer { name: name@ },
            Event::CloseLayer { name } => EventView::CloseLayer { name: name@ },
            Event::SubMap { name } => EventView::SubMap { name: name@ },
            Event::ChangeFloatingMode { address, active } => EventView::ChangeFloatingMode {
                address,
                active,
            },
            Event::Urgent { address } => EventView::Urgent { address },
            Event::Minimize { address, active } => EventView::Minimize { address, active },
            Event::ScreenCast { state, owner } => EventView::ScreenCast { state, owner },
            Event::WindowTitle { address } => EventView::WindowTitle { address },
        }
    }
}

} // verus!
