//! The wire form of events: one line `NAME>>PAYLOAD` each.
//!
//! The name ends at the leftmost `>>`. The payload of an event with several
//! fields is split at commas, once for each field but the last, so that the
//! last field keeps the commas it holds. Addresses are hexadecimal; flags
//! are `0` or `1`.

use vstd::prelude::*;
use vstd::string::*;
use crate::hyprland::error::{Error, ErrorView};
use crate::hyprland::events::{Event, EventView, ScreenCastOwner};
use crate::number::{hex_text, parse_hex, parse_hex_spec, push_hex};
use crate::text::{chars_eq, chars_of, split_at_first, split_once, str_eq};

verus! {

/// What a decoder hands back, with its texts as sequences of characters.
pub open spec fn decoded(r: Result<Event, Error>) -> Result<EventView, ErrorView> {
    match r {
        Ok(event) => Ok(event@),
        Err(error) => Err(error@),
    }
}

/// The address that `token` denotes.
pub open spec fn address_of(token: Seq<char>) -> Result<usize, ErrorView> {
    match parse_hex_spec(token) {
        Some(address) => Ok(address),
        None => Err(ErrorView::InvalidAddress(token)),
    }
}

/// The flag that `token` denotes.
pub open spec fn flag_of(token: Seq<char>) -> Result<bool, ErrorView> {
    if token == "1"@ {
        Ok(true)
    } else if token == "0"@ {
        Ok(false)
    } else {
        Err(ErrorView::InvalidFlag(token))
    }
}

/// The two fields of the payload `data` of the event `name`.
pub open spec fn pair_of(name: Seq<char>, data: Seq<char>) -> Result<
    (Seq<char>, Seq<char>),
    ErrorView,
> {
    match split_once(data, ","@) {
        Some(fields) => Ok(fields),
        None => Err(ErrorView::MissingField(name)),
    }
}

/// The event with an address alone that `make` builds from the payload.
pub open spec fn address_event(data: Seq<char>, make: spec_fn(usize) -> EventView) -> Result<
    EventView,
    ErrorView,
> {
    match address_of(data) {
        Ok(address) => Ok(make(address)),
        Err(error) => Err(error),
    }
}

/// The event of two texts that `make` builds from the payload.
pub open spec fn pair_event(
    name: Seq<char>,
    data: Seq<char>,
    make: spec_fn(Seq<char>, Seq<char>) -> EventView,
) -> Result<EventView, ErrorView> {
    match pair_of(name, data) {
        Ok((first, second)) => Ok(make(first, second)),
        Err(error) => Err(error),
    }
}

/// The event of an address and a flag that `make` builds from the payload.
pub open spec fn address_flag_event(
    name: Seq<char>,
    data: Seq<char>,
    make: spec_fn(usize, bool) -> EventView,
) -> Result<EventView, ErrorView> {
    match pair_of(name, data) {
        Ok((first, second)) => match address_of(first) {
            Ok(address) => match flag_of(second) {
                Ok(active) => Ok(make(address, active)),
                Err(error) => Err(error),
            },
            Err(error) => Err(error),
        },
        Err(error) => Err(error),
    }
}

/// The payload of `openwindow`: address, workspace, class, and a title that
/// keeps its commas.
pub open spec fn open_window_of(name: Seq<char>, data: Seq<char>) -> Result<EventView, ErrorView> {
    match pair_of(name, data) {
        Ok((token, rest)) => match pair_of(name, rest) {
            Ok((workspace, rest)) => match pair_of(name, rest) {
                Ok((class, title)) => match address_of(token) {
                    Ok(address) => Ok(EventView::OpenWindow { address, workspace, class, title }),
                    Err(error) => Err(error),
                },
                Err(error) => Err(error),
            },
            Err(error) => Err(error),
        },
        Err(error) => Err(error),
    }
}

/// The payload of `screencast`: the state, then `0` for a monitor and `1`
/// for a window.
pub open spec fn screen_cast_of(name: Seq<char>, data: Seq<char>) -> Result<EventView, ErrorView> {
    match pair_of(name, data) {
        Ok((first, second)) => match flag_of(first) {
            Ok(state) => match flag_of(second) {
                Ok(window) => Ok(
                    EventView::ScreenCast {
                        state,
                        owner: if window {
                            ScreenCastOwner::Window
                        } else {
                            ScreenCastOwner::Monitor
                        },
                    },
                ),
                Err(error) => Err(error),
            },
            Err(error) => Err(error),
        },
        Err(error) => Err(error),
    }
}

/// The event that the payload `data` makes under the name `name`.
pub open spec fn decode_payload(name: Seq<char>, data: Seq<char>) -> Result<EventView, ErrorView> {
    if name == "workspace"@ {
        Ok(EventView::Workspace { name: data })
    } else if name == "focusedmon"@ {
        pair_event(name, data, |a, b| EventView::FocusedMonitor { monitor: a, workspace: b })
    } else if name == "activewindow"@ {
        pair_event(name, data, |a, b| EventView::ActiveWindow { class: a, title: b })
    } else if name == "activewindowv2"@ {
        if data == ","@ {
            Ok(EventView::ActiveWindowV2 { address: None })
        } else {
            address_event(data, |a| EventView::ActiveWindowV2 { address: Some(a) })
        }
    } else if name == "fullscreen"@ {
        match flag_of(data) {
            Ok(active) => Ok(EventView::FullScreen { active }),
            Err(error) => Err(error),
        }
    } else if name == "monitorremoved"@ {
        Ok(EventView::MonitorRemoved { monitor: data })
    } else if name == "monitoradded"@ {
        Ok(EventView::MonitorAdded { monitor: data })
    } else if name == "createworkspace"@ {
        Ok(EventView::CreateWorkspace { name: data })
    } else if name == "destroyworkspace"@ {
        Ok(EventView::DestroyWorkspace { name: data })
    } else if name == "moveworkspace"@ {
        pair_event(name, data, |a, b| EventView::MoveWorkspace { workspace: a, monitor: b })
    } else if name == "activelayout"@ {
        pair_event(
            name,
            data,
            |a, b| EventView::ActiveLayout { keyboard_name: a, layout_name: b },
        )
    } else if name == "openwindow"@ {
        open_window_of(name, data)
    } else if name == "closewindow"@ {
        address_event(data, |a| EventView::CloseWindow { address: a })
    } else if name == "movewindow"@ {
        match pair_of(name, data) {
            Ok((token, workspace)) => match address_of(token) {
                Ok(address) => Ok(EventView::MoveWindow { address, workspace }),
                Err(error) => Err(error),
            },
            Err(error) => Err(error),
        }
    } else if name == "openlayer"@ {
        Ok(EventView::OpenLayer { name: data })
    } else if name == "closelayer"@ {
        Ok(EventView::CloseLayer { name: data })
    } else if name == "submap"@ {
        Ok(EventView::SubMap { name: data })
    } else if name == "changefloatingmode"@ {
        address_flag_event(
            name,
            data,
            |a, b| EventView::ChangeFloatingMode { address: a, active: b },
        )
    } else if name == "urgent"@ {
        address_event(data, |a| EventView::Urgent { address: a })
    } else if name == "minimize"@ {
        address_flag_event(name, data, |a, b| EventView::Minimize { address: a, active: b })
    } else if name == "screencast"@ {
        screen_cast_of(name, data)
    } else if name == "windowtitle"@ {
        address_event(data, |a| EventView::WindowTitle { address: a })
    } else {
        Err(ErrorView::UnknownEvent(name))
    }
}

/// The event that `line` denotes, or why it denotes none.
pub open spec fn decode_line(line: Seq<char>) -> Result<EventView, ErrorView> {
    match split_once(line, ">>"@) {
        Some((name, data)) => decode_payload(name, data),
        None => Err(ErrorView::MissingSeparator),
    }
}

/// Reads an address.
fn address(token: &str) -> (r: Result<usize, Error>)
    ensures
        match r {
            Ok(a) => address_of(token@) == Ok::<usize, ErrorView>(a),
            Err(e) => address_of(token@) == Err::<usize, ErrorView>(e@),
        },
{
    match parse_hex(token) {
        Some(a) => Ok(a),
        None => Err(Error::InvalidAddress(token.to_owned())),
    }
}

/// Reads a flag.
fn flag(token: &str) -> (r: Result<bool, Error>)
    ensures
        match r {
            Ok(b) => flag_of(token@) == Ok::<bool, ErrorView>(b),
            Err(e) => flag_of(token@) == Err::<bool, ErrorView>(e@),
        },
{
    if str_eq(token, "1") {
        Ok(true)
    } else if str_eq(token, "0") {
        Ok(false)
    } else {
        Err(Error::InvalidFlag(token.to_owned()))
    }
}

/// Splits a payload into its first field and the rest.
fn pair<'a>(name: &str, data: &'a str) -> (r: Result<(&'a str, &'a str), Error>)
    ensures
        match r {
            Ok((first, second)) => pair_of(name@, data@) == Ok::<
                (Seq<char>, Seq<char>),
                ErrorView,
            >((first@, second@)),
            Err(e) => pair_of(name@, data@) == Err::<(Seq<char>, Seq<char>), ErrorView>(e@),
        },
{
    match split_at_first(data, ",") {
        Some(fields) => Ok(fields),
        None => Err(Error::MissingField(name.to_owned())),
    }
}

/// Reads the payload of an event that is an address alone.
fn address_payload(data: &str) -> (r: Result<usize, Error>)
    ensures
        forall|make: spec_fn(usize) -> EventView|
            match r {
                Ok(a) => #[trigger] address_event(data@, make) == Ok::<EventView, ErrorView>(
                    make(a),
                ),
                Err(e) => address_event(data@, make) == Err::<EventView, ErrorView>(e@),
            },
{
    address(data)
}

/// Reads the payload of an event that is an address and a flag.
fn address_flag_payload(name: &str, data: &str) -> (r: Result<(usize, bool), Error>)
    ensures
        forall|make: spec_fn(usize, bool) -> EventView|
            match r {
                Ok((a, b)) => #[trigger] address_flag_event(name@, data@, make) == Ok::<
                    EventView,
                    ErrorView,
                >(make(a, b)),
                Err(e) => address_flag_event(name@, data@, make) == Err::<EventView, ErrorView>(
                    e@,
                ),
            },
{
    let (first, second) = match pair(name, data) {
        Ok(fields) => fields,
        Err(e) => {
            return Err(e);
        },
    };
    let a = match address(first) {
        Ok(a) => a,
        Err(e) => {
            return Err(e);
        },
    };
    match flag(second) {
        Ok(b) => Ok((a, b)),
        Err(e) => Err(e),
    }
}

/// Reads the payload of an event that is two texts.
fn pair_payload(name: &str, data: &str) -> (r: Result<(String, String), Error>)
    ensures
        forall|make: spec_fn(Seq<char>, Seq<char>) -> EventView|
            match r {
                Ok((a, b)) => #[trigger] pair_event(name@, data@, make) == Ok::<
                    EventView,
                    ErrorView,
                >(make(a@, b@)),
                Err(e) => pair_event(name@, data@, make) == Err::<EventView, ErrorView>(e@),
            },
{
    match pair(name, data) {
        Ok((first, second)) => Ok((first.to_owned(), second.to_owned())),
        Err(e) => Err(e),
    }
}

/// Reads the payload of `openwindow`.
fn open_window(name: &str, data: &str) -> (r: Result<Event, Error>)
    ensures
        decoded(r) == open_window_of(name@, data@),
{
    let (token, rest) = match pair(name, data) {
        Ok(fields) => fields,
        Err(e) => {
            return Err(e);
        },
    };
    let (workspace, rest) = match pair(name, rest) {
        Ok(fields) => fields,
        Err(e) => {
            return Err(e);
        },
    };
    let (class, title) = match pair(name, rest) {
        Ok(fields) => fields,
        Err(e) => {
            return Err(e);
        },
    };
    match address(token) {
        Ok(address) => Ok(
            Event::OpenWindow {
                address,
                workspace: workspace.to_owned(),
                class: class.to_owned(),
                title: title.to_owned(),
            },
        ),
        Err(e) => Err(e),
    }
}

/// Reads the payload of `screencast`.
fn screen_cast(name: &str, data: &str) -> (r: Result<Event, Error>)
    ensures
        decoded(r) == screen_cast_of(name@, data@),
{
    let (first, second) = match pair(name, data) {
        Ok(fields) => fields,
        Err(e) => {
            return Err(e);
        },
    };
    let state = match flag(first) {
        Ok(b) => b,
        Err(e) => {
            return Err(e);
        },
    };
    match flag(second) {
        Ok(window) => Ok(
            Event::ScreenCast {
                state,
                owner: if window {
                    ScreenCastOwner::Window
                } else {
                    ScreenCastOwner::Monitor
                },
            },
        ),
        Err(e) => Err(e),
    }
}

/// Decodes one line of the event stream, without its line terminator.
///
/// The line is `NAME>>PAYLOAD`, the name ending at the leftmost `>>`. A line
/// without `>>` is refused as [`Error::MissingSeparator`], a name that is
/// none of the known events as [`Error::UnknownEvent`], a payload with too
/// few commas as [`Error::MissingField`], a token that is no hexadecimal
/// number where an address belongs as [`Error::InvalidAddress`] (a leading
/// `+` is accepted; for `activewindowv2` the payload `,` stands for no
/// address), and a token other than `0` and `1` where a flag belongs as
/// [`Error::InvalidFlag`]. Fields are read in the order of the line, and the
/// first that fails decides the error.
pub fn decode_event(line: &str) -> (r: Result<Event, Error>)
    ensures
        decoded(r) == decode_line(line@),
{
    let (name, data) = match split_at_first(line, ">>") {
        Some(parts) => parts,
        None => {
            return Err(Error::MissingSeparator);
        },
    };
    let tag = chars_of(name);
    if chars_eq(&tag, "workspace") {
        Ok(Event::Workspace { name: data.to_owned() })
    } else if chars_eq(&tag, "focusedmon") {
        match pair_payload(name, data) {
            Ok((monitor, workspace)) => Ok(Event::FocusedMonitor { monitor, workspace }),
            Err(e) => Err(e),
        }
    } else if chars_eq(&tag, "activewindow") {
        match pair_payload(name, data) {
            Ok((class, title)) => Ok(Event::ActiveWindow { class, title }),
            Err(e) => Err(e),
        }
    } else if chars_eq(&tag, "activewindowv2") {
        if str_eq(data, ",") {
            Ok(Event::ActiveWindowV2 { address: None })
        } else {
            match address_payload(data) {
                Ok(address) => Ok(Event::ActiveWindowV2 { address: Some(address) }),
                Err(e) => Err(e),
            }
        }
    } else if chars_eq(&tag, "fullscreen") {
        match flag(data) {
            Ok(active) => Ok(Event::FullScreen { active }),
            Err(e) => Err(e),
        }
    } else if chars_eq(&tag, "monitorremoved") {
        Ok(Event::MonitorRemoved { monitor: data.to_owned() })
    } else if chars_eq(&tag, "monitoradded") {
        Ok(Event::MonitorAdded { monitor: data.to_owned() })
    } else if chars_eq(&tag, "createworkspace") {
        Ok(Event::CreateWorkspace { name: data.to_owned() })
    } else if chars_eq(&tag, "destroyworkspace") {
        Ok(Event::DestroyWorkspace { name: data.to_owned() })
    } else if chars_eq(&tag, "moveworkspace") {
        match pair_payload(name, data) {
            Ok((workspace, monitor)) => Ok(Event::MoveWorkspace { workspace, monitor }),
            Err(e) => Err(e),
        }
    } else if chars_eq(&tag, "activelayout") {
        match pair_payload(name, data) {
            Ok((keyboard_name, layout_name)) => Ok(
                Event::ActiveLayout { keyboard_name, layout_name },
            ),
            Err(e) => Err(e),
        }
    } else if chars_eq(&tag, "openwindow") {
        open_window(name, data)
    } else if chars_eq(&tag, "closewindow") {
        match address_payload(data) {
            Ok(address) => Ok(Event::CloseWindow { address }),
            Err(e) => Err(e),
        }
    } else if chars_eq(&tag, "movewindow") {
        match pair(name, data) {
            Ok((token, workspace)) => match address(token) {
                Ok(address) => Ok(Event::MoveWindow { address, workspace: workspace.to_owned() }),
                Err(e) => Err(e),
            },
            Err(e) => Err(e),
        }
    } else if chars_eq(&tag, "openlayer") {
        Ok(Event::OpenLayer { name: data.to_owned() })
    } else if chars_eq(&tag, "closelayer") {
        Ok(Event::CloseLayer { name: data.to_owned() })
    } else if chars_eq(&tag, "submap") {
        Ok(Event::SubMap { name: data.to_owned() })
    } else if chars_eq(&tag, "changefloatingmode") {
        match address_flag_payload(name, data) {
            Ok((address, active)) => Ok(Event::ChangeFloatingMode { address, active }),
            Err(e) => Err(e),
        }
    } else if chars_eq(&tag, "urgent") {
        match address_payload(data) {
            Ok(address) => Ok(Event::Urgent { address }),
            Err(e) => Err(e),
        }
    } else if chars_eq(&tag, "minimize") {
        match address_flag_payload(name, data) {
            Ok((address, active)) => Ok(Event::Minimize { address, active }),
            Err(e) => Err(e),
        }
    } else if chars_eq(&tag, "screencast") {
        screen_cast(name, data)
    } else if chars_eq(&tag, "windowtitle") {
        match address_payload(data) {
            Ok(address) => Ok(Event::WindowTitle { address }),
            Err(e) => Err(e),
        }
    } else {
        Err(Error::UnknownEvent(name.to_owned()))
    }
}

/// The name under which `event` travels.
pub open spec fn event_name(event: EventView) -> Seq<char> {
    match event {
        EventView::Workspace { .. } => "workspace"@,
        EventView::FocusedMonitor { .. } => "focusedmon"@,
        EventView::ActiveWindow { .. } => "activewindow"@,
        EventView::ActiveWindowV2 { .. } => "activewindowv2"@,
        EventView::FullScreen { .. } => "fullscreen"@,
        EventView::MonitorRemoved { .. } => "monitorremoved"@,
        EventView::MonitorAdded { .. } => "monitoradded"@,
        EventView::CreateWorkspace { .. } => "createworkspace"@,
        EventView::DestroyWorkspace { .. } => "destroyworkspace"@,
        EventView::MoveWorkspace { .. } => "moveworkspace"@,
        EventView::ActiveLayout { .. } => "activelayout"@,
        EventView::OpenWindow { .. } => "openwindow"@,
        EventView::CloseWindow { .. } => "closewindow"@,
        EventView::MoveWindow { .. } => "movewindow"@,
        EventView::OpenLayer { .. } => "openlayer"@,
        EventView::CloseLayer { .. } => "closelayer"@,
        EventView::SubMap { .. } => "submap"@,
        EventView::ChangeFloatingMode { .. } => "changefloatingmode"@,
        EventView::Urgent { .. } => "urgent"@,
        EventView::Minimize { .. } => "minimize"@,
        EventView::ScreenCast { .. } => "screencast"@,
        EventView::WindowTitle { .. } => "windowtitle"@,
    }
}

/// The token of a flag.
pub open spec fn flag_text(flag: bool) -> Seq<char> {
    if flag {
        "1"@
    } else {
        "0"@
    }
}

/// The payload with which `event` travels: its fields in order, joined by
/// commas, addresses in lower-case hexadecimal.
pub open spec fn event_payload(event: EventView) -> Seq<char> {
    match event {
        EventView::Workspace { name } => name,
        EventView::FocusedMonitor { monitor, workspace } => monitor + ","@ + workspace,
        EventView::ActiveWindow { class, title } => class + ","@ + title,
        EventView::ActiveWindowV2 { address } => match address {
            Some(a) => hex_text(a as nat),
            None => ","@,
        },
        EventView::FullScreen { active } => flag_text(active),
        EventView::MonitorRemoved { monitor } => monitor,
        EventView::MonitorAdded { monitor } => monitor,
        EventView::CreateWorkspace { name } => name,
        EventView::DestroyWorkspace { name } => name,
        EventView::MoveWorkspace { workspace, monitor } => workspace + ","@ + monitor,
        EventView::ActiveLayout { keyboard_name, layout_name } => keyboard_name + ","@
            + layout_name,
        EventView::OpenWindow { address, workspace, class, title } => hex_text(address as nat)
            + ","@ + workspace + ","@ + class + ","@ + title,
        EventView::CloseWindow { address } => hex_text(address as nat),
        EventView::MoveWindow { address, workspace } => hex_text(address as nat) + ","@
            + workspace,
        EventView::OpenLayer { name } => name,
        EventView::CloseLayer { name } => name,
        EventView::SubMap { name } => name,
        EventView::ChangeFloatingMode { address, active } => hex_text(address as nat) + ","@
            + flag_text(active),
        EventView::Urgent { address } => hex_text(address as nat),
        EventView::Minimize { address, active } => hex_text(address as nat) + ","@ + flag_text(
            active,
        ),
        EventView::ScreenCast { state, owner } => flag_text(state) + ","@ + flag_text(
            owner == ScreenCastOwner::Window,
        ),
        EventView::WindowTitle { address } => hex_text(address as nat),
    }
}

/// The line with which `event` travels.
pub open spec fn encode_line(event: EventView) -> Seq<char> {
    event_name(event) + ">>"@ + event_payload(event)
}

impl Event {
    /// The name under which this event travels.
    pub fn name(&self) -> (r: &'static str)
        ensures
            r@ == event_name(self@),
    {
        match self {
            Event::Workspace { .. } => "workspace",
            Event::FocusedMonitor { .. } => "focusedmon",
            Event::ActiveWindow { .. } => "activewindow",
            Event::ActiveWindowV2 { .. } => "activewindowv2",
            Event::FullScreen { .. } => "fullscreen",
            Event::MonitorRemoved { .. } => "monitorremoved",
            Event::MonitorAdded { .. } => "monitoradded",
            Event::CreateWorkspace { .. } => "createworkspace",
            Event::DestroyWorkspace { .. } => "destroyworkspace",
            Event::MoveWorkspace { .. } => "moveworkspace",
            Event::ActiveLayout { .. } => "activelayout",
            Event::OpenWindow { .. } => "openwindow",
            Event::CloseWindow { .. } => "closewindow",
            Event::MoveWindow { .. } => "movewindow",
            Event::OpenLayer { .. } => "openlayer",
            Event::CloseLayer { .. } => "closelayer",
            Event::SubMap { .. } => "submap",
            Event::ChangeFloatingMode { .. } => "changefloatingmode",
            Event::Urgent { .. } => "urgent",
            Event::Minimize { .. } => "minimize",
            Event::ScreenCast { .. } => "screencast",
            Event::WindowTitle { .. } => "windowtitle",
        }
    }
}

/// Appends a comma and `field` to `out`.
fn push_field(out: &mut String, field: &str)
    ensures
        final(out)@ == old(out)@ + ","@ + field@,
{
    out.append(",");
    out.append(field);
}

/// Appends the token of `flag` to `out`.
fn push_flag(out: &mut String, flag: bool)
    ensures
        final(out)@ == old(out)@ + flag_text(flag),
{
    if flag {
        out.append("1");
    } else {
        out.append("0");
    }
}

/// Writes the line with which `event` travels, without a line terminator:
/// its name, `>>`, and its fields joined by commas, addresses in lower-case
/// hexadecimal and flags as `0` or `1`.
pub fn encode_event(event: &Event) -> (r: String)
    ensures
        r@ == encode_line(event@),
{
    let mut out = String::new();
    out.append(event.name());
    out.append(">>");
    let ghost head = out@;
    assert(head == event_name(event@) + ">>"@);
    match event {
        Event::Workspace { name } => {
            out.append(name.as_str());
        },
        Event::FocusedMonitor { monitor, workspace } => {
            out.append(monitor.as_str());
            push_field(&mut out, workspace.as_str());
        },
        Event::ActiveWindow { class, title } => {
            out.append(class.as_str());
            push_field(&mut out, title.as_str());
        },
        Event::ActiveWindowV2 { address } => match address {
            Some(a) => {
                push_hex(&mut out, *a);
            },
            None => {
                out.append(",");
            },
        },
        Event::FullScreen { active } => {
            push_flag(&mut out, *active);
        },
        Event::MonitorRemoved { monitor } => {
            out.append(monitor.as_str());
        },
        Event::MonitorAdded { monitor } => {
            out.append(monitor.as_str());
        },
        Event::CreateWorkspace { name } => {
            out.append(name.as_str());
        },
        Event::DestroyWorkspace { name } => {
            out.append(name.as_str());
        },
        Event::MoveWorkspace { workspace, monitor } => {
            out.append(workspace.as_str());
            push_field(&mut out, monitor.as_str());
        },
        Event::ActiveLayout { keyboard_name, layout_name } => {
            out.append(keyboard_name.as_str());
            push_field(&mut out, layout_name.as_str());
        },
        Event::OpenWindow { address, workspace, class, title } => {
            push_hex(&mut out, *address);
            push_field(&mut out, workspace.as_str());
            push_field(&mut out, class.as_str());
            push_field(&mut out, title.as_str());
        },
        Event::CloseWindow { address } => {
            push_hex(&mut out, *address);
        },
        Event::MoveWindow { address, workspace } => {
            push_hex(&mut out, *address);
            push_field(&mut out, workspace.as_str());
        },
        Event::OpenLayer { name } => {
            out.append(name.as_str());
        },
        Event::CloseLayer { name } => {
            out.append(name.as_str());
        },
        Event::SubMap { name } => {
            out.append(name.as_str());
        },
        Event::ChangeFloatingMode { address, active } => {
            push_hex(&mut out, *address);
            out.append(",");
            push_flag(&mut out, *active);
        },
        Event::Urgent { address } => {
            push_hex(&mut out, *address);
        },
        Event::Minimize { address, active } => {
            push_hex(&mut out, *address);
            out.append(",");
            push_flag(&mut out, *active);
        },
        Event::ScreenCast { state, owner } => {
            push_flag(&mut out, *state);
            out.append(",");
            push_flag(&mut out, matches!(owner, ScreenCastOwner::Window));
        },
        Event::WindowTitle { address } => {
            push_hex(&mut out, *address);
        },
    }
    assert(out@ =~= head + event_payload(event@));
    out
}

} // verus!
