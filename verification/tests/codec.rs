use cbar::hyprland::codec::{decode_event, encode_event};
use cbar::hyprland::error::Error;
use cbar::hyprland::events::{Event, ScreenCastOwner};

fn text(s: &str) -> String {
    s.to_string()
}

#[test]
fn decodes_workspace() {
    assert_eq!(decode_event("workspace>>3"), Ok(Event::Workspace { name: text("3") }));
}

#[test]
fn name_ends_at_first_separator() {
    assert_eq!(
        decode_event("workspace>>a>>b"),
        Ok(Event::Workspace { name: text("a>>b") })
    );
    assert_eq!(decode_event("submap>>"), Ok(Event::SubMap { name: text("") }));
}

#[test]
fn missing_separator_is_refused() {
    assert_eq!(decode_event("workspace"), Err(Error::MissingSeparator));
    assert_eq!(decode_event(""), Err(Error::MissingSeparator));
    assert_eq!(decode_event("workspace>3"), Err(Error::MissingSeparator));
}

#[test]
fn unknown_name_is_refused_with_its_name() {
    assert_eq!(decode_event("bogus>>1,2"), Err(Error::UnknownEvent(text("bogus"))));
    assert_eq!(decode_event(">>x"), Err(Error::UnknownEvent(text(""))));
    assert_eq!(decode_event("Workspace>>1"), Err(Error::UnknownEvent(text("Workspace"))));
}

#[test]
fn two_field_events_split_once() {
    assert_eq!(
        decode_event("focusedmon>>DP-1,2"),
        Ok(Event::FocusedMonitor { monitor: text("DP-1"), workspace: text("2") })
    );
    assert_eq!(
        decode_event("activewindow>>kitty,vim a,b,c"),
        Ok(Event::ActiveWindow { class: text("kitty"), title: text("vim a,b,c") })
    );
    assert_eq!(
        decode_event("moveworkspace>>4,HDMI-A-1"),
        Ok(Event::MoveWorkspace { workspace: text("4"), monitor: text("HDMI-A-1") })
    );
    assert_eq!(
        decode_event("activelayout>>kbd,English (US)"),
        Ok(Event::ActiveLayout { keyboard_name: text("kbd"), layout_name: text("English (US)") })
    );
}

#[test]
fn missing_field_names_the_event() {
    assert_eq!(decode_event("focusedmon>>DP-1"), Err(Error::MissingField(text("focusedmon"))));
    assert_eq!(decode_event("openwindow>>ff,1,kitty"), Err(Error::MissingField(text("openwindow"))));
    assert_eq!(decode_event("movewindow>>ff"), Err(Error::MissingField(text("movewindow"))));
}

#[test]
fn address_or_none() {
    assert_eq!(decode_event("activewindowv2>>,"), Ok(Event::ActiveWindowV2 { address: None }));
    assert_eq!(
        decode_event("activewindowv2>>55d0c0a1b2c0"),
        Ok(Event::ActiveWindowV2 { address: Some(0x55d0c0a1b2c0) })
    );
    assert_eq!(
        decode_event("activewindowv2>>xyz"),
        Err(Error::InvalidAddress(text("xyz")))
    );
    assert_eq!(decode_event("activewindowv2>>"), Err(Error::InvalidAddress(text(""))));
    assert_eq!(decode_event("activewindowv2>>,,"), Err(Error::InvalidAddress(text(",,"))));
    assert_eq!(decode_event("closewindow>>,"), Err(Error::InvalidAddress(text(","))));
}

#[test]
fn addresses_are_hexadecimal() {
    assert_eq!(decode_event("closewindow>>FF"), Ok(Event::CloseWindow { address: 255 }));
    assert_eq!(decode_event("closewindow>>+ff"), Ok(Event::CloseWindow { address: 255 }));
    assert_eq!(decode_event("closewindow>>0010"), Ok(Event::CloseWindow { address: 16 }));
    assert_eq!(decode_event("urgent>>0"), Ok(Event::Urgent { address: 0 }));
    assert_eq!(decode_event("windowtitle>>abc"), Ok(Event::WindowTitle { address: 0xabc }));
    assert_eq!(decode_event("closewindow>>0x10"), Err(Error::InvalidAddress(text("0x10"))));
    assert_eq!(decode_event("closewindow>>-1"), Err(Error::InvalidAddress(text("-1"))));
    assert_eq!(decode_event("closewindow>>+"), Err(Error::InvalidAddress(text("+"))));
    assert_eq!(decode_event("closewindow>> ff"), Err(Error::InvalidAddress(text(" ff"))));
}

#[test]
fn address_beyond_the_word_is_refused() {
    let max = format!("closewindow>>{:x}", usize::MAX);
    assert_eq!(decode_event(&max), Ok(Event::CloseWindow { address: usize::MAX }));
    let over = format!("closewindow>>1{:x}", usize::MAX);
    assert!(matches!(decode_event(&over), Err(Error::InvalidAddress(_))));
}

#[test]
fn flags_are_zero_or_one() {
    assert_eq!(decode_event("fullscreen>>1"), Ok(Event::FullScreen { active: true }));
    assert_eq!(decode_event("fullscreen>>0"), Ok(Event::FullScreen { active: false }));
    assert_eq!(decode_event("fullscreen>>2"), Err(Error::InvalidFlag(text("2"))));
    assert_eq!(decode_event("fullscreen>>"), Err(Error::InvalidFlag(text(""))));
    assert_eq!(decode_event("fullscreen>>true"), Err(Error::InvalidFlag(text("true"))));
    assert_eq!(
        decode_event("changefloatingmode>>a0,1"),
        Ok(Event::ChangeFloatingMode { address: 0xa0, active: true })
    );
    assert_eq!(
        decode_event("minimize>>a0,0"),
        Ok(Event::Minimize { address: 0xa0, active: false })
    );
    assert_eq!(decode_event("minimize>>a0,x"), Err(Error::InvalidFlag(text("x"))));
    assert_eq!(decode_event("minimize>>zz,x"), Err(Error::InvalidAddress(text("zz"))));
}

#[test]
fn open_window_keeps_commas_in_title() {
    assert_eq!(
        decode_event("openwindow>>1f,2,firefox,Hello, world, again"),
        Ok(Event::OpenWindow {
            address: 0x1f,
            workspace: text("2"),
            class: text("firefox"),
            title: text("Hello, world, again"),
        })
    );
    assert_eq!(
        decode_event("openwindow>>zz,2,firefox,t"),
        Err(Error::InvalidAddress(text("zz")))
    );
    assert_eq!(
        decode_event("movewindow>>1f,special"),
        Ok(Event::MoveWindow { address: 0x1f, workspace: text("special") })
    );
}

#[test]
fn screen_cast_owner() {
    assert_eq!(
        decode_event("screencast>>1,0"),
        Ok(Event::ScreenCast { state: true, owner: ScreenCastOwner::Monitor })
    );
    assert_eq!(
        decode_event("screencast>>0,1"),
        Ok(Event::ScreenCast { state: false, owner: ScreenCastOwner::Window })
    );
    assert_eq!(decode_event("screencast>>1,2"), Err(Error::InvalidFlag(text("2"))));
    assert_eq!(decode_event("screencast>>1"), Err(Error::MissingField(text("screencast"))));
}

#[test]
fn single_text_events() {
    assert_eq!(decode_event("monitorremoved>>DP-2"), Ok(Event::MonitorRemoved { monitor: text("DP-2") }));
    assert_eq!(decode_event("monitoradded>>DP-2"), Ok(Event::MonitorAdded { monitor: text("DP-2") }));
    assert_eq!(decode_event("createworkspace>>7"), Ok(Event::CreateWorkspace { name: text("7") }));
    assert_eq!(decode_event("destroyworkspace>>7"), Ok(Event::DestroyWorkspace { name: text("7") }));
    assert_eq!(decode_event("openlayer>>waybar"), Ok(Event::OpenLayer { name: text("waybar") }));
    assert_eq!(decode_event("closelayer>>waybar"), Ok(Event::CloseLayer { name: text("waybar") }));
    assert_eq!(decode_event("submap>>resize"), Ok(Event::SubMap { name: text("resize") }));
}

#[test]
fn non_ascii_fields_survive() {
    assert_eq!(
        decode_event("activewindow>>端末,日本語, タイトル"),
        Ok(Event::ActiveWindow { class: text("端末"), title: text("日本語, タイトル") })
    );
}

#[test]
fn encodes_each_shape() {
    assert_eq!(encode_event(&Event::Workspace { name: text("3") }), "workspace>>3");
    assert_eq!(
        encode_event(&Event::OpenWindow {
            address: 0x1f,
            workspace: text("2"),
            class: text("firefox"),
            title: text("a,b"),
        }),
        "openwindow>>1f,2,firefox,a,b"
    );
    assert_eq!(encode_event(&Event::ActiveWindowV2 { address: None }), "activewindowv2>>,");
    assert_eq!(encode_event(&Event::ActiveWindowV2 { address: Some(0) }), "activewindowv2>>0");
    assert_eq!(
        encode_event(&Event::ScreenCast { state: true, owner: ScreenCastOwner::Window }),
        "screencast>>1,1"
    );
    assert_eq!(
        encode_event(&Event::Minimize { address: 0xABCDEF, active: false }),
        "minimize>>abcdef,0"
    );
    assert_eq!(
        encode_event(&Event::CloseWindow { address: usize::MAX }),
        format!("closewindow>>{:x}", usize::MAX)
    );
}

#[test]
fn decode_encode_decode_gives_the_same_event() {
    let lines = [
        "workspace>>3",
        "focusedmon>>DP-1,2",
        "activewindow>>kitty,vim a,b",
        "activewindowv2>>,",
        "activewindowv2>>+00Ff",
        "fullscreen>>1",
        "monitorremoved>>DP-2",
        "monitoradded>>DP-2",
        "createworkspace>>7",
        "destroyworkspace>>7",
        "moveworkspace>>4,HDMI-A-1",
        "activelayout>>kbd,English (US)",
        "openwindow>>001F,2,firefox,Hello, world",
        "closewindow>>FF",
        "movewindow>>1f,special",
        "openlayer>>waybar",
        "closelayer>>waybar",
        "submap>>",
        "changefloatingmode>>A0,1",
        "urgent>>0",
        "minimize>>a0,0",
        "screencast>>1,0",
        "windowtitle>>abc",
    ];
    for line in lines {
        let event = decode_event(line).unwrap();
        let written = encode_event(&event);
        assert_eq!(decode_event(&written), Ok(event));
    }
}

#[test]
fn encode_then_decode_gives_the_event_back() {
    let events = [
        Event::Workspace { name: text("a,b>>c") },
        Event::FocusedMonitor { monitor: text("DP-1"), workspace: text("1,2") },
        Event::ActiveWindow { class: text(""), title: text(",") },
        Event::ActiveWindowV2 { address: None },
        Event::ActiveWindowV2 { address: Some(usize::MAX) },
        Event::FullScreen { active: false },
        Event::MoveWorkspace { workspace: text("w"), monitor: text("m") },
        Event::ActiveLayout { keyboard_name: text("k"), layout_name: text("l,l") },
        Event::OpenWindow {
            address: 0,
            workspace: text(""),
            class: text(""),
            title: text(",,"),
        },
        Event::MoveWindow { address: 10, workspace: text(",") },
        Event::ChangeFloatingMode { address: 0xff, active: true },
        Event::Minimize { address: 1, active: false },
        Event::ScreenCast { state: false, owner: ScreenCastOwner::Monitor },
        Event::ScreenCast { state: true, owner: ScreenCastOwner::Window },
        Event::WindowTitle { address: 0xdead },
    ];
    for event in events {
        assert_eq!(decode_event(&encode_event(&event)), Ok(event));
    }
}

#[test]
fn comma_in_an_inner_field_does_not_come_back() {
    let event = Event::FocusedMonitor { monitor: text("a,b"), workspace: text("c") };
    assert_eq!(
        decode_event(&encode_event(&event)),
        Ok(Event::FocusedMonitor { monitor: text("a"), workspace: text("b,c") })
    );
}
