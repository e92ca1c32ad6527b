//! What holds of the event codec as a whole.

use vstd::prelude::*;
use crate::hyprland::codec::{
    address_of,
    decode_line,
    decode_payload,
    encode_line,
    event_name,
    event_payload,
    flag_of,
    flag_text,
    pair_of,
};
use crate::hyprland::error::ErrorView;
use crate::hyprland::events::{EventView, ScreenCastOwner};
use crate::number::{
    hex_digit_value,
    hex_text,
    lemma_hex_text_value,
    lemma_parse_hex_text,
    parse_hex_spec,
};
use crate::text::{lemma_split_clean_head, lemma_split_rejoins, occurs_at, split_once};

verus! {

/// Whether `name` is the name of an event that the codec knows.
pub open spec fn is_event_name(name: Seq<char>) -> bool {
    ||| name == "workspace"@
    ||| name == "focusedmon"@
    ||| name == "activewindow"@
    ||| name == "activewindowv2"@
    ||| name == "fullscreen"@
    ||| name == "monitorremoved"@
    ||| name == "monitoradded"@
    ||| name == "createworkspace"@
    ||| name == "destroyworkspace"@
    ||| name == "moveworkspace"@
    ||| name == "activelayout"@
    ||| name == "openwindow"@
    ||| name == "closewindow"@
    ||| name == "movewindow"@
    ||| name == "openlayer"@
    ||| name == "closelayer"@
    ||| name == "submap"@
    ||| name == "changefloatingmode"@
    ||| name == "urgent"@
    ||| name == "minimize"@
    ||| name == "screencast"@
    ||| name == "windowtitle"@
}

/// No event name holds the character that the separator begins with.
proof fn lemma_names_hold_no_separator(name: Seq<char>)
    requires
        is_event_name(name),
    ensures
        forall|j: int| 0 <= j < name.len() ==> name[j] != '>',
{
    reveal_strlit("workspace");
    reveal_strlit("focusedmon");
    reveal_strlit("activewindow");
    reveal_strlit("activewindowv2");
    reveal_strlit("fullscreen");
    reveal_strlit("monitorremoved");
    reveal_strlit("monitoradded");
    reveal_strlit("createworkspace");
    reveal_strlit("destroyworkspace");
    reveal_strlit("moveworkspace");
    reveal_strlit("activelayout");
    reveal_strlit("openwindow");
    reveal_strlit("closewindow");
    reveal_strlit("movewindow");
    reveal_strlit("openlayer");
    reveal_strlit("closelayer");
    reveal_strlit("submap");
    reveal_strlit("changefloatingmode");
    reveal_strlit("urgent");
    reveal_strlit("minimize");
    reveal_strlit("screencast");
    reveal_strlit("windowtitle");
}

/// A line that begins with a known name and the separator is split there,
/// whatever the payload holds.
pub proof fn lemma_named_line_splits(name: Seq<char>, payload: Seq<char>)
    requires
        is_event_name(name),
    ensures
        split_once(name + ">>"@ + payload, ">>"@) == Some((name, payload)),
{
    lemma_names_hold_no_separator(name);
    reveal_strlit(">>");
    lemma_split_clean_head(name, ">>"@, payload);
}

/// Every event travels under a known name.
pub proof fn lemma_event_names_are_known(event: EventView)
    ensures
        is_event_name(event_name(event)),
{
}

/// A written address, followed or not by a comma and more, is read back as
/// the address written.
proof fn lemma_written_address(address: usize, rest: Seq<char>)
    ensures
        address_of(hex_text(address as nat)) == Ok::<usize, ErrorView>(address),
        hex_text(address as nat) != ","@,
        split_once(hex_text(address as nat) + ","@ + rest, ","@) == Some(
            (hex_text(address as nat), rest),
        ),
{
    let text = hex_text(address as nat);
    lemma_parse_hex_text(address);
    lemma_hex_text_value(address as nat);
    reveal_strlit(",");
    assert(hex_digit_value(',') is None);
    assert(hex_digit_value(text[0]) is Some);
    assert forall|j: int| 0 <= j < text.len() implies text[j] != ","@[0] by {
        assert(hex_digit_value(text[j]) is Some);
    }
    lemma_split_clean_head(text, ","@, rest);
}

/// A written flag is read back as the flag written.
proof fn lemma_written_flag(flag: bool)
    ensures
        flag_of(flag_text(flag)) == Ok::<bool, ErrorView>(flag),
{
    reveal_strlit("0");
    reveal_strlit("1");
    assert("0"@[0] == '0' && "1"@[0] == '1');
}

/// A line whose name is none of the known events is refused as an unknown
/// event that carries that name, whatever its payload; and no other line is
/// refused so.
pub proof fn law_unknown_name_is_refused(line: Seq<char>)
    ensures
        ({
            let parts = split_once(line, ">>"@);
            parts is Some && !is_event_name((parts->0).0) ==> decode_line(line) == Err::<
                EventView,
                ErrorView,
            >(ErrorView::UnknownEvent((parts->0).0))
        }),
        decode_line(line) matches Err(ErrorView::UnknownEvent(name)) ==> !is_event_name(name)
            && split_once(line, ">>"@) is Some && (split_once(line, ">>"@)->0).0 == name,
{
    if split_once(line, ">>"@) is Some {
        let (name, data) = split_once(line, ">>"@)->0;
        lemma_known_name_is_never_unknown(name, data);
    }
}

/// Under a known name a payload is decoded or refused for what it holds,
/// never for its name.
proof fn lemma_known_name_is_never_unknown(name: Seq<char>, data: Seq<char>)
    ensures
        decode_payload(name, data) is Err && decode_payload(name, data)->Err_0 is UnknownEvent
            ==> !is_event_name(name) && decode_payload(name, data)->Err_0
            == ErrorView::UnknownEvent(name),
{
}

/// The payload of `activewindowv2`: a comma alone stands for no address, a
/// hexadecimal number for that address, and every other token is refused as
/// an invalid address.
pub proof fn law_address_or_none(token: Seq<char>)
    ensures
        decode_line("activewindowv2"@ + ">>"@ + token) == (if token == ","@ {
            Ok::<EventView, ErrorView>(EventView::ActiveWindowV2 { address: None })
        } else {
            match parse_hex_spec(token) {
                Some(address) => Ok(EventView::ActiveWindowV2 { address: Some(address) }),
                None => Err(ErrorView::InvalidAddress(token)),
            }
        }),
{
    lemma_named_line_splits("activewindowv2"@, token);
    lemma_names_differ();
}

/// What tells the event names apart: no two agree in their length and in
/// their characters at the positions 0, 1 and 6.
proof fn lemma_names_differ()
    ensures
        "workspace"@.len() == 9,
        "workspace"@[0] == 'w',
        "workspace"@[1] == 'o',
        "workspace"@[6] == 'a',
        "focusedmon"@.len() == 10,
        "focusedmon"@[0] == 'f',
        "focusedmon"@[1] == 'o',
        "focusedmon"@[6] == 'd',
        "activewindow"@.len() == 12,
        "activewindow"@[0] == 'a',
        "activewindow"@[1] == 'c',
        "activewindow"@[6] == 'w',
        "activewindowv2"@.len() == 14,
        "activewindowv2"@[0] == 'a',
        "activewindowv2"@[1] == 'c',
        "activewindowv2"@[6] == 'w',
        "fullscreen"@.len() == 10,
        "fullscreen"@[0] == 'f',
        "fullscreen"@[1] == 'u',
        "fullscreen"@[6] == 'r',
        "monitorremoved"@.len() == 14,
        "monitorremoved"@[0] == 'm',
        "monitorremoved"@[1] == 'o',
        "monitorremoved"@[6] == 'r',
        "monitoradded"@.len() == 12,
        "monitoradded"@[0] == 'm',
        "monitoradded"@[1] == 'o',
        "monitoradded"@[6] == 'r',
        "createworkspace"@.len() == 15,
        "createworkspace"@[0] == 'c',
        "createworkspace"@[1] == 'r',
        "createworkspace"@[6] == 'w',
        "destroyworkspace"@.len() == 16,
        "destroyworkspace"@[0] == 'd',
        "destroyworkspace"@[1] == 'e',
        "destroyworkspace"@[6] == 'y',
        "moveworkspace"@.len() == 13,
        "moveworkspace"@[0] == 'm',
        "moveworkspace"@[1] == 'o',
        "moveworkspace"@[6] == 'r',
        "activelayout"@.len() == 12,
        "activelayout"@[0] == 'a',
        "activelayout"@[1] == 'c',
        "activelayout"@[6] == 'l',
        "openwindow"@.len() == 10,
        "openwindow"@[0] == 'o',
        "openwindow"@[1] == 'p',
        "openwindow"@[6] == 'n',
        "closewindow"@.len() == 11,
        "closewindow"@[0] == 'c',
        "closewindow"@[1] == 'l',
        "closewindow"@[6] == 'i',
        "movewindow"@.len() == 10,
        "movewindow"@[0] == 'm',
        "movewindow"@[1] == 'o',
        "movewindow"@[6] == 'n',
        "openlayer"@.len() == 9,
        "openlayer"@[0] == 'o',
        "openlayer"@[1] == 'p',
        "openlayer"@[6] == 'y',
        "closelayer"@.len() == 10,
        "closelayer"@[0] == 'c',
        "closelayer"@[1] == 'l',
        "closelayer"@[6] == 'a',
        "submap"@.len() == 6,
        "submap"@[0] == 's',
        "submap"@[1] == 'u',
        "changefloatingmode"@.len() == 18,
        "changefloatingmode"@[0] == 'c',
        "changefloatingmode"@[1] == 'h',
        "changefloatingmode"@[6] == 'f',
        "urgent"@.len() == 6,
        "urgent"@[0] == 'u',
        "urgent"@[1] == 'r',
        "minimize"@.len() == 8,
        "minimize"@[0] == 'm',
        "minimize"@[1] == 'i',
        "minimize"@[6] == 'z',
        "screencast"@.len() == 10,
        "screencast"@[0] == 's',
        "screencast"@[1] == 'c',
        "screencast"@[6] == 'c',
        "windowtitle"@.len() == 11,
        "windowtitle"@[0] == 'w',
        "windowtitle"@[1] == 'i',
        "windowtitle"@[6] == 't',
{
    reveal_strlit("workspace");
    reveal_strlit("focusedmon");
    reveal_strlit("activewindow");
    reveal_strlit("activewindowv2");
    reveal_strlit("fullscreen");
    reveal_strlit("monitorremoved");
    reveal_strlit("monitoradded");
    reveal_strlit("createworkspace");
    reveal_strlit("destroyworkspace");
    reveal_strlit("moveworkspace");
    reveal_strlit("activelayout");
    reveal_strlit("openwindow");
    reveal_strlit("closewindow");
    reveal_strlit("movewindow");
    reveal_strlit("openlayer");
    reveal_strlit("closelayer");
    reveal_strlit("submap");
    reveal_strlit("changefloatingmode");
    reveal_strlit("urgent");
    reveal_strlit("minimize");
    reveal_strlit("screencast");
    reveal_strlit("windowtitle");
}

/// Whether `text` holds no comma.
pub open spec fn comma_free(text: Seq<char>) -> bool {
    forall|i: int| 0 <= i < text.len() ==> text[i] != ','
}

/// Whether `event` can travel: each of its texts but the last holds no
/// comma, since a comma there would end the field.
pub open spec fn is_wire_event(event: EventView) -> bool {
    match event {
        EventView::FocusedMonitor { monitor, .. } => comma_free(monitor),
        EventView::ActiveWindow { class, .. } => comma_free(class),
        EventView::MoveWorkspace { workspace, .. } => comma_free(workspace),
        EventView::ActiveLayout { keyboard_name, .. } => comma_free(keyboard_name),
        EventView::OpenWindow { workspace, class, .. } => comma_free(workspace) && comma_free(
            class,
        ),
        _ => true,
    }
}

/// A text without comma is split off again after it was joined to another
/// by a comma.
proof fn lemma_comma_free_head(name: Seq<char>, head: Seq<char>, tail: Seq<char>)
    requires
        comma_free(head),
    ensures
        pair_of(name, head + ","@ + tail) == Ok::<(Seq<char>, Seq<char>), ErrorView>(
            (head, tail),
        ),
{
    reveal_strlit(",");
    lemma_split_clean_head(head, ","@, tail);
}

/// Every event that was decoded can travel.
pub proof fn law_decoded_events_can_travel(line: Seq<char>)
    ensures
        decode_line(line) matches Ok(event) ==> is_wire_event(event),
{
    if decode_line(line) is Ok {
        let (name, data) = split_once(line, ">>"@)->0;
        reveal_strlit(",");
        if name == "workspace"@ {
        } else if name == "focusedmon"@ {
            lemma_first_field_is_comma_free(name, data);
        } else if name == "activewindow"@ {
            lemma_first_field_is_comma_free(name, data);
        } else if name == "activewindowv2"@ {
        } else if name == "fullscreen"@ {
        } else if name == "monitorremoved"@ {
        } else if name == "monitoradded"@ {
        } else if name == "createworkspace"@ {
        } else if name == "destroyworkspace"@ {
        } else if name == "moveworkspace"@ {
            lemma_first_field_is_comma_free(name, data);
        } else if name == "activelayout"@ {
            lemma_first_field_is_comma_free(name, data);
        } else if name == "openwindow"@ {
            let (token, rest) = pair_of(name, data)->Ok_0;
            lemma_first_field_is_comma_free(name, rest);
            let (workspace, rest2) = pair_of(name, rest)->Ok_0;
            lemma_first_field_is_comma_free(name, rest2);
        }
    }
}

/// The first field of a payload that was split holds no comma.
proof fn lemma_first_field_is_comma_free(name: Seq<char>, data: Seq<char>)
    requires
        pair_of(name, data) is Ok,
    ensures
        comma_free((pair_of(name, data)->Ok_0).0),
{
    reveal_strlit(",");
    lemma_split_rejoins(data, ","@);
    let (head, tail) = pair_of(name, data)->Ok_0;
    assert forall|i: int| 0 <= i < head.len() implies head[i] != ',' by {
        if head[i] == ',' {
            assert(data[i] == head[i]);
            assert(data.subrange(i, i + 1) =~= ","@);
            assert(occurs_at(data, ","@, i));
        }
    }
}

/// Decoding the line written for an event that can travel gives the event
/// back, field by field.
#[verifier::rlimit(40)]
pub proof fn law_encode_decode(event: EventView)
    requires
        is_wire_event(event),
    ensures
        decode_line(encode_line(event)) == Ok::<EventView, ErrorView>(event),
{
    let name = event_name(event);
    lemma_event_names_are_known(event);
    lemma_named_line_splits(name, event_payload(event));
    lemma_names_differ();
    reveal_strlit(",");
    match event {
        EventView::FocusedMonitor { monitor, workspace } => {
            lemma_comma_free_head(name, monitor, workspace);
        },
        EventView::ActiveWindow { class, title } => {
            lemma_comma_free_head(name, class, title);
        },
        EventView::ActiveWindowV2 { address } => {
            if address is Some {
                lemma_written_address(address->0, Seq::empty());
            }
        },
        EventView::FullScreen { active } => {
            lemma_written_flag(active);
        },
        EventView::MoveWorkspace { workspace, monitor } => {
            lemma_comma_free_head(name, workspace, monitor);
        },
        EventView::ActiveLayout { keyboard_name, layout_name } => {
            lemma_comma_free_head(name, keyboard_name, layout_name);
        },
        EventView::OpenWindow { address, workspace, class, title } => {
            let rest2 = class + ","@ + title;
            let rest = workspace + ","@ + rest2;
            lemma_written_address(address, rest);
            lemma_comma_free_head(name, workspace, rest2);
            lemma_comma_free_head(name, class, title);
            assert(event_payload(event) =~= hex_text(address as nat) + ","@ + rest);
        },
        EventView::CloseWindow { address } => {
            lemma_written_address(address, Seq::empty());
        },
        EventView::MoveWindow { address, workspace } => {
            lemma_written_address(address, workspace);
        },
        EventView::ChangeFloatingMode { address, active } => {
            lemma_written_address(address, flag_text(active));
            lemma_written_flag(active);
        },
        EventView::Urgent { address } => {
            lemma_written_address(address, Seq::empty());
        },
        EventView::Minimize { address, active } => {
            lemma_written_address(address, flag_text(active));
            lemma_written_flag(active);
        },
        EventView::ScreenCast { state, owner } => {
            lemma_written_flag(state);
            lemma_written_flag(owner == ScreenCastOwner::Window);
            lemma_flag_holds_no_comma(state);
            lemma_comma_free_head(
                name,
                flag_text(state),
                flag_text(owner == ScreenCastOwner::Window),
            );
        },
        EventView::WindowTitle { address } => {
            lemma_written_address(address, Seq::empty());
        },
        _ => {},
    }
}

/// The token of a flag holds no comma.
proof fn lemma_flag_holds_no_comma(flag: bool)
    ensures
        comma_free(flag_text(flag)),
{
    reveal_strlit("0");
    reveal_strlit("1");
}

/// Writing an event that was decoded from a line, and decoding what was
/// written, gives the same event again, field by field: the line may change
/// (an address is written in one way only), the event does not.
pub proof fn law_decode_encode_decode(line: Seq<char>)
    ensures
        decode_line(line) matches Ok(event) ==> decode_line(encode_line(event)) == Ok::<
            EventView,
            ErrorView,
        >(event),
{
    if decode_line(line) is Ok {
        law_decoded_events_can_travel(line);
        law_encode_decode(decode_line(line)->Ok_0);
    }
}

} // verus!
