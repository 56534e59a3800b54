use xrb::error::{decode_error, encode_error, ErrorFrame};
use xrb::event::{
    decode_event, encode_event, ClientMessage, ColormapNotify, ConfigureRequest, EnterWindow, Event, GraphicsExposure, GravityChanged, KeyPress,
    Keymap, MapRequest, MappingNotify, Motion, NoExposure, PropertyChanged, SelectionClear,
    SelectionNotify, SelectionRequest,
    VisibilityChanged, WindowCirculated, WindowConfigured, WindowCreated, WindowFocused,
    WindowMapped, WindowReparented, WindowResized, WindowUnmapped,
};
use xrb::kinds::{
    AddOrRemove, EnterLeaveDetail, FocusDetail, FocusGrabMode, GrabMode, MappingNotifyRequest,
    MotionNotificationType, Placement, PropertyChange, StackMode, ToggleOrDefault, Visibility,
};
use xrb::names::ListExtensionsReply;
use xrb::reply::{decode_reply, GetScreenSaverReply, QueryExtensionReply, Reply};
use xrb::request::{
    decode_request, ChangeSavedWindows, GetScreenSaver, ListExtensions, QueryExtension, Request,
    SetScreenSaver,
};
use xrb::sentinel::{Delay, Sec};
use xrb::types::{
    Atom, Button, Colormap, ConfigureWindowMask, CurrentableTime, Drawable, EnterLeaveMask, Keycode,
    ModifierMask, Point, Timestamp, Window,
};
use xrb::wire::{pad, DecodeError, EncodeError, Wire};

fn encode<T: Wire>(v: &T) -> Vec<u8> {
    let mut buf = Vec::new();
    v.write_to(&mut buf);
    buf
}

fn key_press() -> KeyPress {
    KeyPress {
        keycode: Keycode(38),
        sequence: 0x1234,
        time: Timestamp(0xDEAD_BEEF),
        root: Window(0x100),
        event_window: Window(0x0040_0001),
        child_window: Some(Window(0x0040_0002)),
        root_coords: Point { x: -5, y: 300 },
        event_coords: Point { x: 12, y: -1 },
        modifiers: ModifierMask { bits: ModifierMask::SHIFT | ModifierMask::BUTTON_1 },
        same_screen: true,
    }
}

#[test]
fn delay_default_is_minus_one() {
    assert_eq!(encode(&Delay::Default), vec![0xFF, 0xFF]);
    assert_eq!(Delay::read_from(&[0xFF, 0xFF], 0), Ok((Delay::Default, 2)));
}

#[test]
fn delay_disabled_is_zero() {
    assert_eq!(encode(&Delay::Disabled), vec![0x00, 0x00]);
    assert_eq!(Delay::read_from(&[0x00, 0x00], 0), Ok((Delay::Disabled, 2)));
}

#[test]
fn delay_enabled_thirty_seconds() {
    assert_eq!(encode(&Delay::Enabled(Sec(30))), vec![0x1E, 0x00]);
    assert_eq!(Delay::read_from(&[0x1E, 0x00], 0), Ok((Delay::Enabled(Sec(30)), 2)));
}

#[test]
fn delay_out_of_range_fails_conversion() {
    assert_eq!(Delay::read_from(&[0x00, 0x01], 0), Err(DecodeError::FailedConversion));
    assert_eq!(Delay::read_from(&[0xFE, 0xFF], 0), Err(DecodeError::FailedConversion));
    assert_eq!(Delay::read_from(&[0xFF, 0x00], 0), Ok((Delay::Enabled(Sec(255)), 2)));
}

#[test]
fn delay_truncated() {
    assert_eq!(Delay::read_from(&[0xFF], 0), Err(DecodeError::Truncated));
}

#[test]
fn pad_amounts() {
    assert_eq!(pad(0), 0);
    assert_eq!(pad(1), 3);
    assert_eq!(pad(2), 2);
    assert_eq!(pad(3), 1);
    assert_eq!(pad(7), 1);
    assert_eq!(pad(8), 0);
}

#[test]
fn query_extension_seven_byte_name() {
    let req = Request::QueryExtension(QueryExtension { name: b"MIT-SHM".to_vec() });
    let bytes = req.encode().unwrap();
    let mut expected = vec![98, 0, 4, 0, 7, 0, 0, 0];
    expected.extend_from_slice(b"MIT-SHM");
    expected.push(0);
    assert_eq!(bytes, expected);
    assert_eq!(bytes.len() % 4, 0);
    assert_eq!(req.x11_size(), 16);
    assert_eq!(decode_request(&bytes), Ok((req, 16)));
}

#[test]
fn query_extension_empty_name() {
    let req = Request::QueryExtension(QueryExtension { name: Vec::new() });
    let bytes = req.encode().unwrap();
    assert_eq!(bytes, vec![98, 0, 2, 0, 0, 0, 0, 0]);
    assert_eq!(decode_request(&bytes), Ok((req, 8)));
}

#[test]
fn query_extension_length_field_decides_what_is_read() {
    // a name of 5 bytes, 3 bytes of padding, then bytes of another frame
    let mut bytes = vec![98, 0, 4, 0, 5, 0, 0, 0];
    bytes.extend_from_slice(b"RANDR");
    bytes.extend_from_slice(&[0xAA, 0xBB, 0xCC]);
    bytes.extend_from_slice(&[99, 0, 1, 0, 7, 7]);
    let (req, used) = decode_request(&bytes).unwrap();
    assert_eq!(used, 16);
    assert_eq!(req, Request::QueryExtension(QueryExtension { name: b"RANDR".to_vec() }));
    assert_eq!(decode_request(&bytes[used..]), Ok((Request::ListExtensions(ListExtensions), 4)));
}

#[test]
fn query_extension_name_too_long() {
    let req = Request::QueryExtension(QueryExtension { name: vec![b'a'; 65536] });
    assert_eq!(req.encode(), Err(EncodeError::CapacityExceeded));
    let mut buf = vec![1, 2, 3];
    assert_eq!(req.write_to(&mut buf), Err(EncodeError::CapacityExceeded));
    assert_eq!(buf, vec![1, 2, 3]);
}

#[test]
fn query_extension_longest_name() {
    let req = Request::QueryExtension(QueryExtension { name: vec![b'z'; 65535] });
    let bytes = req.encode().unwrap();
    assert_eq!(bytes.len(), 8 + 65535 + 1);
    assert_eq!(&bytes[2..6], &[0x02, 0x40, 0xFF, 0xFF]);
    assert_eq!(decode_request(&bytes), Ok((req, 65544)));
}

#[test]
fn change_saved_windows_bytes() {
    let req = Request::ChangeSavedWindows(ChangeSavedWindows {
        change_mode: AddOrRemove::Remove,
        window: Window(0x0102_0304),
    });
    let bytes = req.encode().unwrap();
    assert_eq!(bytes, vec![6, 1, 2, 0, 0x04, 0x03, 0x02, 0x01]);
    assert_eq!(decode_request(&bytes), Ok((req, 8)));
}

#[test]
fn set_screen_saver_bytes() {
    let req = Request::SetScreenSaver(SetScreenSaver {
        timeout: Delay::Enabled(Sec(30)),
        interval: Delay::Default,
        prefer_blanking: ToggleOrDefault::Enabled,
        allow_expose_events: ToggleOrDefault::Default,
    });
    let bytes = req.encode().unwrap();
    assert_eq!(bytes, vec![107, 0, 3, 0, 0x1E, 0x00, 0xFF, 0xFF, 1, 2, 0, 0]);
    assert_eq!(decode_request(&bytes), Ok((req, 12)));
}

#[test]
fn set_screen_saver_zero_delay_reads_as_disabled() {
    let req = Request::SetScreenSaver(SetScreenSaver {
        timeout: Delay::Enabled(Sec(0)),
        interval: Delay::Disabled,
        prefer_blanking: ToggleOrDefault::Disabled,
        allow_expose_events: ToggleOrDefault::Disabled,
    });
    let bytes = req.encode().unwrap();
    let (back, _) = decode_request(&bytes).unwrap();
    match back {
        Request::SetScreenSaver(s) => assert_eq!(s.timeout, Delay::Disabled),
        _ => panic!("wrong request"),
    }
}

#[test]
fn fixed_requests_round_trip() {
    for req in [
        Request::ListExtensions(ListExtensions),
        Request::GetScreenSaver(GetScreenSaver),
    ] {
        let bytes = req.encode().unwrap();
        assert_eq!(bytes.len(), 4);
        assert_eq!(bytes[2..4], [1, 0]);
        assert_eq!(decode_request(&bytes), Ok((req, 4)));
    }
}

#[test]
fn request_truncated_by_last_byte() {
    let reqs = vec![
        Request::QueryExtension(QueryExtension { name: b"MIT-SHM".to_vec() }),
        Request::ChangeSavedWindows(ChangeSavedWindows {
            change_mode: AddOrRemove::Add,
            window: Window(9),
        }),
        Request::GetScreenSaver(GetScreenSaver),
    ];
    for req in reqs {
        let bytes = req.encode().unwrap();
        assert_eq!(decode_request(&bytes[..bytes.len() - 1]), Err(DecodeError::Truncated));
    }
}

#[test]
fn request_unknown_opcode() {
    assert_eq!(decode_request(&[200, 0, 1, 0]), Err(DecodeError::UnknownOpcode));
    assert_eq!(decode_request(&[]), Err(DecodeError::Truncated));
}

#[test]
fn request_invalid_discriminant() {
    assert_eq!(
        decode_request(&[6, 2, 2, 0, 1, 0, 0, 0]),
        Err(DecodeError::InvalidDiscriminant)
    );
}

#[test]
fn key_press_round_trip() {
    let e = Event::KeyPress(key_press());
    let bytes = encode_event(&e);
    assert_eq!(bytes.len(), 32);
    assert_eq!(e.x11_size(), 32);
    assert_eq!(&bytes[0..4], &[2, 38, 0x34, 0x12]);
    assert_eq!(&bytes[4..8], &[0xEF, 0xBE, 0xAD, 0xDE]);
    assert_eq!(Event::read_from(&bytes, 0), Ok((e, 32)));
}

#[test]
fn sent_event_flag_is_ignored() {
    let e = Event::KeyPress(key_press());
    let mut bytes = encode_event(&e);
    bytes[0] |= 0x80;
    assert_eq!(Event::read_from(&bytes, 0), Ok((e, 32)));
}

#[test]
fn absent_child_window_is_zero() {
    let mut k = key_press();
    k.child_window = None;
    let bytes = encode_event(&Event::KeyPress(k));
    assert_eq!(&bytes[16..20], &[0, 0, 0, 0]);
    assert_eq!(Event::read_from(&bytes, 0), Ok((Event::KeyPress(k), 32)));
}

#[test]
fn modifier_mask_all_bits_round_trip() {
    let mut k = key_press();
    k.modifiers = ModifierMask::from_bits_truncate(0xFFFF);
    assert_eq!(k.modifiers.bits, 0x1FFF);
    let bytes = encode_event(&Event::KeyPress(k));
    assert_eq!(Event::read_from(&bytes, 0), Ok((Event::KeyPress(k), 32)));
}

#[test]
fn modifier_mask_unused_bits_ignored() {
    let k = key_press();
    let mut bytes = encode_event(&Event::KeyPress(k));
    bytes[29] |= 0xE0;
    assert_eq!(Event::read_from(&bytes, 0), Ok((Event::KeyPress(k), 32)));
}

#[test]
fn other_events_round_trip() {
    let events = vec![
        Event::Motion(Motion {
            notification_type: MotionNotificationType::Hint,
            sequence: 7,
            time: Timestamp(1),
            root: Window(2),
            event_window: Window(3),
            child_window: None,
            root_coords: Point { x: 1, y: 2 },
            event_coords: Point { x: 3, y: 4 },
            modifiers: ModifierMask { bits: 0 },
            same_screen: false,
        }),
        Event::EnterWindow(EnterWindow {
            detail: EnterLeaveDetail::NonlinearIntermediate,
            sequence: 8,
            time: Timestamp(5),
            root: Window(6),
            event_window: Window(7),
            child_window: Some(Window(8)),
            root_coords: Point { x: i16::MIN, y: i16::MAX },
            event_coords: Point { x: 0, y: 0 },
            modifiers: ModifierMask { bits: ModifierMask::CONTROL },
            grab_mode: GrabMode::Ungrab,
            mask: EnterLeaveMask { bits: EnterLeaveMask::FOCUS | EnterLeaveMask::SAME_SCREEN },
        }),
        Event::WindowFocused(WindowFocused {
            detail: FocusDetail::NoFocus,
            sequence: 9,
            window: Window(10),
            grab_mode: FocusGrabMode::WhileGrabbed,
        }),
        Event::VisibilityChanged(VisibilityChanged {
            sequence: u16::MAX,
            window: Window(u32::MAX),
            visibility: Visibility::FullyObscured,
        }),
        Event::WindowCirculated(WindowCirculated {
            sequence: 1,
            event: Window(2),
            window: Window(3),
            placement: Placement::Bottom,
        }),
        Event::PropertyChanged(PropertyChanged {
            sequence: 2,
            window: Window(4),
            property: Atom(39),
            time: Timestamp(77),
            change: PropertyChange::Deleted,
        }),
        Event::MappingNotify(MappingNotify {
            sequence: 3,
            request: MappingNotifyRequest::Pointer,
            first_keycode: Keycode(8),
            count: 248,
        }),
    ];
    for e in events {
        let bytes = encode_event(&e);
        assert_eq!(bytes.len(), 32);
        assert_eq!(e.x11_size(), bytes.len());
        assert_eq!(Event::read_from(&bytes, 0), Ok((e, 32)));
        assert_eq!(Event::read_from(&bytes[..31], 0), Err(DecodeError::Truncated));
    }
}

#[test]
fn visibility_changed_bytes() {
    let e = Event::VisibilityChanged(VisibilityChanged {
        sequence: 0x0102,
        window: Window(0x0A0B_0C0D),
        visibility: Visibility::PartiallyObscured,
    });
    let bytes = encode_event(&e);
    let mut expected = vec![15, 0, 0x02, 0x01, 0x0D, 0x0C, 0x0B, 0x0A, 1];
    expected.resize(32, 0);
    assert_eq!(bytes, expected);
}

#[test]
fn event_invalid_discriminant() {
    let e = Event::VisibilityChanged(VisibilityChanged {
        sequence: 1,
        window: Window(1),
        visibility: Visibility::Unobscured,
    });
    let mut bytes = encode_event(&e);
    bytes[8] = 3;
    assert_eq!(Event::read_from(&bytes, 0), Err(DecodeError::InvalidDiscriminant));
}

#[test]
fn event_unknown_code() {
    let mut bytes = vec![0u8; 32];
    bytes[0] = 120;
    assert_eq!(Event::read_from(&bytes, 0), Err(DecodeError::UnknownOpcode));
    bytes[0] = 1;
    assert_eq!(Event::read_from(&bytes, 0), Err(DecodeError::UnknownOpcode));
}

#[test]
fn button_event_bytes() {
    let k = key_press();
    let e = Event::ButtonPress(xrb::event::ButtonPress {
        button: Button(3),
        sequence: k.sequence,
        time: k.time,
        root: k.root,
        event_window: k.event_window,
        child_window: k.child_window,
        root_coords: k.root_coords,
        event_coords: k.event_coords,
        modifiers: k.modifiers,
        same_screen: k.same_screen,
    });
    let bytes = encode_event(&e);
    assert_eq!(&bytes[0..2], &[4, 3]);
    assert_eq!(Event::read_from(&bytes, 0), Ok((e, 32)));
}

#[test]
fn get_screen_saver_reply_round_trip() {
    let r = Reply::GetScreenSaver(GetScreenSaverReply {
        sequence: 5,
        timeout: 600,
        interval: 0,
        prefer_blanking: true,
        allow_expose_events: false,
    });
    let mut bytes = Vec::new();
    r.write_to(&mut bytes);
    assert_eq!(bytes.len(), 32);
    assert_eq!(&bytes[0..12], &[1, 0, 5, 0, 0, 0, 0, 0, 0x58, 0x02, 0, 0]);
    assert_eq!(decode_reply(108, &bytes), Ok((r, 32)));
    assert_eq!(decode_reply(108, &bytes[..31]), Err(DecodeError::Truncated));
}

#[test]
fn query_extension_reply_round_trip() {
    let r = Reply::QueryExtension(QueryExtensionReply {
        sequence: 0xFFFF,
        present: true,
        major_opcode: 130,
        first_event: 65,
        first_error: 128,
    });
    let mut bytes = Vec::new();
    r.write_to(&mut bytes);
    assert_eq!(&bytes[0..12], &[1, 0, 0xFF, 0xFF, 0, 0, 0, 0, 1, 130, 65, 128]);
    assert_eq!(decode_reply(98, &bytes), Ok((r, 32)));
}

#[test]
fn reply_context_and_marker() {
    let mut bytes = vec![0u8; 32];
    bytes[0] = 1;
    assert_eq!(decode_reply(99, &bytes), Err(DecodeError::UnknownOpcode));
    bytes[0] = 0;
    assert_eq!(decode_reply(108, &bytes), Err(DecodeError::InvalidDiscriminant));
}

#[test]
fn error_frame_round_trip() {
    let e = ErrorFrame {
        code: 3,
        sequence: 0x0203,
        bad_value: 0x0040_0001,
        minor_opcode: 0,
        major_opcode: 6,
    };
    let bytes = encode_error(&e);
    assert_eq!(bytes.len(), 32);
    assert_eq!(&bytes[0..11], &[0, 3, 0x03, 0x02, 0x01, 0x00, 0x40, 0x00, 0, 0, 6]);
    assert_eq!(decode_error(&bytes), Ok((e, 32)));
    assert_eq!(decode_error(&bytes[..31]), Err(DecodeError::Truncated));
    let mut wrong = bytes.clone();
    wrong[0] = 1;
    assert_eq!(decode_error(&wrong), Err(DecodeError::InvalidDiscriminant));
}

#[test]
fn enum_codes() {
    assert_eq!(FocusDetail::of_code(7), Some(FocusDetail::NoFocus));
    assert_eq!(FocusDetail::of_code(8), None);
    assert_eq!(PropertyChange::Deleted.code(), 1);
    assert_eq!(EnterLeaveDetail::Nonlinear.code(), 3);
    assert_eq!(MappingNotifyRequest::of_code(1), Some(MappingNotifyRequest::Keyboard));
    assert_eq!(Visibility::read_from(&[9], 0), Err(DecodeError::InvalidDiscriminant));
}

#[test]
fn size_agrees_with_encoding() {
    assert_eq!(Delay::Default.x11_size(), encode(&Delay::Default).len());
    let s = SetScreenSaver {
        timeout: Delay::Default,
        interval: Delay::Disabled,
        prefer_blanking: ToggleOrDefault::Default,
        allow_expose_events: ToggleOrDefault::Enabled,
    };
    assert_eq!(s.x11_size(), encode(&s).len());
    let q = QueryExtension { name: b"BIG-REQUESTS".to_vec() };
    let mut buf = Vec::new();
    q.write_to(&mut buf).unwrap();
    assert_eq!(q.x11_size(), buf.len());
    assert_eq!(buf.len() + 1, 20);
}

#[test]
fn list_extensions_reply_bytes() {
    let r = ListExtensionsReply {
        sequence: 0x0102,
        names: vec![b"RANDR".to_vec(), b"XKB".to_vec()],
    };
    let mut bytes = Vec::new();
    r.write_to(&mut bytes).unwrap();
    let mut expected = vec![1, 2, 0x02, 0x01, 3, 0, 0, 0];
    expected.resize(32, 0);
    expected.push(5);
    expected.extend_from_slice(b"RANDR");
    expected.push(3);
    expected.extend_from_slice(b"XKB");
    expected.extend_from_slice(&[0, 0]);
    assert_eq!(bytes, expected);
    assert_eq!(bytes.len() % 4, 0);
    assert_eq!(ListExtensionsReply::decode(&bytes), Ok((r, 44)));
    assert_eq!(ListExtensionsReply::decode(&bytes[..43]), Err(DecodeError::Truncated));
}

#[test]
fn list_extensions_reply_empty_and_empty_names() {
    let none = ListExtensionsReply { sequence: 1, names: Vec::new() };
    let mut bytes = Vec::new();
    none.write_to(&mut bytes).unwrap();
    assert_eq!(bytes.len(), 32);
    assert_eq!(ListExtensionsReply::decode(&bytes), Ok((none, 32)));

    let blank = ListExtensionsReply { sequence: 2, names: vec![Vec::new(), vec![b'x'; 255]] };
    let mut bytes = Vec::new();
    blank.write_to(&mut bytes).unwrap();
    assert_eq!(bytes.len(), 32 + 1 + 256 + 3);
    assert_eq!(ListExtensionsReply::decode(&bytes), Ok((blank, 292)));
}

#[test]
fn list_extensions_reply_count_decides_what_is_read() {
    let r = ListExtensionsReply { sequence: 3, names: vec![b"SHAPE".to_vec()] };
    let mut bytes = Vec::new();
    r.write_to(&mut bytes).unwrap();
    bytes.extend_from_slice(&[9, 9, 9, 9]);
    assert_eq!(ListExtensionsReply::decode(&bytes), Ok((r, 40)));
    bytes[1] = 0;
    assert_eq!(
        ListExtensionsReply::decode(&bytes),
        Ok((ListExtensionsReply { sequence: 3, names: Vec::new() }, 32))
    );
}

#[test]
fn list_extensions_reply_too_large() {
    let long = ListExtensionsReply { sequence: 0, names: vec![vec![b'a'; 256]] };
    let mut buf = vec![7];
    assert_eq!(long.write_to(&mut buf), Err(EncodeError::CapacityExceeded));
    assert_eq!(buf, vec![7]);
    let many = ListExtensionsReply { sequence: 0, names: vec![Vec::new(); 256] };
    assert_eq!(many.write_to(&mut buf), Err(EncodeError::CapacityExceeded));
    assert_eq!(ListExtensionsReply::decode(&[0; 32]), Err(DecodeError::InvalidDiscriminant));
}

#[test]
fn enable_big_requests_frames() {
    let bytes = xrb::request::encode_enable_big_requests(133);
    assert_eq!(bytes, vec![133, 0, 1, 0]);
    let r = xrb::reply::EnableBigRequestsReply { sequence: 4, maximum_request_length: 0x003F_FFFF };
    let mut buf = Vec::new();
    r.write_to(&mut buf);
    assert_eq!(&buf[..11], &[0, 4, 0, 0, 0, 0, 0, 0xFF, 0xFF, 0x3F, 0]);
    assert_eq!(xrb::reply::EnableBigRequestsReply::read_from(&buf, 0), Ok((r, 31)));
}

#[test]
fn keymap_has_no_sequence_number() {
    let mut keys = [0u8; 31];
    for (i, k) in keys.iter_mut().enumerate() {
        *k = (i as u8) * 8 + 1;
    }
    keys[30] = 0xFF;
    let e = Event::Keymap(Keymap { keys });
    let bytes = encode_event(&e);
    assert_eq!(bytes.len(), 32);
    assert_eq!(bytes[0], 11);
    assert_eq!(&bytes[1..], &keys[..]);
    assert_eq!(Event::read_from(&bytes, 0), Ok((e, 32)));
    assert_eq!(Event::read_from(&bytes[..31], 0), Err(DecodeError::Truncated));
}

#[test]
fn event_frame_functions() {
    let e = Event::WindowFocused(WindowFocused {
        detail: FocusDetail::Pointer,
        sequence: 0x0A0B,
        window: Window(0x0102_0304),
        grab_mode: FocusGrabMode::Grab,
    });
    let bytes = encode_event(&e);
    let mut expected = vec![9, 5, 0x0B, 0x0A, 0x04, 0x03, 0x02, 0x01, 1];
    expected.resize(32, 0);
    assert_eq!(bytes, expected);
    assert_eq!(decode_event(&bytes), Ok((e, 32)));
    assert_eq!(decode_event(&[]), Err(DecodeError::Truncated));
}

#[test]
fn structure_events_round_trip() {
    let events = vec![
        Event::GraphicsExposure(GraphicsExposure {
            sequence: 1,
            drawable: Drawable(2),
            x: 3,
            y: 4,
            width: 5,
            height: 6,
            minor_opcode: 0,
            count: 2,
            major_opcode: 62,
        }),
        Event::NoExposure(NoExposure { sequence: 2, drawable: Drawable(3), minor_opcode: 0, major_opcode: 62 }),
        Event::WindowCreated(WindowCreated {
            sequence: 3,
            parent: Window(1),
            window: Window(2),
            x: -10,
            y: 20,
            width: 640,
            height: 480,
            border_width: 1,
            override_redirect: true,
        }),
        Event::WindowUnmapped(WindowUnmapped {
            sequence: 4,
            window: Window(1),
            unmapped_window: Window(2),
            from_configure: false,
        }),
        Event::WindowMapped(WindowMapped {
            sequence: 5,
            window: Window(1),
            mapped_window: Window(2),
            override_redirect: false,
        }),
        Event::MapRequest(MapRequest { sequence: 6, parent: Window(1), window: Window(2) }),
        Event::WindowReparented(WindowReparented {
            sequence: 7,
            window: Window(1),
            reparented_window: Window(2),
            parent: Window(3),
            x: 4,
            y: -4,
            override_redirect: true,
        }),
        Event::WindowConfigured(WindowConfigured {
            sequence: 8,
            event: Window(1),
            window: Window(2),
            above_sibling: None,
            x: 0,
            y: 0,
            width: 1,
            height: 1,
            border_width: 0,
            override_redirect: false,
        }),
        Event::GravityChanged(GravityChanged { sequence: 9, event: Window(1), window: Window(2), x: 5, y: 6 }),
        Event::WindowResized(WindowResized { sequence: 10, window: Window(1), width: 800, height: 600 }),
        Event::SelectionClear(SelectionClear {
            sequence: 11,
            time: Timestamp(12),
            owner: Window(13),
            selection: Atom(1),
        }),
    ];
    for e in events {
        let bytes = encode_event(&e);
        assert_eq!(bytes.len(), 32);
        assert_eq!(decode_event(&bytes), Ok((e, 32)));
        assert_eq!(decode_event(&bytes[..31]), Err(DecodeError::Truncated));
    }
}

#[test]
fn window_configured_sibling_bytes() {
    let e = Event::WindowConfigured(WindowConfigured {
        sequence: 1,
        event: Window(2),
        window: Window(3),
        above_sibling: Some(Window(0x0A0B_0C0D)),
        x: -1,
        y: 2,
        width: 3,
        height: 4,
        border_width: 5,
        override_redirect: true,
    });
    let bytes = encode_event(&e);
    assert_eq!(&bytes[12..16], &[0x0D, 0x0C, 0x0B, 0x0A]);
    assert_eq!(&bytes[16..18], &[0xFF, 0xFF]);
    assert_eq!(bytes[26], 1);
    assert_eq!(decode_event(&bytes), Ok((e, 32)));
}

#[test]
fn configure_request_bytes() {
    let e = Event::ConfigureRequest(ConfigureRequest {
        stack_mode: StackMode::Opposite,
        sequence: 0x0102,
        parent: Window(1),
        window: Window(2),
        sibling: None,
        x: -2,
        y: 3,
        width: 100,
        height: 50,
        border_width: 2,
        mask: ConfigureWindowMask { bits: ConfigureWindowMask::WIDTH | ConfigureWindowMask::STACK_MODE },
    });
    let bytes = encode_event(&e);
    assert_eq!(&bytes[0..4], &[23, 4, 0x02, 0x01]);
    assert_eq!(&bytes[12..16], &[0, 0, 0, 0]);
    assert_eq!(&bytes[16..28], &[0xFE, 0xFF, 3, 0, 100, 0, 50, 0, 2, 0, 0x44, 0]);
    assert_eq!(decode_event(&bytes), Ok((e, 32)));
}

#[test]
fn selection_and_colormap_events_round_trip() {
    let events = vec![
        Event::SelectionRequest(SelectionRequest {
            sequence: 1,
            time: CurrentableTime::CurrentTime,
            owner: Window(2),
            requestor: Window(3),
            selection: Atom(1),
            target: Atom(31),
            property: None,
        }),
        Event::SelectionNotify(SelectionNotify {
            sequence: 2,
            time: CurrentableTime::Other(Timestamp(99)),
            requestor: Window(3),
            selection: Atom(1),
            target: Atom(31),
            property: Some(Atom(300)),
        }),
        Event::ColormapNotify(ColormapNotify { sequence: 3, window: Window(4), colormap: Some(Colormap(5)) }),
        Event::ColormapNotify(ColormapNotify { sequence: 4, window: Window(4), colormap: None }),
    ];
    for e in events {
        let bytes = encode_event(&e);
        assert_eq!(bytes.len(), 32);
        assert_eq!(decode_event(&bytes), Ok((e, 32)));
    }
    let current = encode_event(&Event::SelectionRequest(SelectionRequest {
        sequence: 0,
        time: CurrentableTime::CurrentTime,
        owner: Window(1),
        requestor: Window(1),
        selection: Atom(1),
        target: Atom(1),
        property: None,
    }));
    assert_eq!(&current[4..8], &[0, 0, 0, 0]);
    assert_eq!(&current[24..28], &[0, 0, 0, 0]);
}

#[test]
fn client_message_bytes() {
    let mut data = [0u8; 20];
    for (i, d) in data.iter_mut().enumerate() {
        *d = 200 - i as u8;
    }
    let e = Event::ClientMessage(ClientMessage {
        format: 32,
        sequence: 0x0304,
        window: Window(0x0500_0001),
        message_type: Atom(0x0000_01A2),
        data,
    });
    let bytes = encode_event(&e);
    assert_eq!(&bytes[0..12], &[33, 32, 0x04, 0x03, 0x01, 0, 0, 0x05, 0xA2, 0x01, 0, 0]);
    assert_eq!(&bytes[12..], &data[..]);
    assert_eq!(decode_event(&bytes), Ok((e, 32)));
    assert_eq!(decode_event(&bytes[..20]), Err(DecodeError::Truncated));
}
