use specialfx::win32::{
    class_registered, ERROR_CLASS_ALREADY_EXISTS,
    colorref, pack_rgba8, thread_message, unpack_rgba8, utf16z, window_frame, window_message,
    MonitorRect, ThreadAction, WindowAction, WindowFrame, HTTRANSPARENT, MA_NOACTIVATE,
    MSG_REBUILD, MSG_SET_COLOR, WM_APP, WM_DISPLAYCHANGE, WM_ERASEBKGND, WM_MOUSEACTIVATE,
    WM_NCHITTEST, WM_PAINT, WM_TIMER,
};

#[test]
fn packs_little_endian() {
    assert_eq!(pack_rgba8([0x12, 0x34, 0x56, 0x78]), 0x7856_3412);
    assert_eq!(pack_rgba8([0x12, 0x34, 0x56, 0x78]), u32::from_le_bytes([0x12, 0x34, 0x56, 0x78]));
    assert_eq!(unpack_rgba8(0x7856_3412), [0x12, 0x34, 0x56, 0x78]);
    assert_eq!(unpack_rgba8(0xdead_beef), 0xdead_beefu32.to_le_bytes());
}

#[test]
fn pack_round_trips() {
    for c in [[0, 0, 0, 0], [255, 255, 255, 255], [1, 2, 3, 4], [200, 0, 17, 128]] {
        assert_eq!(unpack_rgba8(pack_rgba8(c)), c);
    }
    for v in [0u32, 1, 0x8000_0000, u32::MAX, 0x0102_0304] {
        assert_eq!(pack_rgba8(unpack_rgba8(v)), v);
    }
}

#[test]
fn colorref_is_bgr() {
    assert_eq!(colorref([0x11, 0x22, 0x33, 0x44]), 0x0033_2211);
}

#[test]
fn frame_covers_monitor() {
    let r = MonitorRect { left: -1920, top: 0, right: 0, bottom: 1080 };
    assert_eq!(window_frame(r), WindowFrame { x: -1920, y: 0, width: 1920, height: 1080 });
}

#[test]
fn thread_messages() {
    assert_eq!(MSG_SET_COLOR, WM_APP + 1);
    assert_eq!(MSG_REBUILD, WM_APP + 2);
    let packed = pack_rgba8([9, 8, 7, 6]) as usize;
    assert_eq!(thread_message(1, true, MSG_SET_COLOR, packed), ThreadAction::SetColor([9, 8, 7, 6]));
    assert_eq!(thread_message(1, true, MSG_REBUILD, 0), ThreadAction::Rebuild);
    assert_eq!(thread_message(1, true, WM_TIMER, 0), ThreadAction::RaiseAll);
    assert_eq!(thread_message(1, true, 0x0400, 0), ThreadAction::Ignore);
    assert_eq!(thread_message(1, false, MSG_SET_COLOR, packed), ThreadAction::Dispatch);
    assert_eq!(thread_message(0, true, MSG_SET_COLOR, packed), ThreadAction::Quit);
    assert_eq!(thread_message(-1, false, WM_PAINT, 0), ThreadAction::Quit);
}

#[test]
fn window_messages() {
    assert_eq!(window_message(WM_PAINT), WindowAction::Paint);
    assert_eq!(window_message(WM_ERASEBKGND), WindowAction::Answer(1));
    assert_eq!(window_message(WM_NCHITTEST), WindowAction::Answer(HTTRANSPARENT));
    assert_eq!(HTTRANSPARENT, -1);
    assert_eq!(window_message(WM_MOUSEACTIVATE), WindowAction::Answer(MA_NOACTIVATE));
    assert_eq!(window_message(WM_DISPLAYCHANGE), WindowAction::RequestRebuild);
    assert_eq!(window_message(0x0010), WindowAction::Default);
}

#[test]
fn wide_class_name() {
    let w = utf16z("SpecialFxOverlay", 17);
    assert_eq!(w.len(), 17);
    assert_eq!(w[0], 'S' as u16);
    assert_eq!(w[15], 'y' as u16);
    assert_eq!(w[16], 0);
    assert_eq!(utf16z("ab", 5), vec![97, 98, 0, 0, 0]);
}

#[test]
fn class_registration() {
    assert!(class_registered(0xc001, 0));
    assert!(class_registered(0, ERROR_CLASS_ALREADY_EXISTS));
    assert!(!class_registered(0, 5));
}
