use winsafe::decl::SIZE;
use winsafe::file_dialog_events::{
    on_event_hres, on_event_with_response, IFileDialogEventsImpl, FDEOR_DEFAULT, FDESVR_DEFAULT,
};
use winsafe::header_item::{
    HeaderArrow, HeaderItem, HeaderJustify, HDF, HDF_CENTER, HDF_LEFT, HDF_RIGHT, HDF_SORTDOWN,
    HDF_SORTUP,
};
use winsafe::hresult::{E_FAIL, HRESULT, S_OK};
use winsafe::messages::{
    Close, DeleteItem, GetTextLength, SetFocusedItem, ERROR_BAD_ARGUMENTS, HDM_DELETEITEM,
    HDM_SETFOCUSEDITEM, SB_GETTEXTLENGTH, WM_CLOSE,
};
use winsafe::msg_traits::{MsgSend, MsgSendRecv, WndMsg};
use winsafe::status_bar_part::{text_buffer_len, StatusBarPart};
use winsafe::window_main::{
    classify_timer_suppression, startup_plan, TimerSuppression, WindowMain, WindowMainOpts,
    ERROR_INVALID_PARAMETER,
};
use winsafe::window_modeless::{WindowModeless, WindowModelessOpts};

#[test]
fn header_item_keeps_index() {
    let it = HeaderItem::new(5);
    assert_eq!(it.index(), 5);
    assert_eq!(it.delete_message(), DeleteItem { index: 5 });
    assert_eq!(it.focus_message(), SetFocusedItem { index: 5 });
}

#[test]
fn header_flags_from_arrow_and_justify() {
    assert_eq!(HDF::from(HeaderArrow::Asc).raw(), HDF_SORTUP);
    assert_eq!(HDF::from(HeaderArrow::Desc).raw(), HDF_SORTDOWN);
    assert_eq!(HDF::from(HeaderArrow::NoArrow).raw(), 0);
    assert_eq!(HDF::from(HeaderJustify::Left).raw(), HDF_LEFT);
    assert_eq!(HDF::from(HeaderJustify::Center).raw(), HDF_CENTER);
    assert_eq!(HDF::from(HeaderJustify::Right).raw(), HDF_RIGHT);
}

#[test]
fn with_arrow_replaces_only_arrow_bits() {
    let f = HDF::from_raw(HDF_SORTUP | HDF_RIGHT);
    assert_eq!(f.with_arrow(HeaderArrow::Desc).raw(), HDF_SORTDOWN | HDF_RIGHT);
    assert_eq!(f.with_arrow(HeaderArrow::NoArrow).raw(), HDF_RIGHT);
    assert_eq!(
        HDF::from_raw(0).with_arrow(HeaderArrow::Asc).raw(),
        HDF_SORTUP
    );
}

#[test]
fn with_justify_replaces_only_justify_bits() {
    let f = HDF::from_raw(HDF_SORTUP | HDF_CENTER | HDF_RIGHT);
    assert_eq!(
        f.with_justify(HeaderJustify::Left).raw(),
        HDF_SORTUP | HDF_LEFT
    );
    assert_eq!(
        f.with_justify(HeaderJustify::Right).raw(),
        HDF_SORTUP | HDF_RIGHT
    );
    assert!(f.has(HDF_SORTUP));
    assert!(!HDF::from_raw(HDF_RIGHT).has(HDF_CENTER));
}

#[test]
fn status_bar_part_keeps_index() {
    let p = StatusBarPart::new(2);
    assert_eq!(p.index(), 2);
    assert_eq!(p.text_length_message(), GetTextLength { part_index: 2 });
    assert_eq!(text_buffer_len(5), 6);
    assert_eq!(text_buffer_len(0), 1);
}

#[test]
fn close_message_layout() {
    let mut m = Close {};
    assert_eq!(
        m.as_generic_wm(),
        WndMsg { msg_id: WM_CLOSE, wparam: 0, lparam: 0 }
    );
    m.convert_ret(0);
    assert_eq!(Close::from_generic_wm(WndMsg::new(WM_CLOSE, 0, 0)), Close {});
}

#[test]
fn generic_message_round_trip() {
    let m = WndMsg::new(7, 8, 9);
    assert_eq!(WndMsg::from_generic_wm(m), m);
    let mut m2 = m;
    assert_eq!(m2.as_generic_wm(), m);
    assert_eq!(m2.convert_ret(-3), -3);
}

#[test]
fn delete_item_message() {
    let mut m = DeleteItem { index: 3 };
    assert_eq!(
        m.as_generic_wm(),
        WndMsg { msg_id: HDM_DELETEITEM, wparam: 3, lparam: 0 }
    );
    assert_eq!(m.convert_ret(0), Err(ERROR_BAD_ARGUMENTS));
    assert_eq!(m.convert_ret(1), Ok(()));
}

#[test]
fn set_focused_item_message() {
    let mut m = SetFocusedItem { index: 4 };
    assert_eq!(
        m.as_generic_wm(),
        WndMsg { msg_id: HDM_SETFOCUSEDITEM, wparam: 0, lparam: 4 }
    );
    assert_eq!(m.convert_ret(0), Err(ERROR_BAD_ARGUMENTS));
    assert_eq!(m.convert_ret(2), Ok(()));
}

#[test]
fn text_length_reply_unpacks_words() {
    let mut m = GetTextLength { part_index: 1 };
    assert_eq!(
        m.as_generic_wm(),
        WndMsg { msg_id: SB_GETTEXTLENGTH, wparam: 1, lparam: 0 }
    );
    assert_eq!(m.convert_ret(0x0002_0005), (5, 2));
    assert_eq!(m.convert_ret(0), (0, 0));
    assert_eq!(m.convert_ret(-1), (0, 0));
}

#[test]
fn window_main_constructors() {
    let w = WindowMain::new(WindowMainOpts {
        title: String::from("main"),
        size: SIZE::new(600, 400),
    });
    assert!(!w.is_dlg());
    assert_eq!(w.opts().title, "main");
    assert_eq!(w.opts().size, SIZE { cx: 600, cy: 400 });
    let d = WindowMain::new_dlg(101, Some(1), None);
    assert!(d.is_dlg());
    assert_eq!(d.dlg_ids(), (101, Some(1), None));
    let mut close = d.close();
    assert_eq!(
        close.as_generic_wm(),
        WndMsg { msg_id: WM_CLOSE, wparam: 0, lparam: 0 }
    );
}

#[test]
fn window_modeless_constructors() {
    let w = WindowModeless::new(
        0,
        WindowModelessOpts { title: String::from("tool"), position: (10, 20) },
    );
    assert!(!w.is_dlg());
    assert_eq!(w.opts().title, "tool");
    assert_eq!(w.opts().position, (10, 20));
    let d = WindowModeless::new_dlg(0, 102, (1, 2));
    assert!(d.is_dlg());
    assert_eq!(d.dlg_params(), (102, (1, 2)));
}

#[test]
fn startup_plan_follows_platform_version() {
    let old = startup_plan(false, false);
    assert!(!old.set_dpi_aware);
    assert!(old.init_common_controls);
    assert!(!old.suppress_timer_exceptions);
    let vista = startup_plan(true, false);
    assert!(vista.set_dpi_aware);
    assert!(!vista.suppress_timer_exceptions);
    let w8 = startup_plan(true, true);
    assert!(w8.set_dpi_aware);
    assert!(w8.suppress_timer_exceptions);
}

#[test]
fn timer_suppression_classification() {
    assert_eq!(classify_timer_suppression(Ok(())), TimerSuppression::Applied);
    assert_eq!(
        classify_timer_suppression(Err(ERROR_INVALID_PARAMETER)),
        TimerSuppression::SkippedUnsupported
    );
    assert_eq!(
        classify_timer_suppression(Err(5)),
        TimerSuppression::Failed(5)
    );
}

#[test]
fn event_sink_starts_with_one_reference() {
    assert_eq!(IFileDialogEventsImpl::new().counter(), 1);
}

#[test]
fn event_dispatch_defaults_to_success() {
    assert_eq!(on_event_hres(None), 0);
    assert_eq!(on_event_hres(Some(Ok(()))), 0);
    assert_eq!(on_event_hres(Some(Err(HRESULT::from_raw(E_FAIL)))), E_FAIL);
    assert_eq!(S_OK, 0);
}

#[test]
fn event_dispatch_with_response() {
    assert_eq!(
        on_event_with_response(None, FDESVR_DEFAULT),
        (S_OK, Some(FDESVR_DEFAULT))
    );
    assert_eq!(
        on_event_with_response(Some(Ok(2)), FDEOR_DEFAULT),
        (S_OK, Some(2))
    );
    assert_eq!(
        on_event_with_response(Some(Err(HRESULT::from_raw(E_FAIL))), FDEOR_DEFAULT),
        (E_FAIL, None)
    );
}
