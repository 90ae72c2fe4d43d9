#![allow(non_snake_case)]

use winsafe::decl::{COLORREF, SIZE, CLR_NONE};
use winsafe::guard::{ResourceKind, TeardownLog};
use winsafe::himagelist::{
    bk_color_arg, comctl_Himagelist, draw_portion, index_arg, HIMAGELIST,
};
use winsafe::hpen::{gdi_Hpen, HPEN};
use winsafe::hresult::{
    zero_as_fail, DXGI_ERROR_INVALID_CALL, DXGI_STATUS_OCCLUDED, E_FAIL, HRESULT, S_OK,
};

#[test]
fn hresult_severity_bit() {
    assert!(HRESULT::from_raw(E_FAIL).is_error());
    assert!(!HRESULT::from_raw(S_OK).is_error());
    assert!(!HRESULT::from_raw(DXGI_STATUS_OCCLUDED).is_error());
    assert!(HRESULT::from_raw(DXGI_ERROR_INVALID_CALL).is_error());
    assert_eq!(HRESULT::from_raw(E_FAIL).raw(), 0x8000_4005);
}

#[test]
fn zero_as_fail_translates_status() {
    assert_eq!(zero_as_fail(0), Err(HRESULT::from_raw(E_FAIL)));
    assert_eq!(zero_as_fail(1), Ok(()));
    assert_eq!(zero_as_fail(-1), Ok(()));
}

#[test]
fn imagelist_create_failure() {
    let r = HIMAGELIST::Create(0);
    match r {
        Ok(_) => panic!("null handle must not produce a guard"),
        Err(e) => assert_eq!(e.raw(), E_FAIL),
    }
}

#[test]
fn imagelist_create_success_owns_destroy_guard() {
    let mut api = TeardownLog::new();
    let g = HIMAGELIST::Create(10).unwrap();
    assert_eq!(g.kind(), ResourceKind::ImageListDestroy);
    assert_eq!(g.as_handle(), 10);
    g.finish(&mut api);
    assert_eq!(api.count_for(ResourceKind::ImageListDestroy, 10), 1);
}

#[test]
fn imagelist_add_translates_index() {
    let il = HIMAGELIST(3);
    assert_eq!(il.Add(-1).unwrap_err().raw(), E_FAIL);
    assert_eq!(il.Add(4).unwrap(), 4);
    assert_eq!(il.AddIcon(-1).unwrap_err().raw(), E_FAIL);
    assert_eq!(il.AddIcon(0).unwrap(), 0);
    assert_eq!(il.AddMasked(2).unwrap(), 2);
    assert_eq!(il.ReplaceIcon(-1).unwrap_err().raw(), E_FAIL);
    assert_eq!(il.ReplaceIcon(7).unwrap(), 7);
}

#[test]
fn imagelist_begin_drag_guards_end_drag() {
    let il = HIMAGELIST(5);
    assert_eq!(il.BeginDrag(0).unwrap_err().raw(), E_FAIL);
    let g = il.BeginDrag(1).unwrap();
    assert_eq!(g.kind(), ResourceKind::ImageListEndDrag);
    assert_eq!(g.as_handle(), 5);
}

#[test]
fn imagelist_duplicate_and_icons() {
    let il = HIMAGELIST(5);
    let dup = il.Duplicate(6).unwrap();
    assert_eq!(dup.kind(), ResourceKind::ImageListDestroy);
    assert_eq!(dup.as_handle(), 6);
    assert_eq!(il.Duplicate(0).unwrap_err().raw(), E_FAIL);
    let icon = il.GetIcon(77).unwrap();
    assert_eq!(icon.kind(), ResourceKind::IconDestroy);
    assert_eq!(icon.as_handle(), 77);
    assert_eq!(il.GetIcon(0).unwrap_err().raw(), E_FAIL);
    let extracted = il.ExtractIcon(8).unwrap();
    assert_eq!(extracted.kind(), ResourceKind::IconDestroy);
    assert_eq!(extracted.as_handle(), 8);
}

#[test]
fn imagelist_status_calls() {
    let il = HIMAGELIST(5);
    assert_eq!(il.DragMove(0).unwrap_err().raw(), E_FAIL);
    assert_eq!(il.DragMove(1), Ok(()));
    assert_eq!(HIMAGELIST::DragShowNolock(0).unwrap_err().raw(), E_FAIL);
    assert_eq!(HIMAGELIST::DragShowNolock(1), Ok(()));
    assert_eq!(il.Draw(0).unwrap_err().raw(), E_FAIL);
    assert_eq!(il.Draw(1), Ok(()));
    assert_eq!(il.DrawEx(0).unwrap_err().raw(), E_FAIL);
    assert_eq!(il.DrawEx(1), Ok(()));
    assert_eq!(il.Remove(0).unwrap_err().raw(), E_FAIL);
    assert_eq!(il.Remove(1), Ok(()));
    assert_eq!(il.SetImageCount(0).unwrap_err().raw(), E_FAIL);
    assert_eq!(il.SetImageCount(1), Ok(()));
    assert_eq!(il.Write(0).unwrap_err().raw(), E_FAIL);
    assert_eq!(il.Write(1), Ok(()));
}

#[test]
fn imagelist_queries() {
    let il = HIMAGELIST(5);
    assert_eq!(il.GetImageCount(7), 7);
    assert_eq!(il.GetBkColor(0x00aa_bbcc).raw(), 0x00aa_bbcc);
    assert_eq!(il.SetBkColor(CLR_NONE), None);
    assert_eq!(il.SetBkColor(5), Some(COLORREF::from_raw(5)));
    assert_eq!(
        il.GetIconSize(1, 16, 32).unwrap(),
        SIZE { cx: 16, cy: 32 }
    );
    assert_eq!(il.GetIconSize(0, 16, 32).unwrap_err().raw(), E_FAIL);
}

#[test]
fn imagelist_native_arguments() {
    assert_eq!(index_arg(None), -1);
    assert_eq!(index_arg(Some(3)), 3);
    assert_eq!(bk_color_arg(None), 0);
    assert_eq!(bk_color_arg(Some(COLORREF::from_raw(9))), 9);
    assert_eq!(draw_portion(None), SIZE { cx: 0, cy: 0 });
    assert_eq!(
        draw_portion(Some(SIZE::new(4, 6))),
        SIZE { cx: 4, cy: 6 }
    );
}

#[test]
fn pen_creation_owns_delete_guard() {
    let mut api = TeardownLog::new();
    let g = HPEN::CreatePen(8, 0).unwrap();
    assert_eq!(g.kind(), ResourceKind::GdiObjectDelete);
    assert_eq!(g.as_handle(), 8);
    g.finish(&mut api);
    assert_eq!(api.count_for(ResourceKind::GdiObjectDelete, 8), 1);
    let g2 = HPEN::CreatePenIndirect(9, 0).unwrap();
    assert_eq!(g2.kind(), ResourceKind::GdiObjectDelete);
    assert_eq!(g2.as_handle(), 9);
}

#[test]
fn pen_creation_failure_reports_last_error() {
    assert_eq!(HPEN::CreatePen(0, 6).unwrap_err(), 6);
    assert_eq!(HPEN::CreatePenIndirect(0, 2).unwrap_err(), 2);
}

#[test]
fn stock_pen_is_unguarded() {
    assert_eq!(HPEN::GetStockObject(4, 0).unwrap(), HPEN(4));
    assert_eq!(HPEN::GetStockObject(0, 2).unwrap_err(), 2);
}
