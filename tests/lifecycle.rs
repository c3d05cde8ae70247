use std::cell::RefCell;

use safe_dispmanx::display::{
    Display, DisplayID, ElementChange, Protection, RawWindow, Rect, RemovalOutcome, Window,
    CHANGE_LAYER,
};
use safe_dispmanx::{BCMHostHandle, BCMHostInitError};

fn host() -> BCMHostHandle {
    let mut flag = false;
    BCMHostHandle::init(&mut flag, || {}).unwrap()
}

fn open_display(host: &BCMHostHandle, raw: u32) -> Display {
    host.dispmanx_display(DisplayID::HDMI, |_| raw).unwrap()
}

fn window(host: &BCMHostHandle, display: &Display, element: u32, dest: &mut Rect) -> Window {
    let update = host.dispmanx_update_builder(10, |_| 21).unwrap();
    let mut src = Rect { x: 0, y: 0, width: 64, height: 64 };
    let e = update
        .element_add(display, 1, dest, &mut src, Protection::Unprotected, |_, _, _, _, _, _| element, |_| false)
        .unwrap();
    e.into_window()
}

#[test]
fn only_first_init_succeeds() {
    let inits = RefCell::new(0u32);
    let mut flag = false;
    let first = BCMHostHandle::init(&mut flag, || *inits.borrow_mut() += 1);
    assert!(first.is_ok());
    assert!(flag);
    assert_eq!(*inits.borrow(), 1);
    for _ in 0..3 {
        let again = BCMHostHandle::init(&mut flag, || *inits.borrow_mut() += 1);
        assert!(matches!(again, Err(BCMHostInitError::AlreadyInitialized)));
        assert!(flag);
    }
    assert_eq!(*inits.borrow(), 1);
}

#[test]
fn display_open_passes_device_number() {
    let host = host();
    let seen = RefCell::new(Vec::new());
    let d = host
        .dispmanx_display(DisplayID::SDTV, |id| {
            seen.borrow_mut().push(id);
            44
        })
        .unwrap();
    assert_eq!(*seen.borrow(), vec![3]);
    assert_eq!(d.raw_display(), 44);
    assert_eq!(d.display_handle().raw_display(), 44);
}

#[test]
fn display_open_returning_zero_fails() {
    let host = host();
    assert!(host.dispmanx_display(DisplayID::MainLCD, |_| 0).is_err());
}

#[test]
fn display_info_follows_query_status() {
    let host = host();
    let d = open_display(&host, 9);
    let seen = RefCell::new(0u32);
    let ok = d.info(|raw| {
        *seen.borrow_mut() = raw;
        (true, (1920, 1080))
    });
    assert_eq!(ok, Ok((1920, 1080)));
    assert_eq!(*seen.borrow(), 9);
    assert_eq!(d.info(|_| (false, (0, 0))), Err(()));
}

#[test]
fn update_start_returning_zero_fails() {
    let host = host();
    assert!(host.dispmanx_update_builder(0, |_| 0).is_err());
    let seen = RefCell::new(0i32);
    let u = host
        .dispmanx_update_builder(-5, |p| {
            *seen.borrow_mut() = p;
            17
        })
        .unwrap();
    assert_eq!(u.raw_update(), 17);
    assert_eq!(*seen.borrow(), -5);
}

#[test]
fn element_add_passes_arguments_and_submits() {
    let host = host();
    let display = open_display(&host, 5);
    let update = host.dispmanx_update_builder(0, |_| 31).unwrap();
    let mut dest = Rect { x: 10, y: 20, width: 800, height: 600 };
    let mut src = Rect { x: 0, y: 0, width: 800 << 16, height: 600 << 16 };
    let added = RefCell::new(Vec::new());
    let submitted = RefCell::new(Vec::new());
    let e = update
        .element_add(
            &display,
            2000,
            &mut dest,
            &mut src,
            Protection::HDCP,
            |u, d, layer, dr, sr, p| {
                added.borrow_mut().push((u, d, layer, dr, sr, p));
                77
            },
            |u| {
                submitted.borrow_mut().push(u);
                false
            },
        )
        .unwrap();
    assert_eq!(e.raw_element(), 77);
    assert_eq!(
        *added.borrow(),
        vec![(31, 5, 2000, Rect { x: 10, y: 20, width: 800, height: 600 }, src, 11)]
    );
    assert_eq!(*submitted.borrow(), vec![31]);
    assert_eq!(dest, Rect { x: 10, y: 20, width: 800, height: 600 });
}

#[test]
fn element_add_failure_skips_submit() {
    let host = host();
    let display = open_display(&host, 5);
    let update = host.dispmanx_update_builder(0, |_| 31).unwrap();
    let mut dest = Rect { x: 0, y: 0, width: 1, height: 1 };
    let mut src = dest;
    let submitted = RefCell::new(0u32);
    let r = update.element_add(&display, 0, &mut dest, &mut src, Protection::Max, |_, _, _, _, _, _| 0, |_| {
        *submitted.borrow_mut() += 1;
        false
    });
    assert!(r.is_err());
    assert_eq!(*submitted.borrow(), 0);
}

#[test]
fn element_add_submit_failure_fails() {
    let host = host();
    let display = open_display(&host, 5);
    let update = host.dispmanx_update_builder(0, |_| 31).unwrap();
    let mut dest = Rect { x: 0, y: 0, width: 1, height: 1 };
    let mut src = dest;
    let r = update.element_add(&display, 0, &mut dest, &mut src, Protection::Max, |_, _, _, _, _, _| 4, |_| true);
    assert!(r.is_err());
}

#[test]
fn window_keeps_size_from_element_add() {
    let host = host();
    let display = open_display(&host, 5);
    let mut dest = Rect { x: 0, y: 0, width: 1280, height: 720 };
    let w = window(&host, &display, 12, &mut dest);
    dest.width = 1;
    dest.height = 2;
    assert_eq!(w.raw_window(), RawWindow { element: 12, width: 1280, height: 720 });
}

#[test]
fn change_with_no_attributes_calls_nothing() {
    let host = host();
    let display = open_display(&host, 5);
    let mut dest = Rect { x: 0, y: 0, width: 10, height: 10 };
    let mut w = window(&host, &display, 12, &mut dest);
    let calls = RefCell::new(0u32);
    let r = w.change_element_attributes(
        None,
        None,
        None,
        None,
        |_| {
            *calls.borrow_mut() += 1;
            1
        },
        |_, _, _| {
            *calls.borrow_mut() += 1;
            false
        },
        |_| {
            *calls.borrow_mut() += 1;
            false
        },
    );
    assert_eq!(r, Ok(()));
    assert_eq!(*calls.borrow(), 0);
}

#[test]
fn change_layer_only_passes_layer() {
    let host = host();
    let display = open_display(&host, 5);
    let mut dest = Rect { x: 0, y: 0, width: 10, height: 10 };
    let mut w = window(&host, &display, 12, &mut dest);
    let changes = RefCell::new(Vec::new());
    let log = RefCell::new(Vec::new());
    let r = w.change_element_attributes(
        Some(3),
        None,
        None,
        None,
        |p| {
            log.borrow_mut().push(format!("start {}", p));
            40
        },
        |u, e, c| {
            log.borrow_mut().push(format!("change {} {}", u, e));
            changes.borrow_mut().push(c);
            false
        },
        |u| {
            log.borrow_mut().push(format!("submit {}", u));
            false
        },
    );
    assert_eq!(r, Ok(()));
    assert_eq!(*log.borrow(), vec!["start 0", "change 40 12", "submit 40"]);
    let c = changes.borrow()[0];
    assert_eq!(c.flags, CHANGE_LAYER);
    assert_eq!(c.flags.count_ones(), 1);
    assert_eq!(c.layer, 3);
    assert_eq!(c.opacity, 0);
    assert_eq!(c.dest_rect, None);
    assert_eq!(c.src_rect, None);
}

#[test]
fn change_failures_stop_the_update() {
    let host = host();
    let display = open_display(&host, 5);
    let mut dest = Rect { x: 0, y: 0, width: 10, height: 10 };
    let mut w = window(&host, &display, 12, &mut dest);
    let r = dest;
    let submits = RefCell::new(0u32);
    assert_eq!(w.change_element_attributes(Some(1), None, None, None, |_| 0, |_, _, _| false, |_| false), Err(()));
    assert_eq!(
        w.change_element_attributes(None, Some(9), Some(&r), None, |_| 3, |_, _, _| true, |_| {
            *submits.borrow_mut() += 1;
            false
        }),
        Err(())
    );
    assert_eq!(*submits.borrow(), 0);
    assert_eq!(w.change_element_attributes(None, None, None, Some(&r), |_| 3, |_, _, _| false, |_| true), Err(()));
}

fn removal_log(w: Window, start: u32, remove_fails: bool, submit_fails: bool) -> (RemovalOutcome, Vec<String>) {
    let log = RefCell::new(Vec::new());
    let (outcome, _) = w.remove(
        |p| {
            log.borrow_mut().push(format!("start {}", p));
            start
        },
        |u, e| {
            log.borrow_mut().push(format!("remove {} {}", u, e));
            remove_fails
        },
        |u| {
            log.borrow_mut().push(format!("submit {}", u));
            submit_fails
        },
    );
    (outcome, log.into_inner())
}

#[test]
fn removal_issues_one_update() {
    let host = host();
    let display = open_display(&host, 5);
    let mut dest = Rect { x: 0, y: 0, width: 10, height: 10 };
    let w = window(&host, &display, 12, &mut dest);
    let (outcome, log) = removal_log(w, 50, false, false);
    assert_eq!(outcome, RemovalOutcome::Removed);
    assert_eq!(log, vec!["start 0", "remove 50 12", "submit 50"]);
}

#[test]
fn removal_after_failed_change_issues_one_update() {
    let host = host();
    let display = open_display(&host, 5);
    let mut dest = Rect { x: 0, y: 0, width: 10, height: 10 };
    let mut w = window(&host, &display, 12, &mut dest);
    assert_eq!(w.change_element_attributes(Some(2), None, None, None, |_| 6, |_, _, _| true, |_| false), Err(()));
    let (outcome, log) = removal_log(w, 51, false, false);
    assert_eq!(outcome, RemovalOutcome::Removed);
    assert_eq!(log, vec!["start 0", "remove 51 12", "submit 51"]);
}

#[test]
fn removal_stops_at_first_failure() {
    let host = host();
    let display = open_display(&host, 5);
    let mut dest = Rect { x: 0, y: 0, width: 10, height: 10 };
    let (outcome, log) = removal_log(window(&host, &display, 12, &mut dest), 0, false, false);
    assert_eq!(outcome, RemovalOutcome::StartFailed);
    assert_eq!(log, vec!["start 0"]);
    let (outcome, log) = removal_log(window(&host, &display, 13, &mut dest), 8, true, false);
    assert_eq!(outcome, RemovalOutcome::RemoveFailed);
    assert_eq!(log, vec!["start 0", "remove 8 13"]);
    let (outcome, log) = removal_log(window(&host, &display, 14, &mut dest), 8, false, true);
    assert_eq!(outcome, RemovalOutcome::SubmitFailed);
    assert_eq!(log, vec!["start 0", "remove 8 14", "submit 8"]);
}

#[test]
fn element_change_flags_are_distinct() {
    let c = ElementChange::from_options(Some(1), Some(2), None, None);
    assert_eq!(c.flags, 3);
}
