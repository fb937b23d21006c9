use centered_window::{
    center_window, class_registration, loop_step, paint_ops, placement, rgb, to_wide, window_creation,
    window_proc, window_result, CreateError, Handling, LoopStep, MessageLoop, PaintOp, Point, Rect, Window,
    SW_SHOW, WHITE, WM_DESTROY, WM_PAINT, WS_OVERLAPPEDWINDOW,
};

#[test]
fn centers_800_by_600_on_full_hd() {
    assert_eq!(center_window(1920, 1080, 800, 600), Point { x: 560, y: 240 });
}

#[test]
fn centers_window_as_large_as_screen_at_origin() {
    assert_eq!(center_window(1024, 768, 1024, 768), Point { x: 0, y: 0 });
}

#[test]
fn centering_rounds_odd_room_down() {
    assert_eq!(center_window(1001, 601, 500, 300), Point { x: 250, y: 150 });
}

#[test]
fn centering_oversized_window_rounds_toward_zero() {
    assert_eq!(center_window(800, 600, 1001, 603), Point { x: -100, y: -1 });
}

#[test]
fn centering_extreme_values_does_not_overflow() {
    assert_eq!(center_window(i32::MAX, i32::MIN, i32::MIN, i32::MAX), Point { x: i32::MAX, y: -i32::MAX });
}

#[test]
fn placement_keeps_size_and_centers() {
    let p = placement(1920, 1080, 800, 600);
    assert_eq!((p.x, p.y, p.width, p.height), (560, 240, 800, 600));
}

#[test]
fn white_is_all_channels_full() {
    assert_eq!(rgb(255, 255, 255), WHITE);
    assert_eq!(WHITE, 0x00FF_FFFF);
}

#[test]
fn rgb_puts_red_in_low_byte() {
    assert_eq!(rgb(1, 2, 3), 0x0003_0201);
    assert_eq!(rgb(0, 0, 0), 0);
}

#[test]
fn wide_form_of_empty_text_is_terminator() {
    assert_eq!(to_wide(""), vec![0u16]);
}

#[test]
fn wide_form_of_ascii_and_cyrillic() {
    assert_eq!(to_wide("Demo"), vec![68u16, 101, 109, 111, 0]);
    assert_eq!(to_wide("Ж"), vec![0x0416u16, 0]);
}

#[test]
fn wide_form_uses_surrogate_pairs() {
    assert_eq!(to_wide("a\u{1F600}"), vec![0x61u16, 0xD83D, 0xDE00, 0]);
}

#[test]
fn destroy_posts_quit_with_code_zero_and_answers_zero() {
    let h = window_proc(WM_DESTROY);
    assert_eq!(h, Handling::PostQuit { exit_code: 0 });
    assert_eq!(window_result(h, None), 0);
}

#[test]
fn paint_fills_reported_region_white() {
    let h = window_proc(WM_PAINT);
    assert_eq!(h, Handling::Paint);
    assert_eq!(window_result(h, None), 0);
    let invalid = Rect { left: 3, top: 4, right: 120, bottom: 90 };
    assert_eq!(
        paint_ops(invalid),
        vec![
            PaintOp::CreateBrush { color: WHITE },
            PaintOp::Fill { rect: invalid },
            PaintOp::DeleteBrush,
            PaintOp::EndPaint,
        ]
    );
}

#[test]
fn other_messages_pass_through_default_answer() {
    for msg in [0u32, 1, 0x0010, 0x0100, 0x0201, u32::MAX] {
        let h = window_proc(msg);
        assert_eq!(h, Handling::Forward);
        assert_eq!(window_result(h, Some(42)), 42);
        assert_eq!(window_result(h, Some(-7)), -7);
    }
}

#[test]
fn class_registration_needs_an_instance() {
    assert!(matches!(class_registration("DemoClass", 0), Err(CreateError::InstanceUnavailable)));
}

#[test]
fn class_registration_record() {
    let c = match class_registration("DemoClass", 0x40_0000) {
        Ok(c) => c,
        Err(e) => panic!("{:?}", e),
    };
    assert_eq!((c.style, c.cls_extra, c.wnd_extra), (0, 0, 0));
    assert_eq!(c.instance, 0x40_0000);
    assert_eq!(c.background, WHITE);
    assert_eq!(c.class_name, to_wide("DemoClass"));
}

#[test]
fn distinct_class_names_give_distinct_records() {
    let a = class_registration("DemoClass", 1).ok().unwrap();
    let b = class_registration("OtherClass", 1).ok().unwrap();
    assert_ne!(a.class_name, b.class_name);
}

#[test]
fn window_creation_fails_when_registration_failed() {
    assert!(matches!(
        window_creation("DemoClass", "Demo", 800, 600, 1, 0),
        Err(CreateError::ClassRegistrationFailed)
    ));
}

#[test]
fn window_creation_record() {
    let w = window_creation("DemoClass", "Demo", 800, 600, 9, 0xC001).ok().unwrap();
    assert_eq!(w.ex_style, 0);
    assert_eq!(w.style, WS_OVERLAPPEDWINDOW);
    assert_eq!((w.x, w.y, w.width, w.height), (0, 0, 800, 600));
    assert_eq!(w.instance, 9);
    assert_eq!(w.class_name, to_wide("DemoClass"));
    assert_eq!(w.title, vec![68u16, 101, 109, 111, 0]);
    assert_eq!(SW_SHOW, 5);
}

#[test]
fn window_from_handles() {
    assert_eq!(Window::from_handles(0, 5), Err(CreateError::WindowCreationFailed));
    assert_eq!(Window::from_handles(7, 0), Err(CreateError::InstanceUnavailable));
    assert_eq!(Window::from_handles(0, 0), Err(CreateError::InstanceUnavailable));
    let w = Window::from_handles(7, 5).unwrap();
    assert_eq!((w.hwnd(), w.h_instance()), (7, 5));
}

#[test]
fn create_errors_have_messages() {
    for e in [CreateError::InstanceUnavailable, CreateError::ClassRegistrationFailed, CreateError::WindowCreationFailed] {
        assert!(!e.message().is_empty());
    }
}

#[test]
fn loop_exits_only_on_quit() {
    assert_eq!(loop_step(0), LoopStep::Exit);
    assert_eq!(loop_step(1), LoopStep::Dispatch);
    assert_eq!(loop_step(-1), LoopStep::Dispatch);
}

#[test]
fn loop_returns_right_after_first_quit() {
    let mut l = MessageLoop::new();
    let mut steps = Vec::new();
    for r in [1, 1, -1, 0] {
        steps.push(l.on_retrieved(r));
    }
    assert_eq!(steps, vec![LoopStep::Dispatch, LoopStep::Dispatch, LoopStep::Dispatch, LoopStep::Exit]);
    assert_eq!(l, MessageLoop { dispatched: 3, returned: true });
}

#[test]
fn scenario_destroy_ends_loop_within_one_iteration() {
    assert_eq!(center_window(1920, 1080, 800, 600), Point { x: 560, y: 240 });
    assert!(matches!(window_proc(WM_DESTROY), Handling::PostQuit { exit_code: 0 }));
    let mut l = MessageLoop::new();
    assert_eq!(l.on_retrieved(0), LoopStep::Exit);
    assert!(l.returned);
    assert_eq!(l.dispatched, 0);
}

#[test]
fn replay_stops_at_first_quit() {
    assert_eq!(MessageLoop::replay(&vec![5, -1, 0, 7, 0]), MessageLoop { dispatched: 2, returned: true });
}

#[test]
fn replay_without_quit_never_returns() {
    assert_eq!(MessageLoop::replay(&vec![1, 2, -1]), MessageLoop { dispatched: 3, returned: false });
    assert_eq!(MessageLoop::replay(&vec![]), MessageLoop { dispatched: 0, returned: false });
}

#[test]
fn create_error_message_texts() {
    assert_eq!(CreateError::InstanceUnavailable.message(), "could not obtain the application instance");
    assert_eq!(CreateError::ClassRegistrationFailed.message(), "could not register the window class");
    assert_eq!(CreateError::WindowCreationFailed.message(), "could not create the window");
}
