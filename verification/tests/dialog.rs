use std::path::PathBuf;
use std::sync::mpsc;

use mado::cli::{Cli, DialogKind};
use mado::dialog::message::MessageView;
use mado::dialog::text_info::TextInfoView;
use mado::dialog::{
    PrefetchPlan, ViewPlan, close_outcome, default_window_size, exit_code, frame_end,
    frame_start, initial_exit_code, plan_view, prefetch_plan, window_title,
};
use mado::exit::Outcome;
use mado::source::{Received, SourceEvent};
use mado::theme::color::Color;
use mado::theme::tokens::{Metrics, light};

fn cli() -> Cli<f32> {
    Cli {
        text_info: false,
        info: false,
        warning: false,
        error: false,
        text: None,
        filename: None,
        watch: None,
        initial: None,
        poll_interval: 200,
        no_wrap: false,
        title: None,
        width: None,
        height: None,
        timeout: None,
        ok_label: None,
        cancel_label: None,
        always_on_top: false,
        font: None,
        font_size: None,
        theme: None,
    }
}

#[test]
fn dialog_kind_follows_the_flags() {
    let mut c = cli();
    assert_eq!(c.dialog_kind(), DialogKind::Error);
    c.warning = true;
    assert_eq!(c.dialog_kind(), DialogKind::Warning);
    c.info = true;
    assert_eq!(c.dialog_kind(), DialogKind::Info);
    c.text_info = true;
    assert_eq!(c.dialog_kind(), DialogKind::TextInfo);
}

#[test]
fn text_info_with_a_file_reads_it_first() {
    let mut c = cli();
    c.text_info = true;
    c.filename = Some(PathBuf::from("notes.txt"));
    c.text = Some("ignored".to_string());
    match prefetch_plan(&c) {
        PrefetchPlan::ReadFile(p) => assert_eq!(p, PathBuf::from("notes.txt")),
        _ => panic!("expected a file read"),
    }
    c.text_info = false;
    c.info = true;
    match prefetch_plan(&c) {
        PrefetchPlan::Given(t) => assert_eq!(t.as_deref(), Some("ignored")),
        _ => panic!("message dialogs take the text"),
    }
}

#[test]
fn view_plans() {
    let mut c = cli();
    c.text_info = true;
    match plan_view(&c, Some("body".to_string())) {
        ViewPlan::Static { content, wrap, ok_label } => {
            assert_eq!(content, "body");
            assert!(wrap);
            assert_eq!(ok_label, "Close");
        }
        _ => panic!("expected static content"),
    }
    c.no_wrap = true;
    c.initial = Some("waiting…".to_string());
    match plan_view(&c, None) {
        ViewPlan::Stdin { stream, initial, wrap, ok_label } => {
            assert!(stream);
            assert_eq!(initial.as_deref(), Some("waiting…"));
            assert!(!wrap);
            assert_eq!(ok_label, "Close");
        }
        _ => panic!("expected stdin"),
    }
    c.watch = Some(PathBuf::from("log.txt"));
    c.poll_interval = 5;
    c.ok_label = Some("Done".to_string());
    match plan_view(&c, None) {
        ViewPlan::Watch { path, interval_ms, stream, ok_label, .. } => {
            assert!(!stream);
            assert_eq!(path, PathBuf::from("log.txt"));
            assert_eq!(interval_ms, 16);
            assert_eq!(ok_label, "Done");
        }
        _ => panic!("expected a watch"),
    }
    c.poll_interval = 500;
    match plan_view(&c, None) {
        ViewPlan::Watch { interval_ms, .. } => assert_eq!(interval_ms, 500),
        _ => panic!("expected a watch"),
    }
}

#[test]
fn message_plan_defaults() {
    let mut c = cli();
    c.warning = true;
    match plan_view(&c, None) {
        ViewPlan::Message { kind, text, ok_label } => {
            assert_eq!(kind, DialogKind::Warning);
            assert_eq!(text, "");
            assert_eq!(ok_label, "OK");
        }
        _ => panic!("expected a message"),
    }
}

#[test]
fn window_defaults() {
    let mut c = cli();
    assert_eq!(window_title(&c), "mado");
    c.title = Some("Translate".to_string());
    assert_eq!(window_title(&c), "Translate");
    assert_eq!(default_window_size(DialogKind::TextInfo), (650, 360));
    assert_eq!(default_window_size(DialogKind::Error), (380, 150));
}

#[test]
fn frame_decisions() {
    assert_eq!(frame_start(true, true), Some(Outcome::Timeout));
    assert_eq!(frame_start(false, true), Some(Outcome::Cancel));
    assert_eq!(frame_start(false, false), None);
    assert_eq!(frame_end(Some(Outcome::Cancel), Some(Outcome::Confirmed)), Some(Outcome::Confirmed));
    assert_eq!(frame_end(Some(Outcome::Cancel), None), Some(Outcome::Cancel));
    assert_eq!(frame_end(None, None), None);
    assert_eq!(close_outcome(true), Outcome::Cancel);
    assert_eq!(close_outcome(false), Outcome::Confirmed);
    assert_eq!(exit_code(false, 1), 255);
    assert_eq!(exit_code(true, 5), 5);
    assert_eq!(initial_exit_code(), 0);
}

#[test]
fn text_info_stream_until_finished() {
    let (tx, rx) = mpsc::channel();
    let mut v = TextInfoView::new_streaming(rx, true, Some("…".to_string()), true, "Close".to_string());
    assert!(v.show_placeholder());
    assert_eq!(v.close_outcome(), Outcome::Cancel);
    tx.send(SourceEvent::Append("a".to_string())).unwrap();
    tx.send(SourceEvent::Append("b".to_string())).unwrap();
    while v.poll_source() {}
    assert_eq!(v.content(), "ab");
    assert!(!v.show_placeholder());
    assert!(v.stream_active());
    tx.send(SourceEvent::Finished).unwrap();
    while v.poll_source() {}
    assert!(!v.stream_active());
    assert_eq!(v.close_outcome(), Outcome::Confirmed);
    assert!(!v.poll_source());
}

#[test]
fn text_info_replace_and_disconnect() {
    let (tx, rx) = mpsc::channel();
    let mut v = TextInfoView::new_streaming(rx, false, None, false, "Close".to_string());
    assert!(!v.show_placeholder());
    assert!(v.stick_to_bottom());
    tx.send(SourceEvent::Replace("first".to_string())).unwrap();
    tx.send(SourceEvent::Replace("second".to_string())).unwrap();
    while v.poll_source() {}
    assert_eq!(v.content(), "second");
    drop(tx);
    assert!(!v.absorb(Received::Empty));
    while v.poll_source() {}
    assert_eq!(v.close_outcome(), Outcome::Confirmed);
}

#[test]
fn static_text_info() {
    let v = TextInfoView::new_static("fixed".to_string(), false, "OK".to_string());
    assert_eq!(v.content(), "fixed");
    assert!(!v.wrap());
    assert!(!v.stick_to_bottom());
    assert_eq!(v.ok_label(), "OK");
    assert_eq!(v.initial(), None);
    assert_eq!(v.close_outcome(), Outcome::Confirmed);
}

#[test]
fn message_icons() {
    let t = light(Metrics {
        window_radius: 8.0f32,
        window_border_width: 1.0,
        window_padding: 14.0,
        titlebar_height: 36.0,
        titlebar_separator_width: 1.0,
        font_size: 13.0,
        heading_size: 15.0,
        input_radius: 4.0,
        button_radius: 5.0,
        button_padding: [12.0, 5.0],
    });
    let w = MessageView::new(DialogKind::Warning, "careful".to_string(), "OK".to_string());
    assert_eq!(w.icon(&t), ("!", t.warning));
    let e = MessageView::new(DialogKind::Error, "bad".to_string(), "OK".to_string());
    assert_eq!(e.icon(&t), ("✕", t.danger));
    let i = MessageView::new(DialogKind::Info, "hi".to_string(), "Got it".to_string());
    assert_eq!(i.icon(&t), ("i", t.accent));
    assert_eq!(i.text(), "hi");
    assert_eq!(i.ok_label(), "Got it");
    assert_eq!(i.kind(), DialogKind::Info);
    assert!(!i.stream_active());
    assert_eq!(w.close_outcome(), Outcome::Confirmed);
    let _ = Color::from_rgb(0, 0, 0);
}

#[test]
fn finished_stream_closes_normally() {
    let (tx, rx) = mpsc::channel::<SourceEvent>();
    let mut v = TextInfoView::new_streaming(rx, true, None, true, "Close".to_string());
    assert_eq!(v.close_outcome(), Outcome::Cancel);
    assert!(!v.absorb(Received::Event(SourceEvent::Finished)));
    assert!(!v.stream_active());
    assert_eq!(v.close_outcome(), Outcome::Confirmed);
    drop(tx);
}
