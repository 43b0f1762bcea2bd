use alegria::application::{AppInstruction, IcedAlegria, Message, Screen, State};
use alegria::bar::{BarTask, Message as BarMessage};
use alegria::models::Toast;
use std::time::{Duration, Instant};

#[test]
fn the_bar_opens_once_the_database_is_ready() {
    let mut app = IcedAlegria::new();
    let action = app.update(Message::OpenBar, Instant::now());
    assert!(action.tasks.is_empty());
    assert!(matches!(app.state, State::Loading));
    app.update(Message::DatabaseLoaded(Ok(())), Instant::now());
    assert!(matches!(app.state, State::Ready(Screen::Welcome)));
    let action = app.update(Message::OpenBar, Instant::now());
    assert!(matches!(app.state, State::Ready(Screen::Bar(_))));
    assert_eq!(action.tasks.len(), 4);
    assert!(matches!(action.tasks[0], BarTask::LoadTemporalTickets));
    let action = app.update(Message::Bar(BarMessage::OnTableChange(2)), Instant::now());
    assert!(matches!(action.tasks[0], BarTask::LoadTemporalTickets));
    app.update(Message::Bar(BarMessage::Back), Instant::now());
    assert!(matches!(app.state, State::Ready(Screen::Welcome)));
}

#[test]
fn a_failed_database_stops_the_program() {
    let mut app = IcedAlegria::new();
    let action = app.update(Message::DatabaseLoaded(Err(String::from("refused"))), Instant::now());
    assert!(matches!(&action.instructions[0], AppInstruction::Exit(e) if e == "refused"));
    assert!(matches!(app.state, State::Loading));
}

#[test]
fn application_toasts() {
    let mut app = IcedAlegria::new();
    app.update(Message::AddToast(Toast { title: String::from("t"), body: String::from("b") }), Instant::now());
    assert_eq!(app.toasts.len(), 1);
    app.update(Message::CloseToast(0), Instant::now());
    assert!(app.toasts.is_empty());
}

#[test]
fn each_message_keeps_its_instant() {
    let mut app = IcedAlegria::new();
    let later = app.now + Duration::from_secs(5);
    app.update(Message::DatabaseLoaded(Ok(())), later);
    assert_eq!(app.now, later);
    let later_still = later + Duration::from_secs(1);
    app.update(Message::OpenBar, later_still);
    assert_eq!(app.now, later_still);
}
