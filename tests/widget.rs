use timer_widget::{ConsoleCall, JobCommand, LogEntry, Message, Model};

fn lines(model: &Model) -> Vec<&'static str> {
    model.render().lines
}

fn fresh() -> Model {
    let (model, job) = Model::create();
    assert_eq!(job, JobCommand::SpawnOneShot);
    model
}

#[test]
fn create_is_idle_with_empty_log() {
    let model = fresh();
    assert!(!model.has_job());
    assert!(lines(&model).is_empty());
}

#[test]
fn start_tick_tick_cancel() {
    let mut model = fresh();
    for msg in [Message::StartInterval, Message::Tick, Message::Tick, Message::Cancel] {
        model.update(msg);
    }
    assert!(!model.has_job());
    assert_eq!(lines(&model), vec!["Interval started", "canceled"]);
}

#[test]
fn cancel_never_started() {
    let mut model = fresh();
    let effects = model.update(Message::Cancel);
    assert!(!model.has_job());
    assert_eq!(lines(&model), vec!["canceled"]);
    assert_eq!(effects.job, JobCommand::Release);
}

#[test]
fn start_then_done() {
    let mut model = fresh();
    model.update(Message::StartInterval);
    let effects = model.update(Message::Done);
    assert!(!model.has_job());
    assert_eq!(lines(&model), vec!["Interval started", "Done"]);
    assert_eq!(effects.job, JobCommand::Release);
    assert_eq!(
        effects.console,
        vec![ConsoleCall::Group, ConsoleCall::Info(LogEntry::Done), ConsoleCall::TimeNamedEnd, ConsoleCall::GroupEnd]
    );
}

#[test]
fn start_clears_earlier_log() {
    let mut model = fresh();
    for msg in [Message::Cancel, Message::Done] {
        model.update(msg);
    }
    assert_eq!(lines(&model), vec!["canceled", "Done"]);
    let effects = model.update(Message::StartInterval);
    assert!(model.has_job());
    assert_eq!(lines(&model), vec!["Interval started"]);
    assert_eq!(effects.job, JobCommand::SpawnInterval);
    assert_eq!(effects.console, vec![ConsoleCall::Log(LogEntry::IntervalStarted)]);
    assert!(effects.should_render);
}

#[test]
fn start_while_running_replaces_job() {
    let mut model = fresh();
    model.update(Message::StartInterval);
    let effects = model.update(Message::StartInterval);
    assert!(model.has_job());
    assert_eq!(effects.job, JobCommand::SpawnInterval);
    assert_eq!(lines(&model), vec!["Interval started"]);
}

#[test]
fn cancel_after_start_stops_job() {
    let mut model = fresh();
    model.update(Message::StartInterval);
    assert!(model.has_job());
    let effects = model.update(Message::Cancel);
    assert!(!model.has_job());
    assert_eq!(*lines(&model).last().unwrap(), "canceled");
    assert_eq!(
        effects.console,
        vec![ConsoleCall::Warn(LogEntry::Canceled), ConsoleCall::Assert { holds: true }]
    );
}

#[test]
fn tick_changes_nothing() {
    let mut model = fresh();
    model.update(Message::StartInterval);
    let effects = model.update(Message::Tick);
    assert!(model.has_job());
    assert_eq!(lines(&model), vec!["Interval started"]);
    assert_eq!(effects.job, JobCommand::Keep);
    assert_eq!(effects.console, vec![ConsoleCall::CountNamed]);

    let mut idle = fresh();
    idle.update(Message::Tick);
    assert!(!idle.has_job());
    assert!(lines(&idle).is_empty());
}

#[test]
fn running_follows_last_start_or_end() {
    let mut model = fresh();
    let steps = [
        (Message::Tick, false),
        (Message::StartInterval, true),
        (Message::Tick, true),
        (Message::Done, false),
        (Message::Tick, false),
        (Message::StartInterval, true),
        (Message::StartInterval, true),
        (Message::Cancel, false),
        (Message::Cancel, false),
    ];
    for (msg, running) in steps {
        model.update(msg);
        assert_eq!(model.has_job(), running);
    }
}

#[test]
fn render_buttons_follow_job() {
    let mut model = fresh();
    let idle = model.render();
    assert!(!idle.start_disabled);
    assert!(idle.stop_disabled);
    model.update(Message::StartInterval);
    let running = model.render();
    assert!(running.start_disabled);
    assert!(!running.stop_disabled);
}

#[test]
fn entry_texts() {
    assert_eq!(LogEntry::IntervalStarted.text(), "Interval started");
    assert_eq!(LogEntry::Canceled.text(), "canceled");
    assert_eq!(LogEntry::Done.text(), "Done");
}
