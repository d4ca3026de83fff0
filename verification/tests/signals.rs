use esp_scheduler::signals::{on_signal, Signal, SignalAction};

#[test]
fn a_hangup_changes_nothing() {
    assert_eq!(on_signal(Signal::Hangup), SignalAction::Continue);
}

#[test]
fn termination_signals_shut_down_with_exit_code_one() {
    assert_eq!(on_signal(Signal::Terminate), SignalAction::Shutdown(1));
    assert_eq!(on_signal(Signal::Interrupt), SignalAction::Shutdown(1));
    assert_eq!(on_signal(Signal::Quit), SignalAction::Shutdown(1));
}
