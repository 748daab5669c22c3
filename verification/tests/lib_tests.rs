use ddb::state::State;

#[test]
fn it_works() {}

#[test]
fn state_names() {
    assert_eq!(State::Running.to_string(), "running");
    assert_eq!(State::Stopped.to_string(), "stopped");
    assert_eq!(State::Exited.to_string(), "exited");
    assert_eq!(State::Terminated.to_string(), "terminated");
}
