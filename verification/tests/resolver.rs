use bin_wrapper::mode::{resolve, RedirectionMode, StreamDisposition};

#[test]
fn resolve_table_exhaustive() {
    // Proxy always inherits, whatever the terminal state.
    assert_eq!(resolve(RedirectionMode::Proxy, true), StreamDisposition::Inherit);
    assert_eq!(resolve(RedirectionMode::Proxy, false), StreamDisposition::Inherit);
    // Capture always pipes.
    assert_eq!(resolve(RedirectionMode::Capture, true), StreamDisposition::Pipe);
    assert_eq!(resolve(RedirectionMode::Capture, false), StreamDisposition::Pipe);
    // CaptureForMachines inherits exactly on a terminal.
    assert_eq!(
        resolve(RedirectionMode::CaptureForMachines, true),
        StreamDisposition::Inherit
    );
    assert_eq!(
        resolve(RedirectionMode::CaptureForMachines, false),
        StreamDisposition::Pipe
    );
}

#[test]
fn capture_for_machines_non_terminal_resolves_as_capture() {
    let machine = resolve(RedirectionMode::CaptureForMachines, false);
    assert_eq!(machine, resolve(RedirectionMode::Capture, false));
    assert_eq!(machine, resolve(RedirectionMode::Capture, true));
}
