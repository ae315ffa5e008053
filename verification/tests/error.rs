use dispatch::error::DispatchError;

#[test]
fn messages_of_all_errors() {
    let cases = vec![
        (DispatchError::DmcpNotFound, "dmcp not found on PATH"),
        (DispatchError::DmcpError("boom".to_string()), "dmcp invocation failed: boom"),
        (DispatchError::TaskNotFound(7), "task not found: PID 7"),
        (DispatchError::TaskAlreadyFinished(12), "task already finished: PID 12"),
        (DispatchError::InvalidRequest("no".to_string()), "invalid request: no"),
        (DispatchError::Json("EOF".to_string()), "JSON error: EOF"),
        (DispatchError::Io("closed".to_string()), "I/O error: closed"),
        (DispatchError::ChannelClosed, "signal channel closed"),
    ];
    for (error, message) in cases {
        assert_eq!(error.message(), message);
    }
}
