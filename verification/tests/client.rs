use mc_remote::client::ClientDirective;
use mc_remote::client::ClientEvent;
use mc_remote::client::ClientPhase;
use mc_remote::client::LineRead;
use mc_remote::client::McRemoteClient;
use mc_remote::client::Receipt;
use mc_remote::client::CONN_ADDR;
use mc_remote::client::DEFAULT_CAPACITY;
use mc_remote::client::RECV_FAILURE;
use mc_remote::client::RETRY_SECS;
use mc_remote::command::Action;
use mc_remote::command::LogsArgs;

#[test]
fn the_client_has_its_constants() {
    assert_eq!(CONN_ADDR, "127.0.0.1:4086");
    assert_eq!(DEFAULT_CAPACITY, 1024);
    assert_eq!(RETRY_SECS, 5);
    assert_eq!(RECV_FAILURE, "Not good :D");
}

#[test]
fn parse_keeps_the_subcommand() {
    let client = McRemoteClient::parse(Action::Restart);
    assert_eq!(*client.command().get(), Action::Restart);
    assert_eq!(client.phase(), ClientPhase::Connecting);
}

#[test]
fn a_one_shot_command_is_sent_and_its_reply_read() {
    let mut client = McRemoteClient::parse(Action::Start);
    assert_eq!(client.connect(ClientEvent::Connected), ClientDirective::Send(vec![2]));
    assert_eq!(client.phase(), ClientPhase::Sending);
    assert_eq!(client.connect(ClientEvent::Sent), ClientDirective::ReadAll);
    assert_eq!(client.phase(), ClientPhase::Reading);
    assert_eq!(client.connect(ClientEvent::ReplyRead), ClientDirective::Finish);
    assert_eq!(client.phase(), ClientPhase::Done);
}

#[test]
fn logs_once_are_read_whole() {
    let mut client = McRemoteClient::parse(Action::Logs(LogsArgs { follow: false }));
    assert_eq!(client.connect(ClientEvent::Connected), ClientDirective::Send(vec![1]));
    assert_eq!(client.connect(ClientEvent::Sent), ClientDirective::ReadAll);
}

#[test]
fn a_followed_log_is_streamed_until_the_interrupt() {
    let mut client = McRemoteClient::parse(Action::Logs(LogsArgs { follow: true }));
    assert_eq!(client.connect(ClientEvent::Connected), ClientDirective::Send(vec![0]));
    assert_eq!(client.connect(ClientEvent::Sent), ClientDirective::Stream);
    assert_eq!(client.phase(), ClientPhase::Streaming);
    assert_eq!(client.connect(ClientEvent::Interrupted), ClientDirective::Cancel(vec![255]));
    assert_eq!(client.phase(), ClientPhase::Cancelling);
    assert_eq!(client.connect(ClientEvent::Sent), ClientDirective::Finish);
    assert_eq!(client.phase(), ClientPhase::Done);
}

#[test]
fn a_failure_ends_the_exchange() {
    let mut client = McRemoteClient::parse(Action::Stop);
    assert_eq!(client.connect(ClientEvent::IoFailed), ClientDirective::Fail);
    assert_eq!(client.phase(), ClientPhase::Failed);
    assert_eq!(client.connect(ClientEvent::Connected), ClientDirective::Fail);
    let mut reading = McRemoteClient::parse(Action::Stop);
    reading.connect(ClientEvent::Connected);
    reading.connect(ClientEvent::Sent);
    assert_eq!(reading.connect(ClientEvent::IoFailed), ClientDirective::Fail);
    assert_eq!(reading.phase(), ClientPhase::Failed);
}

#[test]
fn an_interrupt_outside_a_stream_cancels_nothing() {
    let mut client = McRemoteClient::parse(Action::Stop);
    client.connect(ClientEvent::Connected);
    client.connect(ClientEvent::Sent);
    assert_eq!(client.connect(ClientEvent::Interrupted), ClientDirective::Fail);
}

#[test]
fn a_finished_exchange_stays_finished() {
    let mut client = McRemoteClient::parse(Action::Stop);
    client.connect(ClientEvent::Connected);
    client.connect(ClientEvent::Sent);
    client.connect(ClientEvent::ReplyRead);
    assert_eq!(client.connect(ClientEvent::IoFailed), ClientDirective::Finish);
    assert_eq!(client.phase(), ClientPhase::Done);
}

#[test]
fn recv_data_decides_by_the_read() {
    assert_eq!(McRemoteClient::recv_data(LineRead::Read(0)), Receipt::Done);
    assert_eq!(McRemoteClient::recv_data(LineRead::Read(1)), Receipt::Print);
    assert_eq!(McRemoteClient::recv_data(LineRead::Read(4096)), Receipt::Print);
    assert_eq!(McRemoteClient::recv_data(LineRead::WouldBlock), Receipt::Retry(5));
    assert_eq!(McRemoteClient::recv_data(LineRead::Failed), Receipt::Fail);
}
