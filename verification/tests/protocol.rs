use synthetic::payload::{Payload, PayloadError};
use synthetic::protocol::{Packet, SyntheticProtocol};

#[test]
fn request_holds_work_and_index() {
    let proto = SyntheticProtocol {};
    let mut buf = Vec::new();
    proto.gen_req(3, &Packet { work_iterations: 1000 }, &mut buf);
    assert_eq!(buf, vec![0, 0, 0, 0, 0, 0, 0x03, 0xe8, 0, 0, 0, 0, 0, 0, 0, 3]);
}

#[test]
fn request_is_the_encoded_payload() {
    let proto = SyntheticProtocol {};
    let mut buf = Vec::new();
    proto.gen_req(usize::MAX, &Packet { work_iterations: u64::MAX }, &mut buf);
    let mut expected = Vec::new();
    Payload { work_iterations: u64::MAX, index: usize::MAX as u64 }.serialize_into(&mut expected);
    assert_eq!(buf, expected);
}

#[test]
fn requests_follow_one_another_in_a_buffer() {
    let proto = SyntheticProtocol {};
    let mut buf = Vec::new();
    proto.gen_req(0, &Packet { work_iterations: 1 }, &mut buf);
    proto.gen_req(1, &Packet { work_iterations: 1 }, &mut buf);
    assert_eq!(buf.len(), 32);
    assert_eq!(proto.read_response(&buf[..16]), Ok(0));
    assert_eq!(proto.read_response(&buf[16..]), Ok(1));
}

#[test]
fn response_reports_index_forty_two() {
    let proto = SyntheticProtocol {};
    for &work in [0u64, 1, 77, u64::MAX].iter() {
        let mut request = Vec::new();
        proto.gen_req(42, &Packet { work_iterations: work }, &mut request);
        assert_eq!(proto.read_response(&request), Ok(42));
    }
}

#[test]
fn response_is_read_from_the_front_of_the_scratch_buffer() {
    let proto = SyntheticProtocol {};
    let mut scratch = vec![0xffu8; 64];
    let mut request = Vec::new();
    proto.gen_req(9, &Packet { work_iterations: 5 }, &mut request);
    scratch[..16].copy_from_slice(&request);
    assert_eq!(proto.read_response(&scratch), Ok(9));
}

#[test]
fn response_index_is_not_checked_against_requests() {
    let proto = SyntheticProtocol {};
    let bytes = [9, 9, 9, 9, 9, 9, 9, 9, 0, 0, 0, 0, 0, 1, 0, 0];
    assert_eq!(proto.read_response(&bytes), Ok(65536));
}

#[test]
fn response_shorter_than_a_message_is_a_short_read() {
    let proto = SyntheticProtocol {};
    assert_eq!(proto.read_response(&[0u8; 15]), Err(PayloadError::ShortRead));
    assert_eq!(proto.read_response(&[]), Err(PayloadError::ShortRead));
}

#[test]
fn protocol_advertises_no_options() {
    assert!(SyntheticProtocol::args().is_empty());
}

#[test]
fn protocol_is_made_from_any_arguments() {
    let none = clap::ArgMatches::default();
    assert_eq!(SyntheticProtocol::with_args(&none, ()), SyntheticProtocol {});
    let parsed = clap::App::new("loadgen")
        .arg(clap::Arg::with_name("threads").long("threads").takes_value(true))
        .get_matches_from(vec!["loadgen", "--threads", "4"]);
    assert_eq!(SyntheticProtocol::with_args(&parsed, "tcp"), SyntheticProtocol {});
}
