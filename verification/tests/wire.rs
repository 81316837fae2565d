use sentinel::model::{AuthResult, ClientOpt, ContainerStatus, Newspeak, OnlinePeople, ServerStatus};

fn sample() -> ServerStatus {
    ServerStatus {
        host: "running".to_string(),
        container: ContainerStatus::Up("Up 6 seconds".to_string()),
        online: OnlinePeople::Known("3 players".to_string()),
    }
}

fn sample_bytes() -> Vec<u8> {
    let mut bytes = vec![7];
    bytes.extend_from_slice(b"running");
    bytes.extend_from_slice(&[2, 12]);
    bytes.extend_from_slice(b"Up 6 seconds");
    bytes.extend_from_slice(&[1, 9]);
    bytes.extend_from_slice(b"3 players");
    bytes
}

#[test]
fn status_round_trip() {
    let status = sample();
    let bytes = status.encode();
    assert_eq!(ServerStatus::decode(&bytes), Some((status, bytes.len())));
}

#[test]
fn status_has_its_fields_in_order() {
    assert_eq!(sample().encode(), sample_bytes());
    assert_eq!(sample_bytes().len(), 33);
    assert_eq!(ServerStatus::decode(&sample_bytes()), Some((sample(), 33)));
}

#[test]
fn status_without_details() {
    let status = ServerStatus {
        host: "stopped".to_string(),
        container: ContainerStatus::NotUp,
        online: OnlinePeople::Unknown,
    };
    let mut expected = vec![7];
    expected.extend_from_slice(b"stopped");
    expected.extend_from_slice(&[1, 0]);
    assert_eq!(status.encode(), expected);
    assert_eq!(ServerStatus::decode(&expected), Some((status, 10)));
}

#[test]
fn verdicts_are_one_byte() {
    assert_eq!(AuthResult::Goob.encode(), vec![0]);
    assert_eq!(AuthResult::Sus.encode(), vec![1]);
    assert_eq!(AuthResult::decode(&[0]), Some((AuthResult::Goob, 1)));
    assert_eq!(AuthResult::decode(&[1]), Some((AuthResult::Sus, 1)));
    assert_eq!(AuthResult::decode(&[2]), None);
    assert_eq!(AuthResult::decode(&[]), None);
}

#[test]
fn commands_are_one_byte() {
    assert_eq!(ClientOpt::On.encode(), vec![0]);
    assert_eq!(ClientOpt::Off.encode(), vec![1]);
    assert_eq!(ClientOpt::Reboot.encode(), vec![2]);
    assert_eq!(ClientOpt::decode(&[0]), Some((ClientOpt::On, 1)));
    assert_eq!(ClientOpt::decode(&[1]), Some((ClientOpt::Off, 1)));
    assert_eq!(ClientOpt::decode(&[2]), Some((ClientOpt::Reboot, 1)));
}

#[test]
fn command_decoding_refuses_what_is_no_command() {
    assert_eq!(ClientOpt::decode(&[]), None);
    assert_eq!(ClientOpt::decode(&[3]), None);
    assert_eq!(ClientOpt::decode(&[250]), None);
    assert_eq!(ClientOpt::decode(&[251, 1]), None);
    assert_eq!(ClientOpt::decode(&[252, 1, 0, 0]), None);
    assert_eq!(ClientOpt::decode(&[253, 1, 0, 0, 0, 0, 0, 0, 0]), None);
    assert_eq!(ClientOpt::decode(&[254, 1, 0, 0, 0, 0, 0, 0, 0, 0, 0, 0, 0, 0, 0, 0, 0]), None);
    assert_eq!(ClientOpt::decode(&[255]), None);
    assert_eq!(ClientOpt::decode(&[251, 0, 1]), None);
}

#[test]
fn command_decoding_leaves_trailing_bytes_alone() {
    assert_eq!(ClientOpt::decode(&[2, 99, 98]), Some((ClientOpt::Reboot, 1)));
}

#[test]
fn command_decoding_takes_wider_forms() {
    assert_eq!(ClientOpt::decode(&[251, 1, 0]), Some((ClientOpt::Off, 3)));
    assert_eq!(ClientOpt::decode(&[252, 2, 0, 0, 0]), Some((ClientOpt::Reboot, 5)));
    assert_eq!(ClientOpt::decode(&[251, 0, 0, 7]), Some((ClientOpt::On, 3)));
}

#[test]
fn container_status_forms() {
    assert_eq!(ContainerStatus::Unknown.encode(), vec![0]);
    assert_eq!(ContainerStatus::NotUp.encode(), vec![1]);
    assert_eq!(ContainerStatus::Up("Up".to_string()).encode(), vec![2, 2, b'U', b'p']);
    assert_eq!(ContainerStatus::Up(String::new()).encode(), vec![2, 0]);
    assert_eq!(ContainerStatus::decode(&[0]), Some((ContainerStatus::Unknown, 1)));
    assert_eq!(ContainerStatus::decode(&[1, 5]), Some((ContainerStatus::NotUp, 1)));
    assert_eq!(
        ContainerStatus::decode(&[2, 2, b'U', b'p', 0]),
        Some((ContainerStatus::Up("Up".to_string()), 4))
    );
    assert_eq!(ContainerStatus::decode(&[2]), None);
    assert_eq!(ContainerStatus::decode(&[2, 3, b'U', b'p']), None);
    assert_eq!(ContainerStatus::decode(&[3]), None);
}

#[test]
fn online_people_forms() {
    assert_eq!(OnlinePeople::Unknown.encode(), vec![0]);
    assert_eq!(OnlinePeople::Known("ab".to_string()).encode(), vec![1, 2, b'a', b'b']);
    assert_eq!(OnlinePeople::decode(&[0]), Some((OnlinePeople::Unknown, 1)));
    assert_eq!(
        OnlinePeople::decode(&[1, 2, b'a', b'b']),
        Some((OnlinePeople::Known("ab".to_string()), 4))
    );
    assert_eq!(OnlinePeople::decode(&[1]), None);
    assert_eq!(OnlinePeople::decode(&[2]), None);
}

#[test]
fn newspeak_forms() {
    assert_eq!(Newspeak::AuthResult(AuthResult::Goob).encode(), vec![0, 0]);
    assert_eq!(Newspeak::AuthResult(AuthResult::Sus).encode(), vec![0, 1]);
    assert_eq!(Newspeak::Feedback("hi".to_string()).encode(), vec![2, 2, 104, 105]);
    let mut framed = vec![1];
    framed.extend_from_slice(&sample_bytes());
    assert_eq!(Newspeak::ServerStatus(sample()).encode(), framed);
}

#[test]
fn newspeak_round_trip() {
    let messages = vec![
        Newspeak::AuthResult(AuthResult::Goob),
        Newspeak::AuthResult(AuthResult::Sus),
        Newspeak::ServerStatus(sample()),
        Newspeak::Feedback("sentinel acknowledged the request".to_string()),
        Newspeak::Feedback(String::new()),
    ];
    for message in messages {
        let bytes = message.encode();
        assert_eq!(Newspeak::decode(&bytes), Some((message, bytes.len())));
    }
}

#[test]
fn newspeak_decoding_refuses_what_is_no_message() {
    assert_eq!(Newspeak::decode(&[]), None);
    assert_eq!(Newspeak::decode(&[3]), None);
    assert_eq!(Newspeak::decode(&[0]), None);
    assert_eq!(Newspeak::decode(&[0, 2]), None);
    assert_eq!(Newspeak::decode(&[2, 5, b'a']), None);
    assert_eq!(Newspeak::decode(&[2, 1, 0xff]), None);
    assert_eq!(Newspeak::decode(&[2, 2, 0xc3]), None);
    assert_eq!(Newspeak::decode(&[2, 254, 1]), None);
    assert_eq!(
        Newspeak::decode(&[2, 253, 0xff, 0xff, 0xff, 0xff, 0xff, 0xff, 0xff, 0xff, b'a']),
        None
    );
    assert_eq!(Newspeak::decode(&[1, 7, b'r', b'u', b'n']), None);
    let mut cut = vec![1];
    cut.extend_from_slice(&sample_bytes());
    cut.pop();
    assert_eq!(Newspeak::decode(&cut), None);
}

#[test]
fn text_outside_ascii_counts_bytes() {
    let message = Newspeak::Feedback("h\u{e9}!".to_string());
    assert_eq!(message.encode(), vec![2, 4, b'h', 0xc3, 0xa9, b'!']);
    assert_eq!(Newspeak::decode(&[2, 4, b'h', 0xc3, 0xa9, b'!']), Some((message, 6)));
}

#[test]
fn long_text_has_a_wider_length() {
    let text = "x".repeat(250);
    let bytes = Newspeak::Feedback(text.clone()).encode();
    assert_eq!(bytes.len(), 252);
    assert_eq!(&bytes[..2], &[2, 250]);

    let text = "x".repeat(251);
    let bytes = Newspeak::Feedback(text.clone()).encode();
    assert_eq!(bytes.len(), 255);
    assert_eq!(&bytes[..4], &[2, 251, 251, 0]);
    assert_eq!(Newspeak::decode(&bytes), Some((Newspeak::Feedback(text), 255)));

    let text = "x".repeat(300);
    let bytes = Newspeak::Feedback(text.clone()).encode();
    assert_eq!(&bytes[..4], &[2, 251, 44, 1]);
    assert_eq!(Newspeak::decode(&bytes), Some((Newspeak::Feedback(text), 304)));

    let text = "x".repeat(65536);
    let bytes = Newspeak::Feedback(text.clone()).encode();
    assert_eq!(&bytes[..6], &[2, 252, 0, 0, 1, 0]);
    assert_eq!(Newspeak::decode(&bytes), Some((Newspeak::Feedback(text), 65542)));
}

#[test]
fn length_in_the_widest_form_is_read() {
    let bytes = [2, 253, 2, 0, 0, 0, 0, 0, 0, 0, b'o', b'k'];
    assert_eq!(Newspeak::decode(&bytes), Some((Newspeak::Feedback("ok".to_string()), 12)));
}

#[test]
fn primitives_are_those_of_bincode() {
    let config = bincode::config::standard();
    assert_eq!(ClientOpt::Reboot.encode(), bincode::encode_to_vec(2u32, config).unwrap());
    let text = "Up 6 seconds (health: starting)";
    let bytes = Newspeak::Feedback(text.to_string()).encode();
    assert_eq!(&bytes[1..], &bincode::encode_to_vec(text, config).unwrap()[..]);
    let (host, used): (String, usize) = bincode::decode_from_slice(&sample().encode(), config).unwrap();
    assert_eq!(host, "running");
    assert_eq!(used, 8);
}
