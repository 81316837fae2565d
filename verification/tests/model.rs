use sentinel::model::{AuthResult, ClientOpt, ContainerStatus, Newspeak, OnlinePeople, ServerStatus};

#[test]
fn it_works() {
    let result = 2 + 2;
    assert_eq!(result, 4);
}

fn sample() -> ServerStatus {
    ServerStatus {
        host: "running".to_string(),
        container: ContainerStatus::Up("Up 6 seconds".to_string()),
        online: OnlinePeople::Known("3 players".to_string()),
    }
}

#[test]
fn clone_of_a_status_is_equal() {
    let status = sample();
    assert_eq!(status.clone(), status);
    assert_eq!(status.container.clone(), ContainerStatus::Up("Up 6 seconds".to_string()));
    assert_eq!(status.online.clone(), OnlinePeople::Known("3 players".to_string()));
}

#[test]
fn clone_of_a_message_is_equal() {
    let verdict = Newspeak::AuthResult(AuthResult::Sus);
    assert_eq!(verdict.clone(), verdict);
    let status = Newspeak::ServerStatus(sample());
    assert_eq!(status.clone(), status);
    let feedback = Newspeak::Feedback("noted".to_string());
    assert_eq!(feedback.clone(), feedback);
}

#[test]
fn values_differ_by_variant_and_text() {
    assert_ne!(ContainerStatus::Unknown, ContainerStatus::NotUp);
    assert_ne!(ContainerStatus::Up("a".to_string()), ContainerStatus::Up("b".to_string()));
    assert_ne!(OnlinePeople::Unknown, OnlinePeople::Known(String::new()));
    assert_ne!(AuthResult::Goob, AuthResult::Sus);
    assert_ne!(ClientOpt::On, ClientOpt::Off);
    assert_ne!(ClientOpt::Off, ClientOpt::Reboot);
}
