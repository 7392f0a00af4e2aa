use fault_recorder::services::jds_service::request_kind::RequestKind;

#[test]
fn test_task_cycle() {
    println!("");
    let self_id = "test RequestKind";
    println!("{}", self_id);
    let test_data = [
        (format!("{}/JdsService/Auth.Secret", self_id), RequestKind::AuthSecret),
        (format!("{}/JdsService/Auth.Ssh", self_id), RequestKind::AuthSsh),
        (format!("{}/JdsService/Points", self_id), RequestKind::Points),
        (format!("{}/JdsService/Subscribe", self_id), RequestKind::Subscribe),
    ];
    for (request, target) in test_data {
        let result = RequestKind::from(&request);
        assert!(result == target, "\nrequest: {:?} \nresult: {:?}\ntarget: {:?}", request, result, target);
    }
}

#[test]
fn request_kind_unknown_names() {
    assert_eq!(RequestKind::from("/App/JdsService/Other"), RequestKind::Unknown);
    assert_eq!(RequestKind::from("Auth.Secret"), RequestKind::Unknown);
    assert_eq!(RequestKind::from(""), RequestKind::Unknown);
    assert_eq!(RequestKind::from("/App/Points"), RequestKind::Points);
}

#[test]
fn request_kind_from_capture() {
    assert_eq!(RequestKind::from_capture(Some("Auth.Ssh")), RequestKind::AuthSsh);
    assert_eq!(RequestKind::from_capture(Some("auth.ssh")), RequestKind::Unknown);
    assert_eq!(RequestKind::from_capture(None), RequestKind::Unknown);
}

#[test]
fn request_kind_auth_prefixed_names() {
    assert_eq!(RequestKind::from("/App/JdsService/Auth.Points"), RequestKind::Points);
    assert_eq!(RequestKind::from("/App/JdsService/Auth.Subscribe"), RequestKind::Subscribe);
    assert_eq!(RequestKind::from_capture(Some("Auth.Points")), RequestKind::Points);
    assert_eq!(RequestKind::from_capture(Some("Auth.Subscribe")), RequestKind::Subscribe);
}
