use duo_hotp_export::request::{ActivationRequest, DeviceProfile, USER_AGENT};

fn pairs(profile: &DeviceProfile) -> Vec<(&'static str, &'static str)> {
    profile.attributes.iter().map(|field| (field.name, field.value)).collect()
}

#[test]
fn address_of_activation() {
    let request = ActivationRequest::new("test.example.com", "XYZ");
    assert_eq!(
        request.url,
        "https://test.example.com/push/v2/activation/XYZ?customer_protocol=1"
    );
}

#[test]
fn address_takes_fields_as_they_are() {
    let request = ActivationRequest::new("", "");
    assert_eq!(request.url, "https:///push/v2/activation/?customer_protocol=1");
    let request = ActivationRequest::new("h\u{f6}st", "c d");
    assert_eq!(request.url, "https://h\u{f6}st/push/v2/activation/c d?customer_protocol=1");
}

#[test]
fn user_agent_is_the_mobile_client() {
    assert_eq!(USER_AGENT, "okhttp/2.7.5");
    assert_eq!(DeviceProfile::android().user_agent, "okhttp/2.7.5");
    assert_eq!(ActivationRequest::new("h", "c").profile.user_agent, "okhttp/2.7.5");
}

#[test]
fn profile_attributes_in_order() {
    let expected = vec![
        ("jailbroken", "false"),
        ("architecture", "arm64"),
        ("region", "US"),
        ("app_id", "com.duosecurity.duomobile"),
        ("full_disk_encryption", "true"),
        ("passcode_status", "true"),
        ("platform", "Android"),
        ("app_version", "3.49.0"),
        ("app_build_number", "323001"),
        ("version", "11"),
        ("manufacturer", "unknown"),
        ("language", "en"),
        ("model", "Pixel 3a"),
        ("security_patch_level", "2021-02-01"),
    ];
    assert_eq!(pairs(&DeviceProfile::android()), expected);
    assert_eq!(pairs(&ActivationRequest::new("h", "c").profile), expected);
}

#[test]
fn profile_is_the_same_for_every_request() {
    let first = ActivationRequest::new("one.example", "A");
    let second = ActivationRequest::new("two.example", "B");
    assert_eq!(pairs(&first.profile), pairs(&second.profile));
    assert_eq!(first.profile.user_agent, second.profile.user_agent);
}
