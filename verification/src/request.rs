//! The one HTTP request that redeems an activation code.

use vstd::prelude::*;
use vstd::string::*;

verus! {

/// The User-Agent of the mobile HTTP client that the request passes for.
pub const USER_AGENT: &'static str = "okhttp/2.7.5";

/// One attribute of the form-encoded request body.
pub struct FormField {
    pub name: &'static str,
    pub value: &'static str,
}

/// The device that an activation claims to come from. The provider matches
/// these values against the profiles it accepts, so they are fixed here, in
/// one place, and sent as they stand.
pub struct DeviceProfile {
    pub user_agent: &'static str,
    pub attributes: Vec<FormField>,
}

/// Names and values of a list of attributes, in order.
pub open spec fn attribute_pairs(attributes: Seq<FormField>) -> Seq<(Seq<char>, Seq<char>)> {
    attributes.map_values(|field: FormField| (field.name@, field.value@))
}

/// The attributes of the Android profile, in the order they are sent.
pub open spec fn android_attributes() -> Seq<(Seq<char>, Seq<char>)> {
    seq![
        ("jailbroken"@, "false"@),
        ("architecture"@, "arm64"@),
        ("region"@, "US"@),
        ("app_id"@, "com.duosecurity.duomobile"@),
        ("full_disk_encryption"@, "true"@),
        ("passcode_status"@, "true"@),
        ("platform"@, "Android"@),
        ("app_version"@, "3.49.0"@),
        ("app_build_number"@, "323001"@),
        ("version"@, "11"@),
        ("manufacturer"@, "unknown"@),
        ("language"@, "en"@),
        ("model"@, "Pixel 3a"@),
        ("security_patch_level"@, "2021-02-01"@),
    ]
}

/// The address at which `authority` redeems `code`.
pub open spec fn activation_url(authority: Seq<char>, code: Seq<char>) -> Seq<char> {
    "https://"@ + authority + "/push/v2/activation/"@ + code + "?customer_protocol=1"@
}

impl DeviceProfile {
    /// The Android phone that every activation is made as.
    pub fn android() -> (profile: DeviceProfile)
        ensures
            profile.user_agent@ == USER_AGENT@,
            attribute_pairs(profile.attributes@) == android_attributes(),
    {
        let mut attributes: Vec<FormField> = Vec::new();
        attributes.push(FormField { name: "jailbroken", value: "false" });
        attributes.push(FormField { name: "architecture", value: "arm64" });
        attributes.push(FormField { name: "region", value: "US" });
        attributes.push(FormField { name: "app_id", value: "com.duosecurity.duomobile" });
        attributes.push(FormField { name: "full_disk_encryption", value: "true" });
        attributes.push(FormField { name: "passcode_status", value: "true" });
        attributes.push(FormField { name: "platform", value: "Android" });
        attributes.push(FormField { name: "app_version", value: "3.49.0" });
        attributes.push(FormField { name: "app_build_number", value: "323001" });
        attributes.push(FormField { name: "version", value: "11" });
        attributes.push(FormField { name: "manufacturer", value: "unknown" });
        attributes.push(FormField { name: "language", value: "en" });
        attributes.push(FormField { name: "model", value: "Pixel 3a" });
        attributes.push(FormField { name: "security_patch_level", value: "2021-02-01" });
        assert(attribute_pairs(attributes@) =~= android_attributes());
        DeviceProfile { user_agent: USER_AGENT, attributes }
    }
}

/// A POST of the device profile, form-encoded, to the activation address.
pub struct ActivationRequest {
    pub url: String,
    pub profile: DeviceProfile,
}

impl ActivationRequest {
    /// The request that redeems `code` at `authority`.
    pub fn new(authority: &str, code: &str) -> (request: ActivationRequest)
        ensures
            request.url@ == activation_url(authority@, code@),
            request.profile.user_agent@ == USER_AGENT@,
            attribute_pairs(request.profile.attributes@) == android_attributes(),
    {
        let mut url: String = String::from_str("https://");
        url.append(authority);
        url.append("/push/v2/activation/");
        url.append(code);
        url.append("?customer_protocol=1");
        ActivationRequest { url, profile: DeviceProfile::android() }
    }
}

} // verus!
