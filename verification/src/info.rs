//! What the service says of itself.

use vstd::prelude::*;

verus! {

/// The service's name, version and device, and the kinds of firmware image
/// it knows.
#[derive(Debug, PartialEq, Eq)]
pub struct InfoResponse {
    pub name: &'static str,
    pub version: &'static str,
    pub device: &'static str,
    pub firmware_images: Vec<&'static str>,
}

/// The kinds of firmware image, as texts.
pub open spec fn image_kinds(images: Seq<&'static str>) -> Seq<Seq<char>> {
    images.map_values(|kind: &'static str| kind@)
}

/// The description of the service.
pub fn info() -> (about: InfoResponse)
    ensures
        about.name@ == "TernReader Web Tools"@,
        about.version@ == "0.1.0"@,
        about.device@ == "Xteink X4 (ESP32-C3)"@,
        image_kinds(about.firmware_images@) == seq!["application"@, "full-merged"@],
{
    let mut firmware_images: Vec<&'static str> = Vec::new();
    firmware_images.push("application");
    firmware_images.push("full-merged");
    proof {
        assert(image_kinds(firmware_images@) =~= seq!["application"@, "full-merged"@]);
    }
    InfoResponse {
        name: "TernReader Web Tools",
        version: "0.1.0",
        device: "Xteink X4 (ESP32-C3)",
        firmware_images,
    }
}

} // verus!
