//! Where the service keeps its files, under the root directory it runs
//! from.

use vstd::prelude::*;
use crate::text::{join_path, joined};

verus! {

/// The endpoint that lists the latest release.
pub const RELEASE_ENDPOINT: &'static str =
    "https://api.github.com/repos/azw413/TernReader/releases/latest";

/// The `User-Agent` that the service names itself by to the release host.
pub const USER_AGENT: &'static str = "tern-site";

/// After how many seconds a request to upstream is given up.
pub const UPSTREAM_TIMEOUT_SECS: u64 = 30;

/// The cache directory under `root`.
pub fn cache_dir(root: &str) -> (dir: String)
    ensures
        dir@ == joined(root@, "cache"@),
{
    join_path(root, "cache")
}

/// The directory of font files under `root`.
pub fn fonts_dir(root: &str) -> (dir: String)
    ensures
        dir@ == joined(root@, "fonts"@),
{
    join_path(root, "fonts")
}

/// The file of the barcode detection model under `root`.
pub fn onnx_model_path(root: &str) -> (path: String)
    ensures
        path@ == joined(root@, "models/YOLOV8s_Barcode_Detection.onnx"@),
{
    join_path(root, "models/YOLOV8s_Barcode_Detection.onnx")
}

/// The file in which the last release fetched is stored.
pub fn release_cache_path(cache_dir: &str) -> (path: String)
    ensures
        path@ == joined(cache_dir@, "latest_release.json"@),
{
    join_path(cache_dir, "latest_release.json")
}

/// The file in which the record of the last firmware downloaded is stored.
pub fn firmware_cache_path(cache_dir: &str) -> (path: String)
    ensures
        path@ == joined(cache_dir@, "app_firmware.json"@),
{
    join_path(cache_dir, "app_firmware.json")
}

} // verus!
