//! Host-facing lifecycle decisions: identifier validation for construction,
//! resolution of the virtual-file-system path, and the directional-pad
//! sentinel test for input injection.
//!
//! The unverified layer sequences these against the registry and the real
//! runtime; everything the host's arguments decide is decided here.

use crate::HarnessError;
use vstd::prelude::*;
use vstd::string::StrSliceExecFns;
use vstd::string::StringExecFns;

verus! {

/// The longest author or app identifier the host surface accepts.
pub const MAX_ID_LEN: usize = 16;

/// Whether one identifier fits the fixed length budget.
pub open spec fn id_within_budget(s: Seq<char>) -> bool {
    s.len() <= MAX_ID_LEN
}

/// Validates the identifier pair a runner is constructed with: each part
/// must fit the fixed length budget, else the construction is rejected
/// with `InvalidArgument`.
pub fn validate_ids(author_id: &str, app_id: &str) -> (res: Result<(), HarnessError>)
    ensures
        res == Ok::<(), HarnessError>(()) <==> id_within_budget(author_id@) && id_within_budget(
            app_id@,
        ),
        res is Err ==> res == Err::<(), HarnessError>(HarnessError::InvalidArgument),
{
    if author_id.unicode_len() <= MAX_ID_LEN && app_id.unicode_len() <= MAX_ID_LEN {
        Ok(())
    } else {
        Err(HarnessError::InvalidArgument)
    }
}

/// The storage root used when the platform offers no data directory.
pub const FALLBACK_VFS_DIR: &'static str = ".firefly";

/// Picks the virtual-file-system root from the platform's answer: its data
/// directory when it has one, the fixed fallback otherwise.
pub fn get_vfs_path(data_dir: Option<String>) -> (r: String)
    ensures
        r@ == match data_dir {
            Some(d) => d@,
            None => FALLBACK_VFS_DIR@,
        },
{
    match data_dir {
        Some(d) => d,
        None => String::from_str(FALLBACK_VFS_DIR),
    }
}

/// Resolves the storage root a runner is constructed with: an explicit,
/// non-empty path is taken as given; an empty one means the platform's
/// default directory (or the fixed fallback where the platform has none).
pub fn resolve_vfs_path(vfs_path: String) -> (r: String)
    ensures
        vfs_path@.len() > 0 ==> r@ == vfs_path@,
{
    if vfs_path.as_str().unicode_len() == 0 {
        get_vfs_path(project_data_dir())
    } else {
        vfs_path
    }
}

/// Relies on directories::ProjectDirs::from("com", "firefly", "firefly")
/// and ProjectDirs::data_dir: the platform's per-user data directory for
/// the console's project, if the platform defines one. The answer depends
/// on the machine and environment, so nothing is stated of it.
#[verifier::external_body]
fn project_data_dir() -> Option<String> {
    let dirs = directories::ProjectDirs::from("com", "firefly", "firefly")?;
    Some(dirs.data_dir().to_string_lossy().into_owned())
}

/// Everything the host's construction arguments decide: the validated
/// identifier pair and the resolved storage root. The unverified layer
/// builds the real device and runtime from this.
pub struct RunnerConfig {
    pub author_id: String,
    pub app_id: String,
    pub root: String,
}

/// Works the host's construction arguments into a runner configuration:
/// rejects an identifier over the length budget with `InvalidArgument`,
/// and resolves the storage root (an empty path means the platform's
/// default directory).
pub fn prepare_runner(author_id: String, app_id: String, vfs_path: String) -> (res: Result<
    RunnerConfig,
    HarnessError,
>)
    ensures
        res is Ok <==> id_within_budget(author_id@) && id_within_budget(app_id@),
        res is Err ==> res == Err::<RunnerConfig, HarnessError>(HarnessError::InvalidArgument),
        res is Ok ==> (res->Ok_0).author_id@ == author_id@ && (res->Ok_0).app_id@ == app_id@ && (
        vfs_path@.len() > 0 ==> (res->Ok_0).root@ == vfs_path@),
{
    let root = resolve_vfs_path(vfs_path);
    let checked = validate_ids(author_id.as_str(), app_id.as_str());
    match checked {
        Err(e) => Err(e),
        Ok(u) => {
            proof {
                assert(checked == Ok::<(), HarnessError>(u));
            }
            Ok(RunnerConfig { author_id, app_id, root })
        },
    }
}

/// The coordinate value whose appearance on both axes decides whether a
/// directional-pad reading is present.
pub const PAD_SENTINEL: i16 = 0xFF;

/// Which way the sentinel test reads: `true` takes a reading at the
/// sentinel as "pad present", as the observed device traffic does. Flip
/// this one value if the device contract settles on the other polarity.
pub const PAD_PRESENT_AT_SENTINEL: bool = true;

/// The directional-pad reading that an input injection carries: present
/// exactly as the sentinel test and its polarity dictate.
pub open spec fn pad_decision(x: i16, y: i16) -> Option<(i16, i16)> {
    if (x == PAD_SENTINEL && y == PAD_SENTINEL) == PAD_PRESENT_AT_SENTINEL {
        Some((x, y))
    } else {
        None
    }
}

/// Decides whether an injected input carries a directional-pad reading.
pub fn pad_from_coords(x: i16, y: i16) -> (pad: Option<(i16, i16)>)
    ensures
        pad == pad_decision(x, y),
{
    if (x == PAD_SENTINEL && y == PAD_SENTINEL) == PAD_PRESENT_AT_SENTINEL {
        Some((x, y))
    } else {
        None
    }
}

} // verus!
