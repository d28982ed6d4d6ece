//! Where a download is staged and where it ends up.
use vstd::prelude::*;
use crate::error::AppError;
use crate::models::file::{File, NodeType, file_debug};
use crate::utils::text::{decimal, decimal_text, push_str};

verus! {

/// The places a download goes through: the cloud path to fetch, the staging directory and
/// file under the cache, the final local path, and whether the fetched file is a zip
/// archive of a directory to unpack there.
#[derive(Debug)]
pub struct DownloadPlan {
    pub cloud_path: String,
    pub temp_dir_path: String,
    pub temp_full_path: String,
    pub local_path: String,
    pub extract: bool,
}

/// `<cache>/tmp/<cloud path>_<unix seconds>`.
pub open spec fn staging_dir(cache: Seq<char>, cloud_path: Seq<char>, unix_secs: u64) -> Seq<char> {
    cache + "/tmp/"@ + cloud_path + "_"@ + decimal_text(unix_secs as nat)
}

/// The staged file's name: the entry's name, with `.zip` added for a directory.
pub open spec fn staged_name(name: Seq<char>, t: NodeType) -> Seq<char> {
    match t {
        NodeType::File => name,
        NodeType::Dir => name + ".zip"@,
    }
}

/// Plans the download of `file` at `unix_secs`. Only entries the cloud has can be fetched;
/// for others the answer is a `LogicalError` naming the entry.
pub fn plan_download(
    cache_dir_path: &str,
    sync_dir_path: &str,
    file: &File,
    unix_secs: u64,
) -> (r: Result<DownloadPlan, AppError>)
    ensures
        file.cloud is None ==> (r matches Err(AppError::LogicalError(m)) && m@
            == "Only cloud file can be downloaded, try download "@ + file_debug(file@)),
        file.cloud matches Some(c) ==> (r matches Ok(plan) && plan.cloud_path@ == c.path@
            && plan.temp_dir_path@ == staging_dir(cache_dir_path@, c.path@, unix_secs)
            && plan.temp_full_path@ == staging_dir(cache_dir_path@, c.path@, unix_secs) + "/"@
            + staged_name(file.name@, file.file_type) && plan.local_path@ == sync_dir_path@
            + c.path@ && plan.extract == (file.file_type is Dir)),
{
    match &file.cloud {
        None => {
            let mut m = String::from_str("Only cloud file can be downloaded, try download ");
            let shown = file.debug_text();
            push_str(&mut m, shown.as_str());
            Err(AppError::LogicalError(m))
        },
        Some(cloud) => {
            let mut temp_dir = String::from_str(cache_dir_path);
            push_str(&mut temp_dir, "/tmp/");
            push_str(&mut temp_dir, cloud.path.as_str());
            push_str(&mut temp_dir, "_");
            let secs = decimal(unix_secs as u128);
            push_str(&mut temp_dir, secs.as_str());
            let mut full = temp_dir.clone();
            push_str(&mut full, "/");
            push_str(&mut full, file.name.as_str());
            let extract = file.is_dir();
            if extract {
                push_str(&mut full, ".zip");
            }
            let mut local = String::from_str(sync_dir_path);
            push_str(&mut local, cloud.path.as_str());
            proof {
                assert(full@ =~= staging_dir(cache_dir_path@, cloud.path@, unix_secs) + "/"@
                    + staged_name(file.name@, file.file_type));
            }
            Ok(
                DownloadPlan {
                    cloud_path: cloud.path.clone(),
                    temp_dir_path: temp_dir,
                    temp_full_path: full,
                    local_path: local,
                    extract,
                },
            )
        },
    }
}

/// What to do with a finished download: unpack an archive into the local path, first
/// removing what is already there, or move a plain file into place.
#[derive(Debug, Clone, Copy, PartialEq, Eq, Structural)]
pub enum FinishStep {
    ReplaceAndExtract,
    Extract,
    MoveIntoPlace,
}

/// The step that completes a download, given whether something already exists at the
/// local path.
pub fn finish_step(plan: &DownloadPlan, local_exists: bool) -> (r: FinishStep)
    ensures
        plan.extract && local_exists ==> r == FinishStep::ReplaceAndExtract,
        plan.extract && !local_exists ==> r == FinishStep::Extract,
        !plan.extract ==> r == FinishStep::MoveIntoPlace,
{
    if plan.extract {
        if local_exists {
            FinishStep::ReplaceAndExtract
        } else {
            FinishStep::Extract
        }
    } else {
        FinishStep::MoveIntoPlace
    }
}

}
