//! The installer of the sidecar: which archive to fetch for a platform, where it
//! comes from, how it is unpacked, and the order of the steps of an install.

use crate::text::ends_with;
use vstd::prelude::*;
use vstd::string::*;

verus! {

/// The operating systems for which a sidecar archive is published.
#[derive(Clone, Copy, Debug, PartialEq, Eq, Structural)]
pub enum Platform {
    Windows,
    MacOs,
    Linux,
}

/// The two archive formats in which the sidecar is shipped.
#[derive(Clone, Copy, Debug, PartialEq, Eq, Structural)]
pub enum ArchiveKind {
    Zip,
    TarGz,
}

/// What an entry of a zip archive stands for.
#[derive(Clone, Copy, Debug, PartialEq, Eq, Structural)]
pub enum EntryKind {
    Directory,
    File,
}

/// The installed sidecar as recorded on disk after an install.
#[derive(Clone, Debug, PartialEq, Eq)]
pub struct VersionMetadata {
    pub version: String,
    pub downloaded_at: String,
}

/// The point of an install at which something went wrong.
#[derive(Clone, Copy, Debug, PartialEq, Eq, Structural)]
pub enum InstallFault {
    CreateServerDir,
    SendRequest,
    BadStatus,
    CreateArchive,
    ReadResponse,
    WriteArchive,
    RemoveExisting,
    OpenZip,
    ReadZip,
    ReadZipEntry,
    CreateDirectory,
    CreateParent,
    CreateFile,
    ExtractFile,
    OpenTarGz,
    ExtractTarGz,
    RemoveArchive,
    ReadMetadata,
    SetPermissions,
    WriteVersion,
}

/// The steps of an install, in the order in which they run.
#[derive(Clone, Copy, Debug, PartialEq, Eq, Structural)]
pub enum InstallStage {
    /// Make sure the server directory exists.
    CreateServerDir,
    /// Fetch the archive and store it in the server directory.
    Download,
    /// Remove what an earlier install extracted, if anything.
    ClearPrevious,
    /// Unpack the archive.
    Extract,
    /// Delete the archive file.
    RemoveArchive,
    /// Give the primary binary its executable bits.
    MarkExecutable,
    /// Write the version file.
    RecordVersion,
}

/// What to do after a step of an install has ended.
#[derive(Clone, Copy, Debug, PartialEq, Eq, Structural)]
pub enum InstallNext {
    /// Run this step next.
    Run(InstallStage),
    /// Every step has succeeded.
    Finished,
    /// A step has failed: run no further step.
    Abort,
}

impl Platform {
    /// Whether file permissions carry an executable bit here.
    pub open spec fn posix(self) -> bool {
        self != Platform::Windows
    }

    /// Whether files carry an executable bit on this platform.
    pub fn is_posix(&self) -> (r: bool)
        ensures
            r == self.posix(),
    {
        match self {
            Platform::Windows => false,
            _ => true,
        }
    }
}

/// How to find out whether the acceleration layer is present.
#[derive(Clone, Debug, PartialEq, Eq)]
pub enum CapabilityProbe {
    /// It is present where one of these files exists.
    AnyFileExists(Vec<String>),
    /// It is present where this command, the program's name and its arguments,
    /// succeeds.
    CommandSucceeds(Vec<String>),
    /// It cannot be found out.
    NotDeterminable,
}

/// The probe for the acceleration layer on a platform, as the contracts see it.
pub open spec fn probes(probe: CapabilityProbe, platform: Platform) -> bool {
    match platform {
        Platform::Linux => probe matches CapabilityProbe::AnyFileExists(paths) && paths.deep_view()
            == seq!["/usr/lib/x86_64-linux-gnu/libcuda.so.1"@, "/usr/lib64/libcuda.so.1"@],
        Platform::Windows => probe matches CapabilityProbe::CommandSucceeds(command)
            && command.deep_view() == seq!["nvidia-smi"@],
        Platform::MacOs => probe is NotDeterminable,
    }
}

/// Says how to probe for the acceleration layer: by the driver's library on
/// Linux, by the driver's diagnostic command on Windows, and not at all on macOS.
pub fn capability_probe(platform: Platform) -> (probe: CapabilityProbe)
    ensures
        probes(probe, platform),
{
    match platform {
        Platform::Linux => {
            let mut paths: Vec<String> = Vec::new();
            paths.push(String::from_str("/usr/lib/x86_64-linux-gnu/libcuda.so.1"));
            paths.push(String::from_str("/usr/lib64/libcuda.so.1"));
            assert(paths.deep_view() =~= seq![
                "/usr/lib/x86_64-linux-gnu/libcuda.so.1"@,
                "/usr/lib64/libcuda.so.1"@,
            ]);
            CapabilityProbe::AnyFileExists(paths)
        },
        Platform::Windows => {
            let mut command: Vec<String> = Vec::new();
            command.push(String::from_str("nvidia-smi"));
            assert(command.deep_view() =~= seq!["nvidia-smi"@]);
            CapabilityProbe::CommandSucceeds(command)
        },
        Platform::MacOs => CapabilityProbe::NotDeterminable,
    }
}

/// Whether the acceleration layer counts as present, given what the capability
/// probe found: it does not where the probe could not tell.
pub fn acceleration_detected(probe: Option<bool>) -> (accelerated: bool)
    ensures
        accelerated == (probe == Some(true)),
{
    match probe {
        Some(found) => found,
        None => false,
    }
}

/// The name of the archive for a platform; on Windows and Linux a build for the
/// acceleration layer is published beside the plain one.
pub open spec fn artifact_name_of(platform: Platform, accelerated: bool) -> Seq<char> {
    match platform {
        Platform::Windows => if accelerated {
            "ollama_server-windows-cuda.zip"@
        } else {
            "ollama_server-windows.zip"@
        },
        Platform::MacOs => "mlx_server-macos.tar.gz"@,
        Platform::Linux => if accelerated {
            "ollama_server-linux-cuda.tar.gz"@
        } else {
            "ollama_server-linux.tar.gz"@
        },
    }
}

/// Selects the archive to download. `accelerated` is the outcome of the capability
/// probe, `false` where it could not be determined.
pub fn artifact_name(platform: Platform, accelerated: bool) -> (name: &'static str)
    ensures
        name@ == artifact_name_of(platform, accelerated),
{
    match platform {
        Platform::Windows => if accelerated {
            "ollama_server-windows-cuda.zip"
        } else {
            "ollama_server-windows.zip"
        },
        Platform::MacOs => "mlx_server-macos.tar.gz",
        Platform::Linux => if accelerated {
            "ollama_server-linux-cuda.tar.gz"
        } else {
            "ollama_server-linux.tar.gz"
        },
    }
}

/// The name of the sidecar's program, which is also the directory it is extracted to.
pub open spec fn server_name_of(platform: Platform) -> Seq<char> {
    match platform {
        Platform::MacOs => "mlx_server"@,
        _ => "ollama_server"@,
    }
}

/// The directory, below the server directory, that an install fills.
pub fn extract_dir(platform: Platform) -> (name: &'static str)
    ensures
        name@ == server_name_of(platform),
{
    match platform {
        Platform::MacOs => "mlx_server",
        _ => "ollama_server",
    }
}

/// The primary binary, relative to the server directory.
pub open spec fn primary_binary_of(platform: Platform) -> Seq<char> {
    server_name_of(platform) + "/"@ + server_name_of(platform)
}

/// The file that an install marks executable, relative to the server directory.
pub fn primary_binary(platform: Platform) -> (path: String)
    ensures
        path@ == primary_binary_of(platform),
{
    let mut path = String::from_str(extract_dir(platform));
    path.append("/");
    path.append(extract_dir(platform));
    path
}

/// The tag under which a version of the sidecar is released.
pub open spec fn release_tag_of(version: Seq<char>) -> Seq<char> {
    "llm-v"@ + version
}

/// The address of a release archive.
pub open spec fn download_url_of(version: Seq<char>, filename: Seq<char>) -> Seq<char> {
    "https://github.com/BorisBesky/file-organizer-desktop/releases/download/"@ + release_tag_of(
        version,
    ) + "/"@ + filename
}

/// Builds the address from which `filename` of release `version` is fetched.
pub fn download_url(version: &str, filename: &str) -> (url: String)
    ensures
        url@ == download_url_of(version@, filename@),
{
    let mut url = String::from_str(
        "https://github.com/BorisBesky/file-organizer-desktop/releases/download/",
    );
    url.append("llm-v");
    url.append(version);
    url.append("/");
    url.append(filename);
    url
}

/// The format of an archive, told by its name: zip where it ends in `.zip`.
pub open spec fn archive_kind_of(filename: Seq<char>) -> ArchiveKind {
    if ".zip"@.is_suffix_of(filename) {
        ArchiveKind::Zip
    } else {
        ArchiveKind::TarGz
    }
}

/// Tells the format of an archive from its name.
pub fn archive_kind(filename: &str) -> (kind: ArchiveKind)
    ensures
        kind == archive_kind_of(filename@),
{
    if ends_with(filename, ".zip") {
        ArchiveKind::Zip
    } else {
        ArchiveKind::TarGz
    }
}

/// A zip entry whose name ends in a slash is a directory; any other is a file.
pub open spec fn entry_kind_of(name: Seq<char>) -> EntryKind {
    if "/"@.is_suffix_of(name) {
        EntryKind::Directory
    } else {
        EntryKind::File
    }
}

/// Tells what an entry of a zip archive stands for.
pub fn zip_entry_kind(name: &str) -> (kind: EntryKind)
    ensures
        kind == entry_kind_of(name@),
{
    if ends_with(name, "/") {
        EntryKind::Directory
    } else {
        EntryKind::File
    }
}

/// The words that introduce the report of a fault.
pub open spec fn fault_prefix_of(fault: InstallFault) -> Seq<char> {
    match fault {
        InstallFault::CreateServerDir => "Failed to create server directory: "@,
        InstallFault::SendRequest => "Failed to download server: "@,
        InstallFault::BadStatus => "Download failed with status: "@,
        InstallFault::CreateArchive => "Failed to create archive file: "@,
        InstallFault::ReadResponse => "Failed to read response: "@,
        InstallFault::WriteArchive => "Failed to write archive: "@,
        InstallFault::RemoveExisting => "Failed to remove existing server: "@,
        InstallFault::OpenZip => "Failed to open ZIP file: "@,
        InstallFault::ReadZip => "Failed to read ZIP archive: "@,
        InstallFault::ReadZipEntry => "Failed to read file from ZIP: "@,
        InstallFault::CreateDirectory => "Failed to create directory: "@,
        InstallFault::CreateParent => "Failed to create parent directory: "@,
        InstallFault::CreateFile => "Failed to create file: "@,
        InstallFault::ExtractFile => "Failed to extract file: "@,
        InstallFault::OpenTarGz => "Failed to open TAR.GZ file: "@,
        InstallFault::ExtractTarGz => "Failed to extract TAR.GZ: "@,
        InstallFault::RemoveArchive => "Failed to remove archive: "@,
        InstallFault::ReadMetadata => "Failed to get file metadata: "@,
        InstallFault::SetPermissions => "Failed to set executable permissions: "@,
        InstallFault::WriteVersion => "Failed to record installed version: "@,
    }
}

fn fault_prefix(fault: InstallFault) -> (prefix: &'static str)
    ensures
        prefix@ == fault_prefix_of(fault),
{
    match fault {
        InstallFault::CreateServerDir => "Failed to create server directory: ",
        InstallFault::SendRequest => "Failed to download server: ",
        InstallFault::BadStatus => "Download failed with status: ",
        InstallFault::CreateArchive => "Failed to create archive file: ",
        InstallFault::ReadResponse => "Failed to read response: ",
        InstallFault::WriteArchive => "Failed to write archive: ",
        InstallFault::RemoveExisting => "Failed to remove existing server: ",
        InstallFault::OpenZip => "Failed to open ZIP file: ",
        InstallFault::ReadZip => "Failed to read ZIP archive: ",
        InstallFault::ReadZipEntry => "Failed to read file from ZIP: ",
        InstallFault::CreateDirectory => "Failed to create directory: ",
        InstallFault::CreateParent => "Failed to create parent directory: ",
        InstallFault::CreateFile => "Failed to create file: ",
        InstallFault::ExtractFile => "Failed to extract file: ",
        InstallFault::OpenTarGz => "Failed to open TAR.GZ file: ",
        InstallFault::ExtractTarGz => "Failed to extract TAR.GZ: ",
        InstallFault::RemoveArchive => "Failed to remove archive: ",
        InstallFault::ReadMetadata => "Failed to get file metadata: ",
        InstallFault::SetPermissions => "Failed to set executable permissions: ",
        InstallFault::WriteVersion => "Failed to record installed version: ",
    }
}

/// The report of a failed install: the stage at which it failed, then the cause.
pub open spec fn install_error_of(fault: InstallFault, detail: Seq<char>) -> Seq<char> {
    fault_prefix_of(fault) + detail
}

/// Words the failure of an install so that the caller can tell the stage.
pub fn install_error(fault: InstallFault, detail: &str) -> (message: String)
    ensures
        message@ == install_error_of(fault, detail@),
{
    let mut message = String::from_str(fault_prefix(fault));
    message.append(detail);
    message
}

/// The stage in which a fault can occur.
pub open spec fn stage_of_fault(fault: InstallFault) -> InstallStage {
    match fault {
        InstallFault::CreateServerDir => InstallStage::CreateServerDir,
        InstallFault::SendRequest | InstallFault::BadStatus | InstallFault::CreateArchive
        | InstallFault::ReadResponse | InstallFault::WriteArchive => InstallStage::Download,
        InstallFault::RemoveExisting => InstallStage::ClearPrevious,
        InstallFault::OpenZip | InstallFault::ReadZip | InstallFault::ReadZipEntry
        | InstallFault::CreateDirectory | InstallFault::CreateParent | InstallFault::CreateFile
        | InstallFault::ExtractFile | InstallFault::OpenTarGz | InstallFault::ExtractTarGz =>
            InstallStage::Extract,
        InstallFault::RemoveArchive => InstallStage::RemoveArchive,
        InstallFault::ReadMetadata | InstallFault::SetPermissions => InstallStage::MarkExecutable,
        InstallFault::WriteVersion => InstallStage::RecordVersion,
    }
}

/// The first step of every install.
pub open spec fn first_stage() -> InstallStage {
    InstallStage::CreateServerDir
}

/// The step that follows `stage` when `stage` has succeeded, if any does. The
/// executable bit is set on POSIX systems only.
pub open spec fn stage_after(stage: InstallStage, platform: Platform) -> Option<InstallStage> {
    match stage {
        InstallStage::CreateServerDir => Some(InstallStage::Download),
        InstallStage::Download => Some(InstallStage::ClearPrevious),
        InstallStage::ClearPrevious => Some(InstallStage::Extract),
        InstallStage::Extract => Some(InstallStage::RemoveArchive),
        InstallStage::RemoveArchive => if platform.posix() {
            Some(InstallStage::MarkExecutable)
        } else {
            Some(InstallStage::RecordVersion)
        },
        InstallStage::MarkExecutable => Some(InstallStage::RecordVersion),
        InstallStage::RecordVersion => None,
    }
}

/// What follows a step that ended with success (`succeeded`) or with a failure.
pub open spec fn install_next_of(stage: InstallStage, platform: Platform, succeeded: bool)
    -> InstallNext {
    if !succeeded {
        InstallNext::Abort
    } else {
        match stage_after(stage, platform) {
            Some(next) => InstallNext::Run(next),
            None => InstallNext::Finished,
        }
    }
}

/// The step with which an install begins.
pub fn install_begin() -> (stage: InstallStage)
    ensures
        stage == first_stage(),
{
    InstallStage::CreateServerDir
}

/// Decides what follows a step of an install. A failure ends the install at once, so
/// that no later step runs on what an earlier one left undone.
pub fn install_next(stage: InstallStage, platform: Platform, succeeded: bool) -> (next:
    InstallNext)
    ensures
        next == install_next_of(stage, platform, succeeded),
{
    if !succeeded {
        return InstallNext::Abort;
    }
    match stage {
        InstallStage::CreateServerDir => InstallNext::Run(InstallStage::Download),
        InstallStage::Download => InstallNext::Run(InstallStage::ClearPrevious),
        InstallStage::ClearPrevious => InstallNext::Run(InstallStage::Extract),
        InstallStage::Extract => InstallNext::Run(InstallStage::RemoveArchive),
        InstallStage::RemoveArchive => if platform.is_posix() {
            InstallNext::Run(InstallStage::MarkExecutable)
        } else {
            InstallNext::Run(InstallStage::RecordVersion)
        },
        InstallStage::MarkExecutable => InstallNext::Run(InstallStage::RecordVersion),
        InstallStage::RecordVersion => InstallNext::Finished,
    }
}

/// The place of a step in the order of an install.
pub open spec fn stage_rank(stage: InstallStage) -> int {
    match stage {
        InstallStage::CreateServerDir => 0,
        InstallStage::Download => 1,
        InstallStage::ClearPrevious => 2,
        InstallStage::Extract => 3,
        InstallStage::RemoveArchive => 4,
        InstallStage::MarkExecutable => 5,
        InstallStage::RecordVersion => 6,
    }
}

/// An install as it unfolds: the steps that ran, given how each one ended.
/// `outcomes[k]` tells whether the `k`-th step that ran succeeded; the install stops
/// at the first failure, after the last step, or when `outcomes` is used up.
pub open spec fn stages_run(stage: InstallStage, platform: Platform, outcomes: Seq<bool>) -> Seq<
    InstallStage,
>
    decreases outcomes.len(),
{
    if outcomes.len() == 0 {
        Seq::empty()
    } else {
        match install_next_of(stage, platform, outcomes[0]) {
            InstallNext::Run(next) => seq![stage] + stages_run(
                next,
                platform,
                outcomes.drop_first(),
            ),
            _ => seq![stage],
        }
    }
}

/// Steps run in their order, each at most once, and every step but the last
/// one that ran has succeeded.
pub proof fn lemma_stages_run_in_order(
    stage: InstallStage,
    platform: Platform,
    outcomes: Seq<bool>,
)
    ensures
        stages_run(stage, platform, outcomes).len() <= outcomes.len(),
        forall|k: int|
            0 <= k < stages_run(stage, platform, outcomes).len() ==> stage_rank(stage) + k
                <= stage_rank(#[trigger] stages_run(stage, platform, outcomes)[k]),
        forall|k: int|
            0 <= k < stages_run(stage, platform, outcomes).len() - 1 ==> #[trigger] outcomes[k],
        forall|k: int, l: int|
            0 <= k < l < stages_run(stage, platform, outcomes).len() ==> stage_rank(
                stages_run(stage, platform, outcomes)[k],
            ) < stage_rank(stages_run(stage, platform, outcomes)[l]),
    decreases outcomes.len(),
{
    if outcomes.len() > 0 {
        match install_next_of(stage, platform, outcomes[0]) {
            InstallNext::Run(next) => {
                let rest = outcomes.drop_first();
                lemma_stages_run_in_order(next, platform, rest);
                assert forall|k: int|
                    0 <= k < stages_run(stage, platform, outcomes).len() - 1 implies #[trigger] outcomes[k] by {
                    if k > 0 {
                        assert(outcomes[k] == rest[k - 1]);
                    }
                }
            },
            _ => {},
        }
    }
}

/// The version file is written only after the archive was extracted with success:
/// wherever an install reaches the step that records the version, the extraction
/// has run before it and has succeeded.
pub proof fn lemma_version_recorded_after_extraction(platform: Platform, outcomes: Seq<bool>, k: int)
    requires
        0 <= k < stages_run(first_stage(), platform, outcomes).len(),
        stages_run(first_stage(), platform, outcomes)[k] == InstallStage::RecordVersion,
    ensures
        3 < k,
        stages_run(first_stage(), platform, outcomes)[3] == InstallStage::Extract,
        outcomes[3],
{
    lemma_stages_run_in_order(first_stage(), platform, outcomes);
    lemma_stages_run_prefix(platform, outcomes);
}

/// The first four steps of an install are always the same four.
proof fn lemma_stages_run_prefix(platform: Platform, outcomes: Seq<bool>)
    ensures
        forall|k: int|
            0 <= k < stages_run(first_stage(), platform, outcomes).len() && k <= 3 ==> stage_rank(
                #[trigger] stages_run(first_stage(), platform, outcomes)[k],
            ) == k,
{
    reveal_with_fuel(stages_run, 4);
}

} // verus!
