//! The data that the upstream service reports: the reply envelope, the
//! login data, download tasks with their details, and the results of task
//! operations.

use vstd::prelude::*;

verus! {

/// The uniform wrapper around every reply: a success flag, the data of a
/// successful call and the error of a failed one.
#[derive(Debug)]
pub struct SynologyResponse<D> {
    pub success: bool,
    pub data: Option<D>,
    pub error: Option<SynoError>,
}

/// What a successful login reports.
#[derive(Debug)]
pub struct AuthData {
    pub account: String,
    pub device_id: String,
    pub ik_message: String,
    pub is_portal_port: bool,
    /// The session identifier that later requests carry.
    pub sid: String,
    pub synotoken: String,
}

/// One page of the task list.
#[derive(Debug)]
pub struct Tasks {
    pub offset: i8,
    pub task: Vec<Task>,
    pub total: i32,
}

/// The tasks that a lookup by identifier returned.
#[derive(Debug)]
pub struct TaskInfo {
    pub task: Vec<Task>,
}

/// A snapshot of one download job.
#[derive(Debug)]
pub struct Task {
    pub id: String,
    pub username: String,
    /// The kind of download, such as "bt".
    pub task_type: String,
    pub title: String,
    /// Total size in bytes.
    pub size: u64,
    pub status: TaskStatus,
    pub status_extra: Option<StatusExtra>,
    pub additional: Option<AdditionalTaskInfo>,
}

/// Detail that accompanies some statuses.
#[derive(Debug)]
pub struct StatusExtra {
    pub error_detail: Option<String>,
    pub unzip_progress: Option<i32>,
}

/// The optional bundle of per-task detail.
#[derive(Debug)]
pub struct AdditionalTaskInfo {
    pub detail: Option<Detail>,
    pub file: Option<Vec<File>>,
    pub peer: Option<Vec<Peer>>,
    pub tracker: Option<Vec<Tracker>>,
    pub transfer: Option<Transfer>,
}

impl Default for AdditionalTaskInfo {
    fn default() -> (r: AdditionalTaskInfo)
        ensures
            r.detail is None,
            r.file is None,
            r.peer is None,
            r.tracker is None,
            r.transfer is None,
    {
        AdditionalTaskInfo { detail: None, file: None, peer: None, tracker: None, transfer: None }
    }
}

/// Times, counters and locations of a task. Times are whole seconds since
/// the Unix epoch, in UTC.
#[derive(Debug)]
pub struct Detail {
    pub completed_time: i64,
    pub connected_leechers: u32,
    pub connected_peers: u32,
    pub connected_seeders: u32,
    pub created_time: i64,
    pub destination: String,
    pub seed_elapsed: u64,
    pub started_time: i64,
    pub total_peers: u32,
    pub total_pieces: u32,
    pub uri: String,
    pub unzip_password: Option<String>,
    pub waiting_seconds: u32,
}

/// One file of a task.
#[derive(Debug)]
pub struct File {
    pub filename: String,
    pub index: u32,
    pub priority: String,
    pub size: u64,
    pub size_downloaded: u64,
    pub wanted: bool,
}

/// One connected peer.
#[derive(Debug)]
pub struct Peer {
    pub address: String,
    pub agent: String,
    /// The peer's completed fraction, as the bit pattern of an IEEE 754
    /// single-precision number.
    pub progress_bits: u32,
    pub speed_download: u64,
    pub speed_upload: u64,
}

/// One tracker of a task.
#[derive(Debug)]
pub struct Tracker {
    pub peers: i32,
    pub seeds: i32,
    pub status: String,
    pub update_timer: u32,
    pub url: String,
}

/// Transfer counters of a task: sizes in bytes, speeds in bytes per second.
#[derive(Debug)]
pub struct Transfer {
    pub downloaded_pieces: u32,
    pub size_downloaded: u64,
    pub size_uploaded: u64,
    pub speed_download: u64,
    pub speed_upload: u64,
}

impl Default for Transfer {
    fn default() -> (r: Transfer)
        ensures
            r.downloaded_pieces == 0,
            r.size_downloaded == 0,
            r.size_uploaded == 0,
            r.speed_download == 0,
            r.speed_upload == 0,
    {
        Transfer {
            downloaded_pieces: 0,
            size_downloaded: 0,
            size_uploaded: 0,
            speed_download: 0,
            speed_upload: 0,
        }
    }
}

/// The status of a task. Each named status has a fixed numeric code on the
/// wire; a code without a name is kept in `Unknown`.
#[derive(Debug, Clone, Copy, PartialEq, Eq, Structural)]
pub enum TaskStatus {
    Waiting,
    Downloading,
    Paused,
    Finishing,
    Finished,
    HashChecking,
    PreSeeding,
    Seeding,
    FilehostingWaiting,
    Extracting,
    Preprocessing,
    PreprocessPass,
    Downloaded,
    Postprocessing,
    CaptchaNeeded,
    Error,
    ErrorBrokenLink,
    ErrorDestNoExist,
    ErrorDestDeny,
    ErrorDiskFull,
    ErrorQuotaReached,
    ErrorTimeout,
    ErrorExceedMaxFsSize,
    ErrorExceedMaxTempFsSize,
    ErrorExceedMaxDestFsSize,
    ErrorNameTooLongEncryption,
    ErrorNameTooLong,
    ErrorTorrentDuplicate,
    ErrorFileNoExist,
    ErrorRequiredPremium,
    ErrorNotSupportType,
    ErrorFtpEncryptionNotSupportType,
    ErrorExtractFail,
    ErrorExtractWrongPassword,
    ErrorExtractInvalidArchive,
    ErrorExtractQuotaReached,
    ErrorExtractDiskFull,
    ErrorTorrentInvalid,
    ErrorRequiredAccount,
    ErrorTryItLater,
    ErrorEncryption,
    ErrorMissingPython,
    ErrorPrivateVideo,
    ErrorExtractFolderNotExist,
    ErrorNzbMissingArticle,
    ErrorEd2KLinkDuplicate,
    ErrorDestFileDuplicate,
    ErrorParchiveRepairFailed,
    ErrorInvalidAccountPassword,
    /// A code that has no name here.
    Unknown(u8),
}

impl TaskStatus {
    /// The numeric code of a status.
    pub open spec fn spec_code(self) -> u8 {
        match self {
            TaskStatus::Waiting => 1,
            TaskStatus::Downloading => 2,
            TaskStatus::Paused => 3,
            TaskStatus::Finishing => 4,
            TaskStatus::Finished => 5,
            TaskStatus::HashChecking => 6,
            TaskStatus::PreSeeding => 7,
            TaskStatus::Seeding => 8,
            TaskStatus::FilehostingWaiting => 9,
            TaskStatus::Extracting => 10,
            TaskStatus::Preprocessing => 11,
            TaskStatus::PreprocessPass => 12,
            TaskStatus::Downloaded => 13,
            TaskStatus::Postprocessing => 14,
            TaskStatus::CaptchaNeeded => 15,
            TaskStatus::Error => 101,
            TaskStatus::ErrorBrokenLink => 102,
            TaskStatus::ErrorDestNoExist => 103,
            TaskStatus::ErrorDestDeny => 104,
            TaskStatus::ErrorDiskFull => 105,
            TaskStatus::ErrorQuotaReached => 106,
            TaskStatus::ErrorTimeout => 107,
            TaskStatus::ErrorExceedMaxFsSize => 108,
            TaskStatus::ErrorExceedMaxTempFsSize => 109,
            TaskStatus::ErrorExceedMaxDestFsSize => 110,
            TaskStatus::ErrorNameTooLongEncryption => 111,
            TaskStatus::ErrorNameTooLong => 112,
            TaskStatus::ErrorTorrentDuplicate => 113,
            TaskStatus::ErrorFileNoExist => 114,
            TaskStatus::ErrorRequiredPremium => 115,
            TaskStatus::ErrorNotSupportType => 116,
            TaskStatus::ErrorFtpEncryptionNotSupportType => 117,
            TaskStatus::ErrorExtractFail => 118,
            TaskStatus::ErrorExtractWrongPassword => 119,
            TaskStatus::ErrorExtractInvalidArchive => 120,
            TaskStatus::ErrorExtractQuotaReached => 121,
            TaskStatus::ErrorExtractDiskFull => 122,
            TaskStatus::ErrorTorrentInvalid => 123,
            TaskStatus::ErrorRequiredAccount => 124,
            TaskStatus::ErrorTryItLater => 125,
            TaskStatus::ErrorEncryption => 126,
            TaskStatus::ErrorMissingPython => 127,
            TaskStatus::ErrorPrivateVideo => 128,
            TaskStatus::ErrorExtractFolderNotExist => 129,
            TaskStatus::ErrorNzbMissingArticle => 130,
            TaskStatus::ErrorEd2KLinkDuplicate => 131,
            TaskStatus::ErrorDestFileDuplicate => 132,
            TaskStatus::ErrorParchiveRepairFailed => 133,
            TaskStatus::ErrorInvalidAccountPassword => 134,
            TaskStatus::Unknown(c) => c,
        }
    }

    /// The status that a numeric code stands for.
    pub open spec fn spec_from_code(code: u8) -> TaskStatus {
        match code {
            1 => TaskStatus::Waiting,
            2 => TaskStatus::Downloading,
            3 => TaskStatus::Paused,
            4 => TaskStatus::Finishing,
            5 => TaskStatus::Finished,
            6 => TaskStatus::HashChecking,
            7 => TaskStatus::PreSeeding,
            8 => TaskStatus::Seeding,
            9 => TaskStatus::FilehostingWaiting,
            10 => TaskStatus::Extracting,
            11 => TaskStatus::Preprocessing,
            12 => TaskStatus::PreprocessPass,
            13 => TaskStatus::Downloaded,
            14 => TaskStatus::Postprocessing,
            15 => TaskStatus::CaptchaNeeded,
            101 => TaskStatus::Error,
            102 => TaskStatus::ErrorBrokenLink,
            103 => TaskStatus::ErrorDestNoExist,
            104 => TaskStatus::ErrorDestDeny,
            105 => TaskStatus::ErrorDiskFull,
            106 => TaskStatus::ErrorQuotaReached,
            107 => TaskStatus::ErrorTimeout,
            108 => TaskStatus::ErrorExceedMaxFsSize,
            109 => TaskStatus::ErrorExceedMaxTempFsSize,
            110 => TaskStatus::ErrorExceedMaxDestFsSize,
            111 => TaskStatus::ErrorNameTooLongEncryption,
            112 => TaskStatus::ErrorNameTooLong,
            113 => TaskStatus::ErrorTorrentDuplicate,
            114 => TaskStatus::ErrorFileNoExist,
            115 => TaskStatus::ErrorRequiredPremium,
            116 => TaskStatus::ErrorNotSupportType,
            117 => TaskStatus::ErrorFtpEncryptionNotSupportType,
            118 => TaskStatus::ErrorExtractFail,
            119 => TaskStatus::ErrorExtractWrongPassword,
            120 => TaskStatus::ErrorExtractInvalidArchive,
            121 => TaskStatus::ErrorExtractQuotaReached,
            122 => TaskStatus::ErrorExtractDiskFull,
            123 => TaskStatus::ErrorTorrentInvalid,
            124 => TaskStatus::ErrorRequiredAccount,
            125 => TaskStatus::ErrorTryItLater,
            126 => TaskStatus::ErrorEncryption,
            127 => TaskStatus::ErrorMissingPython,
            128 => TaskStatus::ErrorPrivateVideo,
            129 => TaskStatus::ErrorExtractFolderNotExist,
            130 => TaskStatus::ErrorNzbMissingArticle,
            131 => TaskStatus::ErrorEd2KLinkDuplicate,
            132 => TaskStatus::ErrorDestFileDuplicate,
            133 => TaskStatus::ErrorParchiveRepairFailed,
            134 => TaskStatus::ErrorInvalidAccountPassword,
            _ => TaskStatus::Unknown(code),
        }
    }

    /// Whether the status is in its canonical form: an `Unknown` holds no
    /// code that has a name.
    pub open spec fn wf(self) -> bool {
        self matches TaskStatus::Unknown(c) ==> !(1 <= c <= 15 || 101 <= c <= 134)
    }

    /// The numeric code of a status.
    pub fn code(&self) -> (c: u8)
        ensures
            c == self.spec_code(),
    {
        match *self {
            TaskStatus::Waiting => 1,
            TaskStatus::Downloading => 2,
            TaskStatus::Paused => 3,
            TaskStatus::Finishing => 4,
            TaskStatus::Finished => 5,
            TaskStatus::HashChecking => 6,
            TaskStatus::PreSeeding => 7,
            TaskStatus::Seeding => 8,
            TaskStatus::FilehostingWaiting => 9,
            TaskStatus::Extracting => 10,
            TaskStatus::Preprocessing => 11,
            TaskStatus::PreprocessPass => 12,
            TaskStatus::Downloaded => 13,
            TaskStatus::Postprocessing => 14,
            TaskStatus::CaptchaNeeded => 15,
            TaskStatus::Error => 101,
            TaskStatus::ErrorBrokenLink => 102,
            TaskStatus::ErrorDestNoExist => 103,
            TaskStatus::ErrorDestDeny => 104,
            TaskStatus::ErrorDiskFull => 105,
            TaskStatus::ErrorQuotaReached => 106,
            TaskStatus::ErrorTimeout => 107,
            TaskStatus::ErrorExceedMaxFsSize => 108,
            TaskStatus::ErrorExceedMaxTempFsSize => 109,
            TaskStatus::ErrorExceedMaxDestFsSize => 110,
            TaskStatus::ErrorNameTooLongEncryption => 111,
            TaskStatus::ErrorNameTooLong => 112,
            TaskStatus::ErrorTorrentDuplicate => 113,
            TaskStatus::ErrorFileNoExist => 114,
            TaskStatus::ErrorRequiredPremium => 115,
            TaskStatus::ErrorNotSupportType => 116,
            TaskStatus::ErrorFtpEncryptionNotSupportType => 117,
            TaskStatus::ErrorExtractFail => 118,
            TaskStatus::ErrorExtractWrongPassword => 119,
            TaskStatus::ErrorExtractInvalidArchive => 120,
            TaskStatus::ErrorExtractQuotaReached => 121,
            TaskStatus::ErrorExtractDiskFull => 122,
            TaskStatus::ErrorTorrentInvalid => 123,
            TaskStatus::ErrorRequiredAccount => 124,
            TaskStatus::ErrorTryItLater => 125,
            TaskStatus::ErrorEncryption => 126,
            TaskStatus::ErrorMissingPython => 127,
            TaskStatus::ErrorPrivateVideo => 128,
            TaskStatus::ErrorExtractFolderNotExist => 129,
            TaskStatus::ErrorNzbMissingArticle => 130,
            TaskStatus::ErrorEd2KLinkDuplicate => 131,
            TaskStatus::ErrorDestFileDuplicate => 132,
            TaskStatus::ErrorParchiveRepairFailed => 133,
            TaskStatus::ErrorInvalidAccountPassword => 134,
            TaskStatus::Unknown(c) => c,
        }
    }

    /// The status that a numeric code stands for; `Unknown` for a code
    /// without a name.
    pub fn from_code(code: u8) -> (s: TaskStatus)
        ensures
            s == TaskStatus::spec_from_code(code),
            s.wf(),
            s.spec_code() == code,
    {
        match code {
            1 => TaskStatus::Waiting,
            2 => TaskStatus::Downloading,
            3 => TaskStatus::Paused,
            4 => TaskStatus::Finishing,
            5 => TaskStatus::Finished,
            6 => TaskStatus::HashChecking,
            7 => TaskStatus::PreSeeding,
            8 => TaskStatus::Seeding,
            9 => TaskStatus::FilehostingWaiting,
            10 => TaskStatus::Extracting,
            11 => TaskStatus::Preprocessing,
            12 => TaskStatus::PreprocessPass,
            13 => TaskStatus::Downloaded,
            14 => TaskStatus::Postprocessing,
            15 => TaskStatus::CaptchaNeeded,
            101 => TaskStatus::Error,
            102 => TaskStatus::ErrorBrokenLink,
            103 => TaskStatus::ErrorDestNoExist,
            104 => TaskStatus::ErrorDestDeny,
            105 => TaskStatus::ErrorDiskFull,
            106 => TaskStatus::ErrorQuotaReached,
            107 => TaskStatus::ErrorTimeout,
            108 => TaskStatus::ErrorExceedMaxFsSize,
            109 => TaskStatus::ErrorExceedMaxTempFsSize,
            110 => TaskStatus::ErrorExceedMaxDestFsSize,
            111 => TaskStatus::ErrorNameTooLongEncryption,
            112 => TaskStatus::ErrorNameTooLong,
            113 => TaskStatus::ErrorTorrentDuplicate,
            114 => TaskStatus::ErrorFileNoExist,
            115 => TaskStatus::ErrorRequiredPremium,
            116 => TaskStatus::ErrorNotSupportType,
            117 => TaskStatus::ErrorFtpEncryptionNotSupportType,
            118 => TaskStatus::ErrorExtractFail,
            119 => TaskStatus::ErrorExtractWrongPassword,
            120 => TaskStatus::ErrorExtractInvalidArchive,
            121 => TaskStatus::ErrorExtractQuotaReached,
            122 => TaskStatus::ErrorExtractDiskFull,
            123 => TaskStatus::ErrorTorrentInvalid,
            124 => TaskStatus::ErrorRequiredAccount,
            125 => TaskStatus::ErrorTryItLater,
            126 => TaskStatus::ErrorEncryption,
            127 => TaskStatus::ErrorMissingPython,
            128 => TaskStatus::ErrorPrivateVideo,
            129 => TaskStatus::ErrorExtractFolderNotExist,
            130 => TaskStatus::ErrorNzbMissingArticle,
            131 => TaskStatus::ErrorEd2KLinkDuplicate,
            132 => TaskStatus::ErrorDestFileDuplicate,
            133 => TaskStatus::ErrorParchiveRepairFailed,
            134 => TaskStatus::ErrorInvalidAccountPassword,
            _ => TaskStatus::Unknown(code),
        }
    }

    /// Decoding a code and encoding the status again gives the code back,
    /// and the decoded status is canonical.
    pub proof fn lemma_code_round_trip(code: u8)
        ensures
            TaskStatus::spec_from_code(code).spec_code() == code,
            TaskStatus::spec_from_code(code).wf(),
    {
    }

    /// Encoding a canonical status and decoding its code gives the status
    /// back.
    pub proof fn lemma_status_round_trip(status: TaskStatus)
        requires
            status.wf(),
        ensures
            TaskStatus::spec_from_code(status.spec_code()) == status,
    {
    }
}

/// The error object of a failed reply.
#[derive(Debug)]
pub struct SynoError {
    pub code: i32,
    pub errors: Option<TaskOperation>,
}

/// What completing a task reports.
#[derive(Debug)]
pub struct TaskCompleted {
    pub task_id: String,
}

/// What creating a task reports.
#[derive(Debug)]
pub struct TaskCreated {
    pub list_id: Vec<String>,
    pub task_id: Vec<String>,
}

/// The result of an operation on several tasks: the tasks it failed on.
/// An empty list means that it succeeded on all.
#[derive(Debug)]
pub struct TaskOperation {
    pub failed_task: Vec<FailedTask>,
}

/// One task that an operation failed on, with the upstream error code.
#[derive(Debug)]
pub struct FailedTask {
    pub error: i32,
    pub id: String,
}

} // verus!
