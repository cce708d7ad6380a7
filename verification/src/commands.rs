//! The command surface: what a caller in front of the library is told.
//!
//! Every command answers with a success flag, a payload and, on failure,
//! a message that names the kind of the failure and nothing of its
//! detail: paths and system texts stay inside.

use crate::guard::{
    generate_random_machine_guid, restore_backup_by_id, restore_start, write_machine_guid,
    write_start, RestoreInfo, Step, WriteResult,
};
use crate::machine_id::{
    is_canonical_guid, records_of, BackupError, BackupErrorView, MachineId, MachineIdBackup,
};
use crate::platform::permissions::{PermissionCheckResult, RestartResult, RestartState};
use crate::text::{chars_of, contains, contains_word, join, string_of_chars};
use vstd::prelude::*;

verus! {

/// The longest description that a command hands on, in characters.
pub const MAX_DESCRIPTION_LENGTH: usize = 200;

/// The length of a canonical identifier, in bytes.
pub const GUID_LENGTH: usize = 36;

/// What the caller is told of an error: its kind, in words that hold
/// nothing of the error's own text.
pub open spec fn sanitized(error: BackupErrorView) -> Seq<char> {
    match error {
        BackupErrorView::InsufficientPermissions => "权限不足，需要管理员权限才能执行此操作"@,
        BackupErrorView::InvalidGuidFormat(_) => "GUID 格式无效，请检查输入"@,
        BackupErrorView::NotFound => "未找到 MachineGuid，系统可能尚未初始化"@,
        BackupErrorView::BackupNotFound(_) => "指定的备份不存在"@,
        BackupErrorView::RegistryWriteError(_) => "注册表写入失败，请检查权限或系统状态"@,
        BackupErrorView::RegistryError(_) => "注册表读取失败，请检查系统状态"@,
        BackupErrorView::StorageError(_) => "存储操作失败，请检查磁盘空间"@,
        BackupErrorView::ParseError(_) => "数据解析失败"@,
        BackupErrorView::DuplicateBackup(_) => "该机器码已存在备份"@,
        BackupErrorView::UnsupportedPlatform => "当前操作系统不支持此功能"@,
    }
}

/// Two errors are of one kind when they differ at most in their texts.
pub open spec fn same_kind(a: BackupErrorView, b: BackupErrorView) -> bool {
    match (a, b) {
        (BackupErrorView::RegistryError(_), BackupErrorView::RegistryError(_)) => true,
        (BackupErrorView::RegistryWriteError(_), BackupErrorView::RegistryWriteError(_)) => true,
        (BackupErrorView::NotFound, BackupErrorView::NotFound) => true,
        (BackupErrorView::ParseError(_), BackupErrorView::ParseError(_)) => true,
        (BackupErrorView::StorageError(_), BackupErrorView::StorageError(_)) => true,
        (BackupErrorView::BackupNotFound(_), BackupErrorView::BackupNotFound(_)) => true,
        (BackupErrorView::InvalidGuidFormat(_), BackupErrorView::InvalidGuidFormat(_)) => true,
        (BackupErrorView::InsufficientPermissions, BackupErrorView::InsufficientPermissions) => {
            true
        },
        (BackupErrorView::DuplicateBackup(_), BackupErrorView::DuplicateBackup(_)) => true,
        (BackupErrorView::UnsupportedPlatform, BackupErrorView::UnsupportedPlatform) => true,
        _ => false,
    }
}

/// No detail leaks. What the caller is told depends on the kind of the
/// error alone: two errors of one kind are told in the same words,
/// whatever texts they carry.
pub proof fn law_sanitized_hides_detail(a: BackupErrorView, b: BackupErrorView)
    requires
        same_kind(a, b),
    ensures
        sanitized(a) == sanitized(b),
{
}

/// What the caller is told of `error`.
pub fn sanitize_error_for_user(error: &BackupError) -> (words: String)
    ensures
        words@ == sanitized(error@),
{
    match error {
        BackupError::InsufficientPermissions => "权限不足，需要管理员权限才能执行此操作".to_owned(),
        BackupError::InvalidGuidFormat(_) => "GUID 格式无效，请检查输入".to_owned(),
        BackupError::NotFound => "未找到 MachineGuid，系统可能尚未初始化".to_owned(),
        BackupError::BackupNotFound(_) => "指定的备份不存在".to_owned(),
        BackupError::RegistryWriteError(_) => "注册表写入失败，请检查权限或系统状态".to_owned(),
        BackupError::RegistryError(_) => "注册表读取失败，请检查系统状态".to_owned(),
        BackupError::StorageError(_) => "存储操作失败，请检查磁盘空间".to_owned(),
        BackupError::ParseError(_) => "数据解析失败".to_owned(),
        BackupError::DuplicateBackup(_) => "该机器码已存在备份".to_owned(),
        BackupError::UnsupportedPlatform => "当前操作系统不支持此功能".to_owned(),
    }
}

/// At most the first `MAX_DESCRIPTION_LENGTH` characters of `text`.
pub open spec fn limited(text: Seq<char>) -> Seq<char> {
    if text.len() > MAX_DESCRIPTION_LENGTH {
        text.subrange(0, MAX_DESCRIPTION_LENGTH as int)
    } else {
        text
    }
}

/// The description that a command hands on: the caller's, cut to at most
/// `MAX_DESCRIPTION_LENGTH` characters.
pub fn limit_description(description: Option<String>) -> (kept: Option<String>)
    ensures
        kept.deep_view() == (match description {
            Some(text) => Some(limited(text@)),
            None => None,
        }),
{
    match description {
        None => None,
        Some(text) => {
            let chars = chars_of(text.as_str());
            if chars.len() > MAX_DESCRIPTION_LENGTH {
                Some(string_of_chars(&chars, 0, MAX_DESCRIPTION_LENGTH))
            } else {
                Some(text)
            }
        },
    }
}

/// The answer to "read the identifier".
#[derive(Debug)]
pub struct MachineIdResponse {
    pub success: bool,
    pub guid: String,
    pub source: String,
    pub error: Option<String>,
}

/// Answers "read the identifier" with what the read came to.
pub fn read_machine_id(read: Result<MachineId, BackupError>) -> (response: MachineIdResponse)
    ensures
        match read {
            Ok(machine_id) => {
                &&& response.success
                &&& response.guid@ == machine_id.guid@
                &&& response.source@ == machine_id.source@
                &&& response.error is None
            },
            Err(e) => {
                &&& !response.success
                &&& response.guid@ == Seq::<char>::empty()
                &&& response.source@ == Seq::<char>::empty()
                &&& response.error.deep_view() == Some(sanitized(e@))
            },
        },
{
    match read {
        Ok(machine_id) => MachineIdResponse {
            success: true,
            guid: machine_id.guid,
            source: machine_id.source,
            error: None,
        },
        Err(e) => MachineIdResponse {
            success: false,
            guid: String::new(),
            source: String::new(),
            error: Some(sanitize_error_for_user(&e)),
        },
    }
}

/// The answer to a command on the backup history that yields at most one
/// record.
#[derive(Debug)]
pub struct BackupResponse {
    pub success: bool,
    pub backup: Option<MachineIdBackup>,
    /// Whether a backup was left out because the identifier had one.
    pub skipped: bool,
    pub error: Option<String>,
}

/// Answers "back up the identifier": on success with the new record, or
/// with the note that none was needed.
pub fn backup_machine_guid(result: Result<Option<MachineIdBackup>, BackupError>) -> (response:
    BackupResponse)
    ensures
        match result {
            Ok(made) => {
                &&& response.success
                &&& response.backup.deep_view() == made.deep_view()
                &&& response.skipped == (made is None)
                &&& response.error is None
            },
            Err(e) => {
                &&& !response.success
                &&& response.backup is None
                &&& !response.skipped
                &&& response.error.deep_view() == Some(sanitized(e@))
            },
        },
{
    match result {
        Ok(backup) => {
            let skipped = backup.is_none();
            BackupResponse { success: true, backup, skipped, error: None }
        },
        Err(e) => BackupResponse {
            success: false,
            backup: None,
            skipped: false,
            error: Some(sanitize_error_for_user(&e)),
        },
    }
}

fn plain_response(result: Result<(), BackupError>) -> (response: BackupResponse)
    ensures
        response.backup is None,
        !response.skipped,
        match result {
            Ok(_) => response.success && response.error is None,
            Err(e) => !response.success && response.error.deep_view() == Some(sanitized(e@)),
        },
{
    match result {
        Ok(_) => BackupResponse { success: true, backup: None, skipped: false, error: None },
        Err(e) => BackupResponse {
            success: false,
            backup: None,
            skipped: false,
            error: Some(sanitize_error_for_user(&e)),
        },
    }
}

/// Answers "delete the record with this id".
pub fn delete_backup_by_id(result: Result<(), BackupError>) -> (response: BackupResponse)
    ensures
        response.backup is None,
        !response.skipped,
        match result {
            Ok(_) => response.success && response.error is None,
            Err(e) => !response.success && response.error.deep_view() == Some(sanitized(e@)),
        },
{
    plain_response(result)
}

/// Answers "empty the history".
pub fn clear_all_backups(result: Result<(), BackupError>) -> (response: BackupResponse)
    ensures
        response.backup is None,
        !response.skipped,
        match result {
            Ok(_) => response.success && response.error is None,
            Err(e) => !response.success && response.error.deep_view() == Some(sanitized(e@)),
        },
{
    plain_response(result)
}

/// The answer to "list the history".
#[derive(Debug)]
pub struct BackupListResponse {
    pub success: bool,
    pub backups: Vec<MachineIdBackup>,
    pub count: usize,
    pub error: Option<String>,
}

/// Answers "list the history" with the records, newest first, and their
/// number.
pub fn list_backups(result: Result<Vec<MachineIdBackup>, BackupError>) -> (response:
    BackupListResponse)
    ensures
        match result {
            Ok(all) => {
                &&& response.success
                &&& records_of(response.backups@) == records_of(all@)
                &&& response.count == all@.len()
                &&& response.error is None
            },
            Err(e) => {
                &&& !response.success
                &&& response.backups@.len() == 0
                &&& response.count == 0
                &&& response.error.deep_view() == Some(sanitized(e@))
            },
        },
{
    match result {
        Ok(backups) => {
            let count = backups.len();
            BackupListResponse { success: true, backups, count, error: None }
        },
        Err(e) => BackupListResponse {
            success: false,
            backups: Vec::new(),
            count: 0,
            error: Some(sanitize_error_for_user(&e)),
        },
    }
}

/// The answer to "count the history".
#[derive(Debug)]
pub struct BackupCountResponse {
    pub success: bool,
    pub count: usize,
    pub error: Option<String>,
}

/// Answers "count the history".
pub fn get_backup_count(result: Result<usize, BackupError>) -> (response: BackupCountResponse)
    ensures
        match result {
            Ok(count) => response.success && response.count == count && response.error is None,
            Err(e) => {
                &&& !response.success
                &&& response.count == 0
                &&& response.error.deep_view() == Some(sanitized(e@))
            },
        },
{
    match result {
        Ok(count) => BackupCountResponse { success: true, count, error: None },
        Err(e) => BackupCountResponse {
            success: false,
            count: 0,
            error: Some(sanitize_error_for_user(&e)),
        },
    }
}

/// The answer to "write this identifier".
#[derive(Debug)]
pub struct WriteGuidResponse {
    pub success: bool,
    pub previous_guid: String,
    pub new_guid: String,
    pub pre_backup: Option<MachineIdBackup>,
    pub post_backup: Option<MachineIdBackup>,
    pub message: String,
    pub error: Option<String>,
}

impl WriteGuidResponse {
    /// The response says that the write failed, in the given words, and
    /// holds nothing else.
    pub open spec fn fails_with(&self, words: Seq<char>) -> bool {
        &&& !self.success
        &&& self.previous_guid@ == Seq::<char>::empty()
        &&& self.new_guid@ == Seq::<char>::empty()
        &&& self.pre_backup is None
        &&& self.post_backup is None
        &&& self.message@ == Seq::<char>::empty()
        &&& self.error.deep_view() == Some(words)
    }

    /// The response reports the write `done`, with `praise` in front of
    /// the new identifier as its message.
    pub open spec fn reports(&self, done: WriteResult, praise: Seq<char>) -> bool {
        &&& self.success
        &&& self.previous_guid@ == done.previous_guid@
        &&& self.new_guid@ == done.new_guid@
        &&& self.pre_backup.deep_view() == done.pre_backup.deep_view()
        &&& self.post_backup.deep_view() == done.post_backup.deep_view()
        &&& self.message@ == praise + done.new_guid@
        &&& self.error is None
    }

    fn failure(words: String) -> (response: Self)
        ensures
            response.fails_with(words@),
    {
        WriteGuidResponse {
            success: false,
            previous_guid: String::new(),
            new_guid: String::new(),
            pre_backup: None,
            post_backup: None,
            message: String::new(),
            error: Some(words),
        }
    }

    fn report(done: WriteResult, praise: &str) -> (response: Self)
        ensures
            response.reports(done, praise@),
    {
        let message = join(praise, done.new_guid.as_str());
        WriteGuidResponse {
            success: true,
            previous_guid: done.previous_guid,
            new_guid: done.new_guid,
            pre_backup: done.pre_backup,
            post_backup: done.post_backup,
            message,
            error: None,
        }
    }
}

/// The number of bytes that `text` takes in UTF-8.
pub open spec fn byte_len(text: Seq<char>) -> nat {
    vstd::utf8::encode_utf8(text).len()
}

/// Opens "write this identifier". A text that is not `GUID_LENGTH` bytes
/// long is refused, then a caller without permission; neither costs any
/// outside work. Otherwise the guarded write of `new_guid` starts, with
/// the description cut to its limit.
pub fn write_machine_guid_command(
    new_guid: &str,
    description: Option<String>,
    permission: &PermissionCheckResult,
) -> (opened: Result<Step, WriteGuidResponse>)
    ensures
        match opened {
            Err(refused) => if byte_len(new_guid@) != GUID_LENGTH {
                refused.fails_with("GUID 长度必须为 36 个字符"@)
            } else {
                !permission.has_permission && refused.fails_with("权限不足，需要管理员权限"@)
            },
            Ok(first) => {
                &&& byte_len(new_guid@) == GUID_LENGTH
                &&& permission.has_permission
                &&& first@ == write_start(
                    new_guid@,
                    match description {
                        Some(text) => Some(limited(text@)),
                        None => None,
                    },
                )
            },
        },
{
    if new_guid.as_bytes().len() != GUID_LENGTH {
        return Err(WriteGuidResponse::failure("GUID 长度必须为 36 个字符".to_owned()));
    }
    let description = limit_description(description);
    if !permission.has_permission {
        return Err(WriteGuidResponse::failure("权限不足，需要管理员权限".to_owned()));
    }
    Ok(write_machine_guid(new_guid, description))
}

/// Answers "write this identifier" with what the guarded write came to.
pub fn write_guid_response(result: Result<WriteResult, BackupError>) -> (response:
    WriteGuidResponse)
    ensures
        match result {
            Ok(done) => response.reports(done, "成功将 MachineGuid 替换为: "@),
            Err(e) => response.fails_with(sanitized(e@)),
        },
{
    match result {
        Ok(done) => WriteGuidResponse::report(done, "成功将 MachineGuid 替换为: "),
        Err(e) => WriteGuidResponse::failure(sanitize_error_for_user(&e)),
    }
}

/// The answer to "write a random identifier".
#[derive(Debug)]
pub struct GenerateRandomGuidResponse {
    pub success: bool,
    pub previous_guid: String,
    pub new_guid: String,
    pub pre_backup: Option<MachineIdBackup>,
    pub post_backup: Option<MachineIdBackup>,
    pub message: String,
    pub error: Option<String>,
}

impl GenerateRandomGuidResponse {
    /// The response says that the write failed, in the given words, and
    /// holds nothing else.
    pub open spec fn fails_with(&self, words: Seq<char>) -> bool {
        &&& !self.success
        &&& self.previous_guid@ == Seq::<char>::empty()
        &&& self.new_guid@ == Seq::<char>::empty()
        &&& self.pre_backup is None
        &&& self.post_backup is None
        &&& self.message@ == Seq::<char>::empty()
        &&& self.error.deep_view() == Some(words)
    }

    /// The response reports the write `done`, with `praise` in front of
    /// the new identifier as its message.
    pub open spec fn reports(&self, done: WriteResult, praise: Seq<char>) -> bool {
        &&& self.success
        &&& self.previous_guid@ == done.previous_guid@
        &&& self.new_guid@ == done.new_guid@
        &&& self.pre_backup.deep_view() == done.pre_backup.deep_view()
        &&& self.post_backup.deep_view() == done.post_backup.deep_view()
        &&& self.message@ == praise + done.new_guid@
        &&& self.error is None
    }

    fn failure(words: String) -> (response: Self)
        ensures
            response.fails_with(words@),
    {
        GenerateRandomGuidResponse {
            success: false,
            previous_guid: String::new(),
            new_guid: String::new(),
            pre_backup: None,
            post_backup: None,
            message: String::new(),
            error: Some(words),
        }
    }
}

/// Opens "write a random identifier". A caller without permission is
/// refused before any outside work. Otherwise the guarded write of a
/// fresh canonical identifier starts, with the description cut to its
/// limit.
pub fn generate_random_guid_command(
    description: Option<String>,
    permission: &PermissionCheckResult,
) -> (opened: Result<Step, GenerateRandomGuidResponse>)
    ensures
        match opened {
            Err(refused) => !permission.has_permission && refused.fails_with(
                "权限不足，需要管理员权限"@,
            ),
            Ok(first) => {
                &&& permission.has_permission
                &&& exists|new_guid: Seq<char>|
                    is_canonical_guid(new_guid) && first@ == write_start(
                        new_guid,
                        match description {
                            Some(text) => Some(limited(text@)),
                            None => None,
                        },
                    )
            },
        },
{
    let description = limit_description(description);
    if !permission.has_permission {
        return Err(GenerateRandomGuidResponse::failure("权限不足，需要管理员权限".to_owned()));
    }
    Ok(generate_random_machine_guid(description))
}

/// Answers "write a random identifier" with what the guarded write came
/// to.
pub fn generate_guid_response(result: Result<WriteResult, BackupError>) -> (response:
    GenerateRandomGuidResponse)
    ensures
        match result {
            Ok(done) => response.reports(done, "成功生成并替换 MachineGuid: "@),
            Err(e) => response.fails_with(sanitized(e@)),
        },
{
    match result {
        Ok(done) => {
            let message = join("成功生成并替换 MachineGuid: ", done.new_guid.as_str());
            GenerateRandomGuidResponse {
                success: true,
                previous_guid: done.previous_guid,
                new_guid: done.new_guid,
                pre_backup: done.pre_backup,
                post_backup: done.post_backup,
                message,
                error: None,
            }
        },
        Err(e) => GenerateRandomGuidResponse::failure(sanitize_error_for_user(&e)),
    }
}

/// The answer to "restore the record with this id".
#[derive(Debug)]
pub struct RestoreBackupResponse {
    pub success: bool,
    pub previous_guid: String,
    pub restored_guid: String,
    pub pre_backup: Option<MachineIdBackup>,
    pub restored_from: Option<MachineIdBackup>,
    pub message: String,
    pub error: Option<String>,
}

impl RestoreBackupResponse {
    /// The response says that the restore failed, in the given words, and
    /// holds nothing else.
    pub open spec fn fails_with(&self, words: Seq<char>) -> bool {
        &&& !self.success
        &&& self.previous_guid@ == Seq::<char>::empty()
        &&& self.restored_guid@ == Seq::<char>::empty()
        &&& self.pre_backup is None
        &&& self.restored_from is None
        &&& self.message@ == Seq::<char>::empty()
        &&& self.error.deep_view() == Some(words)
    }

    fn failure(words: String) -> (response: Self)
        ensures
            response.fails_with(words@),
    {
        RestoreBackupResponse {
            success: false,
            previous_guid: String::new(),
            restored_guid: String::new(),
            pre_backup: None,
            restored_from: None,
            message: String::new(),
            error: Some(words),
        }
    }
}

/// Opens "restore the record with this id". A caller without permission
/// is refused before any outside work; otherwise the restore starts.
pub fn restore_backup_by_id_command(id: &str, permission: &PermissionCheckResult) -> (opened:
    Result<Step, RestoreBackupResponse>)
    ensures
        match opened {
            Err(refused) => !permission.has_permission && refused.fails_with(
                "权限不足，需要管理员权限"@,
            ),
            Ok(first) => permission.has_permission && first@ == restore_start(id@),
        },
{
    if !permission.has_permission {
        return Err(RestoreBackupResponse::failure("权限不足，需要管理员权限".to_owned()));
    }
    Ok(restore_backup_by_id(id))
}

/// Answers "restore the record with this id" with what the restore came
/// to.
pub fn restore_response(result: Result<RestoreInfo, BackupError>) -> (response:
    RestoreBackupResponse)
    ensures
        match result {
            Ok(done) => {
                &&& response.success
                &&& response.previous_guid@ == done.previous_guid@
                &&& response.restored_guid@ == done.restored_guid@
                &&& response.pre_backup.deep_view() == done.pre_backup.deep_view()
                &&& response.restored_from.deep_view() == Some(done.restored_from@)
                &&& response.message@ == "恢复成功: "@ + done.restored_guid@
                &&& response.error is None
            },
            Err(e) => response.fails_with(sanitized(e@)),
        },
{
    match result {
        Ok(done) => {
            let message = join("恢复成功: ", done.restored_guid.as_str());
            RestoreBackupResponse {
                success: true,
                previous_guid: done.previous_guid,
                restored_guid: done.restored_guid,
                pre_backup: done.pre_backup,
                restored_from: Some(done.restored_from),
                message,
                error: None,
            }
        },
        Err(e) => RestoreBackupResponse::failure(sanitize_error_for_user(&e)),
    }
}

/// The greeting of the program.
pub fn greet(name: &str) -> (words: String)
    ensures
        words@ == "Hello, "@ + name@ + "! This is MachineID-Manage v2.0."@,
{
    let mut words = join("Hello, ", name);
    words.append("! This is MachineID-Manage v2.0.");
    words
}

/// The answer to "may I write the identifier?".
#[derive(Debug)]
pub struct PermissionCheckResponse {
    /// Whether the check could be made.
    pub success: bool,
    pub has_permission: bool,
    pub method: String,
    pub error_type: Option<String>,
    pub error_message: Option<String>,
    pub debug_info: Option<String>,
}

/// Answers "may I write the identifier?" with the check as it was made.
pub fn check_permission_command(result: PermissionCheckResult) -> (response:
    PermissionCheckResponse)
    ensures
        response.success == result.check_success,
        response.has_permission == result.has_permission,
        response.method@ == result.method@,
        response.error_type.deep_view() == result.error_type.deep_view(),
        response.error_message.deep_view() == result.error_message.deep_view(),
        response.debug_info.deep_view() == result.debug_info.deep_view(),
{
    PermissionCheckResponse {
        success: result.check_success,
        has_permission: result.has_permission,
        method: result.method,
        error_type: result.error_type,
        error_message: result.error_message,
        debug_info: result.debug_info,
    }
}

/// Answers "can the identifier's place be written?". A failure whose
/// message speaks of missing permission counts as missing permission;
/// any other failure leaves the permission in no doubt.
pub fn test_write_access_command(access: Result<(), BackupError>) -> (response:
    PermissionCheckResponse)
    ensures
        response.method@ == "registry_write"@,
        response.debug_info is None,
        match access {
            Ok(_) => {
                &&& response.success
                &&& response.has_permission
                &&& response.error_type is None
                &&& response.error_message is None
            },
            Err(e) => {
                &&& !response.success
                &&& response.has_permission == !contains_word(e@.message(), "权限不足"@)
                &&& response.error_type.deep_view() == Some("registry_error"@)
                &&& response.error_message.deep_view() == Some(e@.message())
            },
        },
{
    match access {
        Ok(_) => PermissionCheckResponse {
            success: true,
            has_permission: true,
            method: "registry_write".to_owned(),
            error_type: None,
            error_message: None,
            debug_info: None,
        },
        Err(e) => {
            let words = e.to_string();
            let mentions = contains(&chars_of(words.as_str()), &chars_of("权限不足"));
            PermissionCheckResponse {
                success: false,
                has_permission: !mentions,
                method: "registry_write".to_owned(),
                error_type: Some("registry_error".to_owned()),
                error_message: Some(words),
                debug_info: None,
            }
        },
    }
}

/// The answer to "restart with higher privilege".
#[derive(Debug)]
pub struct RestartAsAdminResponse {
    pub success: bool,
    pub message: String,
    pub platform: String,
    pub error: Option<String>,
}

/// Answers "restart with higher privilege" with how the request ended on
/// the system that the host names. A refusal is told in the error's own
/// words.
pub fn restart_as_admin_command(result: Result<RestartResult, BackupError>, system: &str) -> (
    response: RestartAsAdminResponse)
    ensures
        match result {
            Ok(restart) => {
                &&& response.success == restart.success
                &&& response.message@ == restart.message@
                &&& response.platform@ == restart.platform@
                &&& response.error is None
            },
            Err(e) => {
                &&& !response.success
                &&& response.message@ == "重启失败"@
                &&& response.platform@ == system@
                &&& response.error.deep_view() == Some(e@.message())
            },
        },
{
    match result {
        Ok(restart) => RestartAsAdminResponse {
            success: restart.success,
            message: restart.message,
            platform: restart.platform,
            error: None,
        },
        Err(e) => RestartAsAdminResponse {
            success: false,
            message: "重启失败".to_owned(),
            platform: system.to_owned(),
            error: Some(e.to_string()),
        },
    }
}

/// The answer to "was this process restarted?".
#[derive(Debug)]
pub struct RestartStateResponse {
    pub was_restarted: bool,
    pub timestamp: Option<u64>,
    pub platform: Option<String>,
}

/// Answers "was this process restarted?" from the marker that counted, if
/// one did.
pub fn check_restart_state_command(state: Option<RestartState>) -> (response: RestartStateResponse)
    ensures
        match state {
            Some(marker) => {
                &&& response.was_restarted == marker.was_restarted
                &&& response.timestamp == Some(marker.timestamp)
                &&& response.platform.deep_view() == Some(marker.platform@)
            },
            None => {
                &&& !response.was_restarted
                &&& response.timestamp is None
                &&& response.platform is None
            },
        },
{
    match state {
        Some(marker) => RestartStateResponse {
            was_restarted: marker.was_restarted,
            timestamp: Some(marker.timestamp),
            platform: Some(marker.platform),
        },
        None => RestartStateResponse { was_restarted: false, timestamp: None, platform: None },
    }
}

} // verus!
