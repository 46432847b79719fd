//! The ways in which resolving or moving the storage locations can fail.

use vstd::prelude::*;
use vstd::string::*;

verus! {

/// Why a storage operation was refused or could not complete.
#[derive(Debug, Clone, PartialEq, Eq)]
pub enum StorageError {
    /// The user's home directory is unknown.
    HomeDirUnavailable,
    /// Neither the local application data directory nor the home directory is known.
    LocalAppDataDirUnavailable,
    /// The user's configuration directory is unknown.
    ConfigDirUnavailable,
    /// The `APPDATA` environment variable is not set.
    AppDataVarUnavailable,
    /// The bootstrap file is only kept on Windows.
    BootstrapUnsupported,
    /// The requested target directory is empty or white space only.
    EmptyTargetRoot,
    /// The requested target directory is not an absolute path.
    RelativeTargetRoot,
    /// The requested target directory lies inside the current application data directory.
    TargetInsideAppData,
    /// The requested target directory lies inside the current local application data directory.
    TargetInsideLocalAppData,
    /// A path that must be a directory is something else.
    NotADirectory { label: String, path: String },
    /// A directory that must be empty already holds entries.
    DirectoryNotEmpty { label: String, path: String },
    /// A directory could not be listed.
    ReadDirFailed { label: String, detail: String },
    /// Storage migration is only offered on Windows.
    MigrationUnsupported,
    /// A migration request selected nothing to move.
    NoMigrationScope,
    /// Every numbered name for an instance directory is already taken.
    TargetNamesExhausted,
}

/// The user-facing text of an error.
pub open spec fn error_message(e: StorageError) -> Seq<char> {
    match e {
        StorageError::HomeDirUnavailable => "无法获取用户主目录"@,
        StorageError::LocalAppDataDirUnavailable => "无法获取本地应用数据目录"@,
        StorageError::ConfigDirUnavailable => "无法获取配置目录"@,
        StorageError::AppDataVarUnavailable => "无法获取 APPDATA 环境变量"@,
        StorageError::BootstrapUnsupported => "仅 Windows 支持存储路径引导配置"@,
        StorageError::EmptyTargetRoot => "目标目录不能为空"@,
        StorageError::RelativeTargetRoot => "目标目录必须是绝对路径"@,
        StorageError::TargetInsideAppData => "目标目录不能位于当前应用数据目录内部"@,
        StorageError::TargetInsideLocalAppData => "目标目录不能位于当前本地应用数据目录内部"@,
        StorageError::NotADirectory { label, path } => label@ + " 不是目录: "@ + path@,
        StorageError::DirectoryNotEmpty { label, path } => label@ + " 已存在且不为空: "@ + path@,
        StorageError::ReadDirFailed { label, detail } => "读取 "@ + label@ + " 失败: "@ + detail@,
        StorageError::MigrationUnsupported => "当前平台暂不支持此迁移功能"@,
        StorageError::NoMigrationScope => "至少需要选择一项迁移范围"@,
        StorageError::TargetNamesExhausted => "目标实例目录名称已用尽"@,
    }
}

impl StorageError {
    /// The user-facing text of this error.
    pub fn message(&self) -> (r: String)
        ensures
            r@ == error_message(*self),
    {
        match self {
            StorageError::HomeDirUnavailable => String::from_str("无法获取用户主目录"),
            StorageError::LocalAppDataDirUnavailable => String::from_str("无法获取本地应用数据目录"),
            StorageError::ConfigDirUnavailable => String::from_str("无法获取配置目录"),
            StorageError::AppDataVarUnavailable => String::from_str("无法获取 APPDATA 环境变量"),
            StorageError::BootstrapUnsupported => String::from_str("仅 Windows 支持存储路径引导配置"),
            StorageError::EmptyTargetRoot => String::from_str("目标目录不能为空"),
            StorageError::RelativeTargetRoot => String::from_str("目标目录必须是绝对路径"),
            StorageError::TargetInsideAppData => String::from_str("目标目录不能位于当前应用数据目录内部"),
            StorageError::TargetInsideLocalAppData => String::from_str("目标目录不能位于当前本地应用数据目录内部"),
            StorageError::NotADirectory { label, path } => {
                let mut r = String::from_str(label.as_str());
                r.append(" 不是目录: ");
                r.append(path.as_str());
                r
            },
            StorageError::DirectoryNotEmpty { label, path } => {
                let mut r = String::from_str(label.as_str());
                r.append(" 已存在且不为空: ");
                r.append(path.as_str());
                r
            },
            StorageError::ReadDirFailed { label, detail } => {
                let mut r = String::from_str("读取 ");
                r.append(label.as_str());
                r.append(" 失败: ");
                r.append(detail.as_str());
                r
            },
            StorageError::MigrationUnsupported => String::from_str("当前平台暂不支持此迁移功能"),
            StorageError::NoMigrationScope => String::from_str("至少需要选择一项迁移范围"),
            StorageError::TargetNamesExhausted => String::from_str("目标实例目录名称已用尽"),
        }
    }
}

} // verus!
